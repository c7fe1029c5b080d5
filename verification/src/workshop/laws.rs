//! What holds of every run of a Workshop task.

use vstd::prelude::*;

use crate::workshop::run::{ActionModel, ItemStage, StateModel, StepModel, TaskEvent};
use crate::workshop::steps;
use crate::workshop::tasks::WorkshopTask;

verus! {

/// Whether an event is an answer to an action.
pub open spec fn answers(action: ActionModel, event: TaskEvent) -> bool {
    match action {
        ActionModel::FetchDetails { .. } => event is Details,
        ActionModel::LoadStore => event is Store,
        ActionModel::FreezeAll { .. } => event is Frozen,
        ActionModel::Checksum => event is Checksum,
        ActionModel::WriteBundle { .. } => event is Written,
        ActionModel::ReadBundle { .. } => event is Read,
        ActionModel::Finish { .. } => false,
        _ => event is Done,
    }
}

/// Whether a step waits for the answers to its action and for nothing else.
pub open spec fn well_matched(step: StepModel) -> bool {
    forall|event: TaskEvent| #[trigger] steps::awaits(step.state, event) == answers(
        step.action,
        event,
    )
}

/// Whatever answers the action of a step is what the task waits for: at the
/// beginning, and after every answer.
pub proof fn law_task_waits_for_the_answer(
    task: WorkshopTask,
    app_id: u32,
    state: StateModel,
    event: TaskEvent,
)
    requires
        steps::awaits(state, event),
    ensures
        well_matched(steps::begun(task, app_id)),
        well_matched(steps::advanced(state, event)),
{
    lemma_begun_matched(task, app_id);
    match state {
        StateModel::ImportDetails { .. } => {},
        StateModel::ImportCheck { .. } => {},
        StateModel::ImportItem { stage, .. } => match stage {
            ItemStage::Install => {},
            ItemStage::Upsert => {},
            ItemStage::LoadOrder => {},
            ItemStage::Freeze => {},
        },
        StateModel::RefreshStore { .. } => {},
        StateModel::RefreshDetails { .. } => {},
        StateModel::RefreshItem { .. } => {},
        StateModel::FreezeOne { .. } => {},
        StateModel::FreezeMany => {},
        StateModel::Unsubscribe { .. } => {},
        StateModel::Remove { .. } => {},
        StateModel::Checksum { .. } => {},
        StateModel::Export => {},
        StateModel::ReadBundle { .. } => {},
        StateModel::BundleInstall { .. } => {},
        StateModel::Finished => {},
    }
}

proof fn lemma_begun_matched(task: WorkshopTask, app_id: u32)
    ensures
        well_matched(steps::begun(task, app_id)),
{
    match task {
        WorkshopTask::Import { .. } => {},
        WorkshopTask::RefreshMetadata => {},
        WorkshopTask::Freeze { .. } => {},
        WorkshopTask::FreezeAll { .. } => {},
        WorkshopTask::Remove { .. } => {},
        WorkshopTask::ExportBundle { .. } => {},
        WorkshopTask::ImportBundle { .. } => {},
    }
}

/// How far a stage is in the treatment of an item.
pub open spec fn stage_index(stage: ItemStage) -> int {
    match stage {
        ItemStage::Install => 0,
        ItemStage::Upsert => 1,
        ItemStage::LoadOrder => 2,
        ItemStage::Freeze => 3,
    }
}

/// Whether the length of the rest of a task depends on the answer it waits for.
pub open spec fn open_ended(state: StateModel) -> bool {
    state is RefreshStore || state is ReadBundle
}

/// How many answers a task waits for at most, once that is settled.
pub open spec fn answers_left(state: StateModel) -> int {
    match state {
        StateModel::ImportDetails { items, .. } => 4 * (items.len() as int) + 2,
        StateModel::ImportCheck { items, .. } => 4 * (items.len() as int) + 1,
        StateModel::ImportItem { items, at, stage, .. } => 4 * (items.len() - at) - stage_index(
            stage,
        ),
        StateModel::RefreshDetails { entries } => (entries.len() as int) + 1,
        StateModel::RefreshItem { entries, at } => entries.len() - at,
        StateModel::Unsubscribe { .. } => 2,
        StateModel::Checksum { .. } => 2,
        StateModel::BundleInstall { queue, at, .. } => queue.len() - at,
        StateModel::Finished => 0,
        _ => 1,
    }
}

/// Every answer brings the end of a task nearer, so every task ends.
pub proof fn law_every_task_ends(state: StateModel, event: TaskEvent)
    requires
        steps::awaits(state, event),
    ensures
        ({
            let after = steps::advanced(state, event).state;
            &&& !open_ended(after)
            &&& 0 <= answers_left(after)
            &&& answers_left(state) > 0
            &&& !open_ended(state) ==> answers_left(after) < answers_left(state)
        }),
{
    match state {
        StateModel::ImportDetails { .. } => {},
        StateModel::ImportCheck { .. } => {},
        StateModel::ImportItem { stage, .. } => match stage {
            ItemStage::Install => {},
            ItemStage::Upsert => {},
            ItemStage::LoadOrder => {},
            ItemStage::Freeze => {},
        },
        StateModel::RefreshStore { .. } => {},
        StateModel::RefreshDetails { .. } => {},
        StateModel::RefreshItem { .. } => {},
        StateModel::FreezeOne { .. } => {},
        StateModel::FreezeMany => {},
        StateModel::Unsubscribe { .. } => {},
        StateModel::Remove { .. } => {},
        StateModel::Checksum { .. } => {},
        StateModel::Export => {},
        StateModel::ReadBundle { .. } => {},
        StateModel::BundleInstall { .. } => {},
        StateModel::Finished => {},
    }
}

/// A task that is over says how it ended, and no other step does.
pub proof fn law_only_the_end_reports(
    task: WorkshopTask,
    app_id: u32,
    state: StateModel,
    event: TaskEvent,
)
    requires
        steps::awaits(state, event),
    ensures
        steps::begun(task, app_id).action is Finish <==> steps::begun(task, app_id).state
            is Finished,
        steps::advanced(state, event).action is Finish <==> steps::advanced(state, event).state
            is Finished,
{
}

/// An import treats its items one after the other: an answer leaves the list
/// alone and either keeps the item, goes on to the next, or ends the task; what
/// is stored is the item at hand; and only behind the last item does the task
/// end well.
pub proof fn law_import_treats_items_in_order(state: StateModel, event: TaskEvent)
    requires
        steps::awaits(state, event),
        state is ImportItem,
    ensures
        ({
            let items = state->ImportItem_items;
            let at = state->ImportItem_at;
            let step = steps::advanced(state, event);
            &&& match step.state {
                StateModel::ImportItem { items: same, at: now, .. } => same == items && at <= now
                    <= at + 1,
                other => other is Finished,
            }
            &&& step.action matches ActionModel::Upsert { item_id, enabled, .. }
                ==> item_id == items[step.state->ImportItem_at].item_id@ && enabled
            &&& step.action matches ActionModel::Finish { message } ==> (message is Ok ==> at + 1
                == items.len())
        }),
{
}

} // verus!
