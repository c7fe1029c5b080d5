//! What a Workshop task does from its beginning on, whatever the outside
//! answers.

use vstd::prelude::*;

use crate::message;
use crate::repository;
use crate::text;
use crate::workshop::comparison;
use crate::workshop::comparison::RemarkColor;
use crate::workshop::run::{
    ActionModel, BundleSummary, FreezeSummary, ItemStage, StateModel, StepModel, StoreEntry,
    TaskEvent,
};
use crate::workshop::steps;
use crate::workshop::tasks;
use crate::workshop::tasks::{SharedItem, WorkshopTask};
use crate::workshop::view;
use crate::workshop::view::{PinStatus, ShareComparison};

verus! {

broadcast use vstd::string::group_string_axioms;

/// Where a task is after some answers; nowhere if one of them was not awaited.
pub open spec fn reached(
    task: WorkshopTask,
    app_id: u32,
    events: Seq<TaskEvent>,
) -> Option<StepModel>
    decreases events.len(),
{
    if events.len() == 0 {
        Some(steps::begun(task, app_id))
    } else {
        match reached(task, app_id, events.drop_last()) {
            Some(step) => if steps::awaits(step.state, events.last()) {
                Some(steps::advanced(step.state, events.last()))
            } else {
                None
            },
            None => None,
        }
    }
}

/// How a task ends that did what it was for if the answer was good, and hands
/// the error on if it was not.
pub open spec fn ends_with(answer: Result<(), String>, good: Seq<char>) -> Result<
    Seq<char>,
    Seq<char>,
> {
    match answer {
        Ok(_) => Ok(good),
        Err(error) => Err(error@),
    }
}

// ---------------------------------------------------------------------------
// Removing and freezing
// ---------------------------------------------------------------------------

/// Data is deleted only if that was asked for. A removal unsubscribes the mod,
/// removes it with the choice that the user made, whatever the answer to the
/// unsubscription was, and does nothing else.
pub proof fn law_removal_does_what_was_asked(
    item_id: String,
    delete_data: bool,
    app_id: u32,
    events: Seq<TaskEvent>,
)
    requires
        reached(WorkshopTask::Remove { item_id, delete_data }, app_id, events) is Some,
    ensures
        ({
            let step = reached(WorkshopTask::Remove { item_id, delete_data }, app_id, events)->0;
            match step.action {
                ActionModel::Unsubscribe { item_id: id } => events.len() == 0 && id == item_id@,
                ActionModel::RemoveItem { item_id: id, delete_data: delete } => events.len() == 1
                    && id == item_id@ && delete == delete_data,
                ActionModel::Finish { message } => events.len() == 2 && (
                events[1] matches TaskEvent::Done(answer) && message == ends_with(
                    answer,
                    "Removed "@ + item_id@,
                )),
                _ => false,
            }
        }),
{
    reveal_with_fuel(reached, 4);
    let task = WorkshopTask::Remove { item_id, delete_data };
    lemma_reached_within(task, app_id, events, 2);
}

/// A task that is over after `n` answers takes no more.
proof fn lemma_reached_within(
    task: WorkshopTask,
    app_id: u32,
    events: Seq<TaskEvent>,
    n: nat,
)
    requires
        reached(task, app_id, events) is Some,
        n < events.len() ==> (reached(task, app_id, events.take(n as int)) matches Some(step)
            ==> step.state is Finished),
    ensures
        events.len() <= n,
    decreases events.len(),
{
    if events.len() > n {
        let head = events.drop_last();
        if head.len() == n {
            assert(events.take(n as int) =~= head);
        } else {
            assert(head.take(n as int) =~= events.take(n as int));
            lemma_reached_within(task, app_id, head, n);
        }
    }
}

/// Freezing a mod freezes that mod and no other.
pub proof fn law_freezing_one_mod(item_id: String, app_id: u32, events: Seq<TaskEvent>)
    requires
        reached(WorkshopTask::Freeze { item_id }, app_id, events) is Some,
    ensures
        match (reached(WorkshopTask::Freeze { item_id }, app_id, events)->0).action {
            ActionModel::FreezeItem { item_id: id } => events.len() == 0 && id == item_id@,
            ActionModel::Finish { message } => events.len() == 1 && (
            events[0] matches TaskEvent::Done(answer) && message == ends_with(
                answer,
                "Froze the current version of "@ + item_id@,
            )),
            _ => false,
        },
{
    reveal_with_fuel(reached, 3);
    lemma_reached_within(WorkshopTask::Freeze { item_id }, app_id, events, 1);
}

/// The line on a freeze of all mods.
pub open spec fn freeze_headline(s: FreezeSummary) -> Seq<char> {
    "Froze "@ + text::decimal(s.frozen as nat) + " mod(s), skipped "@ + text::decimal(
        s.skipped as nat,
    ) + " already frozen"@
}

/// Freezing all mods asks for every mod, and for those that are frozen already
/// only if the user did; the report counts what was frozen and what was skipped,
/// and names what failed.
pub proof fn law_freezing_all_mods(refresh: bool, app_id: u32, events: Seq<TaskEvent>)
    requires
        reached(WorkshopTask::FreezeAll { refresh }, app_id, events) is Some,
    ensures
        match (reached(WorkshopTask::FreezeAll { refresh }, app_id, events)->0).action {
            ActionModel::FreezeAll { every_mod, refresh: again } => events.len() == 0 && every_mod
                && again == refresh,
            ActionModel::Finish { message } => events.len() == 1 && match events[0] {
                TaskEvent::Frozen(Ok(s)) => message is Ok && text::text_starts_with(
                    message->Ok_0,
                    freeze_headline(s),
                ) && (s.failed@.len() == 0 ==> message->Ok_0 == freeze_headline(s)) && (
                forall|i: int|
                    0 <= i < s.failed@.len() && i < 3 ==> text::text_contains(
                        message->Ok_0,
                        (#[trigger] s.failed@[i]).0@ + ": "@ + s.failed@[i].1@,
                    )),
                TaskEvent::Frozen(Err(error)) => message == Err::<Seq<char>, Seq<char>>(error@),
                _ => false,
            },
            _ => false,
        },
{
    reveal_with_fuel(reached, 3);
    lemma_reached_within(WorkshopTask::FreezeAll { refresh }, app_id, events, 1);
    if events.len() == 1 {
        assert(events.drop_last().len() == 0);
        match events[0] {
            TaskEvent::Frozen(Ok(s)) => {
                let failures = steps::failed_texts(s.failed@);
                tasks::law_summary_begins_with_headline(freeze_headline(s), failures);
                assert forall|i: int| 0 <= i < s.failed@.len() && i < 3 implies text::text_contains(
                    tasks::summary_text(freeze_headline(s), failures),
                    (#[trigger] s.failed@[i]).0@ + ": "@ + s.failed@[i].1@,
                ) by {
                    law_summary_names_failures(freeze_headline(s), failures, i);
                    assert(failures[i] == s.failed@[i].0@ + ": "@ + s.failed@[i].1@);
                }
            },
            _ => {},
        }
    }
}

/// A summary with failures says how many there are and names the first three.
pub proof fn law_summary_names_failures(
    headline: Seq<char>,
    failures: Seq<Seq<char>>,
    i: int,
)
    requires
        0 <= i < failures.len(),
        i < 3,
    ensures
        text::text_starts_with(
            tasks::summary_text(headline, failures),
            headline + " ("@ + text::decimal(failures.len()) + " failed: "@,
        ),
        text::text_contains(tasks::summary_text(headline, failures), failures[i]),
{
    let shown = if failures.len() < 3 {
        failures
    } else {
        failures.take(3)
    };
    let start = headline + " ("@ + text::decimal(failures.len()) + " failed: "@;
    let middle = text::joined(shown, "; "@);
    let all = tasks::summary_text(headline, failures);
    assert(all =~= start + middle + ")"@);
    assert(all.subrange(0, start.len() as int) =~= start);
    let at = lemma_joined_contains(shown, "; "@, i);
    assert(all.subrange(start.len() + at, start.len() + at + failures[i].len())
        =~= middle.subrange(at, at + failures[i].len() as int));
    assert(text::occurs_at(all, failures[i], start.len() + at));
}

proof fn lemma_joined_contains(parts: Seq<Seq<char>>, sep: Seq<char>, i: int) -> (at: int)
    requires
        0 <= i < parts.len(),
    ensures
        text::occurs_at(text::joined(parts, sep), parts[i], at),
    decreases parts.len(),
{
    let all = text::joined(parts, sep);
    if parts.len() == 1 {
        assert(all.subrange(0, all.len() as int) =~= all);
        0
    } else if i == parts.len() - 1 {
        let head = text::joined(parts.drop_last(), sep);
        let at = (head.len() + sep.len()) as int;
        assert(all.subrange(at, at + parts[i].len()) =~= parts[i]);
        at
    } else {
        let at = lemma_joined_contains(parts.drop_last(), sep, i);
        let head = text::joined(parts.drop_last(), sep);
        assert(all.subrange(at, at + parts[i].len()) =~= head.subrange(
            at,
            at + parts[i].len() as int,
        ));
        at
    }
}

/// The entry for a failure names the mod first and ends with the error.
pub proof fn law_failure_names_the_mod(item_id: Seq<char>, error: Seq<char>)
    ensures
        ({
            let entry = tasks::failure_text(item_id, error);
            &&& text::text_starts_with(entry, item_id)
            &&& entry.len() == item_id.len() + 2 + error.len()
            &&& entry.skip(item_id.len() as int + 2) == error
        }),
{
    reveal_strlit(": ");
    let entry = tasks::failure_text(item_id, error);
    assert(entry.subrange(0, item_id.len() as int) =~= item_id);
    assert(entry.skip(item_id.len() as int + 2) =~= error);
}

// ---------------------------------------------------------------------------
// Bundles
// ---------------------------------------------------------------------------

/// An export writes one bundle, where the user asked for it and with disabled
/// mods only if they did, together with the frozen copies and with the checksum
/// that was computed. Without a checksum nothing is written.
pub proof fn law_export_writes_what_was_asked(
    path: String,
    include_disabled: bool,
    app_id: u32,
    events: Seq<TaskEvent>,
)
    requires
        reached(WorkshopTask::ExportBundle { path, include_disabled }, app_id, events) is Some,
    ensures
        ({
            let task = WorkshopTask::ExportBundle { path, include_disabled };
            match (reached(task, app_id, events)->0).action {
                ActionModel::Checksum => events.len() == 0,
                ActionModel::WriteBundle {
                    path: to,
                    include_disabled: disabled,
                    include_frozen_payloads,
                    checksum,
                } => {
                    &&& events.len() == 1
                    &&& to == path@
                    &&& disabled == include_disabled
                    &&& include_frozen_payloads
                    &&& events[0] matches TaskEvent::Checksum(Ok(sum)) && sum == checksum
                },
                ActionModel::Finish { message } => {
                    ||| events.len() == 1 && (events[0] matches TaskEvent::Checksum(Err(error))
                        && message == Err::<Seq<char>, Seq<char>>(error@))
                    ||| events.len() == 2 && events[0] is Checksum && match events[1] {
                        TaskEvent::Written(Ok((mods, copies))) => message == Ok::<
                            Seq<char>,
                            Seq<char>,
                        >(
                            "Wrote "@ + text::decimal(mods as nat) + " mod(s) and "@
                                + text::decimal(copies as nat) + " frozen copy(ies)"@,
                        ),
                        TaskEvent::Written(Err(error)) => message == Err::<Seq<char>, Seq<char>>(
                            error@,
                        ),
                        _ => false,
                    }
                },
                _ => false,
            }
        }),
{
    reveal_with_fuel(reached, 4);
    let task = WorkshopTask::ExportBundle { path, include_disabled };
    lemma_reached_within(task, app_id, events, 2);
    if events.len() == 2 {
        assert(events.drop_last()[0] == events[0]);
    }
}

/// The line on a bundle that was read.
pub open spec fn bundle_headline(s: BundleSummary) -> Seq<char> {
    "Imported "@ + text::decimal((s.added + s.updated) as nat) + " mod(s) and restored "@
        + text::decimal(s.restored as nat) + " frozen copy(ies)"@
}

/// Reading a bundle reads the one that the user picked, with its frozen copies,
/// and then installs the mods that it says need a download, in their order, and
/// only if the user asked for downloads. The report counts added and updated
/// mods together and the restored copies.
pub proof fn law_bundle_import_installs_what_is_needed(
    path: String,
    download: bool,
    app_id: u32,
    events: Seq<TaskEvent>,
)
    requires
        reached(WorkshopTask::ImportBundle { path, download }, app_id, events) is Some,
    ensures
        ({
            let step = reached(WorkshopTask::ImportBundle { path, download }, app_id, events)->0;
            let n = events.len() as int;
            match step.action {
                ActionModel::ReadBundle { path: from, restore_payloads } => n == 0 && from == path@
                    && restore_payloads,
                ActionModel::Install { item_id } => {
                    &&& download
                    &&& n >= 1
                    &&& events[0] matches TaskEvent::Read(Ok(s)) && n <= s.needs_download@.len()
                        && item_id == s.needs_download@[n - 1]@
                },
                ActionModel::Finish { message } => n >= 1 && match events[0] {
                    TaskEvent::Read(Ok(s)) => {
                        &&& n == 1 + if download {
                            s.needs_download@.len() as int
                        } else {
                            0
                        }
                        &&& message is Ok
                        &&& text::text_starts_with(message->Ok_0, bundle_headline(s))
                    },
                    TaskEvent::Read(Err(error)) => n == 1 && message == Err::<
                        Seq<char>,
                        Seq<char>,
                    >(error@),
                    _ => false,
                },
                _ => false,
            }
        }),
    decreases events.len(),
{
    let task = WorkshopTask::ImportBundle { path, download };
    lemma_bundle_run(path, download, app_id, events);
    let step = reached(task, app_id, events)->0;
    if let ActionModel::Finish { message } = step.action {
        match events[0] {
            TaskEvent::Read(Ok(s)) => {
                let failures = choose|failures: Seq<Seq<char>>|
                    message == Ok::<Seq<char>, Seq<char>>(
                        #[trigger] tasks::summary_text(bundle_headline(s), failures),
                    );
                tasks::law_summary_begins_with_headline(bundle_headline(s), failures);
            },
            _ => {},
        }
    }
}

/// What a run of a bundle import looks like.
spec fn bundle_run(
    path: Seq<char>,
    download: bool,
    events: Seq<TaskEvent>,
    step: StepModel,
) -> bool {
    let n = events.len() as int;
    if n == 0 {
        step == (StepModel {
            state: StateModel::ReadBundle { download },
            action: ActionModel::ReadBundle { path, restore_payloads: true },
        })
    } else {
        match events[0] {
            TaskEvent::Read(Ok(s)) => {
                let queue = if download {
                    text::views(s.needs_download@)
                } else {
                    Seq::empty()
                };
                if n <= queue.len() {
                    &&& step.state matches StateModel::BundleInstall {
                        mods,
                        restored,
                        queue: q,
                        at,
                        failures,
                    } && mods == s.added + s.updated && restored == s.restored && q == queue && at
                        == n - 1
                    &&& step.action == (ActionModel::Install { item_id: queue[n - 1] })
                } else {
                    &&& n == queue.len() + 1
                    &&& step.state is Finished
                    &&& exists|failures: Seq<Seq<char>>|
                        step.action == (ActionModel::Finish {
                            message: Ok(
                                #[trigger] tasks::summary_text(bundle_headline(s), failures),
                            ),
                        })
                }
            },
            TaskEvent::Read(Err(error)) => n == 1 && step.state is Finished && step.action == (
            ActionModel::Finish { message: Err(error@) }),
            _ => false,
        }
    }
}

proof fn lemma_bundle_run(
    path: String,
    download: bool,
    app_id: u32,
    events: Seq<TaskEvent>,
)
    requires
        reached(WorkshopTask::ImportBundle { path, download }, app_id, events) is Some,
    ensures
        bundle_run(
            path@,
            download,
            events,
            reached(WorkshopTask::ImportBundle { path, download }, app_id, events)->0,
        ),
    decreases events.len(),
{
    let task = WorkshopTask::ImportBundle { path, download };
    if events.len() > 0 {
        let head = events.drop_last();
        lemma_bundle_run(path, download, app_id, head);
        let before = reached(task, app_id, head)->0;
        let step = reached(task, app_id, events)->0;
        if head.len() == 0 {
            match events[0] {
                TaskEvent::Read(Ok(s)) => {
                    let queue = if download {
                        text::views(s.needs_download@)
                    } else {
                        Seq::empty()
                    };
                    if queue.len() == 0 {
                        let none = Seq::<Seq<char>>::empty();
                        assert(step.action == (ActionModel::Finish {
                            message: Ok(tasks::summary_text(bundle_headline(s), none)),
                        }));
                    }
                },
                _ => {},
            }
        } else {
            assert(head[0] == events[0]);
            match events[0] {
                TaskEvent::Read(Ok(s)) => {
                    let queue = if download {
                        text::views(s.needs_download@)
                    } else {
                        Seq::empty()
                    };
                    assert(head.len() <= queue.len());
                    let failures = before.state->BundleInstall_failures;
                    let more = match events.last() {
                        TaskEvent::Done(Err(error)) => failures.push(
                            tasks::failure_text(queue[head.len() - 1], error@),
                        ),
                        _ => failures,
                    };
                    if events.len() > queue.len() {
                        assert(step.action == (ActionModel::Finish {
                            message: Ok(tasks::summary_text(bundle_headline(s), more)),
                        }));
                    }
                },
                _ => {},
            }
        }
    }
}

/// A failed install of a bundle is noted under the id of the mod that failed; a
/// good one adds no note.
pub proof fn law_bundle_notes_failures(state: StateModel, event: TaskEvent)
    requires
        steps::awaits(state, event),
        state is BundleInstall,
        steps::advanced(state, event).state is BundleInstall,
    ensures
        ({
            let was = state->BundleInstall_failures;
            let now = steps::advanced(state, event).state->BundleInstall_failures;
            match event {
                TaskEvent::Done(Err(error)) => now == was.push(
                    state->BundleInstall_queue[state->BundleInstall_at] + ": "@ + error@,
                ),
                _ => now == was,
            }
        }),
{
}

// ---------------------------------------------------------------------------
// Refreshing
// ---------------------------------------------------------------------------

proof fn lemma_first_enabled(entries: Seq<StoreEntry>, i: int)
    requires
        0 <= i < entries.len(),
        forall|j: int|
            0 <= j < i ==> (#[trigger] entries[j]).item_id@ != entries[i].item_id@,
    ensures
        steps::first_enabled(entries, entries[i].item_id@) == entries[i].enabled,
    decreases entries.len(),
{
    if i > 0 {
        let rest = entries.skip(1);
        assert(entries[0].item_id@ != entries[i].item_id@);
        assert(rest[i - 1] == entries[i]);
        assert forall|j: int| 0 <= j < i - 1 implies (#[trigger] rest[j]).item_id@
            != rest[i - 1].item_id@ by {
            assert(rest[j] == entries[j + 1]);
        }
        lemma_first_enabled(rest, i - 1);
    }
}

/// What a run of a refresh looks like once the store was read.
spec fn refresh_run(
    entries: Seq<StoreEntry>,
    events: Seq<TaskEvent>,
    step: StepModel,
) -> bool {
    let n = events.len() as int;
    ||| step.state is Finished && step.action is Finish
    ||| n == 1 && entries.len() > 0 && step == (StepModel {
        state: StateModel::RefreshDetails { entries },
        action: ActionModel::FetchDetails { ids: steps::entry_ids(entries) },
    })
    ||| 2 <= n && n - 2 < entries.len() && step == steps::refresh_turn(entries, n - 2)
}

proof fn lemma_refresh_run(app_id: u32, events: Seq<TaskEvent>, all: Vec<StoreEntry>)
    requires
        events.len() >= 1,
        events[0] == TaskEvent::Store(Ok(all)),
        reached(WorkshopTask::RefreshMetadata, app_id, events) is Some,
    ensures
        refresh_run(
            steps::of_app(all@, app_id),
            events,
            reached(WorkshopTask::RefreshMetadata, app_id, events)->0,
        ),
    decreases events.len(),
{
    reveal_with_fuel(reached, 2);
    if events.len() > 1 {
        let head = events.drop_last();
        assert(head[0] == events[0]);
        lemma_refresh_run(app_id, head, all);
    } else {
        assert(events.drop_last().len() == 0);
    }
}

/// A refresh asks Steam for the mods of the game at hand and for no others, and
/// then stores each of them in its order. Whether a mod is enabled does not
/// change by it, nor does a refresh download anything or rename a mod.
pub proof fn law_refresh_keeps_mods_enabled_or_not(
    app_id: u32,
    events: Seq<TaskEvent>,
    all: Vec<StoreEntry>,
)
    requires
        events.len() >= 1,
        events[0] == TaskEvent::Store(Ok(all)),
        reached(WorkshopTask::RefreshMetadata, app_id, events) is Some,
    ensures
        ({
            let own = all@.filter(|e: StoreEntry| e.app_id == app_id);
            let n = events.len() as int;
            match (reached(WorkshopTask::RefreshMetadata, app_id, events)->0).action {
                ActionModel::FetchDetails { ids } => n == 1 && ids.len() == own.len() && forall|
                    i: int,
                |
                    0 <= i < ids.len() ==> #[trigger] ids[i] == own[i].item_id@,
                ActionModel::Upsert { item_id, name, downloaded, enabled } => {
                    &&& 2 <= n < own.len() + 2
                    &&& item_id == own[n - 2].item_id@
                    &&& name is None
                    &&& !downloaded
                    &&& (forall|j: int|
                        0 <= j < n - 2 ==> (#[trigger] own[j]).item_id@ != own[n - 2].item_id@)
                        ==> enabled == own[n - 2].enabled
                },
                ActionModel::Finish { .. } => true,
                _ => false,
            }
        }),
{
    lemma_refresh_run(app_id, events, all);
    let own = steps::of_app(all@, app_id);
    let n = events.len() as int;
    if 2 <= n && n - 2 < own.len() {
        if forall|j: int|
            0 <= j < n - 2 ==> (#[trigger] own[j]).item_id@ != own[n - 2].item_id@ {
            lemma_first_enabled(own, n - 2);
        }
    }
}

/// A refresh begins by reading the store. It ends at once if the store cannot be
/// read or holds no mod of the game; it ends well only behind the last mod, and
/// then says how many there are; any error ends it and is handed on.
pub proof fn law_refresh_ends_behind_the_last_mod(state: StateModel, event: TaskEvent, app_id: u32)
    requires
        steps::awaits(state, event),
        state is RefreshStore || state is RefreshDetails || state is RefreshItem,
    ensures
        steps::begun(WorkshopTask::RefreshMetadata, app_id).action is LoadStore,
        ({
            let after = steps::advanced(state, event).action;
            &&& event matches TaskEvent::Store(Err(error)) ==> after == (ActionModel::Finish {
                message: Err(error@),
            })
            &&& event matches TaskEvent::Details(Err(error)) ==> after == (ActionModel::Finish {
                message: Err(error@),
            })
            &&& event matches TaskEvent::Done(Err(error)) ==> after == (ActionModel::Finish {
                message: Err(error@),
            })
            &&& state is RefreshItem && event == TaskEvent::Done(Ok(())) ==> {
                let entries = state->RefreshItem_entries;
                let at = state->RefreshItem_at;
                (after matches ActionModel::Finish { message } && message == Ok::<
                    Seq<char>,
                    Seq<char>,
                >("Refreshed "@ + text::decimal(entries.len()) + " Workshop mod(s)"@))
                    <==> at + 1 == entries.len()
            }
        }),
{
}

// ---------------------------------------------------------------------------
// Importing a shared list
// ---------------------------------------------------------------------------

/// Whether a state of an import works on a list with the choices of the user.
pub open spec fn imports(
    state: StateModel,
    items: Seq<SharedItem>,
    download: bool,
    freeze: bool,
) -> bool {
    match state {
        StateModel::ImportDetails { items: i, download: d, freeze: f } => i == items && d
            == download && f == freeze,
        StateModel::ImportCheck { items: i, download: d, freeze: f } => i == items && d == download
            && f == freeze,
        StateModel::ImportItem { items: i, download: d, freeze: f, at, .. } => i == items && d
            == download && f == freeze && 0 <= at < items.len(),
        StateModel::Finished => true,
        _ => false,
    }
}

/// Whether an action of an import is one that the user asked for: it concerns
/// one of the mods, hands on what the list says of it, and downloads or freezes
/// it only if that was asked for.
pub open spec fn was_asked_for(
    action: ActionModel,
    items: Seq<SharedItem>,
    download: bool,
    freeze: bool,
) -> bool {
    match action {
        ActionModel::FetchDetails { ids } => ids.len() == items.len() && forall|i: int|
            0 <= i < ids.len() ==> #[trigger] ids[i] == items[i].item_id@,
        ActionModel::ValidateDetails => true,
        ActionModel::Install { item_id } => download && exists|i: int|
            0 <= i < items.len() && (#[trigger] items[i]).item_id@ == item_id,
        ActionModel::Upsert { item_id, name, downloaded, enabled } => {
            &&& enabled
            &&& downloaded ==> download
            &&& exists|i: int|
                0 <= i < items.len() && (#[trigger] items[i]).item_id@ == item_id
                    && repository::opt_view(items[i].name) == name
        },
        ActionModel::SetLoadOrder { item_id, load_order } => exists|i: int|
            0 <= i < items.len() && (#[trigger] items[i]).item_id@ == item_id
                && items[i].load_order == Some(load_order),
        ActionModel::FreezeItem { item_id } => freeze && exists|i: int|
            0 <= i < items.len() && (#[trigger] items[i]).item_id@ == item_id,
        ActionModel::Finish { .. } => true,
        _ => false,
    }
}

/// An import takes the mods of a list that Steam can resolve, and does to them
/// what the user asked for and nothing else, whatever the outside answers. A
/// list without such a mod is refused.
pub proof fn law_import_does_what_was_asked(
    items: Vec<SharedItem>,
    download: bool,
    freeze: bool,
    app_id: u32,
    events: Seq<TaskEvent>,
)
    requires
        reached(WorkshopTask::Import { items, download, freeze }, app_id, events) is Some,
    ensures
        ({
            let usable = items@.filter(|i: SharedItem| i.resolvable);
            let step = reached(WorkshopTask::Import { items, download, freeze }, app_id, events)->0;
            &&& imports(step.state, usable, download, freeze)
            &&& was_asked_for(step.action, usable, download, freeze)
            &&& usable.len() == 0 ==> events.len() == 0 && step.action == (ActionModel::Finish {
                message: Err("The shared list has no Steam Workshop ids Foxy can import"@),
            })
            &&& events.len() == 0 && usable.len() > 0 ==> step.action is FetchDetails
        }),
    decreases events.len(),
{
    let task = WorkshopTask::Import { items, download, freeze };
    let usable = steps::resolvable(items@);
    if events.len() > 0 {
        law_import_does_what_was_asked(items, download, freeze, app_id, events.drop_last());
        let before = reached(task, app_id, events.drop_last())->0;
        let step = reached(task, app_id, events)->0;
        if let StateModel::ImportItem { at, .. } = step.state {
            assert(usable[at].item_id@ == usable[at].item_id@);
        }
        if let StateModel::ImportItem { at, .. } = before.state {
            assert(usable[at].item_id@ == usable[at].item_id@);
        }
    }
}

/// The treatment of one mod of an import. It is stored in any case, marked as
/// downloaded exactly if the download went well; a download or a freeze that
/// failed is noted under its id, and nothing else is. The import goes on to the
/// next mod, or ends well, only once this one is stored, has its place in the
/// load order if the list gives one, and was frozen if that was asked for. An
/// error in storing ends the import.
pub proof fn law_import_treats_each_mod(state: StateModel, event: TaskEvent)
    requires
        steps::awaits(state, event),
        state is ImportItem,
    ensures
        ({
            let items = state->ImportItem_items;
            let at = state->ImportItem_at;
            let stage = state->ImportItem_stage;
            let freeze = state->ImportItem_freeze;
            let was = state->ImportItem_failures;
            let step = steps::advanced(state, event);
            let failed = event matches TaskEvent::Done(Err(_));
            let noted = if failed && (stage == ItemStage::Install || stage == ItemStage::Freeze) {
                was.push(items[at].item_id@ + ": "@ + (event->Done_0->Err_0)@)
            } else {
                was
            };
            let stays = step.state is ImportItem && step.state->ImportItem_at == at;
            &&& step.state is ImportItem ==> step.state->ImportItem_failures == noted
            &&& stage == ItemStage::Install ==> stays && step.action == (ActionModel::Upsert {
                item_id: items[at].item_id@,
                name: repository::opt_view(items[at].name),
                downloaded: !failed,
                enabled: true,
            })
            &&& failed && (stage == ItemStage::Upsert || stage == ItemStage::LoadOrder)
                ==> step.action == (ActionModel::Finish {
                message: Err((event->Done_0->Err_0)@),
            })
            &&& !failed && stage == ItemStage::Upsert && items[at].load_order is Some ==> stays
                && step.action == (ActionModel::SetLoadOrder {
                item_id: items[at].item_id@,
                load_order: items[at].load_order->0,
            })
            &&& !failed && stage == ItemStage::Upsert && items[at].load_order is None && freeze
                ==> stays && step.action == (ActionModel::FreezeItem {
                item_id: items[at].item_id@,
            })
            &&& !failed && stage == ItemStage::LoadOrder && freeze ==> stays && step.action == (
            ActionModel::FreezeItem { item_id: items[at].item_id@ })
            &&& step.state is ImportItem && !stays ==> step.state->ImportItem_at == at + 1 && (
            stage == ItemStage::Freeze || (!failed && !freeze && (stage == ItemStage::LoadOrder || (
            stage == ItemStage::Upsert && items[at].load_order is None))))
            &&& step.action matches ActionModel::Finish { message: Ok(said) } ==> {
                &&& at + 1 == items.len()
                &&& stage == ItemStage::Freeze || (!failed && !freeze && (stage
                    == ItemStage::LoadOrder || (stage == ItemStage::Upsert
                    && items[at].load_order is None)))
                &&& said == tasks::summary_text(
                    "Imported "@ + text::decimal(items.len()) + " Workshop mod(s)"@,
                    noted,
                )
            }
        }),
{
}

/// An import whose details Steam did not give goes on without them; details that
/// are not those of the game end it. Either way the first mod comes first.
pub proof fn law_import_begins_with_the_first_mod(state: StateModel, event: TaskEvent)
    requires
        steps::awaits(state, event),
        state is ImportDetails || state is ImportCheck,
        state is ImportDetails ==> state->ImportDetails_items.len() > 0,
        state is ImportCheck ==> state->ImportCheck_items.len() > 0,
    ensures
        ({
            let step = steps::advanced(state, event);
            let (items, download) = if state is ImportDetails {
                (state->ImportDetails_items, state->ImportDetails_download)
            } else {
                (state->ImportCheck_items, state->ImportCheck_download)
            };
            &&& step.state is ImportItem ==> {
                &&& step.state->ImportItem_at == 0
                &&& step.state->ImportItem_failures.len() == 0
                &&& download ==> step.action == (ActionModel::Install {
                    item_id: items[0].item_id@,
                })
                &&& !download ==> step.action == (ActionModel::Upsert {
                    item_id: items[0].item_id@,
                    name: repository::opt_view(items[0].name),
                    downloaded: false,
                    enabled: true,
                })
            }
            &&& state is ImportDetails ==> match event {
                TaskEvent::Details(Ok(n)) if n > 0 => step.action is ValidateDetails
                    && step.state is ImportCheck,
                _ => step.state is ImportItem,
            }
            &&& state is ImportCheck ==> match event {
                TaskEvent::Done(Err(error)) => step.action == (ActionModel::Finish {
                    message: Err(error@),
                }),
                _ => step.state is ImportItem,
            }
        }),
{
}

// ---------------------------------------------------------------------------
// The tab
// ---------------------------------------------------------------------------

/// A shared list names the mods of the tab in their order, each with its own
/// title, place and pinned version; mods that are disabled only if asked for.
pub proof fn law_shared_list_names_the_mods(items: Seq<PinStatus>, include_disabled: bool, i: int)
    requires
        0 <= i < items.len(),
        include_disabled || items[i].enabled,
    ensures
        ({
            let list = view::shared_list(items, include_disabled);
            let at = view::shared_list(items.take(i), include_disabled).len() as int;
            &&& at < list.len()
            &&& list[at].item_id == items[i].item_id
            &&& list[at].name == items[i].title
            &&& list[at].load_order == items[i].load_order
            &&& list[at].version == items[i].pinned_version
            &&& list[at].resolvable
        }),
    decreases items.len(),
{
    let head = items.drop_last();
    if i < head.len() {
        law_shared_list_names_the_mods(head, include_disabled, i);
        assert(head.take(i) =~= items.take(i));
    } else {
        assert(items.take(i) =~= head);
    }
}

/// A shared list names nothing but mods of the tab, and without the disabled
/// ones if they were not asked for; with them, it names every mod.
pub proof fn law_shared_list_names_nothing_else(
    items: Seq<PinStatus>,
    include_disabled: bool,
    k: int,
)
    requires
        0 <= k < view::shared_list(items, include_disabled).len(),
    ensures
        exists|i: int|
            {
                &&& 0 <= i < items.len()
                &&& (include_disabled || (#[trigger] items[i]).enabled)
                &&& items[i].item_id == view::shared_list(items, include_disabled)[k].item_id
            },
        view::shared_list(items, true).len() == items.len(),
        view::shared_list(items, include_disabled).len() <= items.len(),
    decreases items.len(),
{
    let head = items.drop_last();
    let part = view::shared_list(head, include_disabled);
    lemma_shared_list_len(items, include_disabled);
    lemma_shared_list_len(items, true);
    if k < part.len() {
        law_shared_list_names_nothing_else(head, include_disabled, k);
        let i = choose|i: int|
            {
                &&& 0 <= i < head.len()
                &&& (include_disabled || (#[trigger] head[i]).enabled)
                &&& head[i].item_id == part[k].item_id
            };
        assert(items[i] == head[i]);
    } else {
        assert(items[items.len() - 1] == items.last());
    }
}

proof fn lemma_shared_list_len(items: Seq<PinStatus>, include_disabled: bool)
    ensures
        view::shared_list(items, true).len() == items.len(),
        view::shared_list(items, include_disabled).len() <= items.len(),
    decreases items.len(),
{
    if items.len() > 0 {
        lemma_shared_list_len(items.drop_last(), include_disabled);
    }
}

/// A row shows under the filter exactly if the filter is blank or stands in its
/// title, whatever the case, or in its id; the rows keep their order.
pub proof fn law_filter_finds_titles_and_ids(filter: Seq<char>, items: Seq<PinStatus>, i: int)
    requires
        0 <= i < items.len(),
    ensures
        ({
            let wanted = text::unicode_lowercase(text::trimmed(filter));
            let title = match items[i].title {
                Some(t) => t@,
                None => items[i].item_id@,
            };
            view::shown_rows(filter, items, items.len() as int).contains(i) <==> wanted.len() == 0
                || text::text_contains(text::unicode_lowercase(title), wanted)
                || text::text_contains(items[i].item_id@, wanted)
        }),
        forall|a: int, b: int|
            0 <= a < b < view::shown_rows(filter, items, items.len() as int).len() ==> (
            #[trigger] view::shown_rows(filter, items, items.len() as int)[a]) < (
            #[trigger] view::shown_rows(filter, items, items.len() as int)[b]),
{
    lemma_shown_rows(filter, items, items.len() as int, i);
}

proof fn lemma_shown_rows(filter: Seq<char>, items: Seq<PinStatus>, n: int, i: int)
    requires
        0 <= n <= items.len(),
    ensures
        ({
            let rows = view::shown_rows(filter, items, n);
            &&& rows.contains(i) <==> 0 <= i < n && view::row_shown(filter, items[i])
            &&& forall|a: int| 0 <= a < rows.len() ==> 0 <= (#[trigger] rows[a]) < n
            &&& forall|a: int, b: int|
                0 <= a < b < rows.len() ==> (#[trigger] rows[a]) < (#[trigger] rows[b])
        }),
    decreases n,
{
    if n > 0 {
        lemma_shown_rows(filter, items, n - 1, i);
        let head = view::shown_rows(filter, items, n - 1);
        let rows = view::shown_rows(filter, items, n);
        if view::row_shown(filter, items[n - 1]) {
            assert(rows[head.len() as int] == n - 1);
            if head.contains(i) {
                let k = choose|k: int| 0 <= k < head.len() && head[k] == i;
                assert(rows[k] == i);
            }
            if rows.contains(i) && i != n - 1 {
                let k = choose|k: int| 0 <= k < rows.len() && rows[k] == i;
                assert(head[k] == i);
            }
        }
    }
}

/// Moving a row shifts only the rows between its old and its new place, by one;
/// all others stay where they are.
pub proof fn law_moving_shifts_the_rows_between(
    ids: Seq<Seq<char>>,
    from: int,
    to: int,
    i: int,
)
    requires
        0 <= from < ids.len(),
        0 <= to < ids.len(),
        0 <= i < ids.len(),
        i != to,
    ensures
        view::moved(ids, from, to)[i] == if from <= i < to {
            ids[i + 1]
        } else if to < i <= from {
            ids[i - 1]
        } else {
            ids[i]
        },
{
}

/// The line under a row begins with the id of the mod and ends with its place in
/// the load order, or with a dash if it has none.
pub proof fn law_row_detail_tells_id_and_order(item: PinStatus, order_word: Seq<char>)
    ensures
        ({
            let line = view::row_detail_text(item, order_word);
            let head = item.item_id@ + "  "@ + order_word;
            &&& text::text_starts_with(line, head)
            &&& item.load_order matches Some(order) ==> line.skip(head.len() as int) == " "@
                + text::decimal(order as nat)
            &&& item.load_order is None ==> line.skip(head.len() as int) == " -"@
        }),
{
    let line = view::row_detail_text(item, order_word);
    let head = item.item_id@ + "  "@ + order_word;
    assert(line.subrange(0, head.len() as int) =~= head);
    match item.load_order {
        Some(order) => {
            assert(line.skip(head.len() as int) =~= " "@ + text::decimal(order as nat));
        },
        None => {
            assert(line.skip(head.len() as int) =~= " -"@);
        },
    }
}

/// A comparison of lists that agree says so and nothing else; one of lists that
/// differ counts the missing, the extra and the unknown mods, each under its own
/// text and only if there are any, and tells of another order.
pub proof fn law_comparison_says_what_differs(c: ShareComparison)
    ensures
        ({
            let said = comparison::remarks_of(c);
            let missing = (
                message::with_one("{count} missing"@, "count"@, text::decimal(c.missing@.len())),
                RemarkColor::Error,
            );
            let extra = (
                message::with_one("{count} extra"@, "count"@, text::decimal(c.extra@.len())),
                RemarkColor::Normal,
            );
            let unknown = (
                message::with_one(
                    "{count} not on the Workshop"@,
                    "count"@,
                    text::decimal(c.unresolvable@.len()),
                ),
                RemarkColor::Dim,
            );
            let order = (message::plain("Load order differs"@), RemarkColor::Dim);
            &&& c.matches ==> said == seq![
                (
                    message::plain("Your enabled mods match the shared list."@),
                    RemarkColor::Success,
                ),
            ]
            &&& !c.matches && c.missing@.len() > 0 ==> said.contains(missing)
            &&& !c.matches && c.extra@.len() > 0 ==> said.contains(extra)
            &&& !c.matches && c.unresolvable@.len() > 0 ==> said.contains(unknown)
            &&& !c.matches && c.order_differs ==> said.contains(order)
            &&& !c.matches ==> said.len() == (if c.missing@.len() > 0 {
                1int
            } else {
                0
            }) + (if c.extra@.len() > 0 {
                1int
            } else {
                0
            }) + (if c.unresolvable@.len() > 0 {
                1int
            } else {
                0
            }) + (if c.order_differs {
                1int
            } else {
                0
            })
        }),
{
    let said = comparison::remarks_of(c);
    if !c.matches {
        let a = if c.missing@.len() > 0 {
            1int
        } else {
            0
        };
        let b = a + if c.extra@.len() > 0 {
            1int
        } else {
            0
        };
        let d = b + if c.unresolvable@.len() > 0 {
            1int
        } else {
            0
        };
        assert(said[0] == said[0] && said[a] == said[a] && said[b] == said[b] && said[d]
            == said[d]);
    }
}

/// The note beside the spinner tells what kind of work goes on.
pub proof fn law_busy_note_tells_the_work(task: WorkshopTask)
    ensures
        ({
            let note = tasks::busy_text(task);
            &&& (task is Import ==> note == "Importing Workshop mods"@)
            &&& (task is RefreshMetadata ==> note == "Refreshing Workshop details"@)
            &&& (task is Freeze || task is FreezeAll ==> note == "Freezing mod versions"@)
            &&& (task is Remove ==> note == "Removing Workshop mod"@)
            &&& (task is ExportBundle ==> note == "Writing share bundle"@)
            &&& (task is ImportBundle ==> note == "Reading share bundle"@)
        }),
{
}

} // verus!
