//! The transitions of a running Workshop task.

use vstd::prelude::*;

use crate::repository;
use crate::text;
use crate::text::{concat, decimal_text};
use crate::workshop::run;
use crate::workshop::run::{
    ActionModel, ItemStage, StateModel, StepModel, StoreEntry, TaskAction, TaskEvent, TaskState,
    TaskStep,
};
use crate::workshop::tasks;
use crate::workshop::tasks::{clone_text, failure_entry, summarize, SharedItem, WorkshopTask};

verus! {

broadcast use vstd::string::group_string_axioms;

// ---------------------------------------------------------------------------
// What happens next
// ---------------------------------------------------------------------------

/// The task is over.
pub open spec fn over(message: Result<Seq<char>, Seq<char>>) -> StepModel {
    StepModel { state: StateModel::Finished, action: ActionModel::Finish { message } }
}

/// The ids of a list of items.
pub open spec fn item_ids(items: Seq<SharedItem>) -> Seq<Seq<char>> {
    Seq::new(items.len(), |i: int| items[i].item_id@)
}

/// The items of a list that Steam can resolve.
pub open spec fn resolvable(items: Seq<SharedItem>) -> Seq<SharedItem> {
    items.filter(|i: SharedItem| i.resolvable)
}

/// The entries of a store that belong to a game.
pub open spec fn of_app(entries: Seq<StoreEntry>, app_id: u32) -> Seq<StoreEntry> {
    entries.filter(|e: StoreEntry| e.app_id == app_id)
}

/// The ids of a list of entries.
pub open spec fn entry_ids(entries: Seq<StoreEntry>) -> Seq<Seq<char>> {
    Seq::new(entries.len(), |i: int| entries[i].item_id@)
}

/// Whether the first entry with an id is enabled.
pub open spec fn first_enabled(entries: Seq<StoreEntry>, id: Seq<char>) -> bool
    decreases entries.len(),
{
    if entries.len() == 0 {
        true
    } else if entries[0].item_id@ == id {
        entries[0].enabled
    } else {
        first_enabled(entries.skip(1), id)
    }
}

/// An import turns to the item `at`, or ends behind the last one.
pub open spec fn import_turn(
    items: Seq<SharedItem>,
    download: bool,
    freeze: bool,
    at: int,
    failures: Seq<Seq<char>>,
) -> StepModel {
    if at >= items.len() {
        over(
            Ok(
                tasks::summary_text(
                    "Imported "@ + text::decimal(items.len()) + " Workshop mod(s)"@,
                    failures,
                ),
            ),
        )
    } else if download {
        StepModel {
            state: StateModel::ImportItem {
                items,
                download,
                freeze,
                at,
                stage: ItemStage::Install,
                failures,
            },
            action: ActionModel::Install { item_id: items[at].item_id@ },
        }
    } else {
        import_store(items, download, freeze, at, failures, false)
    }
}

/// An import stores the item `at`.
pub open spec fn import_store(
    items: Seq<SharedItem>,
    download: bool,
    freeze: bool,
    at: int,
    failures: Seq<Seq<char>>,
    downloaded: bool,
) -> StepModel {
    StepModel {
        state: StateModel::ImportItem {
            items,
            download,
            freeze,
            at,
            stage: ItemStage::Upsert,
            failures,
        },
        action: ActionModel::Upsert {
            item_id: items[at].item_id@,
            name: repository::opt_view(items[at].name),
            downloaded,
            enabled: true,
        },
    }
}

/// An import freezes the item `at` that it stored, or goes on to the next.
pub open spec fn import_stored(
    items: Seq<SharedItem>,
    download: bool,
    freeze: bool,
    at: int,
    failures: Seq<Seq<char>>,
) -> StepModel {
    if freeze {
        StepModel {
            state: StateModel::ImportItem {
                items,
                download,
                freeze,
                at,
                stage: ItemStage::Freeze,
                failures,
            },
            action: ActionModel::FreezeItem { item_id: items[at].item_id@ },
        }
    } else {
        import_turn(items, download, freeze, at + 1, failures)
    }
}

/// What an import does after the outside dealt with one stage of an item.
pub open spec fn import_next(
    items: Seq<SharedItem>,
    download: bool,
    freeze: bool,
    at: int,
    stage: ItemStage,
    failures: Seq<Seq<char>>,
    result: Result<(), String>,
) -> StepModel {
    let item_id = items[at].item_id@;
    match stage {
        ItemStage::Install => match result {
            Ok(_) => import_store(items, download, freeze, at, failures, true),
            Err(error) => import_store(
                items,
                download,
                freeze,
                at,
                failures.push(tasks::failure_text(item_id, error@)),
                false,
            ),
        },
        ItemStage::Upsert => match result {
            Ok(_) => match items[at].load_order {
                Some(load_order) => StepModel {
                    state: StateModel::ImportItem {
                        items,
                        download,
                        freeze,
                        at,
                        stage: ItemStage::LoadOrder,
                        failures,
                    },
                    action: ActionModel::SetLoadOrder { item_id, load_order },
                },
                None => import_stored(items, download, freeze, at, failures),
            },
            Err(error) => over(Err(error@)),
        },
        ItemStage::LoadOrder => match result {
            Ok(_) => import_stored(items, download, freeze, at, failures),
            Err(error) => over(Err(error@)),
        },
        ItemStage::Freeze => match result {
            Ok(_) => import_turn(items, download, freeze, at + 1, failures),
            Err(error) => import_turn(
                items,
                download,
                freeze,
                at + 1,
                failures.push(tasks::failure_text(item_id, error@)),
            ),
        },
    }
}

/// A refresh turns to the entry `at`, or ends behind the last one.
pub open spec fn refresh_turn(entries: Seq<StoreEntry>, at: int) -> StepModel {
    if at >= entries.len() {
        over(Ok("Refreshed "@ + text::decimal(entries.len()) + " Workshop mod(s)"@))
    } else {
        StepModel {
            state: StateModel::RefreshItem { entries, at },
            action: ActionModel::Upsert {
                item_id: entries[at].item_id@,
                name: None,
                downloaded: false,
                enabled: first_enabled(entries, entries[at].item_id@),
            },
        }
    }
}

/// A bundle that was read turns to the download `at`, or ends behind the last one.
pub open spec fn bundle_turn(
    mods: nat,
    restored: nat,
    queue: Seq<Seq<char>>,
    at: int,
    failures: Seq<Seq<char>>,
) -> StepModel {
    if at >= queue.len() {
        over(
            Ok(
                tasks::summary_text(
                    "Imported "@ + text::decimal(mods) + " mod(s) and restored "@ + text::decimal(
                        restored,
                    ) + " frozen copy(ies)"@,
                    failures,
                ),
            ),
        )
    } else {
        StepModel {
            state: StateModel::BundleInstall { mods, restored, queue, at, failures },
            action: ActionModel::Install { item_id: queue[at] },
        }
    }
}

/// The entries for the mods that could not be frozen.
pub open spec fn failed_texts(failed: Seq<(String, String)>) -> Seq<Seq<char>> {
    Seq::new(failed.len(), |i: int| tasks::failure_text(failed[i].0@, failed[i].1@))
}

/// How a task begins.
pub open spec fn begun(task: WorkshopTask, app_id: u32) -> StepModel {
    match task {
        WorkshopTask::Import { items, download, freeze } => {
            let usable = resolvable(items@);
            if usable.len() == 0 {
                over(Err("The shared list has no Steam Workshop ids Foxy can import"@))
            } else {
                StepModel {
                    state: StateModel::ImportDetails { items: usable, download, freeze },
                    action: ActionModel::FetchDetails { ids: item_ids(usable) },
                }
            }
        },
        WorkshopTask::RefreshMetadata => StepModel {
            state: StateModel::RefreshStore { app_id },
            action: ActionModel::LoadStore,
        },
        WorkshopTask::Freeze { item_id } => StepModel {
            state: StateModel::FreezeOne { item_id: item_id@ },
            action: ActionModel::FreezeItem { item_id: item_id@ },
        },
        WorkshopTask::FreezeAll { refresh } => StepModel {
            state: StateModel::FreezeMany,
            action: ActionModel::FreezeAll { every_mod: true, refresh },
        },
        WorkshopTask::Remove { item_id, delete_data } => StepModel {
            state: StateModel::Unsubscribe { item_id: item_id@, delete_data },
            action: ActionModel::Unsubscribe { item_id: item_id@ },
        },
        WorkshopTask::ExportBundle { path, include_disabled } => StepModel {
            state: StateModel::Checksum { path: path@, include_disabled },
            action: ActionModel::Checksum,
        },
        WorkshopTask::ImportBundle { path, download } => StepModel {
            state: StateModel::ReadBundle { download },
            action: ActionModel::ReadBundle { path: path@, restore_payloads: true },
        },
    }
}

/// Whether an event answers the action for which a state waits.
pub open spec fn awaits(state: StateModel, event: TaskEvent) -> bool {
    match state {
        StateModel::ImportDetails { .. } => event is Details,
        StateModel::ImportCheck { .. } => event is Done,
        StateModel::ImportItem { items, at, .. } => event is Done && 0 <= at < items.len(),
        StateModel::RefreshStore { .. } => event is Store,
        StateModel::RefreshDetails { .. } => event is Details,
        StateModel::RefreshItem { entries, at } => event is Done && 0 <= at < entries.len(),
        StateModel::FreezeOne { .. } => event is Done,
        StateModel::FreezeMany => event is Frozen,
        StateModel::Unsubscribe { .. } => event is Done,
        StateModel::Remove { .. } => event is Done,
        StateModel::Checksum { .. } => event is Checksum,
        StateModel::Export => event is Written,
        StateModel::ReadBundle { .. } => event is Read,
        StateModel::BundleInstall { queue, at, .. } => event is Done && 0 <= at < queue.len(),
        StateModel::Finished => false,
    }
}

/// How a task goes on when the outside answered.
pub open spec fn advanced(state: StateModel, event: TaskEvent) -> StepModel {
    match (state, event) {
        (StateModel::ImportDetails { items, download, freeze }, TaskEvent::Details(result)) => {
            if result matches Ok(n) && n > 0 {
                StepModel {
                    state: StateModel::ImportCheck { items, download, freeze },
                    action: ActionModel::ValidateDetails,
                }
            } else {
                import_turn(items, download, freeze, 0, Seq::empty())
            }
        },
        (StateModel::ImportCheck { items, download, freeze }, TaskEvent::Done(result)) =>
            match result {
            Ok(_) => import_turn(items, download, freeze, 0, Seq::empty()),
            Err(error) => over(Err(error@)),
        },
        (
            StateModel::ImportItem { items, download, freeze, at, stage, failures },
            TaskEvent::Done(result),
        ) => import_next(items, download, freeze, at, stage, failures, result),
        (StateModel::RefreshStore { app_id }, TaskEvent::Store(result)) => match result {
            Ok(all) => {
                let entries = of_app(all@, app_id);
                if entries.len() == 0 {
                    over(Ok("No Workshop mods to refresh"@))
                } else {
                    StepModel {
                        state: StateModel::RefreshDetails { entries },
                        action: ActionModel::FetchDetails { ids: entry_ids(entries) },
                    }
                }
            },
            Err(error) => over(Err(error@)),
        },
        (StateModel::RefreshDetails { entries }, TaskEvent::Details(result)) => match result {
            Ok(_) => refresh_turn(entries, 0),
            Err(error) => over(Err(error@)),
        },
        (StateModel::RefreshItem { entries, at }, TaskEvent::Done(result)) => match result {
            Ok(_) => refresh_turn(entries, at + 1),
            Err(error) => over(Err(error@)),
        },
        (StateModel::FreezeOne { item_id }, TaskEvent::Done(result)) => match result {
            Ok(_) => over(Ok("Froze the current version of "@ + item_id)),
            Err(error) => over(Err(error@)),
        },
        (StateModel::FreezeMany, TaskEvent::Frozen(result)) => match result {
            Ok(summary) => over(
                Ok(
                    tasks::summary_text(
                        "Froze "@ + text::decimal(summary.frozen as nat) + " mod(s), skipped "@
                            + text::decimal(summary.skipped as nat) + " already frozen"@,
                        failed_texts(summary.failed@),
                    ),
                ),
            ),
            Err(error) => over(Err(error@)),
        },
        (StateModel::Unsubscribe { item_id, delete_data }, TaskEvent::Done(_)) => StepModel {
            state: StateModel::Remove { item_id },
            action: ActionModel::RemoveItem { item_id, delete_data },
        },
        (StateModel::Remove { item_id }, TaskEvent::Done(result)) => match result {
            Ok(_) => over(Ok("Removed "@ + item_id)),
            Err(error) => over(Err(error@)),
        },
        (StateModel::Checksum { path, include_disabled }, TaskEvent::Checksum(result)) =>
            match result {
            Ok(checksum) => StepModel {
                state: StateModel::Export,
                action: ActionModel::WriteBundle {
                    path,
                    include_disabled,
                    include_frozen_payloads: true,
                    checksum,
                },
            },
            Err(error) => over(Err(error@)),
        },
        (StateModel::Export, TaskEvent::Written(result)) => match result {
            Ok((mods, copies)) => over(
                Ok(
                    "Wrote "@ + text::decimal(mods as nat) + " mod(s) and "@ + text::decimal(
                        copies as nat,
                    ) + " frozen copy(ies)"@,
                ),
            ),
            Err(error) => over(Err(error@)),
        },
        (StateModel::ReadBundle { download }, TaskEvent::Read(result)) => match result {
            Ok(summary) => bundle_turn(
                (summary.added + summary.updated) as nat,
                summary.restored as nat,
                if download {
                    text::views(summary.needs_download@)
                } else {
                    Seq::empty()
                },
                0,
                Seq::empty(),
            ),
            Err(error) => over(Err(error@)),
        },
        (
            StateModel::BundleInstall { mods, restored, queue, at, failures },
            TaskEvent::Done(result),
        ) => match result {
            Ok(_) => bundle_turn(mods, restored, queue, at + 1, failures),
            Err(error) => bundle_turn(
                mods,
                restored,
                queue,
                at + 1,
                failures.push(tasks::failure_text(queue[at], error@)),
            ),
        },
        _ => StepModel { state, action: ActionModel::Finish { message: Err(Seq::empty()) } },
    }
}

// ---------------------------------------------------------------------------
// Taking the steps
// ---------------------------------------------------------------------------

/// The task is over.
fn end(message: Result<String, String>) -> (r: TaskStep)
    ensures
        r@ == over(run::result_view(message)),
{
    TaskStep { state: TaskState::Finished, action: TaskAction::Finish { message } }
}

/// The task failed.
fn fail(error: String) -> (r: TaskStep)
    ensures
        r@ == over(Err(error@)),
{
    end(Err(error))
}

/// `first`, a number, `second`.
fn counted(first: &str, n: u128, second: &str) -> (r: String)
    ensures
        r@ == first@ + text::decimal(n as nat) + second@,
{
    let mut s: String = concat(first, decimal_text(n).as_str());
    s.append(second);
    s
}

/// `first`, a number, `second`, a number, `third`.
fn counted_twice(first: &str, n: u128, second: &str, m: u128, third: &str) -> (r: String)
    ensures
        r@ == first@ + text::decimal(n as nat) + second@ + text::decimal(m as nat) + third@,
{
    let mut s: String = counted(first, n, second);
    s.append(decimal_text(m).as_str());
    s.append(third);
    s
}

/// Adds the entry for a failure.
fn add_failure(failures: &mut Vec<String>, item_id: &String, error: &String)
    ensures
        text::views(final(failures)@) == text::views(old(failures)@).push(
            tasks::failure_text(item_id@, error@),
        ),
{
    let ghost before = text::views(failures@);
    let entry: String = failure_entry(item_id, error);
    failures.push(entry);
    assert(text::views(failures@) =~= before.push(entry@));
}

/// An import turns to the item `at`, or ends behind the last one.
fn turn_import(
    items: Vec<SharedItem>,
    download: bool,
    freeze: bool,
    at: usize,
    failures: Vec<String>,
) -> (r: TaskStep)
    ensures
        r@ == import_turn(items@, download, freeze, at as int, text::views(failures@)),
{
    if at >= items.len() {
        let headline: String = counted("Imported ", items.len() as u128, " Workshop mod(s)");
        end(Ok(summarize(headline, &failures)))
    } else if download {
        let item_id: String = items[at].item_id.clone();
        TaskStep {
            state: TaskState::ImportItem {
                items,
                download,
                freeze,
                at,
                stage: ItemStage::Install,
                failures,
            },
            action: TaskAction::Install { item_id },
        }
    } else {
        store_import(items, download, freeze, at, failures, false)
    }
}

/// An import stores the item `at`.
fn store_import(
    items: Vec<SharedItem>,
    download: bool,
    freeze: bool,
    at: usize,
    failures: Vec<String>,
    downloaded: bool,
) -> (r: TaskStep)
    requires
        at < items.len(),
    ensures
        r@ == import_store(
            items@,
            download,
            freeze,
            at as int,
            text::views(failures@),
            downloaded,
        ),
{
    let item_id: String = items[at].item_id.clone();
    let name: Option<String> = clone_text(&items[at].name);
    TaskStep {
        state: TaskState::ImportItem {
            items,
            download,
            freeze,
            at,
            stage: ItemStage::Upsert,
            failures,
        },
        action: TaskAction::Upsert { item_id, name, downloaded, enabled: true },
    }
}

/// An import freezes the item `at` that it stored, or goes on to the next.
fn after_store(
    items: Vec<SharedItem>,
    download: bool,
    freeze: bool,
    at: usize,
    failures: Vec<String>,
) -> (r: TaskStep)
    requires
        at < items.len(),
    ensures
        r@ == import_stored(items@, download, freeze, at as int, text::views(failures@)),
{
    if freeze {
        let item_id: String = items[at].item_id.clone();
        TaskStep {
            state: TaskState::ImportItem {
                items,
                download,
                freeze,
                at,
                stage: ItemStage::Freeze,
                failures,
            },
            action: TaskAction::FreezeItem { item_id },
        }
    } else {
        let next: usize = at + 1;
        turn_import(items, download, freeze, next, failures)
    }
}

/// What an import does after the outside dealt with one stage of an item.
fn next_import(
    items: Vec<SharedItem>,
    download: bool,
    freeze: bool,
    at: usize,
    stage: ItemStage,
    failures: Vec<String>,
    result: Result<(), String>,
) -> (r: TaskStep)
    requires
        at < items.len(),
    ensures
        r@ == import_next(
            items@,
            download,
            freeze,
            at as int,
            stage,
            text::views(failures@),
            result,
        ),
{
    let mut failures: Vec<String> = failures;
    match stage {
        ItemStage::Install => match result {
            Ok(_) => store_import(items, download, freeze, at, failures, true),
            Err(error) => {
                add_failure(&mut failures, &items[at].item_id, &error);
                store_import(items, download, freeze, at, failures, false)
            },
        },
        ItemStage::Upsert => match result {
            Ok(_) => match items[at].load_order {
                Some(load_order) => {
                    let item_id: String = items[at].item_id.clone();
                    TaskStep {
                        state: TaskState::ImportItem {
                            items,
                            download,
                            freeze,
                            at,
                            stage: ItemStage::LoadOrder,
                            failures,
                        },
                        action: TaskAction::SetLoadOrder { item_id, load_order },
                    }
                },
                None => after_store(items, download, freeze, at, failures),
            },
            Err(error) => fail(error),
        },
        ItemStage::LoadOrder => match result {
            Ok(_) => after_store(items, download, freeze, at, failures),
            Err(error) => fail(error),
        },
        ItemStage::Freeze => {
            if let Err(error) = result {
                add_failure(&mut failures, &items[at].item_id, &error);
            }
            let next: usize = at + 1;
            turn_import(items, download, freeze, next, failures)
        },
    }
}

/// Whether the first entry with an id is enabled.
fn enabled_of(entries: &Vec<StoreEntry>, id: &String) -> (r: bool)
    ensures
        r == first_enabled(entries@, id@),
{
    let mut i: usize = 0;
    assert(entries@.skip(0) =~= entries@);
    while i < entries.len()
        invariant
            i <= entries@.len(),
            first_enabled(entries@, id@) == first_enabled(entries@.skip(i as int), id@),
        decreases entries@.len() - i,
    {
        proof {
            assert(entries@.skip(i as int)[0] == entries@[i as int]);
            assert(entries@.skip(i as int).skip(1) =~= entries@.skip(i + 1));
        }
        if entries[i].item_id == *id {
            return entries[i].enabled;
        }
        i = i + 1;
    }
    true
}

/// A refresh turns to the entry `at`, or ends behind the last one.
fn turn_refresh(entries: Vec<StoreEntry>, at: usize) -> (r: TaskStep)
    ensures
        r@ == refresh_turn(entries@, at as int),
{
    if at >= entries.len() {
        end(Ok(counted("Refreshed ", entries.len() as u128, " Workshop mod(s)")))
    } else {
        let item_id: String = entries[at].item_id.clone();
        let enabled: bool = enabled_of(&entries, &item_id);
        TaskStep {
            state: TaskState::RefreshItem { entries, at },
            action: TaskAction::Upsert { item_id, name: None, downloaded: false, enabled },
        }
    }
}

/// A bundle that was read turns to the download `at`, or ends behind the last one.
fn turn_bundle(
    mods: u128,
    restored: u64,
    queue: Vec<String>,
    at: usize,
    failures: Vec<String>,
) -> (r: TaskStep)
    ensures
        r@ == bundle_turn(
            mods as nat,
            restored as nat,
            text::views(queue@),
            at as int,
            text::views(failures@),
        ),
{
    if at >= queue.len() {
        let headline: String = counted_twice(
            "Imported ",
            mods,
            " mod(s) and restored ",
            restored as u128,
            " frozen copy(ies)",
        );
        end(Ok(summarize(headline, &failures)))
    } else {
        let item_id: String = queue[at].clone();
        TaskStep {
            state: TaskState::BundleInstall { mods, restored, queue, at, failures },
            action: TaskAction::Install { item_id },
        }
    }
}

/// The entries for the mods that could not be frozen.
fn failed_entries(failed: &Vec<(String, String)>) -> (r: Vec<String>)
    ensures
        text::views(r@) == failed_texts(failed@),
{
    let mut out: Vec<String> = Vec::new();
    let mut i: usize = 0;
    while i < failed.len()
        invariant
            i <= failed@.len(),
            text::views(out@) =~= failed_texts(failed@).take(i as int),
        decreases failed@.len() - i,
    {
        add_failure(&mut out, &failed[i].0, &failed[i].1);
        i = i + 1;
    }
    assert(failed_texts(failed@).take(failed@.len() as int) =~= failed_texts(failed@));
    out
}

/// The items of a list that Steam can resolve.
fn keep_resolvable(items: &Vec<SharedItem>) -> (r: Vec<SharedItem>)
    ensures
        r@ == resolvable(items@),
{
    let mut out: Vec<SharedItem> = Vec::new();
    let mut i: usize = 0;
    proof {
        reveal(Seq::filter);
        assert(items@.take(0) =~= Seq::empty());
    }
    while i < items.len()
        invariant
            i <= items@.len(),
            out@ == resolvable(items@.take(i as int)),
        decreases items@.len() - i,
    {
        proof {
            reveal(Seq::filter);
            assert(items@.take(i + 1).drop_last() =~= items@.take(i as int));
            assert(items@.take(i + 1).last() == items@[i as int]);
        }
        if items[i].resolvable {
            out.push(items[i].clone());
        }
        i = i + 1;
    }
    assert(items@.take(items@.len() as int) =~= items@);
    out
}

/// The entries of a store that belong to a game.
fn keep_app(entries: &Vec<StoreEntry>, app_id: u32) -> (r: Vec<StoreEntry>)
    ensures
        r@ == of_app(entries@, app_id),
{
    let mut out: Vec<StoreEntry> = Vec::new();
    let mut i: usize = 0;
    proof {
        reveal(Seq::filter);
        assert(entries@.take(0) =~= Seq::empty());
    }
    while i < entries.len()
        invariant
            i <= entries@.len(),
            out@ == of_app(entries@.take(i as int), app_id),
        decreases entries@.len() - i,
    {
        proof {
            reveal(Seq::filter);
            assert(entries@.take(i + 1).drop_last() =~= entries@.take(i as int));
            assert(entries@.take(i + 1).last() == entries@[i as int]);
        }
        if entries[i].app_id == app_id {
            out.push(entries[i].clone());
        }
        i = i + 1;
    }
    assert(entries@.take(entries@.len() as int) =~= entries@);
    out
}

/// The ids of a list of items.
fn ids_of_items(items: &Vec<SharedItem>) -> (r: Vec<String>)
    ensures
        text::views(r@) == item_ids(items@),
{
    let mut out: Vec<String> = Vec::new();
    let mut i: usize = 0;
    while i < items.len()
        invariant
            i <= items@.len(),
            text::views(out@) =~= item_ids(items@).take(i as int),
        decreases items@.len() - i,
    {
        let ghost before = text::views(out@);
        out.push(items[i].item_id.clone());
        assert(text::views(out@) =~= before.push(items@[i as int].item_id@));
        i = i + 1;
    }
    assert(item_ids(items@).take(items@.len() as int) =~= item_ids(items@));
    out
}

/// The ids of a list of entries.
fn ids_of_entries(entries: &Vec<StoreEntry>) -> (r: Vec<String>)
    ensures
        text::views(r@) == entry_ids(entries@),
{
    let mut out: Vec<String> = Vec::new();
    let mut i: usize = 0;
    while i < entries.len()
        invariant
            i <= entries@.len(),
            text::views(out@) =~= entry_ids(entries@).take(i as int),
        decreases entries@.len() - i,
    {
        let ghost before = text::views(out@);
        out.push(entries[i].item_id.clone());
        assert(text::views(out@) =~= before.push(entries@[i as int].item_id@));
        i = i + 1;
    }
    assert(entry_ids(entries@).take(entries@.len() as int) =~= entry_ids(entries@));
    out
}

/// Begins a task.
pub fn begin(task: WorkshopTask, app_id: u32) -> (r: TaskStep)
    ensures
        r@ == begun(task, app_id),
{
    match task {
        WorkshopTask::Import { items, download, freeze } => {
            let usable: Vec<SharedItem> = keep_resolvable(&items);
            if usable.is_empty() {
                return fail(
                    "The shared list has no Steam Workshop ids Foxy can import".to_owned(),
                );
            }
            let ids: Vec<String> = ids_of_items(&usable);
            TaskStep {
                state: TaskState::ImportDetails { items: usable, download, freeze },
                action: TaskAction::FetchDetails { ids },
            }
        },
        WorkshopTask::RefreshMetadata => TaskStep {
            state: TaskState::RefreshStore { app_id },
            action: TaskAction::LoadStore,
        },
        WorkshopTask::Freeze { item_id } => TaskStep {
            state: TaskState::FreezeOne { item_id: item_id.clone() },
            action: TaskAction::FreezeItem { item_id },
        },
        WorkshopTask::FreezeAll { refresh } => TaskStep {
            state: TaskState::FreezeMany,
            action: TaskAction::FreezeAll { every_mod: true, refresh },
        },
        WorkshopTask::Remove { item_id, delete_data } => TaskStep {
            state: TaskState::Unsubscribe { item_id: item_id.clone(), delete_data },
            action: TaskAction::Unsubscribe { item_id },
        },
        WorkshopTask::ExportBundle { path, include_disabled } => TaskStep {
            state: TaskState::Checksum { path, include_disabled },
            action: TaskAction::Checksum,
        },
        WorkshopTask::ImportBundle { path, download } => TaskStep {
            state: TaskState::ReadBundle { download },
            action: TaskAction::ReadBundle { path, restore_payloads: true },
        },
    }
}

impl TaskState {
    /// Whether an event answers the action for which the task waits.
    pub fn accepts(&self, event: &TaskEvent) -> (r: bool)
        ensures
            r == awaits(self@, *event),
    {
        match (self, event) {
            (TaskState::ImportDetails { .. }, TaskEvent::Details(_)) => true,
            (TaskState::ImportCheck { .. }, TaskEvent::Done(_)) => true,
            (TaskState::ImportItem { items, at, .. }, TaskEvent::Done(_)) => *at < items.len(),
            (TaskState::RefreshStore { .. }, TaskEvent::Store(_)) => true,
            (TaskState::RefreshDetails { .. }, TaskEvent::Details(_)) => true,
            (TaskState::RefreshItem { entries, at }, TaskEvent::Done(_)) => *at < entries.len(),
            (TaskState::FreezeOne { .. }, TaskEvent::Done(_)) => true,
            (TaskState::FreezeMany, TaskEvent::Frozen(_)) => true,
            (TaskState::Unsubscribe { .. }, TaskEvent::Done(_)) => true,
            (TaskState::Remove { .. }, TaskEvent::Done(_)) => true,
            (TaskState::Checksum { .. }, TaskEvent::Checksum(_)) => true,
            (TaskState::Export, TaskEvent::Written(_)) => true,
            (TaskState::ReadBundle { .. }, TaskEvent::Read(_)) => true,
            (TaskState::BundleInstall { queue, at, .. }, TaskEvent::Done(_)) => *at < queue.len(),
            _ => false,
        }
    }

    /// Goes on with what came of the last action.
    pub fn step(self, event: TaskEvent) -> (r: TaskStep)
        requires
            awaits(self@, event),
        ensures
            r@ == advanced(self@, event),
    {
        let none: Vec<String> = Vec::new();
        assert(text::views(none@) =~= Seq::empty());
        match (self, event) {
            (TaskState::ImportDetails { items, download, freeze }, TaskEvent::Details(result)) => {
                let known: bool = match result {
                    Ok(n) => n > 0,
                    Err(_) => false,
                };
                if known {
                    TaskStep {
                        state: TaskState::ImportCheck { items, download, freeze },
                        action: TaskAction::ValidateDetails,
                    }
                } else {
                    turn_import(items, download, freeze, 0, none)
                }
            },
            (TaskState::ImportCheck { items, download, freeze }, TaskEvent::Done(result)) =>
                match result {
                Ok(_) => turn_import(items, download, freeze, 0, none),
                Err(error) => fail(error),
            },
            (
                TaskState::ImportItem { items, download, freeze, at, stage, failures },
                TaskEvent::Done(result),
            ) => next_import(items, download, freeze, at, stage, failures, result),
            (TaskState::RefreshStore { app_id }, TaskEvent::Store(result)) => match result {
                Ok(all) => {
                    let entries: Vec<StoreEntry> = keep_app(&all, app_id);
                    if entries.is_empty() {
                        end(Ok("No Workshop mods to refresh".to_owned()))
                    } else {
                        let ids: Vec<String> = ids_of_entries(&entries);
                        TaskStep {
                            state: TaskState::RefreshDetails { entries },
                            action: TaskAction::FetchDetails { ids },
                        }
                    }
                },
                Err(error) => fail(error),
            },
            (TaskState::RefreshDetails { entries }, TaskEvent::Details(result)) => match result {
                Ok(_) => turn_refresh(entries, 0),
                Err(error) => fail(error),
            },
            (TaskState::RefreshItem { entries, at }, TaskEvent::Done(result)) => match result {
                Ok(_) => {
                    assert(at < entries.len());
                    let next: usize = at + 1;
                    turn_refresh(entries, next)
                },
                Err(error) => fail(error),
            },
            (TaskState::FreezeOne { item_id }, TaskEvent::Done(result)) => match result {
                Ok(_) => end(Ok(concat("Froze the current version of ", item_id.as_str()))),
                Err(error) => fail(error),
            },
            (TaskState::FreezeMany, TaskEvent::Frozen(result)) => match result {
                Ok(summary) => {
                    let headline: String = counted_twice(
                        "Froze ",
                        summary.frozen as u128,
                        " mod(s), skipped ",
                        summary.skipped as u128,
                        " already frozen",
                    );
                    end(Ok(summarize(headline, &failed_entries(&summary.failed))))
                },
                Err(error) => fail(error),
            },
            (TaskState::Unsubscribe { item_id, delete_data }, TaskEvent::Done(_)) => TaskStep {
                state: TaskState::Remove { item_id: item_id.clone() },
                action: TaskAction::RemoveItem { item_id, delete_data },
            },
            (TaskState::Remove { item_id }, TaskEvent::Done(result)) => match result {
                Ok(_) => end(Ok(concat("Removed ", item_id.as_str()))),
                Err(error) => fail(error),
            },
            (TaskState::Checksum { path, include_disabled }, TaskEvent::Checksum(result)) =>
                match result {
                Ok(checksum) => TaskStep {
                    state: TaskState::Export,
                    action: TaskAction::WriteBundle {
                        path,
                        include_disabled,
                        include_frozen_payloads: true,
                        checksum,
                    },
                },
                Err(error) => fail(error),
            },
            (TaskState::Export, TaskEvent::Written(result)) => match result {
                Ok((mods, copies)) => end(
                    Ok(
                        counted_twice(
                            "Wrote ",
                            mods as u128,
                            " mod(s) and ",
                            copies as u128,
                            " frozen copy(ies)",
                        ),
                    ),
                ),
                Err(error) => fail(error),
            },
            (TaskState::ReadBundle { download }, TaskEvent::Read(result)) => match result {
                Ok(summary) => {
                    let queue: Vec<String> = if download {
                        summary.needs_download
                    } else {
                        let nothing: Vec<String> = Vec::new();
                        assert(text::views(nothing@) =~= Seq::empty());
                        nothing
                    };
                    let mods: u128 = summary.added as u128 + summary.updated as u128;
                    turn_bundle(mods, summary.restored, queue, 0, none)
                },
                Err(error) => fail(error),
            },
            (
                TaskState::BundleInstall { mods, restored, queue, at, failures },
                TaskEvent::Done(result),
            ) => {
                let mut failures: Vec<String> = failures;
                if let Err(error) = result {
                    add_failure(&mut failures, &queue[at], &error);
                }
                assert(at < queue.len());
                let next: usize = at + 1;
                turn_bundle(mods, restored, queue, next, failures)
            },
            (state, _) => TaskStep {
                state,
                action: TaskAction::Finish { message: Err(String::new()) },
            },
        }
    }
}

} // verus!
