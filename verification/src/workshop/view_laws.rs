//! What holds of the state of the Workshop tab.

use vstd::prelude::*;

use crate::text;
use crate::workshop::tasks::{SharedItem, WorkshopTask};
use crate::workshop::view;
use crate::workshop::view::{
    start_refusal, workshop_pin_badge, BadgeColor, ComparisonInput, PinState, PinStatus,
    PollFollowUp, RowButtons, ShareCodeRequest, ShareComparison, StateChecksum, TaskPoll,
    TaskStart, WorkshopViewState,
};

verus! {

broadcast use vstd::string::group_string_axioms;

// ---------------------------------------------------------------------------
// Removing and importing
// ---------------------------------------------------------------------------

/// A removal asks for the mod that the user chose, and starts out keeping its
/// data.
pub proof fn law_removal_asks_first(s: &mut WorkshopViewState, id: String)
    requires
        call_ensures(WorkshopViewState::request_remove, (s, id), ()),
    ensures
        final(s).pending_remove == Some(id),
        !final(s).remove_delete_data,
        final(s).items == old(s).items,
        final(s).busy_label == old(s).busy_label,
{
}

/// A confirmed removal is of the mod that was asked about, and deletes its data
/// exactly if that was ticked. It is confirmed once; without a question there is
/// nothing to confirm.
pub proof fn law_confirmed_removal_is_what_was_asked(
    s: &mut WorkshopViewState,
    r: Option<WorkshopTask>,
)
    requires
        call_ensures(WorkshopViewState::confirm_remove, (s,), r),
    ensures
        final(s).pending_remove is None,
        final(s).items == old(s).items,
        r is Some <==> old(s).pending_remove is Some,
        r is Some ==> (r->0 matches WorkshopTask::Remove { item_id, delete_data } && item_id
            == old(s).pending_remove->0 && delete_data == old(s).remove_delete_data),
{
}

/// The window for a share code opens empty, set to download and not to freeze.
pub proof fn law_import_starts_empty(s: &mut WorkshopViewState)
    requires
        call_ensures(WorkshopViewState::open_import_modal, (s,), ()),
    ensures
        final(s).show_import_modal,
        final(s).import_text@.len() == 0,
        final(s).import_download,
        !final(s).import_freeze,
        final(s).items == old(s).items,
        final(s).pending_remove == old(s).pending_remove,
{
}

/// A confirmed import is of the mods of the code, downloads and freezes exactly
/// as it was ticked, and closes the window.
pub proof fn law_confirmed_import_is_what_was_asked(
    s: &mut WorkshopViewState,
    items: Vec<SharedItem>,
    r: WorkshopTask,
)
    requires
        call_ensures(WorkshopViewState::confirm_import, (s, items), r),
    ensures
        !final(s).show_import_modal,
        final(s).items == old(s).items,
        r matches WorkshopTask::Import { items: asked, download, freeze } && asked == items
            && download == old(s).import_download && freeze == old(s).import_freeze,
{
}

// ---------------------------------------------------------------------------
// Tasks
// ---------------------------------------------------------------------------

/// One task runs at a time: while one runs another is refused, and so is one
/// without an app; either changes nothing and is told. A task that starts is
/// for the app of the space, and drops what was said of the last one.
pub proof fn law_one_task_at_a_time(
    s: &mut WorkshopViewState,
    task: WorkshopTask,
    app_id: Option<u32>,
    r: TaskStart,
    told: Option<&'static str>,
)
    requires
        call_ensures(WorkshopViewState::start_workshop_task, (s, &task, app_id), r),
        call_ensures(start_refusal, (&r,), told),
    ensures
        old(s).busy_label is Some ==> r is Busy,
        old(s).busy_label is None && app_id is None ==> r is NoApp,
        old(s).busy_label is None ==> (app_id matches Some(id) ==> r == TaskStart::Started(id)),
        r is Started ==> final(s).busy_label is Some && final(s).status is None && final(
            s).items == old(s).items,
        !(r is Started) ==> *final(s) == *old(s),
        told is None <==> r is Started,
        r is Busy ==> told->0@ == "Another Workshop action is still running."@,
        r is NoApp ==> told->0@ == "This game space has no Steam App ID yet."@,
{
}

/// A task that ended says what it came to, as a success or as a failure, and
/// another one can start; one that was lost is told as such. While it runs
/// nothing changes.
pub proof fn law_end_of_a_task_is_told(
    s: &mut WorkshopViewState,
    poll: TaskPoll,
    r: PollFollowUp,
)
    requires
        call_ensures(WorkshopViewState::poll_workshop_task, (s, poll), r),
    ensures
        poll is Waiting ==> *final(s) == *old(s) && r is Nothing,
        !(poll is Waiting) ==> final(s).busy_label is None && final(s).items == old(s).items,
        poll is Lost ==> r is Reload && final(s).status is Some && final(s).status->0@
            == "The Workshop action stopped unexpectedly."@,
        poll matches TaskPoll::Finished(Ok(text)) ==> final(s).status == Some(text) && (
        r matches PollFollowUp::Announce { message, success } && message == text && success),
        poll matches TaskPoll::Finished(Err(text)) ==> final(s).status == Some(text) && (
        r matches PollFollowUp::Announce { message, success } && message == text && !success),
{
}

// ---------------------------------------------------------------------------
// Rows
// ---------------------------------------------------------------------------

/// The buttons of a row: a mod is frozen or unfrozen, never both; nothing that
/// starts a task can be pressed while one runs; the first row cannot load
/// earlier and the last not later.
pub proof fn law_buttons_of_a_row(s: WorkshopViewState, index: usize, r: RowButtons)
    requires
        index < s.items@.len(),
        call_ensures(WorkshopViewState::row_buttons, (&s, index), r),
    ensures
        s.busy_label is Some ==> !r.remove && !r.freeze && !r.unfreeze,
        s.busy_label is None ==> r.remove && (r.freeze <==> !s.items@[index as int].frozen) && (
        r.unfreeze <==> s.items@[index as int].frozen),
        r.load_earlier <==> index != 0,
        r.load_later <==> index != s.items@.len() - 1,
        r.open_page <==> s.items@[index as int].url@.len() != 0,
{
}

/// The stored order after a move: every mod with its place, counted from one.
pub proof fn law_moved_order_is_counted_from_one(
    s: WorkshopViewState,
    from: usize,
    to: usize,
    r: Option<Vec<(String, u32)>>,
    i: int,
)
    requires
        s.items@.len() <= u32::MAX,
        call_ensures(WorkshopViewState::move_workshop_item, (&s, from, to), r),
    ensures
        r is Some <==> from < s.items@.len() && to < s.items@.len(),
        r is Some ==> r->0@.len() == s.items@.len(),
        r is Some && 0 <= i < s.items@.len() ==> r->0@[i].1 == i + 1,
        r is Some ==> r->0@[to as int].0@ == s.items@[from as int].item_id@,
        r is Some && 0 <= i < s.items@.len() && i < from && i < to ==> r->0@[i].0@
            == s.items@[i].item_id@,
        r is Some && 0 <= i < s.items@.len() && i > from && i > to ==> r->0@[i].0@
            == s.items@[i].item_id@,
        r is Some && from < i <= to ==> r->0@[i - 1].0@ == s.items@[i].item_id@,
        r is Some && to <= i < from ==> r->0@[i + 1].0@ == s.items@[i].item_id@,
{
    if r is Some {
        let ids = view::moved(view::row_ids(s.items@), from as int, to as int);
        let order = r->0@;
        assert(order.len() == ids.len());
        assert(order[to as int].0@ == ids[to as int]);
        if 0 <= i < s.items@.len() {
            assert(order[i].0@ == ids[i]);
            if from < i <= to {
                assert(order[i - 1].0@ == ids[i - 1]);
            }
            if to <= i < from {
                assert(order[i + 1].0@ == ids[i + 1]);
            }
        }
    }
}

/// The badge of a mod: none without a frozen copy; an error exactly if the copy
/// is missing or Steam has a newer one.
pub proof fn law_badge_warns_of_drift(state: PinState, r: (Option<&'static str>, BadgeColor))
    requires
        call_ensures(workshop_pin_badge, (state,), r),
    ensures
        r.0 is None <==> state is NotFrozen,
        r.1 == BadgeColor::Error <==> state is Drifted || state is FrozenMissing,
        r.1 == BadgeColor::Success <==> state is InSync,
        state is Drifted ==> r.0->0@ == "frozen - Steam has a newer version"@,
        state is FrozenMissing ==> r.0->0@ == "frozen copy is missing"@,
        state is LiveMissing ==> r.0->0@ == "frozen - not installed"@,
        state is InSync ==> r.0->0@ == "frozen"@,
{
}

// ---------------------------------------------------------------------------
// Reading and sharing
// ---------------------------------------------------------------------------

/// A space without an app shows no mods and says why; any other is read.
pub proof fn law_space_without_an_app_shows_nothing(
    s: &mut WorkshopViewState,
    app_id: Option<u32>,
    go_on: bool,
)
    requires
        call_ensures(WorkshopViewState::begin_reload, (s, app_id), go_on),
    ensures
        go_on <==> app_id is Some,
        app_id is Some ==> *final(s) == *old(s),
        app_id is None ==> final(s).items@.len() == 0 && final(s).load_error is Some && final(
            s).checksum is None,
{
}

/// What was read shows, with its checksum; what could not be read leaves the
/// reason. Either way it was read.
pub proof fn law_what_was_read_shows(
    s: &mut WorkshopViewState,
    store: Result<Vec<PinStatus>, String>,
    checksum: Option<StateChecksum>,
)
    requires
        call_ensures(WorkshopViewState::finish_reload, (s, store, checksum), ()),
    ensures
        final(s).loaded,
        final(s).checksum == checksum,
        store matches Ok(items) ==> final(s).items == items && final(s).load_error is None,
        store matches Err(e) ==> final(s).items@.len() == 0 && final(s).load_error == Some(e),
        final(s).filter == old(s).filter,
        final(s).busy_label == old(s).busy_label,
{
}

/// A shared code holds the enabled mods and their load order, not their
/// versions; there is one exactly if a mod is enabled.
pub proof fn law_share_code_holds_enabled_mods(
    s: WorkshopViewState,
    r: Option<ShareCodeRequest>,
    i: int,
)
    requires
        call_ensures(WorkshopViewState::share_code_request, (&s,), r),
    ensures
        r is Some ==> r->0.include_load_order && !r->0.include_versions && r->0.items@
            == view::shared_list(s.items@, false),
        0 <= i < s.items@.len() && s.items@[i].enabled ==> r is Some,
        r is Some ==> exists|j: int| 0 <= j < s.items@.len() && (#[trigger] s.items@[j]).enabled,
{
    lemma_shared_nonempty(s.items@);
    if 0 <= i < s.items@.len() && s.items@[i].enabled {
        assert(s.items@[i].enabled);
    }
}

proof fn lemma_shared_nonempty(items: Seq<PinStatus>)
    ensures
        view::shared_list(items, false).len() > 0 <==> exists|j: int|
            0 <= j < items.len() && (#[trigger] items[j]).enabled,
    decreases items.len(),
{
    if items.len() > 0 {
        let head = items.drop_last();
        lemma_shared_nonempty(head);
        if exists|j: int| 0 <= j < items.len() && (#[trigger] items[j]).enabled {
            let j = choose|j: int| 0 <= j < items.len() && (#[trigger] items[j]).enabled;
            if j < head.len() {
                assert(head[j].enabled);
            }
        }
        if exists|j: int| 0 <= j < head.len() && (#[trigger] head[j]).enabled {
            let j = choose|j: int| 0 <= j < head.len() && (#[trigger] head[j]).enabled;
            assert(items[j].enabled);
        }
        if items.last().enabled {
            assert(items[items.len() - 1].enabled);
        }
    }
}

/// A comparison is made with the code that was typed, without the white space
/// around it, and with the enabled mods. A blank code drops the last result.
pub proof fn law_comparison_is_with_the_typed_code(
    s: &mut WorkshopViewState,
    r: Option<ComparisonInput>,
)
    requires
        call_ensures(WorkshopViewState::refresh_workshop_comparison, (s,), r),
    ensures
        r is Some <==> text::trimmed(old(s).compare_code@).len() > 0,
        r is None ==> final(s).compare_result is None,
        r is Some ==> r->0.code@ == text::trimmed(old(s).compare_code@) && r->0.local@
            == view::shared_list(old(s).items@, false) && *final(s) == *old(s),
        final(s).items == old(s).items,
{
}

/// What a comparison offers to import is what is missing and nothing else, to be
/// downloaded and not frozen; it is offered exactly if something is missing.
pub proof fn law_missing_mods_are_imported(c: ShareComparison, r: WorkshopTask, offered: bool)
    requires
        call_ensures(ShareComparison::import_missing, (&c,), r),
        call_ensures(ShareComparison::can_import, (&c,), offered),
    ensures
        r matches WorkshopTask::Import { items, download, freeze } && items@ == c.missing@
            && download && !freeze,
        offered <==> c.missing@.len() > 0 && !c.matches,
{
}

/// A comparison that is dropped leaves nothing of itself, and everything else.
pub proof fn law_dropped_comparison_is_gone(s: &mut WorkshopViewState)
    requires
        call_ensures(WorkshopViewState::clear_comparison, (s,), ()),
    ensures
        final(s).compare_code@.len() == 0,
        final(s).compare_result is None,
        final(s).items == old(s).items,
        final(s).filter == old(s).filter,
{
}

} // verus!
