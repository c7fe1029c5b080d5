//! The state of the Workshop tab and what its controls do to it.

use vstd::prelude::*;

use crate::text;
use crate::text::{concat, contains, decimal_text, to_lowercase, trim};
use crate::workshop::tasks;
use crate::workshop::tasks::{clone_text, SharedItem, WorkshopTask};

verus! {

broadcast use vstd::string::group_string_axioms;

/// How the frozen copy of a mod relates to what Steam has.
#[derive(Debug, Clone, Copy, PartialEq, Eq, Structural)]
pub enum PinState {
    NotFrozen,
    InSync,
    Drifted,
    LiveMissing,
    FrozenMissing,
}

/// One mod of the store, as a row of the tab.
#[derive(Debug)]
pub struct PinStatus {
    pub item_id: String,
    pub title: Option<String>,
    pub enabled: bool,
    pub frozen: bool,
    pub state: PinState,
    pub load_order: Option<u32>,
    pub pinned_version: Option<String>,
    pub url: String,
}

/// The checksum over the enabled mods, the game build and the load order.
#[derive(Debug)]
pub struct StateChecksum {
    pub checksum: String,
    pub mods: Vec<String>,
}

/// How a shared list differs from the enabled mods.
#[derive(Debug)]
pub struct ShareComparison {
    pub missing: Vec<SharedItem>,
    pub extra: Vec<SharedItem>,
    pub unresolvable: Vec<SharedItem>,
    pub order_differs: bool,
    /// Whether the lists agree.
    pub matches: bool,
}

/// The state of the Workshop tab.
#[derive(Debug)]
pub struct WorkshopViewState {
    pub items: Vec<PinStatus>,
    pub load_error: Option<String>,
    pub status: Option<String>,
    pub busy_label: Option<&'static str>,
    pub checksum: Option<StateChecksum>,
    pub filter: String,
    pub show_import_modal: bool,
    pub import_text: String,
    pub import_download: bool,
    pub import_freeze: bool,
    pub pending_remove: Option<String>,
    pub remove_delete_data: bool,
    pub compare_code: String,
    pub compare_result: Option<ShareComparison>,
    /// Cleared whenever the tab is (re)entered so the store is read from disk
    /// on the next frame. The CLI and other Foxy processes can change
    /// `workshop.json` while the tab sits idle.
    pub loaded: bool,
}

impl Default for WorkshopViewState {
    fn default() -> (r: Self)
        ensures
            r.items@.len() == 0,
            r.load_error is None,
            r.status is None,
            r.busy_label is None,
            r.checksum is None,
            r.filter@.len() == 0,
            !r.show_import_modal,
            r.import_text@.len() == 0,
            !r.import_download,
            !r.import_freeze,
            r.pending_remove is None,
            !r.remove_delete_data,
            r.compare_code@.len() == 0,
            r.compare_result is None,
            !r.loaded,
    {
        WorkshopViewState {
            items: Vec::new(),
            load_error: None,
            status: None,
            busy_label: None,
            checksum: None,
            filter: String::new(),
            show_import_modal: false,
            import_text: String::new(),
            import_download: false,
            import_freeze: false,
            pending_remove: None,
            remove_delete_data: false,
            compare_code: String::new(),
            compare_result: None,
            loaded: false,
        }
    }
}

/// The note that a game space without an app id shows in place of its mods.
pub open spec fn no_app_note() -> Seq<char> {
    "This game space has no Steam App ID yet. Set one in the game space settings to manage Workshop mods."@
}

/// What a shared list says of a mod.
pub open spec fn shared_from(item: PinStatus) -> SharedItem {
    SharedItem {
        item_id: item.item_id,
        name: item.title,
        load_order: item.load_order,
        version: item.pinned_version,
        resolvable: true,
    }
}

/// The mods that a shared list names, in the order of the tab.
pub open spec fn shared_list(items: Seq<PinStatus>, include_disabled: bool) -> Seq<SharedItem>
    decreases items.len(),
{
    if items.len() == 0 {
        Seq::empty()
    } else {
        let head = shared_list(items.drop_last(), include_disabled);
        if include_disabled || items.last().enabled {
            head.push(shared_from(items.last()))
        } else {
            head
        }
    }
}

/// The name under which a row shows.
pub open spec fn row_title(item: PinStatus) -> Seq<char> {
    match item.title {
        Some(t) => t@,
        None => item.item_id@,
    }
}

/// Whether a filter lets a row through. `filter` and `title_lower` are in lower
/// case; the id is compared as it is.
pub open spec fn passes(filter: Seq<char>, title_lower: Seq<char>, item_id: Seq<char>) -> bool {
    filter.len() == 0 || text::text_contains(title_lower, filter) || text::text_contains(
        item_id,
        filter,
    )
}

/// Whether a row shows under what stands in the filter field.
pub open spec fn row_shown(filter: Seq<char>, item: PinStatus) -> bool {
    passes(
        text::unicode_lowercase(text::trimmed(filter)),
        text::unicode_lowercase(row_title(item)),
        item.item_id@,
    )
}

/// The rows that show, among the first `n`.
pub open spec fn shown_rows(filter: Seq<char>, items: Seq<PinStatus>, n: int) -> Seq<int>
    decreases n,
{
    if n <= 0 {
        Seq::empty()
    } else {
        let head = shown_rows(filter, items, n - 1);
        if row_shown(filter, items[n - 1]) {
            head.push(n - 1)
        } else {
            head
        }
    }
}

/// Whether a filter in lower case lets a row through.
pub fn filter_passes(filter: &str, title_lower: &str, item_id: &str) -> (r: bool)
    ensures
        r == passes(filter@, title_lower@, item_id@),
{
    filter.is_empty() || contains(title_lower, filter) || contains(item_id, filter)
}

/// What a request to start a task comes to.
#[derive(Debug, Clone, Copy, PartialEq, Eq, Structural)]
pub enum TaskStart {
    /// Another task runs; say so.
    Busy,
    /// The game space has no app id; say so.
    NoApp,
    /// Start the task for this app.
    Started(u32),
}

/// The message for a request that cannot be met.
pub fn start_refusal(start: &TaskStart) -> (r: Option<&'static str>)
    ensures
        match *start {
            TaskStart::Busy => r matches Some(m) && m@ == "Another Workshop action is still running."@,
            TaskStart::NoApp => r matches Some(m) && m@ == "This game space has no Steam App ID yet."@,
            TaskStart::Started(_) => r is None,
        },
{
    match start {
        TaskStart::Busy => Some("Another Workshop action is still running."),
        TaskStart::NoApp => Some("This game space has no Steam App ID yet."),
        TaskStart::Started(_) => None,
    }
}

/// What looking for the result of a task found.
#[derive(Debug)]
pub enum TaskPoll {
    /// No task was started, or it is still running.
    Waiting,
    /// The worker ended without a result.
    Lost,
    Finished(Result<String, String>),
}

/// What to do after looking for the result of a task.
#[derive(Debug)]
pub enum PollFollowUp {
    Nothing,
    /// Read the store again.
    Reload,
    /// Show a message and read the store again.
    Announce { message: String, success: bool },
}

/// The colour of a badge.
#[derive(Debug, Clone, Copy, PartialEq, Eq, Structural)]
pub enum BadgeColor {
    Dim,
    Success,
    Error,
}

/// The badge of a row: its text, if it has one, and its colour.
pub fn workshop_pin_badge(state: PinState) -> (r: (Option<&'static str>, BadgeColor))
    ensures
        match state {
            PinState::NotFrozen => r.0 is None && r.1 == BadgeColor::Dim,
            PinState::InSync => r.0 matches Some(t) && t@ == "frozen"@ && r.1
                == BadgeColor::Success,
            PinState::Drifted => r.0 matches Some(t) && t@ == "frozen - Steam has a newer version"@
                && r.1 == BadgeColor::Error,
            PinState::LiveMissing => r.0 matches Some(t) && t@ == "frozen - not installed"@ && r.1
                == BadgeColor::Dim,
            PinState::FrozenMissing => r.0 matches Some(t) && t@ == "frozen copy is missing"@
                && r.1 == BadgeColor::Error,
        },
{
    match state {
        PinState::NotFrozen => (None, BadgeColor::Dim),
        PinState::InSync => (Some("frozen"), BadgeColor::Success),
        PinState::Drifted => (Some("frozen - Steam has a newer version"), BadgeColor::Error),
        PinState::LiveMissing => (Some("frozen - not installed"), BadgeColor::Dim),
        PinState::FrozenMissing => (Some("frozen copy is missing"), BadgeColor::Error),
    }
}

/// The line under the title of a row; `order_word` is the word for "order".
pub open spec fn row_detail_text(item: PinStatus, order_word: Seq<char>) -> Seq<char> {
    item.item_id@ + "  "@ + order_word + match item.load_order {
        Some(order) => " "@ + text::decimal(order as nat),
        None => " -"@,
    }
}

/// The line under the title of a row; `order_word` is the word for "order".
pub fn row_detail(item: &PinStatus, order_word: &str) -> (r: String)
    ensures
        r@ == row_detail_text(*item, order_word@),
{
    let tail: String = match item.load_order {
        Some(order) => concat(" ", decimal_text(order as u128).as_str()),
        None => " -".to_owned(),
    };
    let mut s: String = concat(item.item_id.as_str(), "  ");
    s.append(order_word);
    s.append(tail.as_str());
    s
}

/// Which buttons of a row can be pressed.
#[derive(Debug, Clone, Copy, PartialEq, Eq, Structural)]
pub struct RowButtons {
    pub remove: bool,
    pub freeze: bool,
    pub unfreeze: bool,
    pub open_page: bool,
    pub load_later: bool,
    pub load_earlier: bool,
}

/// A list that goes into a share code, and what the code says of each mod.
#[derive(Debug)]
pub struct ShareCodeRequest {
    pub items: Vec<SharedItem>,
    pub include_load_order: bool,
    pub include_versions: bool,
}

/// What a comparison with a shared list needs.
#[derive(Debug)]
pub struct ComparisonInput {
    pub code: String,
    pub local: Vec<SharedItem>,
}

/// Positions as integers.
pub open spec fn positions(v: Seq<usize>) -> Seq<int> {
    Seq::new(v.len(), |i: int| v[i] as int)
}

/// The ids of the rows.
pub open spec fn row_ids(items: Seq<PinStatus>) -> Seq<Seq<char>> {
    Seq::new(items.len(), |i: int| items[i].item_id@)
}

/// A list after its element `from` moved to the place `to`.
pub open spec fn moved(ids: Seq<Seq<char>>, from: int, to: int) -> Seq<Seq<char>> {
    ids.remove(from).insert(to, ids[from])
}

impl WorkshopViewState {
    /// Whether a task runs.
    pub fn busy(&self) -> (r: bool)
        ensures
            r == self.busy_label is Some,
    {
        self.busy_label.is_some()
    }

    /// Begins reading the store: without an app id there is nothing to read,
    /// and a note says so.
    pub fn begin_reload(&mut self, app_id: Option<u32>) -> (go_on: bool)
        ensures
            go_on == app_id is Some,
            go_on ==> *final(self) == *old(self),
            !go_on ==> {
                &&& final(self).items@.len() == 0
                &&& final(self).load_error matches Some(e) && e@ == no_app_note()
                &&& *final(self) == (WorkshopViewState {
                    items: final(self).items,
                    load_error: final(self).load_error,
                    checksum: None,
                    ..*old(self)
                })
            },
    {
        if app_id.is_none() {
            self.items = Vec::new();
            self.checksum = None;
            self.load_error = Some(
                "This game space has no Steam App ID yet. Set one in the game space settings to manage Workshop mods.".to_owned(),
            );
            return false;
        }
        true
    }

    /// Takes over what reading the store gave. A store that cannot be read
    /// leaves no rows and the reason.
    pub fn finish_reload(
        &mut self,
        store: Result<Vec<PinStatus>, String>,
        checksum: Option<StateChecksum>,
    )
        ensures
            match store {
                Ok(items) => final(self).items == items && final(self).load_error is None,
                Err(error) => final(self).items@.len() == 0 && final(self).load_error == Some(
                    error,
                ),
            },
            *final(self) == (WorkshopViewState {
                items: final(self).items,
                load_error: final(self).load_error,
                checksum,
                loaded: true,
                ..*old(self)
            }),
    {
        match store {
            Ok(items) => {
                self.items = items;
                self.load_error = None;
            },
            Err(error) => {
                self.items = Vec::new();
                self.load_error = Some(error);
            },
        }
        self.checksum = checksum;
        self.loaded = true;
    }

    /// What has to be compared, or nothing if no code was given; in that case
    /// the last result goes.
    pub fn refresh_workshop_comparison(&mut self) -> (r: Option<ComparisonInput>)
        ensures
            r is None <==> text::is_blank(old(self).compare_code@),
            r is None ==> *final(self) == (WorkshopViewState {
                compare_result: None,
                ..*old(self)
            }),
            r matches Some(input) ==> {
                &&& *final(self) == *old(self)
                &&& input.code@ == text::trimmed(old(self).compare_code@)
                &&& input.local@ == shared_list(old(self).items@, false)
            },
    {
        let code: String = trim(self.compare_code.as_str());
        if code.as_str().is_empty() {
            self.compare_result = None;
            return None;
        }
        Some(ComparisonInput { code, local: self.workshop_share_items(false) })
    }

    /// The mods that a shared list names.
    pub fn workshop_share_items(&self, include_disabled: bool) -> (r: Vec<SharedItem>)
        ensures
            r@ == shared_list(self.items@, include_disabled),
    {
        let mut out: Vec<SharedItem> = Vec::new();
        let mut i: usize = 0;
        assert(self.items@.take(0) =~= Seq::empty());
        while i < self.items.len()
            invariant
                i <= self.items@.len(),
                out@ == shared_list(self.items@.take(i as int), include_disabled),
            decreases self.items@.len() - i,
        {
            proof {
                assert(self.items@.take(i + 1).drop_last() =~= self.items@.take(i as int));
                assert(self.items@.take(i + 1).last() == self.items@[i as int]);
            }
            let item: &PinStatus = &self.items[i];
            if include_disabled || item.enabled {
                out.push(
                    SharedItem {
                        item_id: item.item_id.clone(),
                        name: clone_text(&item.title),
                        load_order: item.load_order,
                        version: clone_text(&item.pinned_version),
                        resolvable: true,
                    },
                );
            }
            i = i + 1;
        }
        assert(self.items@.take(self.items@.len() as int) =~= self.items@);
        out
    }

    /// The list that a share code holds: the enabled mods with their places in
    /// the load order and without their versions. Nothing without such a mod.
    pub fn share_code_request(&self) -> (r: Option<ShareCodeRequest>)
        ensures
            r is None <==> shared_list(self.items@, false).len() == 0,
            r matches Some(request) ==> {
                &&& request.items@ == shared_list(self.items@, false)
                &&& request.include_load_order
                &&& !request.include_versions
            },
    {
        let items: Vec<SharedItem> = self.workshop_share_items(false);
        if items.len() == 0 {
            return None;
        }
        Some(ShareCodeRequest { items, include_load_order: true, include_versions: false })
    }

    /// Asks for a task to be started.
    pub fn start_workshop_task(&mut self, task: &WorkshopTask, app_id: Option<u32>) -> (r:
        TaskStart)
        ensures
            r == (if old(self).busy_label is Some {
                TaskStart::Busy
            } else {
                match app_id {
                    Some(id) => TaskStart::Started(id),
                    None => TaskStart::NoApp,
                }
            }),
            r is Started ==> (final(self).busy_label matches Some(label) && label@
                == tasks::busy_text(*task)),
            r is Started ==> *final(self) == (WorkshopViewState {
                busy_label: final(self).busy_label,
                status: None,
                ..*old(self)
            }),
            !(r is Started) ==> *final(self) == *old(self),
    {
        if self.busy_label.is_some() {
            return TaskStart::Busy;
        }
        match app_id {
            Some(id) => {
                self.busy_label = Some(task.busy_label());
                self.status = None;
                TaskStart::Started(id)
            },
            None => TaskStart::NoApp,
        }
    }

    /// Takes over what looking for the result of a task found.
    pub fn poll_workshop_task(&mut self, poll: TaskPoll) -> (r: PollFollowUp)
        ensures
            match poll {
                TaskPoll::Waiting => r is Nothing && *final(self) == *old(self),
                TaskPoll::Lost => {
                    &&& r is Reload
                    &&& final(self).status matches Some(s) && s@
                        == "The Workshop action stopped unexpectedly."@
                    &&& *final(self) == (WorkshopViewState {
                        busy_label: None,
                        status: final(self).status,
                        ..*old(self)
                    })
                },
                TaskPoll::Finished(outcome) => {
                    let said = match outcome {
                        Ok(m) => m,
                        Err(m) => m,
                    };
                    &&& r matches PollFollowUp::Announce { message, success } && message == said
                        && success == outcome is Ok
                    &&& *final(self) == (WorkshopViewState {
                        busy_label: None,
                        status: Some(said),
                        ..*old(self)
                    })
                },
            },
    {
        match poll {
            TaskPoll::Waiting => PollFollowUp::Nothing,
            TaskPoll::Lost => {
                self.busy_label = None;
                self.status = Some("The Workshop action stopped unexpectedly.".to_owned());
                PollFollowUp::Reload
            },
            TaskPoll::Finished(outcome) => {
                self.busy_label = None;
                match outcome {
                    Ok(message) => {
                        self.status = Some(message.clone());
                        PollFollowUp::Announce { message, success: true }
                    },
                    Err(message) => {
                        self.status = Some(message.clone());
                        PollFollowUp::Announce { message, success: false }
                    },
                }
            },
        }
    }

    /// The rows that show under the filter.
    pub fn shown(&self) -> (r: Vec<usize>)
        ensures
            positions(r@) == shown_rows(self.filter@, self.items@, self.items@.len() as int),
    {
        let filter: String = to_lowercase(trim(self.filter.as_str()).as_str());
        let mut out: Vec<usize> = Vec::new();
        let mut i: usize = 0;
        assert(positions(out@) =~= Seq::empty());
        while i < self.items.len()
            invariant
                i <= self.items@.len(),
                filter@ == text::unicode_lowercase(text::trimmed(self.filter@)),
                positions(out@) == shown_rows(self.filter@, self.items@, i as int),
            decreases self.items@.len() - i,
        {
            let item: &PinStatus = &self.items[i];
            let title: String = match &item.title {
                Some(t) => t.clone(),
                None => item.item_id.clone(),
            };
            let lower: String = to_lowercase(title.as_str());
            if filter_passes(filter.as_str(), lower.as_str(), item.item_id.as_str()) {
                let ghost before = positions(out@);
                out.push(i);
                assert(positions(out@) =~= before.push(i as int));
            }
            i = i + 1;
        }
        out
    }

    /// Which buttons of a row can be pressed.
    pub fn row_buttons(&self, index: usize) -> (r: RowButtons)
        requires
            index < self.items@.len(),
        ensures
            ({
                let item = self.items@[index as int];
                let free = self.busy_label is None;
                r == RowButtons {
                    remove: free,
                    freeze: !item.frozen && free,
                    unfreeze: item.frozen && free,
                    open_page: item.url@.len() > 0,
                    load_later: index + 1 < self.items@.len(),
                    load_earlier: index > 0,
                }
            }),
    {
        let item: &PinStatus = &self.items[index];
        let free: bool = self.busy_label.is_none();
        RowButtons {
            remove: free,
            freeze: !item.frozen && free,
            unfreeze: item.frozen && free,
            open_page: !item.url.as_str().is_empty(),
            load_later: index < self.items.len() - 1,
            load_earlier: index > 0,
        }
    }

    /// The ids in the order in which they load after a row moved. Storing it
    /// rewrites every position, the first being 1, so that a store that never
    /// had a load order gets a complete one.
    pub fn move_workshop_item(&self, from: usize, to: usize) -> (r: Option<Vec<(String, u32)>>)
        requires
            self.items@.len() <= u32::MAX,
        ensures
            r is None <==> from >= self.items@.len() || to >= self.items@.len(),
            r matches Some(order) ==> {
                let ids = moved(row_ids(self.items@), from as int, to as int);
                &&& order@.len() == ids.len()
                &&& forall|i: int|
                    0 <= i < ids.len() ==> (#[trigger] order@[i]).0@ == ids[i] && order@[i].1 == i
                        + 1
            },
    {
        let n: usize = self.items.len();
        if from >= n || to >= n {
            return None;
        }
        let mut ids: Vec<String> = Vec::new();
        let mut i: usize = 0;
        while i < n
            invariant
                n == self.items@.len(),
                i <= n,
                text::views(ids@) =~= row_ids(self.items@).take(i as int),
            decreases n - i,
        {
            let ghost before = text::views(ids@);
            ids.push(self.items[i].item_id.clone());
            assert(text::views(ids@) =~= before.push(self.items@[i as int].item_id@));
            i = i + 1;
        }
        let ghost all = row_ids(self.items@);
        assert(text::views(ids@) =~= all);
        let id: String = ids.remove(from);
        assert(text::views(ids@) =~= all.remove(from as int));
        ids.insert(to, id);
        assert(text::views(ids@) =~= moved(all, from as int, to as int));
        let mut order: Vec<(String, u32)> = Vec::new();
        let mut k: usize = 0;
        while k < ids.len()
            invariant
                ids@.len() == n <= u32::MAX,
                text::views(ids@) == moved(all, from as int, to as int),
                k <= n,
                order@.len() == k,
                forall|i: int|
                    0 <= i < k ==> (#[trigger] order@[i]).0@ == moved(
                        all,
                        from as int,
                        to as int,
                    )[i] && order@[i].1 == i + 1,
            decreases n - k,
        {
            assert(text::views(ids@)[k as int] == ids@[k as int]@);
            order.push((ids[k].clone(), k as u32 + 1));
            k = k + 1;
        }
        Some(order)
    }

    /// Opens the window for a share code, with its fields as they start.
    pub fn open_import_modal(&mut self)
        ensures
            final(self).import_text@.len() == 0,
            *final(self) == (WorkshopViewState {
                show_import_modal: true,
                import_text: final(self).import_text,
                import_download: true,
                import_freeze: false,
                ..*old(self)
            }),
    {
        self.show_import_modal = true;
        self.import_text = String::new();
        self.import_download = true;
        self.import_freeze = false;
    }

    /// Closes the window for a share code and gives the task that it asks for.
    pub fn confirm_import(&mut self, items: Vec<SharedItem>) -> (r: WorkshopTask)
        ensures
            r == (WorkshopTask::Import {
                items,
                download: old(self).import_download,
                freeze: old(self).import_freeze,
            }),
            *final(self) == (WorkshopViewState { show_import_modal: false, ..*old(self) }),
    {
        self.show_import_modal = false;
        WorkshopTask::Import {
            items,
            download: self.import_download,
            freeze: self.import_freeze,
        }
    }

    /// Asks for confirmation before a mod is removed.
    pub fn request_remove(&mut self, item_id: String)
        ensures
            *final(self) == (WorkshopViewState {
                pending_remove: Some(item_id),
                remove_delete_data: false,
                ..*old(self)
            }),
    {
        self.pending_remove = Some(item_id);
        self.remove_delete_data = false;
    }

    /// The user confirmed that the mod be removed.
    pub fn confirm_remove(&mut self) -> (r: Option<WorkshopTask>)
        ensures
            r == (match old(self).pending_remove {
                Some(item_id) => Some(
                    WorkshopTask::Remove { item_id, delete_data: old(self).remove_delete_data },
                ),
                None => None,
            }),
            *final(self) == (WorkshopViewState { pending_remove: None, ..*old(self) }),
    {
        let delete_data: bool = self.remove_delete_data;
        match self.pending_remove.take() {
            Some(item_id) => Some(WorkshopTask::Remove { item_id, delete_data }),
            None => None,
        }
    }
}

/// Moving a row keeps every mod and puts the moved one where it was sent.
pub proof fn law_moving_keeps_every_mod(ids: Seq<Seq<char>>, from: int, to: int)
    requires
        0 <= from < ids.len(),
        0 <= to < ids.len(),
    ensures
        moved(ids, from, to).len() == ids.len(),
        moved(ids, from, to)[to] == ids[from],
        moved(ids, from, to).to_multiset() == ids.to_multiset(),
{
    vstd::seq_lib::to_multiset_remove(ids, from);
    vstd::seq_lib::to_multiset_insert(ids.remove(from), to, ids[from]);
    assert(ids.contains(ids[from]));
    vstd::seq_lib::to_multiset_contains(ids, ids[from]);
    assert(moved(ids, from, to).to_multiset() =~= ids.to_multiset());
}

/// Moving a row there and back leaves the order as it was.
pub proof fn law_moving_back_undoes(ids: Seq<Seq<char>>, from: int, to: int)
    requires
        0 <= from < ids.len(),
        0 <= to < ids.len(),
    ensures
        moved(moved(ids, from, to), to, from) == ids,
{
    assert(moved(moved(ids, from, to), to, from) =~= ids);
}

} // verus!
