//! The list of saved benchmarks: what a row shows and what its controls do.

use vstd::prelude::*;

use crate::figures;
use crate::figures::{fmt_bytes, seconds_text};
use crate::message;
use crate::message::{one, Message, MessageModel};
use crate::repository;
use crate::settings::benchmarks::record;
use crate::settings::benchmarks::record::BenchmarkRecord;
use crate::settings::diagnostics;
use crate::settings::diagnostics::log_lines;
use crate::text;
use crate::text::{concat, decimal_text, join, same_text, trim_unless_blank};

verus! {

broadcast use vstd::string::group_string_axioms;

/// What a click on a row asks for.
#[derive(Debug, Clone, Copy, PartialEq, Eq, Structural)]
pub enum RowAction {
    ToggleExpand,
    ToggleFavourite,
    ToggleHidden,
    ToggleSelect,
    Export,
    Remove,
    ConfirmRemove,
    CancelRemove,
}

/// What the caller does for a click, besides drawing again.
#[derive(Debug, Clone, Copy, PartialEq, Eq, Structural)]
pub enum RowEffect {
    Nothing,
    /// The record is to be written to disk.
    Persist,
    /// The record is to be selected for comparison, or no longer.
    ToggleSelected,
    StartExport,
    /// The record is to be removed.
    Remove,
}

/// The list of saved benchmarks.
#[derive(Debug)]
pub struct BenchmarksView {
    pub records: Vec<BenchmarkRecord>,
    /// The records whose details show.
    pub expanded: Vec<String>,
    /// The record whose removal is to be confirmed.
    pub pending_remove: Option<String>,
    /// The records that are selected for comparison.
    pub selected: Vec<String>,
    pub compare_open: bool,
    /// Whether the older record always comes first in a comparison.
    pub compare_by_date: bool,
}

/// The first record with an id, from `i` on.
pub open spec fn record_from(records: Seq<BenchmarkRecord>, id: Seq<char>, i: int) -> Option<int>
    decreases records.len() - i,
{
    if i >= records.len() {
        None
    } else if records[i].id@ == id {
        Some(i)
    } else {
        record_from(records, id, i + 1)
    }
}

/// Whether a list holds an id.
pub open spec fn holds(ids: Seq<String>, id: Seq<char>) -> bool {
    text::views(ids).contains(id)
}

/// The records once one of them has changed.
pub open spec fn with_record(
    records: Seq<BenchmarkRecord>,
    id: Seq<char>,
    change: spec_fn(BenchmarkRecord) -> BenchmarkRecord,
) -> Seq<BenchmarkRecord> {
    match record_from(records, id, 0) {
        Some(i) => records.update(i, change(records[i])),
        None => records,
    }
}

/// A record with its star switched.
pub open spec fn starred() -> spec_fn(BenchmarkRecord) -> BenchmarkRecord {
    |r: BenchmarkRecord| BenchmarkRecord { favourite: !r.favourite, ..r }
}

/// A record that was hidden shown, one that was shown hidden.
pub open spec fn hidden_switched() -> spec_fn(BenchmarkRecord) -> BenchmarkRecord {
    |r: BenchmarkRecord| BenchmarkRecord { hidden: !r.hidden, ..r }
}

/// What a click leaves of the list.
pub open spec fn is_after(
    before: BenchmarksView,
    after: BenchmarksView,
    id: Seq<char>,
    action: RowAction,
) -> bool {
    &&& after.selected == before.selected
    &&& after.compare_open == before.compare_open
    &&& after.compare_by_date == before.compare_by_date
    &&& match action {
        RowAction::ToggleFavourite => after.records@ == with_record(
            before.records@,
            id,
            starred(),
        ),
        RowAction::ToggleHidden => after.records@ == with_record(
            before.records@,
            id,
            hidden_switched(),
        ),
        _ => after.records == before.records,
    }
    &&& match action {
        RowAction::ToggleExpand => forall|other: Seq<char>| #[trigger]
            holds(after.expanded@, other) == if other == id {
                !holds(before.expanded@, id)
            } else {
                holds(before.expanded@, other)
            },
        _ => after.expanded == before.expanded,
    }
    &&& match action {
        RowAction::Remove => repository::opt_view(after.pending_remove) == Some(id),
        RowAction::CancelRemove => after.pending_remove is None,
        _ => after.pending_remove == before.pending_remove,
    }
}

/// What the caller does for a click.
pub open spec fn effect_of(action: RowAction) -> RowEffect {
    match action {
        RowAction::ToggleFavourite | RowAction::ToggleHidden => RowEffect::Persist,
        RowAction::ToggleSelect => RowEffect::ToggleSelected,
        RowAction::Export => RowEffect::StartExport,
        RowAction::ConfirmRemove => RowEffect::Remove,
        RowAction::ToggleExpand | RowAction::Remove | RowAction::CancelRemove => RowEffect::Nothing,
    }
}

/// Whether a list holds an id.
fn list_holds(ids: &Vec<String>, id: &str) -> (r: bool)
    ensures
        r == holds(ids@, id@),
{
    let ghost all = text::views(ids@);
    let mut i: usize = 0;
    while i < ids.len()
        invariant
            all == text::views(ids@),
            i <= ids@.len(),
            forall|j: int| 0 <= j < i ==> all[j] != id@,
        decreases ids@.len() - i,
    {
        assert(all[i as int] == ids@[i as int]@);
        if same_text(ids[i].as_str(), id) {
            return true;
        }
        i = i + 1;
    }
    false
}

/// A list without an id.
fn list_without(ids: &Vec<String>, id: &str) -> (r: Vec<String>)
    ensures
        forall|other: Seq<char>| #[trigger]
            holds(r@, other) == (other != id@ && holds(ids@, other)),
{
    let ghost all = text::views(ids@);
    let mut left: Vec<String> = Vec::new();
    let mut i: usize = 0;
    proof {
        assert forall|other: Seq<char>| #[trigger] holds(left@, other) == (other != id@
            && all.take(0).contains(other)) by {}
    }
    while i < ids.len()
        invariant
            all == text::views(ids@),
            i <= ids@.len(),
            forall|other: Seq<char>| #[trigger]
                holds(left@, other) == (other != id@ && all.take(i as int).contains(other)),
        decreases ids@.len() - i,
    {
        let ghost kept = text::views(left@);
        let ghost before = left@;
        let same: bool = same_text(ids[i].as_str(), id);
        if !same {
            left.push(ids[i].clone());
        }
        proof {
            let now = all.take(i + 1);
            let head = all.take(i as int);
            let item = ids@[i as int]@;
            assert(now =~= head.push(item));
            if !same {
                assert(text::views(left@) =~= kept.push(item));
            }
            assert forall|other: Seq<char>| #[trigger] holds(left@, other) == (other != id@
                && now.contains(other)) by {
                lemma_push_contains(head, item, other);
                assert(holds(before, other) == (other != id@ && head.contains(other)));
                if !same {
                    lemma_push_contains(kept, item, other);
                }
            }
        }
        i = i + 1;
    }
    assert(all.take(all.len() as int) =~= all);
    left
}

/// What a sequence with one more item holds.
proof fn lemma_push_contains(s: Seq<Seq<char>>, item: Seq<char>, other: Seq<char>)
    ensures
        s.push(item).contains(other) == (s.contains(other) || other == item),
{
    let p = s.push(item);
    if s.contains(other) {
        let k = choose|k: int| 0 <= k < s.len() && s[k] == other;
        assert(p[k] == other);
    }
    if other == item {
        assert(p[s.len() as int] == other);
    }
    if p.contains(other) && other != item {
        let k = choose|k: int| 0 <= k < p.len() && p[k] == other;
        assert(s[k] == other);
    }
}

impl BenchmarksView {
    /// The position of the first record with an id.
    pub fn find(&self, id: &str) -> (r: Option<usize>)
        ensures
            match r {
                Some(i) => i < self.records@.len() && record_from(self.records@, id@, 0) == Some(
                    i as int,
                ),
                None => record_from(self.records@, id@, 0) is None,
            },
    {
        let mut i: usize = 0;
        while i < self.records.len()
            invariant
                i <= self.records@.len(),
                record_from(self.records@, id@, 0) == record_from(self.records@, id@, i as int),
            decreases self.records@.len() - i,
        {
            if same_text(self.records[i].id.as_str(), id) {
                return Some(i);
            }
            i = i + 1;
        }
        None
    }

    /// A click on the row of a record.
    pub fn apply_benchmark_row_action(&mut self, id: &str, action: RowAction) -> (r: RowEffect)
        ensures
            is_after(*old(self), *final(self), id@, action),
            r == effect_of(action),
    {
        let ghost before = *self;
        match action {
            RowAction::ToggleExpand => {
                if list_holds(&self.expanded, id) {
                    self.expanded = list_without(&self.expanded, id);
                } else {
                    let ghost kept = text::views(self.expanded@);
                    self.expanded.push(id.to_owned());
                    proof {
                        assert(text::views(self.expanded@) =~= kept.push(id@));
                        assert forall|other: Seq<char>| #[trigger]
                            holds(self.expanded@, other) == if other == id@ {
                                !holds(before.expanded@, id@)
                            } else {
                                holds(before.expanded@, other)
                            } by {
                            lemma_push_contains(kept, id@, other);
                        }
                    }
                }
                RowEffect::Nothing
            },
            RowAction::ToggleFavourite => {
                if let Some(i) = self.find(id) {
                    self.records[i].favourite = !self.records[i].favourite;
                    assert(self.records@ =~= with_record(before.records@, id@, starred()));
                }
                RowEffect::Persist
            },
            RowAction::ToggleHidden => {
                if let Some(i) = self.find(id) {
                    self.records[i].hidden = !self.records[i].hidden;
                    assert(self.records@ =~= with_record(before.records@, id@, hidden_switched()));
                }
                RowEffect::Persist
            },
            RowAction::ToggleSelect => RowEffect::ToggleSelected,
            RowAction::Export => RowEffect::StartExport,
            RowAction::Remove => {
                self.pending_remove = Some(id.to_owned());
                RowEffect::Nothing
            },
            RowAction::CancelRemove => {
                self.pending_remove = None;
                RowEffect::Nothing
            },
            RowAction::ConfirmRemove => RowEffect::Remove,
        }
    }
}

/// What [`record_from`] finds has the id.
proof fn lemma_record_from(records: Seq<BenchmarkRecord>, id: Seq<char>, i: int)
    requires
        0 <= i,
    ensures
        record_from(records, id, i) matches Some(k) ==> i <= k < records.len(),
    decreases records.len() - i,
{
    if i < records.len() && records[i].id@ != id {
        lemma_record_from(records, id, i + 1);
    }
}

/// Ids decide which record is found, and nothing else does.
proof fn lemma_same_ids(a: Seq<BenchmarkRecord>, b: Seq<BenchmarkRecord>, id: Seq<char>, i: int)
    requires
        0 <= i,
        a.len() == b.len(),
        forall|j: int| 0 <= j < a.len() ==> (#[trigger] a[j]).id == b[j].id,
    ensures
        record_from(a, id, i) == record_from(b, id, i),
    decreases a.len() - i,
{
    if i < a.len() {
        assert(a[i].id == b[i].id);
        lemma_same_ids(a, b, id, i + 1);
    }
}

/// Clicking a star twice leaves the records as they were, and so does hiding
/// and showing.
pub proof fn law_switching_twice(records: Seq<BenchmarkRecord>, id: Seq<char>)
    ensures
        with_record(with_record(records, id, starred()), id, starred()) == records,
        with_record(with_record(records, id, hidden_switched()), id, hidden_switched()) == records,
{
    lemma_record_from(records, id, 0);
    let once = with_record(records, id, starred());
    lemma_same_ids(once, records, id, 0);
    assert(with_record(once, id, starred()) =~= records);
    let shown = with_record(records, id, hidden_switched());
    lemma_same_ids(shown, records, id, 0);
    assert(with_record(shown, id, hidden_switched()) =~= records);
}

// ---------------------------------------------------------------------------
// A row
// ---------------------------------------------------------------------------

/// What stands between the parts of a line.
pub open spec fn dot() -> Seq<char> {
    "  \u{00B7}  "@
}

/// The line below the name of a record.
pub open spec fn meta_parts(r: BenchmarkRecord) -> Seq<Seq<char>> {
    let s = seq![r.repository.name@, r.started_at_local@];
    let s = if r.machine.repository_storage_class@.len() > 0 {
        s.push(r.machine.repository_storage_class@)
    } else {
        s
    };
    if r.build.version@.len() > 0 {
        s.push(r.build.version@ + " "@ + r.build.commit@)
    } else {
        s
    }
}

/// Adds a part to a line.
fn add_part(parts: &mut Vec<String>, part: String)
    ensures
        text::views(final(parts)@) == text::views(old(parts)@).push(part@),
{
    let ghost before = text::views(parts@);
    let ghost said = part@;
    parts.push(part);
    assert(text::views(parts@) =~= before.push(said));
}

/// The line below the name of a record: its repository, when it ran, on what
/// storage and which build, as far as they are known.
pub fn row_meta(record: &BenchmarkRecord) -> (r: String)
    ensures
        r@ == text::joined(meta_parts(*record), dot()),
{
    let mut parts: Vec<String> = Vec::new();
    assert(text::views(parts@) =~= Seq::empty());
    add_part(&mut parts, record.repository.name.clone());
    add_part(&mut parts, record.started_at_local.clone());
    if !record.machine.repository_storage_class.as_str().is_empty() {
        add_part(&mut parts, record.machine.repository_storage_class.clone());
    }
    if !record.build.version.as_str().is_empty() {
        let mut build: String = concat(record.build.version.as_str(), " ");
        build.append(record.build.commit.as_str());
        add_part(&mut parts, build);
    }
    assert(text::views(parts@) =~= meta_parts(*record));
    join(&parts, "  \u{00B7}  ")
}

/// The text that hovers over the name of a record.
pub open spec fn hover_of(r: BenchmarkRecord) -> Seq<char> {
    let head = r.repository.url@ + "\n"@ + r.id@;
    match text::unless_blank(r.notes@) {
        Some(notes) => head + "\n"@ + notes,
        None => head,
    }
}

/// The text that hovers over the name of a record: the address of its
/// repository, its id and its notes.
pub fn benchmark_row_hover(record: &BenchmarkRecord) -> (r: String)
    ensures
        r@ == hover_of(*record),
{
    let mut s: String = concat(record.repository.url.as_str(), "\n");
    s.append(record.id.as_str());
    if let Some(notes) = trim_unless_blank(record.notes.as_str()) {
        s.append("\n");
        s.append(notes.as_str());
    }
    s
}

/// The first line of the notes of a record, if there are any.
pub open spec fn first_note(r: BenchmarkRecord) -> Option<Seq<char>> {
    match text::unless_blank(r.notes@) {
        Some(notes) => {
            let lines = diagnostics::lines_of(notes);
            Some(
                if lines.len() == 0 {
                    Seq::empty()
                } else {
                    lines[0]
                },
            )
        },
        None => None,
    }
}

/// The line of notes in a row that is not expanded.
pub fn row_note(record: &BenchmarkRecord, expanded: bool) -> (r: Option<String>)
    ensures
        repository::opt_view(r) == if expanded {
            None
        } else {
            first_note(*record)
        },
{
    if expanded {
        return None;
    }
    match trim_unless_blank(record.notes.as_str()) {
        Some(notes) => {
            let lines: Vec<String> = log_lines(notes.as_str());
            assert(text::views(lines@).len() == lines@.len());
            if lines.len() == 0 {
                Some(String::new())
            } else {
                assert(text::views(lines@)[0] == lines@[0]@);
                Some(lines[0].clone())
            }
        },
        None => None,
    }
}

/// What chips say: the caption to be translated, and the value.
pub open spec fn chip_models(v: Seq<(&'static str, String)>) -> Seq<(Seq<char>, Seq<char>)> {
    Seq::new(v.len(), |i: int| (v[i].0@, v[i].1@))
}

/// `s` with one more chip, if `condition` holds.
pub open spec fn chip_if(
    s: Seq<(Seq<char>, Seq<char>)>,
    condition: bool,
    label: Seq<char>,
    value: Seq<char>,
) -> Seq<(Seq<char>, Seq<char>)> {
    if condition {
        s.push((label, value))
    } else {
        s
    }
}

/// The chips of a row that is not expanded, from right to left.
pub open spec fn chips_of(r: BenchmarkRecord) -> Seq<(Seq<char>, Seq<char>)> {
    let m = r.metrics;
    let transfers = record::transfers(r.kind);
    let s = Seq::<(Seq<char>, Seq<char>)>::empty();
    let s = chip_if(s, r.hidden, "Hidden"@, "\u{1F6AB}"@);
    let s = chip_if(s, r.sol_text is Some, "SoL"@, r.sol_text->0@);
    let s = chip_if(
        s,
        transfers && m.downloaded_bytes > 0,
        "downloaded"@,
        figures::bytes_shown(m.downloaded_bytes as nat),
    );
    let s = chip_if(s, r.rate is Some, "avg"@, record::rate_shown(r.rate->0));
    let s = chip_if(
        s,
        m.hash_files_total > 0 && !transfers,
        "files"@,
        text::decimal(m.hash_files_total as nat),
    );
    s.push(("elapsed"@, figures::seconds_shown(r.elapsed_ms as nat) + " s"@))
}

/// Adds a chip.
fn add_chip(chips: &mut Vec<(&'static str, String)>, label: &'static str, value: String)
    ensures
        chip_models(final(chips)@) == chip_models(old(chips)@).push((label@, value@)),
{
    let ghost before = chip_models(chips@);
    let ghost said = value@;
    chips.push((label, value));
    assert(chip_models(chips@) =~= before.push((label@, said)));
}

/// The chips of a row that is not expanded, from right to left.
pub fn row_chips(record: &BenchmarkRecord) -> (chips: Vec<(&'static str, String)>)
    ensures
        chip_models(chips@) == chips_of(*record),
{
    let m = &record.metrics;
    let transfers: bool = record.kind.transfers_files();
    let mut chips: Vec<(&'static str, String)> = Vec::new();
    assert(chip_models(chips@) =~= Seq::empty());
    if record.hidden {
        add_chip(&mut chips, "Hidden", "\u{1F6AB}".to_owned());
    }
    if let Some(sol) = &record.sol_text {
        add_chip(&mut chips, "SoL", sol.clone());
    }
    if transfers && m.downloaded_bytes > 0 {
        add_chip(&mut chips, "downloaded", fmt_bytes(m.downloaded_bytes));
    }
    if let Some(rate) = &record.rate {
        add_chip(&mut chips, "avg", rate.text());
    }
    if m.hash_files_total > 0 && !transfers {
        add_chip(&mut chips, "files", decimal_text(m.hash_files_total as u128));
    }
    add_chip(&mut chips, "elapsed", concat(seconds_text(record.elapsed_ms).as_str(), " s"));
    chips
}

/// The buttons of a row, from right to left, and whether each works.
pub open spec fn buttons_of(pending_remove: bool, exporting: bool) -> Seq<(RowAction, bool)> {
    if pending_remove {
        seq![(RowAction::ConfirmRemove, true), (RowAction::CancelRemove, true)]
    } else {
        seq![
            (RowAction::Remove, true),
            (RowAction::Export, !exporting),
            (RowAction::ToggleHidden, true),
            (RowAction::ToggleFavourite, true),
            (RowAction::ToggleSelect, true),
        ]
    }
}

/// The buttons of a row, from right to left, and whether each works. While a
/// removal is to be confirmed nothing else can be done.
pub fn row_buttons(pending_remove: bool, exporting: bool) -> (r: Vec<(RowAction, bool)>)
    ensures
        r@ == buttons_of(pending_remove, exporting),
{
    let r: Vec<(RowAction, bool)> = if pending_remove {
        vec![(RowAction::ConfirmRemove, true), (RowAction::CancelRemove, true)]
    } else {
        vec![
            (RowAction::Remove, true),
            (RowAction::Export, !exporting),
            (RowAction::ToggleHidden, true),
            (RowAction::ToggleFavourite, true),
            (RowAction::ToggleSelect, true),
        ]
    };
    assert(r@ =~= buttons_of(pending_remove, exporting));
    r
}

/// A record is removed only by a button that shows once its removal was asked
/// for.
pub proof fn law_removal_is_confirmed(pending_remove: bool, exporting: bool, i: int)
    requires
        0 <= i < buttons_of(pending_remove, exporting).len(),
        effect_of(buttons_of(pending_remove, exporting)[i].0) == RowEffect::Remove,
    ensures
        pending_remove,
{
}

// ---------------------------------------------------------------------------
// Above the list
// ---------------------------------------------------------------------------

/// How the button of an action looks: its icon, its word and what it is said to
/// do. The words are to be translated.
pub open spec fn button_look(action: RowAction, hidden: bool, favourite: bool) -> (
    Seq<char>,
    Seq<char>,
    Seq<char>,
) {
    match action {
        RowAction::ConfirmRemove => (""@, "Confirm remove"@, ""@),
        RowAction::CancelRemove => (""@, "Cancel"@, ""@),
        RowAction::Remove => ("\u{1F5D1}"@, ""@, "Remove benchmark"@),
        RowAction::Export => ("\u{1F4E6}"@, "Export"@, "Export benchmark to ZIP"@),
        RowAction::ToggleHidden if hidden => ("\u{1F441}"@, ""@, "Unhide benchmark"@),
        RowAction::ToggleHidden => ("\u{1F6AB}"@, ""@, "Hide benchmark"@),
        RowAction::ToggleFavourite if favourite => ("\u{2605}"@, ""@, "Favourite"@),
        RowAction::ToggleFavourite => ("\u{2606}"@, ""@, "Favourite"@),
        RowAction::ToggleSelect => (""@, "Compare"@, "Select two benchmarks to compare them."@),
        RowAction::ToggleExpand => (""@, ""@, ""@),
    }
}

/// How the button of an action looks on the row of a record.
pub fn row_button_look(action: RowAction, hidden: bool, favourite: bool) -> (r: (
    &'static str,
    &'static str,
    &'static str,
))
    ensures
        (r.0@, r.1@, r.2@) == button_look(action, hidden, favourite),
{
    match action {
        RowAction::ConfirmRemove => ("", "Confirm remove", ""),
        RowAction::CancelRemove => ("", "Cancel", ""),
        RowAction::Remove => ("\u{1F5D1}", "", "Remove benchmark"),
        RowAction::Export => ("\u{1F4E6}", "Export", "Export benchmark to ZIP"),
        RowAction::ToggleHidden if hidden => ("\u{1F441}", "", "Unhide benchmark"),
        RowAction::ToggleHidden => ("\u{1F6AB}", "", "Hide benchmark"),
        RowAction::ToggleFavourite if favourite => ("\u{2605}", "", "Favourite"),
        RowAction::ToggleFavourite => ("\u{2606}", "", "Favourite"),
        RowAction::ToggleSelect => ("", "Compare", "Select two benchmarks to compare them."),
        RowAction::ToggleExpand => ("", "", ""),
    }
}

/// What stands in place of a list without rows: a title, and a hint.
pub open spec fn empty_state_of(no_records: bool, enabled: bool) -> (Seq<char>, Option<Seq<char>>) {
    if !no_records {
        ("No benchmarks match the current filters."@, None)
    } else if enabled {
        (
            "No benchmarks saved yet."@,
            Some("Run a recheck or update and choose Save benchmark when it finishes."@),
        )
    } else {
        (
            "No benchmarks saved yet."@,
            Some("Enable Benchmarks to be offered a save after rechecks and updates."@),
        )
    }
}

/// What stands in place of a list without rows.
pub fn empty_state(no_records: bool, enabled: bool) -> (r: (&'static str, Option<&'static str>))
    ensures
        r.0@ == empty_state_of(no_records, enabled).0,
        match r.1 {
            Some(hint) => empty_state_of(no_records, enabled).1 == Some(hint@),
            None => empty_state_of(no_records, enabled).1 is None,
        },
{
    if !no_records {
        ("No benchmarks match the current filters.", None)
    } else if enabled {
        (
            "No benchmarks saved yet.",
            Some("Run a recheck or update and choose Save benchmark when it finishes."),
        )
    } else {
        (
            "No benchmarks saved yet.",
            Some("Enable Benchmarks to be offered a save after rechecks and updates."),
        )
    }
}

/// The positions of the selected records that are still there, in the order of
/// the selection.
pub open spec fn selected_records(
    selected: Seq<String>,
    records: Seq<BenchmarkRecord>,
) -> Seq<int>
    decreases selected.len(),
{
    if selected.len() == 0 {
        Seq::empty()
    } else {
        let head = selected_records(selected.drop_last(), records);
        match record_from(records, selected.last()@, 0) {
            Some(i) => head.push(i),
            None => head,
        }
    }
}

/// How many records are hidden.
pub open spec fn hidden_count(records: Seq<BenchmarkRecord>) -> nat
    decreases records.len(),
{
    if records.len() == 0 {
        0
    } else {
        hidden_count(records.drop_last()) + if records.last().hidden {
            1nat
        } else {
            0nat
        }
    }
}

/// The line on how many records there are: one message, or two with a dot
/// between them.
pub open spec fn summary_of(records: Seq<BenchmarkRecord>) -> Seq<MessageModel> {
    let saved = message::with_one("{count} saved"@, "count"@, text::decimal(records.len()));
    if hidden_count(records) > 0 {
        seq![
            saved,
            message::with_one("{count} hidden"@, "count"@, text::decimal(hidden_count(records))),
        ]
    } else {
        seq![saved]
    }
}

impl BenchmarksView {
    /// The positions of the selected records that are still there.
    pub fn selected_positions(&self) -> (r: Vec<usize>)
        ensures
            r@.len() == selected_records(self.selected@, self.records@).len(),
            forall|k: int|
                0 <= k < r@.len() ==> (#[trigger] r@[k]) == selected_records(
                    self.selected@,
                    self.records@,
                )[k] && r@[k] < self.records@.len(),
    {
        let mut out: Vec<usize> = Vec::new();
        let mut n: usize = 0;
        assert(self.selected@.take(0) =~= Seq::empty());
        while n < self.selected.len()
            invariant
                n <= self.selected@.len(),
                out@.len() == selected_records(self.selected@.take(n as int), self.records@).len(),
                forall|k: int|
                    0 <= k < out@.len() ==> (#[trigger] out@[k]) == selected_records(
                        self.selected@.take(n as int),
                        self.records@,
                    )[k] && out@[k] < self.records@.len(),
            decreases self.selected@.len() - n,
        {
            proof {
                assert(self.selected@.take(n + 1).drop_last() =~= self.selected@.take(n as int));
                assert(self.selected@.take(n + 1).last() == self.selected@[n as int]);
            }
            if let Some(i) = self.find(self.selected[n].as_str()) {
                out.push(i);
            }
            n = n + 1;
        }
        assert(self.selected@.take(self.selected@.len() as int) =~= self.selected@);
        out
    }

    /// The button that compares, and whether it works: it needs two records.
    pub fn compare_button(&self) -> (r: (Message, bool))
        ensures
            ({
                let n = selected_records(self.selected@, self.records@).len();
                &&& r.0@ == message::with_one(
                    "Compare selected ({count}/2)"@,
                    "count"@,
                    text::decimal(n),
                )
                &&& r.1 == (n == 2)
            }),
    {
        let n: usize = self.selected_positions().len();
        (one("Compare selected ({count}/2)", "count", decimal_text(n as u128)), n == 2)
    }

    /// Opens the comparison, if its button works.
    pub fn open_compare(&mut self)
        ensures
            *final(self) == (BenchmarksView {
                compare_open: old(self).compare_open || selected_records(
                    old(self).selected@,
                    old(self).records@,
                ).len() == 2,
                ..*old(self)
            }),
    {
        if self.selected_positions().len() == 2 {
            self.compare_open = true;
        }
    }

    /// The two records that are compared. Without them the comparison closes.
    /// `order` holds their ids, A before B.
    pub fn compared(&mut self, order: &Vec<String>) -> (r: Option<(usize, usize)>)
        ensures
            ({
                let found = if order@.len() >= 2 {
                    (
                        record_from(old(self).records@, order@[0]@, 0),
                        record_from(old(self).records@, order@[1]@, 0),
                    )
                } else {
                    (None, None)
                };
                match r {
                    Some((a, b)) => found == (Some(a as int), Some(b as int)) && *final(self)
                        == *old(self),
                    None => (found.0 is None || found.1 is None) && *final(self) == (BenchmarksView {
                        compare_open: false,
                        ..*old(self)
                    }),
                }
            }),
    {
        if order.len() >= 2 {
            if let (Some(a), Some(b)) = (self.find(order[0].as_str()), self.find(order[1].as_str())) {
                return Some((a, b));
            }
        }
        self.compare_open = false;
        None
    }

    /// The line on how many records there are. Its messages stand with a dot
    /// between them.
    pub fn summary(&self) -> (r: Vec<Message>)
        ensures
            message::message_models(r@) == summary_of(self.records@),
    {
        let mut hidden: usize = 0;
        let mut i: usize = 0;
        assert(self.records@.take(0) =~= Seq::empty());
        while i < self.records.len()
            invariant
                i <= self.records@.len(),
                hidden <= i,
                hidden == hidden_count(self.records@.take(i as int)),
            decreases self.records@.len() - i,
        {
            proof {
                assert(self.records@.take(i + 1).drop_last() =~= self.records@.take(i as int));
                assert(self.records@.take(i + 1).last() == self.records@[i as int]);
            }
            if self.records[i].hidden {
                hidden = hidden + 1;
            }
            i = i + 1;
        }
        assert(self.records@.take(self.records@.len() as int) =~= self.records@);
        let mut out: Vec<Message> = Vec::new();
        out.push(one("{count} saved", "count", decimal_text(self.records.len() as u128)));
        if hidden > 0 {
            out.push(one("{count} hidden", "count", decimal_text(hidden as u128)));
        }
        assert(message::message_models(out@) =~= summary_of(self.records@));
        out
    }
}

/// Whether of two selected records the second is the older one.
pub open spec fn second_is_older(v: BenchmarksView) -> bool {
    v.selected@.len() == 2 && match (
        record_from(v.records@, v.selected@[0]@, 0),
        record_from(v.records@, v.selected@[1]@, 0),
    ) {
        (Some(a), Some(b)) => v.records@[b].started_at < v.records@[a].started_at,
        _ => false,
    }
}

/// The ids of the records to compare, A before B: in the order of the
/// selection, or the older one first.
pub open spec fn compare_order_of(v: BenchmarksView) -> Seq<Seq<char>> {
    let order = text::views(v.selected@);
    if v.compare_by_date && second_is_older(v) {
        order.reverse()
    } else {
        order
    }
}

impl BenchmarksView {
    /// Whether of two selected records the second is the older one.
    fn older_is_second(&self) -> (r: bool)
        ensures
            r == second_is_older(*self),
    {
        if self.selected.len() != 2 {
            return false;
        }
        match (self.find(self.selected[0].as_str()), self.find(self.selected[1].as_str())) {
            (Some(a), Some(b)) => self.records[b].started_at < self.records[a].started_at,
            _ => false,
        }
    }

    /// The ids of the records to compare, A before B.
    pub fn compare_order(&self) -> (r: Vec<String>)
        ensures
            text::views(r@) == compare_order_of(*self),
    {
        let mut order: Vec<String> = Vec::new();
        if self.compare_by_date && self.older_is_second() {
            order.push(self.selected[1].clone());
            order.push(self.selected[0].clone());
            assert(text::views(order@) =~= text::views(self.selected@).reverse());
            return order;
        }
        let mut i: usize = 0;
        while i < self.selected.len()
            invariant
                i <= self.selected@.len(),
                text::views(order@) =~= text::views(self.selected@).take(i as int),
            decreases self.selected@.len() - i,
        {
            let ghost before = text::views(order@);
            order.push(self.selected[i].clone());
            assert(text::views(order@) =~= before.push(self.selected@[i as int]@));
            i = i + 1;
        }
        assert(text::views(order@) =~= text::views(self.selected@));
        order
    }

    /// Whether the compared records can change places.
    pub fn can_swap(&self) -> (r: bool)
        ensures
            r == (self.selected@.len() == 2),
    {
        self.selected.len() == 2
    }

    /// Lets the compared records change places. From then on the order is that
    /// of the selection.
    pub fn swap_compare_order(&mut self)
        ensures
            if old(self).selected@.len() == 2 {
                &&& text::views(final(self).selected@) == compare_order_of(*old(self)).reverse()
                &&& *final(self) == (BenchmarksView {
                    selected: final(self).selected,
                    compare_by_date: false,
                    ..*old(self)
                })
            } else {
                *final(self) == *old(self)
            },
    {
        if !self.can_swap() {
            return;
        }
        let order: Vec<String> = self.compare_order();
        let ghost shown = text::views(order@);
        assert(shown.len() == text::views(self.selected@).len());
        let mut swapped: Vec<String> = Vec::new();
        swapped.push(order[1].clone());
        swapped.push(order[0].clone());
        assert(shown[0] == order@[0]@ && shown[1] == order@[1]@);
        assert(text::views(swapped@) =~= shown.reverse());
        self.selected = swapped;
        self.compare_by_date = false;
    }
}

/// Swapping exchanges A and B, whatever the order was before, and swapping
/// again restores it.
pub proof fn law_swapping_exchanges(
    before: BenchmarksView,
    after: BenchmarksView,
    back: BenchmarksView,
)
    requires
        before.selected@.len() == 2,
        text::views(after.selected@) == compare_order_of(before).reverse(),
        !after.compare_by_date,
        text::views(back.selected@) == compare_order_of(after).reverse(),
        !back.compare_by_date,
    ensures
        compare_order_of(after) == compare_order_of(before).reverse(),
        compare_order_of(back) == compare_order_of(before),
{
    assert(compare_order_of(before).reverse().reverse() =~= compare_order_of(before));
}

/// With the older record first, no comparison puts a newer record before an
/// older one.
pub proof fn law_older_comes_first(v: BenchmarksView, a: int, b: int)
    requires
        v.compare_by_date,
        v.selected@.len() == 2,
        record_from(v.records@, compare_order_of(v)[0], 0) == Some(a),
        record_from(v.records@, compare_order_of(v)[1], 0) == Some(b),
    ensures
        v.records@[a].started_at <= v.records@[b].started_at,
{
    let order = text::views(v.selected@);
    assert(order[0] == v.selected@[0]@ && order[1] == v.selected@[1]@);
}

/// The letter of a compared record.
pub fn compare_letter(index: usize) -> (r: &'static str)
    ensures
        r@ == if index == 0 {
            "A"@
        } else {
            "B"@
        },
{
    if index == 0 {
        "A"
    } else {
        "B"
    }
}

} // verus!
