//! What holds of the totals, the rows, the manifest and the controls of an
//! update.

use vstd::prelude::*;

use crate::double;
use crate::figures;
use crate::message;
use crate::message::{LineModel, MessageModel};
use crate::repository;
use crate::text;
use crate::update::diff;
use crate::update::diff::{FileDiffKind, FileDiffSummary, ModDiffSummary, UpdateTotals};
use crate::update::direct_download;
use crate::update::direct_download::DirectDownloadSession;
use crate::update::graph;
use crate::update::graph::{SummaryGraphValue, SummaryTexts};
use crate::update::manifest;
use crate::update::manifest::{RowOrder, RowState};
use crate::update::view;
use crate::update::view::{
    BarColor, BarFill, BarText, BarTextColor, CardColor, ModProgress, UpdateSession,
};

verus! {

broadcast use vstd::string::group_string_axioms;

// ---------------------------------------------------------------------------
// Totals
// ---------------------------------------------------------------------------

/// Totals add up: those of two lists of mods, one behind the other, are the sums
/// of those of each.
pub proof fn law_totals_add_up(a: Seq<ModDiffSummary>, b: Seq<ModDiffSummary>)
    ensures
        diff::totals_of(a + b).mods == diff::totals_of(a).mods + diff::totals_of(b).mods,
        diff::totals_of(a + b).bytes == diff::totals_of(a).bytes + diff::totals_of(b).bytes,
        diff::totals_of(a + b).files == diff::totals_of(a).files + diff::totals_of(b).files,
        diff::totals_of(a + b).parts == diff::totals_of(a).parts + diff::totals_of(b).parts,
    decreases b.len(),
{
    if b.len() == 0 {
        assert(a + b =~= a);
    } else {
        law_totals_add_up(a, b.drop_last());
        assert((a + b).drop_last() =~= a + b.drop_last());
        assert((a + b).last() == b.last());
    }
}

/// The totals of one mod that needs an update are its own figures; one that
/// needs none counts for nothing, and so does an empty list.
pub proof fn law_totals_of_one_mod(m: ModDiffSummary)
    ensures
        ({
            let t = diff::totals_of(seq![m]);
            &&& m.needs_update ==> t.mods == 1 && t.bytes == m.total_bytes && t.files
                == m.files@.len() && t.parts == diff::parts_of(m.files@)
            &&& !m.needs_update ==> t.mods == 0 && t.bytes == 0 && t.files == 0 && t.parts == 0
        }),
        diff::totals_of(Seq::empty()).bytes == 0,
        diff::totals_of(Seq::empty()).mods == 0,
        diff::totals_of(Seq::empty()).files == 0,
        diff::totals_of(Seq::empty()).parts == 0,
{
    let one = seq![m];
    assert(one.drop_last() =~= Seq::empty());
    assert(one.last() == m);
    reveal_with_fuel(diff::totals_of, 2);
}

/// The changed parts of files add up, and those of one file are its own.
pub proof fn law_parts_add_up(a: Seq<FileDiffSummary>, b: Seq<FileDiffSummary>, f: FileDiffSummary)
    ensures
        diff::parts_of(a + b) == diff::parts_of(a) + diff::parts_of(b),
        diff::parts_of(seq![f]) == f.changed_parts,
        diff::parts_of(Seq::empty()) == 0,
    decreases b.len(),
{
    reveal_with_fuel(diff::parts_of, 2);
    assert(seq![f].drop_last() =~= Seq::empty());
    assert(seq![f].last() == f);
    if b.len() == 0 {
        assert(a + b =~= a);
    } else {
        law_parts_add_up(a, b.drop_last(), f);
        assert((a + b).drop_last() =~= a + b.drop_last());
        assert((a + b).last() == b.last());
    }
}

/// The line with the totals tells each of them under its own name.
pub proof fn law_totals_line_tells_each_total(t: UpdateTotals)
    ensures
        ({
            let line = view::totals_line(t);
            &&& line.key == "Total update size: {size} - Files: {files} - Parts: {parts}"@
            &&& line.args.contains(("size"@, figures::bytes_shown(t.bytes as nat)))
            &&& line.args.contains(("files"@, text::decimal(t.files as nat)))
            &&& line.args.contains(("parts"@, text::decimal(t.parts as nat)))
            &&& line.args.len() == 3
        }),
{
    let line = view::totals_line(t);
    assert(line.args[0] == ("size"@, figures::bytes_shown(t.bytes as nat)));
    assert(line.args[1] == ("files"@, text::decimal(t.files as nat)));
    assert(line.args[2] == ("parts"@, text::decimal(t.parts as nat)));
}

// ---------------------------------------------------------------------------
// Files
// ---------------------------------------------------------------------------

/// Of the files of a mod exactly those that need an update are listed, in their
/// order.
pub proof fn law_changed_files_are_listed(files: Seq<FileDiffSummary>, n: int, i: int)
    requires
        0 <= n <= files.len(),
    ensures
        ({
            let rows = diff::changed_rows(files, n);
            &&& rows.contains(i) <==> 0 <= i < n && files[i].needs_update
            &&& forall|a: int| 0 <= a < rows.len() ==> 0 <= (#[trigger] rows[a]) < n
            &&& forall|a: int, b: int|
                0 <= a < b < rows.len() ==> (#[trigger] rows[a]) < (#[trigger] rows[b])
        }),
    decreases n,
{
    if n > 0 {
        law_changed_files_are_listed(files, n - 1, i);
        let head = diff::changed_rows(files, n - 1);
        let rows = diff::changed_rows(files, n);
        if files[n - 1].needs_update {
            assert(rows[head.len() as int] == n - 1);
            if head.contains(i) {
                let k = choose|k: int| 0 <= k < head.len() && head[k] == i;
                assert(rows[k] == i);
            }
            if rows.contains(i) && i != n - 1 {
                let k = choose|k: int| 0 <= k < rows.len() && rows[k] == i;
                assert(head[k] == i);
            }
        }
    }
}

/// The row of a file begins with its sign and its name. What is transferred
/// follows in brackets, the size first, then the parts if there are any; only a
/// file that goes without a transfer shows none of this.
pub proof fn law_file_row_tells_name_and_size(f: FileDiffSummary, marker: Seq<char>)
    ensures
        ({
            let row = diff::file_row_shown(f, marker);
            let head = marker + " "@ + f.name@;
            let size = figures::bytes_shown(f.total_bytes as nat);
            let quiet = f.change_kind == FileDiffKind::Deleted && f.total_bytes == 0
                && f.changed_parts == 0;
            &&& quiet ==> row == head
            &&& !quiet && f.changed_parts == 0 ==> row == head + " ("@ + size + ")"@
            &&& !quiet && f.changed_parts == 1 ==> row == head + " ("@ + size + ", 1 part)"@
            &&& !quiet && f.changed_parts > 1 ==> row == head + " ("@ + size + ", "@
                + text::decimal(f.changed_parts as nat) + " parts)"@
        }),
{
    reveal_strlit(")");
    reveal_strlit(", ");
    reveal_strlit(" part");
    reveal_strlit(" parts");
    reveal_strlit(", 1 part)");
    reveal_strlit(" parts)");
    let row = diff::file_row_shown(f, marker);
    let head = marker + " "@ + f.name@;
    let size = figures::bytes_shown(f.total_bytes as nat);
    let quiet = f.change_kind == FileDiffKind::Deleted && f.total_bytes == 0 && f.changed_parts
        == 0;
    if !quiet {
        if f.changed_parts == 0 {
            assert(row =~= head + " ("@ + size + ")"@);
        } else if f.changed_parts == 1 {
            reveal_with_fuel(text::decimal, 1);
            assert(text::decimal(1) =~= seq!['1']);
            assert(row =~= head + " ("@ + size + ", 1 part)"@);
        } else {
            assert(row =~= head + " ("@ + size + ", "@ + text::decimal(f.changed_parts as nat)
                + " parts)"@);
        }
    }
}

/// The fingerprint of a mod takes in all that is shown of it: mods that agree in
/// it have the same place and name, and files with the same names, sizes, parts
/// and kinds of change.
pub proof fn law_fingerprint_takes_in_everything(
    i: nat,
    a: ModDiffSummary,
    j: nat,
    b: ModDiffSummary,
    k: int,
)
    requires
        diff::mod_fields(i, a) == diff::mod_fields(j, b),
        0 <= k < a.files@.len(),
    ensures
        i == j,
        a.name@ == b.name@,
        a.files@.len() == b.files@.len(),
        a.files@[k].name@ == b.files@[k].name@,
        a.files@[k].needs_update == b.files@[k].needs_update,
        a.files@[k].total_bytes == b.files@[k].total_bytes,
        a.files@[k].changed_parts == b.files@[k].changed_parts,
        a.files@[k].change_kind == b.files@[k].change_kind,
{
    let f = diff::mod_fields(i, a);
    let g = diff::mod_fields(j, b);
    assert(f[0] == text::decimal(i) && g[0] == text::decimal(j));
    assert(f[1] == a.name@ && g[1] == b.name@);
    assert(f[2] == text::decimal(a.files@.len()) && g[2] == text::decimal(b.files@.len()));
    text::lemma_decimal_injective(i, j);
    text::lemma_decimal_injective(a.files@.len(), b.files@.len());
    lemma_fields_of_file(a.files@, k);
    lemma_fields_of_file(b.files@, k);
    let x = a.files@[k];
    let y = b.files@[k];
    assert forall|d: int| 0 <= d < 5 implies #[trigger] diff::file_fields(x)[d]
        == diff::file_fields(y)[d] by {
        assert(f[3 + 5 * k + d] == diff::files_fields(a.files@)[5 * k + d]);
        assert(g[3 + 5 * k + d] == diff::files_fields(b.files@)[5 * k + d]);
    }
    assert(diff::file_fields(x)[0] == diff::file_fields(y)[0]);
    assert(diff::file_fields(x)[1] == diff::file_fields(y)[1]);
    assert(diff::file_fields(x)[2] == diff::file_fields(y)[2]);
    assert(diff::file_fields(x)[3] == diff::file_fields(y)[3]);
    assert(diff::file_fields(x)[4] == diff::file_fields(y)[4]);
    reveal_strlit("0");
    reveal_strlit("1");
    assert("0"@[0] != "1"@[0]);
    text::lemma_decimal_injective(x.total_bytes as nat, y.total_bytes as nat);
    text::lemma_decimal_injective(x.changed_parts as nat, y.changed_parts as nat);
    text::lemma_decimal_injective(
        diff::kind_code(x.change_kind) as nat,
        diff::kind_code(y.change_kind) as nat,
    );
}

proof fn lemma_fields_of_file(files: Seq<FileDiffSummary>, k: int)
    requires
        0 <= k < files.len(),
    ensures
        diff::files_fields(files).len() == 5 * files.len(),
        forall|d: int|
            0 <= d < 5 ==> diff::files_fields(files)[5 * k + d] == #[trigger] diff::file_fields(
                files[k],
            )[d],
    decreases files.len(),
{
    let head = files.drop_last();
    if head.len() > 0 {
        if k < head.len() {
            lemma_fields_of_file(head, k);
        } else {
            lemma_fields_of_file(head, 0);
        }
    }
    assert(diff::files_fields(head).len() == 5 * head.len()) by {
        if head.len() == 0 {
            assert(diff::files_fields(head).len() == 0);
        }
    }
    assert forall|d: int| 0 <= d < 5 implies diff::files_fields(files)[5 * k + d]
        == #[trigger] diff::file_fields(files[k])[d] by {
        if k < head.len() {
            assert(head[k] == files[k]);
            assert(diff::files_fields(head)[5 * k + d] == diff::file_fields(head[k])[d]);
            assert(5 * k + d < diff::files_fields(head).len());
        } else {
            assert(files[k] == files.last());
        }
    }
}

// ---------------------------------------------------------------------------
// Rows
// ---------------------------------------------------------------------------

/// The rows of an update are the mods that need an update or just got one. They
/// stand by the rank of their state, within a rank those that are further first,
/// and of these by name.
pub proof fn law_rows_are_sorted(
    mods: Seq<ModDiffSummary>,
    states: Seq<RowState>,
    order: Seq<usize>,
    k: int,
    l: int,
)
    requires
        mods.len() == states.len(),
        mods.len() <= usize::MAX,
        manifest::is_row_order(manifest::row_keys(mods, states), order),
        0 <= k < l < order.len(),
    ensures
        ({
            let a = order[k] as int;
            let b = order[l] as int;
            &&& a != b
            &&& 0 <= a < mods.len()
            &&& mods[a].needs_update || states[a].finished
            &&& states[a].rank <= states[b].rank
            &&& states[a].rank == states[b].rank ==> states[a].progress >= states[b].progress
            &&& states[a].rank == states[b].rank && states[a].progress == states[b].progress
                ==> states[a].name <= states[b].name
        }),
{
    let keys = manifest::row_keys(mods, states);
    assert(manifest::stands_before(keys, order[k] as int, order[l] as int));
}

/// A mod has a row exactly if it needs an update or just got one.
pub proof fn law_rows_are_what_is_updated(
    mods: Seq<ModDiffSummary>,
    states: Seq<RowState>,
    order: Seq<usize>,
    i: usize,
)
    requires
        mods.len() == states.len(),
        manifest::is_row_order(manifest::row_keys(mods, states), order),
        0 <= i < mods.len(),
    ensures
        order.contains(i) <==> (mods[i as int].needs_update || states[i as int].finished),
{
    let keys = manifest::row_keys(mods, states);
    assert(keys[i as int].listed == (mods[i as int].needs_update || states[i as int].finished));
    if order.contains(i) {
        let q = choose|q: int| 0 <= q < order.len() && order[q] == i;
        assert(keys[order[q] as int].listed);
    }
}

/// Rows that were sorted for other data do not serve.
pub proof fn law_old_order_does_not_serve(
    order: RowOrder,
    mods: Seq<ModDiffSummary>,
    states: Seq<RowState>,
    generation: u64,
)
    requires
        manifest::order_serves(order, manifest::row_keys(mods, states), generation),
        mods.len() == states.len(),
    ensures
        order.generation == generation,
        order.rows@.len() == order.name_lowers@.len(),
        order.rows@.len() <= mods.len(),
        (forall|i: int| 0 <= i < mods.len() ==> (#[trigger] mods[i]).needs_update)
            ==> order.rows@.len() == mods.len(),
        (forall|i: int|
            0 <= i < mods.len() ==> !(#[trigger] mods[i]).needs_update && !states[i].finished)
            ==> order.rows@.len() == 0,
{
    let keys = manifest::row_keys(mods, states);
    if forall|i: int| 0 <= i < mods.len() ==> (#[trigger] mods[i]).needs_update {
        assert forall|i: int| 0 <= i < keys.len() implies (#[trigger] keys[i]).listed by {
            assert(mods[i].needs_update);
        }
    }
    if forall|i: int|
        0 <= i < mods.len() ==> !(#[trigger] mods[i]).needs_update && !states[i].finished {
        assert forall|i: int| 0 <= i < keys.len() implies !(#[trigger] keys[i]).listed by {
            assert(!mods[i].needs_update);
        }
    }
    lemma_listed_count(keys);
}

proof fn lemma_listed_count(keys: Seq<manifest::RowKey>)
    ensures
        manifest::listed_count(keys) <= keys.len(),
        (forall|i: int| 0 <= i < keys.len() ==> (#[trigger] keys[i]).listed)
            ==> manifest::listed_count(keys) == keys.len(),
        (forall|i: int| 0 <= i < keys.len() ==> !(#[trigger] keys[i]).listed)
            ==> manifest::listed_count(keys) == 0,
    decreases keys.len(),
{
    if keys.len() > 0 {
        let head = keys.drop_last();
        lemma_listed_count(head);
        assert(forall|i: int| 0 <= i < head.len() ==> #[trigger] head[i] == keys[i]);
        assert(keys.last() == keys[keys.len() - 1]);
    }
}

// ---------------------------------------------------------------------------
// Manifest
// ---------------------------------------------------------------------------

/// A manifest begins with the repository and the size of the whole update, and
/// has a line with name and size for each row whose mod needs an update.
pub proof fn law_manifest_names_every_update(
    repository_name: Seq<char>,
    mods: Seq<ModDiffSummary>,
    rows: Seq<usize>,
    total_bytes: nat,
    k: int,
)
    requires
        0 <= k < rows.len(),
    ensures
        ({
            let all = manifest::manifest_shown(repository_name, mods, rows, total_bytes);
            let heading = "# "@ + repository_name + " - "@ + figures::bytes_shown(total_bytes);
            let m = mods[rows[k] as int];
            &&& text::text_starts_with(all, heading)
            &&& m.needs_update ==> text::text_contains(
                all,
                "\n- "@ + m.name@ + " - "@ + figures::bytes_shown(m.total_bytes as nat),
            )
        }),
{
    let heading = "# "@ + repository_name + " - "@ + figures::bytes_shown(total_bytes);
    let m = mods[rows[k] as int];
    let lines = manifest::manifest_lines(mods, rows);
    let parts = seq![heading] + lines;
    let all = manifest::manifest_shown(repository_name, mods, rows, total_bytes);
    lemma_joined_starts(parts, "\n"@);
    if m.needs_update {
        let line = "- "@ + m.name@ + " - "@ + figures::bytes_shown(m.total_bytes as nat);
        let i = lemma_line_of_row(mods, rows, k);
        assert(parts[i + 1] == line);
        let at = lemma_joined_after_sep(parts, "\n"@, i + 1);
        reveal_strlit("\n");
        reveal_strlit("- ");
        reveal_strlit("\n- ");
        let wanted = "\n- "@ + m.name@ + " - "@ + figures::bytes_shown(m.total_bytes as nat);
        assert(wanted =~= "\n"@ + line);
        assert(text::occurs_at(all, wanted, at));
    }
}

/// Two stretches of rows give the lines of the first, then those of the second;
/// a row whose mod needs no update gives none.
pub proof fn law_manifest_lines_follow_the_rows(
    mods: Seq<ModDiffSummary>,
    a: Seq<usize>,
    b: Seq<usize>,
    row: usize,
)
    ensures
        manifest::manifest_lines(mods, a + b) == manifest::manifest_lines(mods, a)
            + manifest::manifest_lines(mods, b),
        !mods[row as int].needs_update ==> manifest::manifest_lines(mods, seq![row]).len() == 0,
        mods[row as int].needs_update ==> manifest::manifest_lines(mods, seq![row]).len() == 1,
    decreases b.len(),
{
    assert(seq![row].drop_last() =~= Seq::empty());
    assert(seq![row].last() == row);
    reveal_with_fuel(manifest::manifest_lines, 2);
    if b.len() == 0 {
        assert(a + b =~= a);
        assert(manifest::manifest_lines(mods, a) + manifest::manifest_lines(mods, b)
            =~= manifest::manifest_lines(mods, a));
    } else {
        law_manifest_lines_follow_the_rows(mods, a, b.drop_last(), row);
        assert((a + b).drop_last() =~= a + b.drop_last());
        assert((a + b).last() == b.last());
        assert(manifest::manifest_lines(mods, a + b) =~= manifest::manifest_lines(mods, a)
            + manifest::manifest_lines(mods, b));
    }
}

proof fn lemma_line_of_row(mods: Seq<ModDiffSummary>, rows: Seq<usize>, k: int) -> (i: int)
    requires
        0 <= k < rows.len(),
        mods[rows[k] as int].needs_update,
    ensures
        0 <= i < manifest::manifest_lines(mods, rows).len(),
        manifest::manifest_lines(mods, rows)[i] == "- "@ + mods[rows[k] as int].name@ + " - "@
            + figures::bytes_shown(mods[rows[k] as int].total_bytes as nat),
    decreases rows.len(),
{
    let head = rows.drop_last();
    if k < head.len() {
        lemma_line_of_row(mods, head, k)
    } else {
        manifest::manifest_lines(mods, head).len() as int
    }
}

proof fn lemma_joined_starts(parts: Seq<Seq<char>>, sep: Seq<char>)
    requires
        parts.len() > 0,
    ensures
        text::text_starts_with(text::joined(parts, sep), parts[0]),
    decreases parts.len(),
{
    let all = text::joined(parts, sep);
    if parts.len() > 1 {
        lemma_joined_starts(parts.drop_last(), sep);
        let head = text::joined(parts.drop_last(), sep);
        assert(all.subrange(0, parts[0].len() as int) =~= head.subrange(0, parts[0].len() as int));
    } else {
        assert(all.subrange(0, parts[0].len() as int) =~= parts[0]);
    }
}

proof fn lemma_joined_after_sep(parts: Seq<Seq<char>>, sep: Seq<char>, i: int) -> (at: int)
    requires
        1 <= i < parts.len(),
    ensures
        text::occurs_at(text::joined(parts, sep), sep + parts[i], at),
    decreases parts.len(),
{
    let all = text::joined(parts, sep);
    let head = text::joined(parts.drop_last(), sep);
    let wanted = sep + parts[i];
    if i == parts.len() - 1 {
        assert(all.subrange(head.len() as int, (head.len() + wanted.len()) as int) =~= wanted);
        head.len() as int
    } else {
        let at = lemma_joined_after_sep(parts.drop_last(), sep, i);
        assert(all.subrange(at, at + wanted.len()) =~= head.subrange(
            at,
            at + wanted.len() as int,
        ));
        at
    }
}

/// The file name of a manifest has a character for each of the name of the
/// repository: letters, digits, hyphens and underscores stand for themselves,
/// everything else gives an underscore.
pub proof fn law_manifest_file_name_is_safe(repo_name: Seq<char>, i: int)
    requires
        0 <= i < repo_name.len(),
    ensures
        ({
            let name = manifest::manifest_file_name_of(repo_name);
            let c = repo_name[i];
            &&& name.skip(repo_name.len() as int) == "_update_manifest.txt"@
            &&& (manifest::unicode_alphanumeric(c) || c == '-' || c == '_') ==> name[i] == c
            &&& !(manifest::unicode_alphanumeric(c) || c == '-' || c == '_') ==> name[i] == '_'
        }),
{
    let name = manifest::manifest_file_name_of(repo_name);
    assert(name.skip(repo_name.len() as int) =~= "_update_manifest.txt"@);
}

// ---------------------------------------------------------------------------
// Controls
// ---------------------------------------------------------------------------

/// What works in the view. It closes unless a download is being undone; a
/// manifest can be exported if something is pending; the bar reacts once the
/// update of the selected repository is done, or before a download if something
/// is pending; pausing and cancelling need a running download that neither
/// hashes nor is being undone. A download of another repository counts for
/// nothing.
pub proof fn law_controls_follow_the_download(s: UpdateSession, pending: nat, undoing: bool)
    ensures
        ({
            let c = view::controls_of(s, pending, undoing);
            let here = s.selected is Some && s.download_running && s.syncing_repository
                == s.selected;
            let done = s.selected is Some && s.download_finished && s.download_finished_repo
                == s.selected;
            &&& c.can_close <==> !undoing
            &&& c.can_export <==> pending > 0
            &&& done ==> c.can_start && c.bar_text == BarText::Finished && c.bar_fill
                == BarColor::Success && c.bar_background == BarColor::Success && !c.can_cancel
                && !c.can_toggle_pause
            &&& !done && here ==> !c.can_start && c.bar_text == (if s.paused {
                BarText::Paused
            } else {
                BarText::Progress
            }) && c.bar_background == BarColor::Widget && c.bar_fill == BarColor::Accent
                && c.bar_text_color == BarTextColor::White && c.bar_hover is None
            &&& !done && s.selected is Some && !here ==> (c.can_start <==> pending > 0)
                && c.bar_text == BarText::Start && c.bar_background == BarColor::Accent
                && !c.can_cancel && !c.can_toggle_pause
            &&& !done && s.selected is None ==> !c.can_start && !c.can_cancel
                && !c.can_toggle_pause
            &&& here && !done && !undoing && !view::hashing(repository::opt_view(s.stage))
                ==> c.can_cancel && c.can_toggle_pause
            &&& (undoing || view::hashing(repository::opt_view(s.stage))) ==> !c.can_cancel
                && !c.can_toggle_pause
            &&& c.can_start <==> c.bar_hover is Some
            &&& c.can_start && done ==> c.bar_hover == Some(BarColor::SuccessMuted)
            &&& c.can_start && !done ==> c.bar_hover == Some(BarColor::AccentHover)
            &&& !s.has_summary ==> !c.summary_visible
            &&& s.has_summary && (done || here) ==> c.summary_visible
            &&& c.plugin_banner_visible <==> done && s.has_plugin_prompt
            &&& s.stage is Some ==> c.bar_share == BarFill::Progress
            &&& s.stage is None ==> c.bar_share == if done {
                BarFill::Full
            } else {
                BarFill::Empty
            }
        }),
{
}

/// A stage is one of undoing exactly if its label says so, in English or in the
/// language of the user; it is one of hashing exactly if its label is
/// "Hashing..." or begins with "Hash ".
pub proof fn law_stages_are_told_by_their_labels(
    label: Seq<char>,
    cancelling: Seq<char>,
    reverting: Seq<char>,
)
    ensures
        !view::undoing(None, cancelling, reverting),
        !view::hashing(None),
        view::undoing(Some(cancelling), cancelling, reverting),
        view::undoing(Some(reverting), cancelling, reverting),
        view::undoing(Some("Cancelling..."@), cancelling, reverting),
        view::undoing(Some("Reverting changes"@), cancelling, reverting),
        view::undoing(Some(label), cancelling, reverting) ==> label == cancelling || label
            == reverting || label == "Cancelling..."@ || label == "Reverting changes"@,
        view::hashing(Some("Hashing..."@)),
        view::hashing(Some("Hash "@ + label)),
        view::hashing(Some(label)) ==> label == "Hashing..."@ || text::text_starts_with(
            label,
            "Hash "@,
        ),
{
    let l = "Hash "@ + label;
    assert(l.subrange(0, "Hash "@.len() as int) =~= "Hash "@);
}

/// The heading is the name of the view, followed by that of the repository if
/// it has one.
pub proof fn law_heading_names_the_repository(title: Seq<char>, name: Seq<char>)
    ensures
        view::page_title_shown(title, None) == title,
        text::is_blank(name) ==> view::page_title_shown(title, Some(name)) == title,
        !text::is_blank(name) ==> view::page_title_shown(title, Some(name)) == title + " - "@
            + name,
{
}

/// The bar of a mod. A mod that is done says so and tells its size; one that is
/// being downloaded tells how far it is, or that it waits; one that needs an
/// update tells its files, parts and size; one that needs nothing has no bar.
pub proof fn law_card_tells_the_state_of_a_mod(
    m: ModDiffSummary,
    progress: Option<ModProgress>,
    downloading: bool,
    finished: bool,
)
    ensures
        ({
            let card = view::card_bar_of(m, progress, downloading, finished);
            let done = finished || (progress matches Some(p) && p.done);
            let size = figures::bytes_shown(m.total_bytes as nat);
            &&& done ==> card is Some && (card->0).color == CardColor::Success && (card->0).text
                == message::with_one("Updated ({size})"@, "size"@, size)
            &&& !done && downloading ==> card is Some && (card->0).color == CardColor::Accent && (
            card->0).fill == BarFill::Progress
            &&& !done && downloading && progress is None ==> (card->0).text == message::plain(
                "Waiting to download"@,
            )
            &&& !done && downloading ==> (progress matches Some(p) ==> {
                let args = (card->0).text.args;
                &&& (card->0).text.key
                    == "Downloading {done}/{total} files ({done_size} / {total_size}) - {pct}"@
                &&& args.contains(("done"@, text::decimal(p.files_done as nat)))
                &&& args.contains(("total"@, text::decimal(p.files_total as nat)))
                &&& args.contains(("done_size"@, figures::bytes_shown(p.bytes_done as nat)))
                &&& args.contains(("total_size"@, figures::bytes_shown(p.bytes_total as nat)))
                &&& args.contains(("pct"@, p.percent@))
            })
            &&& !done && !downloading && m.needs_update ==> {
                let args = (card->0).text.args;
                &&& card is Some
                &&& (card->0).color == CardColor::Error
                &&& (card->0).fill == BarFill::Empty
                &&& (card->0).text.key == "Needs update - {files} files, {parts} parts ({size})"@
                &&& args.contains(("files"@, text::decimal(m.files@.len())))
                &&& args.contains(("parts"@, text::decimal(diff::parts_of(m.files@))))
                &&& args.contains(("size"@, size))
            }
            &&& !done && !downloading && !m.needs_update ==> card is None
            &&& card is Some && (done || downloading) ==> (card->0).text_color
                == BarTextColor::White
            &&& done && (finished || !downloading) ==> (card->0).fill == BarFill::Full
        }),
{
    let card = view::card_bar_of(m, progress, downloading, finished);
    if let Some(c) = card {
        let args = c.text.args;
        assert(args[0] == args[0] && args[1] == args[1] && args[2] == args[2] && args[3] == args[3]
            && args[4] == args[4]);
    }
}

// ---------------------------------------------------------------------------
// Other texts
// ---------------------------------------------------------------------------

/// The summary of a download tells each of its figures under its own name.
pub proof fn law_summary_tells_each_figure(s: SummaryTexts)
    ensures
        ({
            let lines = graph::summary_lines_of(s);
            &&& lines.contains(
                message::with_one(
                    "Planned transfer: {size}"@,
                    "size"@,
                    figures::bytes_shown(s.planned_bytes as nat),
                ),
            )
            &&& lines.contains(
                message::with_one("Cumulative hash: {duration}"@, "duration"@, s.cumulative_hash@),
            )
            &&& lines.contains(
                message::with_one(
                    "After download hash: {duration}"@,
                    "duration"@,
                    s.after_download_hash@,
                ),
            )
            &&& lines.contains(
                message::with_one("Download stage: {duration}"@, "duration"@, s.download_stage@),
            )
            &&& lines.contains(
                message::with_one("Total duration: {duration}"@, "duration"@, s.total@),
            )
            &&& exists|i: int|
                {
                    &&& 0 <= i < lines.len()
                    &&& (#[trigger] lines[i]).key == "Downloaded: {size} at {speed} avg"@
                    &&& lines[i].args.contains(
                        ("size"@, figures::bytes_shown(s.downloaded_bytes as nat)),
                    )
                    &&& lines[i].args.contains(("speed"@, s.average_speed@))
                }
            &&& lines.len() == 6
        }),
{
    let lines = graph::summary_lines_of(s);
    assert(lines[0] == lines[0] && lines[2] == lines[2] && lines[3] == lines[3] && lines[4]
        == lines[4] && lines[5] == lines[5]);
    assert(lines[1].args[0] == ("size"@, figures::bytes_shown(s.downloaded_bytes as nat)));
    assert(lines[1].args[1] == ("speed"@, s.average_speed@));
}

/// A line of the tooltip tells the value of its own lane.
pub proof fn law_tooltip_tells_its_lane(value: SummaryGraphValue, word: Seq<char>, shown: Seq<char>)
    ensures
        ({
            let line = graph::tooltip_line_of(value, word, shown);
            &&& value == SummaryGraphValue::DownloadMbps ==> line == LineModel::Keyed(
                message::with_one("Download: {speed}"@, "speed"@, shown),
            )
            &&& value == SummaryGraphValue::DiskWriteMbps ==> line == LineModel::Keyed(
                message::with_one("Disk write: {speed}"@, "speed"@, shown),
            )
            &&& value == SummaryGraphValue::HashFilesPerSec ==> line == LineModel::Keyed(
                message::with_one("Hash files: {speed}"@, "speed"@, shown),
            )
            &&& value == SummaryGraphValue::CpuPercent ==> line == LineModel::Plain(
                "CPU: "@ + shown,
            )
            &&& value == SummaryGraphValue::MemoryBytes ==> line == LineModel::Plain(
                word + ": "@ + shown,
            )
        }),
{
}

/// The lines of a direct download tell source, destination, target, files and
/// what was downloaded, each under its own name, and the whole size only once it
/// is known.
pub proof fn law_direct_download_tells_each_figure(s: DirectDownloadSession)
    ensures
        ({
            let lines = direct_download::detail_lines(s);
            let size = message::with_one(
                "Total size: {size}"@,
                "size"@,
                figures::bytes_shown(s.total_bytes as nat),
            );
            &&& lines.contains(message::with_one("Source: {url}"@, "url"@, s.source_url@))
            &&& lines.contains(
                message::with_one("Destination: {path}"@, "path"@, s.destination_folder@),
            )
            &&& lines.contains(message::with_one("Target: {name}"@, "name"@, s.target_label@))
            &&& lines.contains(
                message::with_one(
                    "Downloaded: {size}"@,
                    "size"@,
                    figures::bytes_shown(s.downloaded_bytes as nat),
                ),
            )
            &&& lines[3].key == "Files: {done}/{total}"@
            &&& lines[3].args.contains(("done"@, text::decimal(s.files_done as nat)))
            &&& lines[3].args.contains(("total"@, text::decimal(s.files_total as nat)))
            &&& s.total_bytes > 0 ==> lines.len() == 6 && lines[5] == size
            &&& s.total_bytes == 0 ==> lines.len() == 5
        }),
{
    let lines = direct_download::detail_lines(s);
    assert(lines[0] == lines[0] && lines[1] == lines[1] && lines[2] == lines[2] && lines[4]
        == lines[4]);
    assert(lines[3].args[0] == ("done"@, text::decimal(s.files_done as nat)));
    assert(lines[3].args[1] == ("total"@, text::decimal(s.files_total as nat)));
}

/// The line on a running download has each figure in its own place.
pub proof fn law_pace_tells_each_figure(
    stage: Seq<char>,
    percent: Seq<char>,
    speed: Seq<char>,
    elapsed: Seq<char>,
    remaining: Seq<char>,
)
    ensures
        ({
            let line = direct_download::pace_line(stage, percent, speed, elapsed, remaining);
            &&& line.key
                == "{stage} {percent}% - {speed} - {elapsed} elapsed / {remaining} remaining"@
            &&& line.args.contains(("stage"@, stage))
            &&& line.args.contains(("percent"@, percent))
            &&& line.args.contains(("speed"@, speed))
            &&& line.args.contains(("elapsed"@, elapsed))
            &&& line.args.contains(("remaining"@, remaining))
        }),
{
    let line = direct_download::pace_line(stage, percent, speed, elapsed, remaining);
    assert(line.args[0] == ("stage"@, stage) && line.args[1] == ("percent"@, percent)
        && line.args[2] == ("speed"@, speed) && line.args[3] == ("elapsed"@, elapsed)
        && line.args[4] == ("remaining"@, remaining));
}

// ---------------------------------------------------------------------------
// Sizes
// ---------------------------------------------------------------------------

/// A size below a kilobyte is shown whole, in bytes. A larger one is shown in
/// the largest unit that it fills, in tenths, and the tenths shown are no further
/// from it than half a tenth.
pub proof fn law_size_is_shown_to_a_tenth(bytes: nat)
    ensures
        bytes < 1024 ==> figures::bytes_shown(bytes) == text::decimal(bytes) + " B"@,
        bytes >= 1024 ==> exists|t: nat, unit: nat, name: Seq<char>|
            {
                &&& #[trigger] is_size_of(bytes, t, unit, name)
                &&& figures::bytes_shown(bytes) == text::decimal(t / 10) + "."@ + text::decimal(
                    t % 10,
                ) + name
            },
{
    if bytes >= 1024 {
        let step = figures::size_step(bytes);
        let unit = figures::unit_size(step);
        let t = double::half_even(bytes * 10, unit);
        let name = figures::unit_name(step);
        assert(unit > 0);
        lemma_half_even_is_near(bytes * 10, unit);
        assert(is_size_of(bytes, t, unit, name));
        reveal_with_fuel(text::decimal, 1);
        assert(text::decimal(t % 10) =~= seq![text::digit(t % 10)]);
        assert(figures::bytes_shown(bytes) =~= text::decimal(t / 10) + "."@ + text::decimal(t % 10)
            + name);
    }
}

/// Whether `t` tenths of a unit are a size: the unit is the largest that the size
/// fills, and the tenths are as near as tenths can be.
pub open spec fn is_size_of(bytes: nat, t: nat, unit: nat, name: Seq<char>) -> bool {
    &&& {
        ||| unit == 1024 && name == " KB"@ && 1024 <= bytes < 1024 * 1024
        ||| unit == 1024 * 1024 && name == " MB"@ && 1024 * 1024 <= bytes < 1024 * 1024 * 1024
        ||| unit == 1024 * 1024 * 1024 && name == " GB"@ && 1024 * 1024 * 1024 <= bytes < 1024
            * 1024 * 1024 * 1024
        ||| unit == 1024 * 1024 * 1024 * 1024 && name == " TB"@ && bytes >= 1024 * 1024 * 1024
            * 1024
    }
    &&& 2 * (t * unit) <= 2 * (bytes * 10) + unit
    &&& 2 * (bytes * 10) <= 2 * (t * unit) + unit
}

proof fn lemma_half_even_is_near(n: nat, d: nat)
    requires
        d > 0,
    ensures
        2 * (double::half_even(n, d) * d) <= 2 * n + d,
        2 * n <= 2 * (double::half_even(n, d) * d) + d,
{
    let q = n / d;
    let r = n % d;
    vstd::arithmetic::div_mod::lemma_fundamental_div_mod(n as int, d as int);
    assert(d * q == q * d) by (nonlinear_arith);
    assert((q + 1) * d == q * d + d) by (nonlinear_arith);
}

} // verus!
