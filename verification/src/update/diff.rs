//! What an update changes: mods, files, totals and their texts.

use vstd::prelude::*;

use std::hash::Hasher;
use vstd::std_specs::hash::DefaultHasherAdditionalSpecFns;

use crate::figures;
use crate::figures::fmt_bytes;
use crate::text;
use crate::text::{concat, decimal_text};

verus! {

broadcast use vstd::string::group_string_axioms;

/// What an update does to a file.
#[derive(Debug, Clone, Copy, PartialEq, Eq, Structural)]
pub enum FileDiffKind {
    Added,
    Modified,
    Deleted,
}

/// What an update changes in one file.
#[derive(Debug)]
pub struct FileDiffSummary {
    pub name: String,
    pub needs_update: bool,
    pub total_bytes: u64,
    pub changed_parts: usize,
    pub change_kind: FileDiffKind,
}

/// What an update changes in one mod.
#[derive(Debug)]
pub struct ModDiffSummary {
    pub name: String,
    pub needs_update: bool,
    pub total_bytes: u64,
    pub files: Vec<FileDiffSummary>,
}

// ---------------------------------------------------------------------------
// Files
// ---------------------------------------------------------------------------

/// The number that stands for a kind of change in the fingerprint of a mod.
pub fn update_file_diff_kind_code(kind: FileDiffKind) -> (r: u8)
    ensures
        r == kind_code(kind),
{
    match kind {
        FileDiffKind::Added => 1,
        FileDiffKind::Modified => 2,
        FileDiffKind::Deleted => 3,
    }
}

/// The number that stands for a kind of change in the fingerprint of a mod.
pub open spec fn kind_code(kind: FileDiffKind) -> u8 {
    match kind {
        FileDiffKind::Added => 1,
        FileDiffKind::Modified => 2,
        FileDiffKind::Deleted => 3,
    }
}

/// The sign before the name of a file.
pub fn update_file_diff_kind_marker(kind: FileDiffKind) -> (r: &'static str)
    ensures
        r@ == match kind {
            FileDiffKind::Added => "+"@,
            FileDiffKind::Modified => "~"@,
            FileDiffKind::Deleted => "-"@,
        },
{
    match kind {
        FileDiffKind::Added => "+",
        FileDiffKind::Modified => "~",
        FileDiffKind::Deleted => "-",
    }
}

/// The colour of a row, given one for each kind of change.
pub fn update_file_diff_kind_color<T: Copy>(
    kind: FileDiffKind,
    added_color: T,
    modified_color: T,
    deleted_color: T,
) -> (r: T)
    ensures
        r == match kind {
            FileDiffKind::Added => added_color,
            FileDiffKind::Modified => modified_color,
            FileDiffKind::Deleted => deleted_color,
        },
{
    match kind {
        FileDiffKind::Added => added_color,
        FileDiffKind::Modified => modified_color,
        FileDiffKind::Deleted => deleted_color,
    }
}

/// The note on the parts of a file that change.
pub open spec fn parts_shown(parts: nat) -> Seq<char> {
    if parts == 0 {
        Seq::empty()
    } else {
        ", "@ + text::decimal(parts) + if parts == 1 {
            " part"@
        } else {
            " parts"@
        }
    }
}

/// The row of a file: its sign, its name and what is transferred. A file that
/// goes without any transfer shows only sign and name.
pub open spec fn file_row_shown(file: FileDiffSummary, marker: Seq<char>) -> Seq<char> {
    let head = marker + " "@ + file.name@;
    if file.change_kind == FileDiffKind::Deleted && file.total_bytes == 0 && file.changed_parts
        == 0 {
        head
    } else {
        head + " ("@ + figures::bytes_shown(file.total_bytes as nat) + parts_shown(
            file.changed_parts as nat,
        ) + ")"@
    }
}

/// The row of a file.
pub fn update_file_diff_row_text(file: &FileDiffSummary, kind_marker: &str) -> (r: String)
    ensures
        r@ == file_row_shown(*file, kind_marker@),
{
    let mut s: String = concat(kind_marker, " ");
    s.append(file.name.as_str());
    let gone: bool = match file.change_kind {
        FileDiffKind::Deleted => true,
        _ => false,
    };
    if gone && file.total_bytes == 0 && file.changed_parts == 0 {
        return s;
    }
    let parts: String = if file.changed_parts > 0 {
        let mut p: String = concat(", ", decimal_text(file.changed_parts as u128).as_str());
        p.append(
            if file.changed_parts == 1 {
                " part"
            } else {
                " parts"
            },
        );
        p
    } else {
        String::new()
    };
    s.append(" (");
    s.append(fmt_bytes(file.total_bytes).as_str());
    s.append(parts.as_str());
    s.append(")");
    s
}

/// The files of a mod that change, among the first `n`.
pub open spec fn changed_rows(files: Seq<FileDiffSummary>, n: int) -> Seq<int>
    decreases n,
{
    if n <= 0 {
        Seq::empty()
    } else {
        let head = changed_rows(files, n - 1);
        if files[n - 1].needs_update {
            head.push(n - 1)
        } else {
            head
        }
    }
}

/// Positions as integers.
pub open spec fn positions(v: Seq<usize>) -> Seq<int> {
    Seq::new(v.len(), |i: int| v[i] as int)
}

/// The positions of the files that change.
pub fn diff_file_indices(m: &ModDiffSummary) -> (r: Vec<usize>)
    ensures
        positions(r@) == changed_rows(m.files@, m.files@.len() as int),
{
    let mut out: Vec<usize> = Vec::new();
    let mut i: usize = 0;
    assert(positions(out@) =~= Seq::empty());
    while i < m.files.len()
        invariant
            i <= m.files@.len(),
            positions(out@) == changed_rows(m.files@, i as int),
        decreases m.files@.len() - i,
    {
        if m.files[i].needs_update {
            let ghost before = positions(out@);
            out.push(i);
            assert(positions(out@) =~= before.push(i as int));
        }
        i = i + 1;
    }
    out
}

// ---------------------------------------------------------------------------
// Totals
// ---------------------------------------------------------------------------

/// The parts that change in the files of a list.
pub open spec fn parts_of(files: Seq<FileDiffSummary>) -> nat
    decreases files.len(),
{
    if files.len() == 0 {
        0
    } else {
        parts_of(files.drop_last()) + files.last().changed_parts as nat
    }
}

/// What an update comes to.
pub struct TotalsModel {
    pub mods: nat,
    pub bytes: nat,
    pub files: nat,
    pub parts: nat,
}

/// The totals over the mods that need an update.
pub open spec fn totals_of(mods: Seq<ModDiffSummary>) -> TotalsModel
    decreases mods.len(),
{
    if mods.len() == 0 {
        TotalsModel { mods: 0, bytes: 0, files: 0, parts: 0 }
    } else {
        let head = totals_of(mods.drop_last());
        let m = mods.last();
        if m.needs_update {
            TotalsModel {
                mods: head.mods + 1,
                bytes: head.bytes + m.total_bytes as nat,
                files: head.files + m.files@.len(),
                parts: head.parts + parts_of(m.files@),
            }
        } else {
            head
        }
    }
}

/// What an update comes to. Sums are kept wide enough for any list.
#[derive(Debug, Clone, Copy, PartialEq, Eq, Structural)]
pub struct UpdateTotals {
    pub mods: usize,
    pub bytes: u64,
    pub files: usize,
    pub parts: usize,
}

/// The parts that change in the files of a list, if the sum fits.
pub fn changed_parts(files: &Vec<FileDiffSummary>) -> (r: Option<usize>)
    ensures
        match r {
            Some(n) => n == parts_of(files@),
            None => parts_of(files@) > usize::MAX,
        },
{
    let mut sum: usize = 0;
    let mut i: usize = 0;
    assert(files@.take(0) =~= Seq::empty());
    while i < files.len()
        invariant
            i <= files@.len(),
            sum == parts_of(files@.take(i as int)),
        decreases files@.len() - i,
    {
        proof {
            assert(files@.take(i + 1).drop_last() =~= files@.take(i as int));
            assert(files@.take(i + 1).last() == files@[i as int]);
            lemma_parts_grow(files@, i + 1);
        }
        match sum.checked_add(files[i].changed_parts) {
            Some(n) => {
                sum = n;
            },
            None => {
                return None;
            },
        }
        i = i + 1;
    }
    assert(files@.take(files@.len() as int) =~= files@);
    Some(sum)
}

proof fn lemma_parts_grow(files: Seq<FileDiffSummary>, n: int)
    requires
        0 <= n <= files.len(),
    ensures
        parts_of(files.take(n)) <= parts_of(files),
    decreases files.len(),
{
    if n == files.len() {
        assert(files.take(n) =~= files);
    } else {
        assert(files.drop_last().take(n) =~= files.take(n));
        lemma_parts_grow(files.drop_last(), n);
    }
}

proof fn lemma_totals_grow(mods: Seq<ModDiffSummary>, n: int)
    requires
        0 <= n <= mods.len(),
    ensures
        totals_of(mods.take(n)).mods <= totals_of(mods).mods,
        totals_of(mods.take(n)).bytes <= totals_of(mods).bytes,
        totals_of(mods.take(n)).files <= totals_of(mods).files,
        totals_of(mods.take(n)).parts <= totals_of(mods).parts,
    decreases mods.len(),
{
    if n == mods.len() {
        assert(mods.take(n) =~= mods);
    } else {
        assert(mods.drop_last().take(n) =~= mods.take(n));
        lemma_totals_grow(mods.drop_last(), n);
    }
}

/// The totals over the mods that need an update, if all sums fit.
pub fn update_totals(mods: &Vec<ModDiffSummary>) -> (r: Option<UpdateTotals>)
    ensures
        ({
            let t = totals_of(mods@);
            match r {
                Some(u) => u.mods == t.mods && u.bytes == t.bytes && u.files == t.files && u.parts
                    == t.parts,
                None => t.bytes > u64::MAX || t.files > usize::MAX || t.parts > usize::MAX,
            }
        }),
{
    let mut u: UpdateTotals = UpdateTotals { mods: 0, bytes: 0, files: 0, parts: 0 };
    let mut i: usize = 0;
    assert(mods@.take(0) =~= Seq::empty());
    while i < mods.len()
        invariant
            i <= mods@.len(),
            u.mods <= i,
            ({
                let t = totals_of(mods@.take(i as int));
                u.mods == t.mods && u.bytes == t.bytes && u.files == t.files && u.parts == t.parts
            }),
        decreases mods@.len() - i,
    {
        let m: &ModDiffSummary = &mods[i];
        proof {
            assert(mods@.take(i + 1).drop_last() =~= mods@.take(i as int));
            assert(mods@.take(i + 1).last() == mods@[i as int]);
            lemma_totals_grow(mods@, i + 1);
        }
        if m.needs_update {
            let bytes: Option<u64> = u.bytes.checked_add(m.total_bytes);
            let files: Option<usize> = u.files.checked_add(m.files.len());
            let own: Option<usize> = changed_parts(&m.files);
            let parts: Option<usize> = match own {
                Some(n) => u.parts.checked_add(n),
                None => None,
            };
            match (bytes, files, parts) {
                (Some(b), Some(f), Some(p)) => {
                    u = UpdateTotals { mods: u.mods + 1, bytes: b, files: f, parts: p };
                },
                _ => {
                    return None;
                },
            }
        }
        i = i + 1;
    }
    assert(mods@.take(mods@.len() as int) =~= mods@);
    Some(u)
}

// ---------------------------------------------------------------------------
// Fingerprints
// ---------------------------------------------------------------------------

/// What a fingerprint takes in of one file.
pub open spec fn file_fields(file: FileDiffSummary) -> Seq<Seq<char>> {
    seq![
        file.name@,
        if file.needs_update {
            "1"@
        } else {
            "0"@
        },
        text::decimal(file.total_bytes as nat),
        text::decimal(file.changed_parts as nat),
        text::decimal(kind_code(file.change_kind) as nat),
    ]
}

/// What a fingerprint takes in of the files of a list.
pub open spec fn files_fields(files: Seq<FileDiffSummary>) -> Seq<Seq<char>>
    decreases files.len(),
{
    if files.len() == 0 {
        Seq::empty()
    } else {
        files_fields(files.drop_last()) + file_fields(files.last())
    }
}

/// What the fingerprint of a mod takes in: its place in the list, its name, and
/// all that is shown of its files.
pub open spec fn mod_fields(mod_idx: nat, m: ModDiffSummary) -> Seq<Seq<char>> {
    seq![text::decimal(mod_idx), m.name@, text::decimal(m.files@.len())] + files_fields(m.files@)
}

/// The bytes that stand for fields: each in UTF-8, with a byte behind it that
/// occurs in no text.
pub open spec fn field_writes(fields: Seq<Seq<char>>) -> Seq<Seq<u8>>
    decreases fields.len(),
{
    if fields.len() == 0 {
        Seq::empty()
    } else {
        field_writes(fields.drop_last()).push(vstd::utf8::encode_utf8(fields.last())).push(
            seq![0xffu8],
        )
    }
}

/// The fields of a list, as strings.
fn text_fields(mod_idx: usize, m: &ModDiffSummary) -> (r: Vec<String>)
    ensures
        text::views(r@) == mod_fields(mod_idx as nat, *m),
{
    let mut out: Vec<String> = Vec::new();
    out.push(decimal_text(mod_idx as u128));
    out.push(m.name.clone());
    out.push(decimal_text(m.files.len() as u128));
    let ghost head = seq![
        text::decimal(mod_idx as nat),
        m.name@,
        text::decimal(m.files@.len()),
    ];
    let mut i: usize = 0;
    proof {
        assert(m.files@.take(0) =~= Seq::empty());
        assert(text::views(out@) =~= head + files_fields(m.files@.take(0)));
    }
    while i < m.files.len()
        invariant
            i <= m.files@.len(),
            text::views(out@) == head + files_fields(m.files@.take(i as int)),
        decreases m.files@.len() - i,
    {
        let file: &FileDiffSummary = &m.files[i];
        let ghost before = text::views(out@);
        proof {
            assert(m.files@.take(i + 1).drop_last() =~= m.files@.take(i as int));
            assert(m.files@.take(i + 1).last() == m.files@[i as int]);
        }
        out.push(file.name.clone());
        out.push(
            if file.needs_update {
                "1".to_owned()
            } else {
                "0".to_owned()
            },
        );
        out.push(decimal_text(file.total_bytes as u128));
        out.push(decimal_text(file.changed_parts as u128));
        out.push(decimal_text(update_file_diff_kind_code(file.change_kind) as u128));
        proof {
            assert(text::views(out@) =~= before + file_fields(*file));
            assert(text::views(out@) =~= head + files_fields(m.files@.take(i + 1)));
        }
        i = i + 1;
    }
    assert(m.files@.take(m.files@.len() as int) =~= m.files@);
    out
}

/// A fingerprint of what is shown of a mod, for telling whether rows that were
/// laid out earlier are still good. It is the hash that std's `DefaultHasher`
/// gives, and as such has a meaning only within one run of the program.
pub fn update_file_diff_generation(mod_idx: usize, mod_summary: &ModDiffSummary) -> (r: u64)
    ensures
        r == std::collections::hash_map::DefaultHasher::spec_finish(
            field_writes(mod_fields(mod_idx as nat, *mod_summary)),
        ),
{
    let fields: Vec<String> = text_fields(mod_idx, mod_summary);
    let mut end: Vec<u8> = Vec::new();
    end.push(0xff);
    let mut hasher: std::collections::hash_map::DefaultHasher =
        std::collections::hash_map::DefaultHasher::new();
    let ghost all = text::views(fields@);
    let mut i: usize = 0;
    assert(all.take(0) =~= Seq::empty());
    while i < fields.len()
        invariant
            all == text::views(fields@),
            end@ == seq![0xffu8],
            i <= fields@.len(),
            hasher@ == field_writes(all.take(i as int)),
        decreases fields@.len() - i,
    {
        proof {
            assert(all.take(i + 1).drop_last() =~= all.take(i as int));
            assert(all.take(i + 1).last() == fields@[i as int]@);
        }
        hasher.write(fields[i].as_str().as_bytes());
        hasher.write(end.as_slice());
        i = i + 1;
    }
    assert(all.take(all.len() as int) =~= all);
    hasher.finish()
}

} // verus!
