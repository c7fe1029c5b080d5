//! The order of the mods in the update view, and the manifest of an update.

use vstd::prelude::*;

use crate::figures;
use crate::figures::fmt_bytes;
use crate::text;
use crate::text::{chars_of, concat, join, to_lowercase};
use crate::update::diff::ModDiffSummary;

verus! {

broadcast use vstd::string::group_string_axioms;

// ---------------------------------------------------------------------------
// Order
// ---------------------------------------------------------------------------

/// By what the row of a mod is placed: the rank of its state, how far its
/// download is (further is first), and the place of its name in the order of
/// the language.
#[derive(Debug, Clone, Copy, PartialEq, Eq, Structural)]
pub struct RowKey {
    pub rank: u8,
    pub progress: u64,
    pub name: u64,
    /// Whether the mod shows at all: it needs an update, or it just got one.
    pub listed: bool,
}

/// What the outside knows of the row of a mod: by what it is placed, and
/// whether its download is complete.
#[derive(Debug, Clone, Copy, PartialEq, Eq, Structural)]
pub struct RowState {
    pub rank: u8,
    pub progress: u64,
    pub name: u64,
    pub finished: bool,
}

/// By what the row of a mod is placed.
pub open spec fn row_key(m: ModDiffSummary, state: RowState) -> RowKey {
    RowKey {
        rank: state.rank,
        progress: state.progress,
        name: state.name,
        listed: m.needs_update || state.finished,
    }
}

/// By what the rows of a list are placed.
pub open spec fn row_keys(mods: Seq<ModDiffSummary>, states: Seq<RowState>) -> Seq<RowKey> {
    Seq::new(mods.len(), |i: int| row_key(mods[i], states[i]))
}

/// By what the rows of a list are placed.
fn keys_of(mods: &Vec<ModDiffSummary>, states: &Vec<RowState>) -> (r: Vec<RowKey>)
    requires
        states@.len() == mods@.len(),
    ensures
        r@ == row_keys(mods@, states@),
{
    let mut keys: Vec<RowKey> = Vec::new();
    let mut i: usize = 0;
    while i < mods.len()
        invariant
            states@.len() == mods@.len(),
            i <= mods@.len(),
            keys@ =~= row_keys(mods@, states@).take(i as int),
        decreases mods@.len() - i,
    {
        keys.push(
            RowKey {
                rank: states[i].rank,
                progress: states[i].progress,
                name: states[i].name,
                listed: mods[i].needs_update || states[i].finished,
            },
        );
        i = i + 1;
    }
    keys
}

/// Whether row `i` stands before row `j`. Rows that nothing else tells apart
/// keep the order of the list.
pub open spec fn stands_before(keys: Seq<RowKey>, i: int, j: int) -> bool {
    let a = keys[i];
    let b = keys[j];
    if a.rank != b.rank {
        a.rank < b.rank
    } else if a.progress != b.progress {
        a.progress > b.progress
    } else if a.name != b.name {
        a.name < b.name
    } else {
        i < j
    }
}

/// Whether `order` holds the listed rows, each once, in their order.
pub open spec fn is_row_order(keys: Seq<RowKey>, order: Seq<usize>) -> bool {
    &&& forall|k: int| 0 <= k < order.len() ==> (#[trigger] order[k]) < keys.len()
        && keys[order[k] as int].listed
    &&& forall|i: int|
        0 <= i < keys.len() && (#[trigger] keys[i]).listed ==> order.contains(i as usize)
    &&& forall|k: int, l: int|
        0 <= k < l < order.len() ==> stands_before(
            keys,
            #[trigger] order[k] as int,
            #[trigger] order[l] as int,
        )
}

/// Whether row `i` stands before row `j`.
fn row_before(keys: &Vec<RowKey>, i: usize, j: usize) -> (r: bool)
    requires
        i < keys@.len(),
        j < keys@.len(),
    ensures
        r == stands_before(keys@, i as int, j as int),
{
    let a: RowKey = keys[i];
    let b: RowKey = keys[j];
    if a.rank != b.rank {
        a.rank < b.rank
    } else if a.progress != b.progress {
        a.progress > b.progress
    } else if a.name != b.name {
        a.name < b.name
    } else {
        i < j
    }
}

/// The listed rows in their order.
pub fn sorted_rows(keys: &Vec<RowKey>) -> (order: Vec<usize>)
    ensures
        is_row_order(keys@, order@),
{
    let mut order: Vec<usize> = Vec::new();
    let mut i: usize = 0;
    while i < keys.len()
        invariant
            i <= keys@.len(),
            forall|k: int| 0 <= k < order@.len() ==> (#[trigger] order@[k]) < i
                && keys@[order@[k] as int].listed,
            forall|j: int|
                0 <= j < i && (#[trigger] keys@[j]).listed ==> order@.contains(j as usize),
            forall|k: int, l: int|
                0 <= k < l < order@.len() ==> stands_before(
                    keys@,
                    #[trigger] order@[k] as int,
                    #[trigger] order@[l] as int,
                ),
        decreases keys@.len() - i,
    {
        if keys[i].listed {
            let ghost before = order@;
            let mut at: usize = order.len();
            while at > 0 && row_before(keys, i, order[at - 1])
                invariant
                    order@ == before,
                    i < keys@.len(),
                    at <= before.len(),
                    forall|k: int| 0 <= k < before.len() ==> (#[trigger] before[k]) < i,
                    forall|k: int| at <= k < before.len() ==> stands_before(
                        keys@,
                        i as int,
                        #[trigger] before[k] as int,
                    ),
                decreases at,
            {
                at = at - 1;
            }
            order.insert(at, i);
            proof {
                assert(order@ =~= before.insert(at as int, i));
                assert forall|j: int| 0 <= j < i + 1 && (#[trigger] keys@[j]).listed implies
                    order@.contains(j as usize) by {
                    if j < i {
                        assert(before.contains(j as usize));
                        let k = choose|k: int| 0 <= k < before.len() && before[k] == j as usize;
                        if k < at {
                            assert(order@[k] == j as usize);
                        } else {
                            assert(order@[k + 1] == j as usize);
                        }
                    } else {
                        assert(order@[at as int] == j as usize);
                    }
                }
                assert forall|k: int, l: int| 0 <= k < l < order@.len() implies stands_before(
                    keys@,
                    #[trigger] order@[k] as int,
                    #[trigger] order@[l] as int,
                ) by {
                    let a = if k < at {
                        k
                    } else {
                        k - 1
                    };
                    let b = if l < at {
                        l
                    } else {
                        l - 1
                    };
                    if k == at {
                        assert(order@[l] == before[b]);
                        assert(stands_before(keys@, i as int, before[b] as int));
                    } else if l == at {
                        assert(order@[k] == before[a]);
                        if a < at - 1 {
                            assert(stands_before(
                                keys@,
                                before[a] as int,
                                before[at - 1] as int,
                            ));
                        }
                        assert(!stands_before(keys@, i as int, before[at - 1] as int));
                    } else {
                        assert(order@[k] == before[a]);
                        assert(order@[l] == before[b]);
                        assert(stands_before(keys@, before[a] as int, before[b] as int));
                    }
                }
            }
        }
        i = i + 1;
    }
    order
}

/// The rows in the order in which they were last sorted. `generation` is that
/// of the data that was sorted.
#[derive(Debug)]
pub struct RowOrder {
    pub rows: Vec<usize>,
    pub name_lowers: Vec<String>,
    pub generation: u64,
}

/// How many rows of a list show.
pub open spec fn listed_count(keys: Seq<RowKey>) -> nat
    decreases keys.len(),
{
    if keys.len() == 0 {
        0
    } else {
        listed_count(keys.drop_last()) + if keys.last().listed {
            1nat
        } else {
            0nat
        }
    }
}

/// Whether rows that were sorted earlier still serve.
pub open spec fn order_serves(order: RowOrder, keys: Seq<RowKey>, generation: u64) -> bool {
    order.rows@.len() == listed_count(keys) && order.name_lowers@.len() == listed_count(keys)
        && order.generation == generation
}

/// How many rows of a list show.
fn count_listed(keys: &Vec<RowKey>) -> (r: usize)
    ensures
        r == listed_count(keys@),
{
    let mut n: usize = 0;
    let mut i: usize = 0;
    assert(keys@.take(0) =~= Seq::empty());
    while i < keys.len()
        invariant
            i <= keys@.len(),
            n <= i,
            n == listed_count(keys@.take(i as int)),
        decreases keys@.len() - i,
    {
        proof {
            assert(keys@.take(i + 1).drop_last() =~= keys@.take(i as int));
            assert(keys@.take(i + 1).last() == keys@[i as int]);
        }
        if keys[i].listed {
            n = n + 1;
        }
        i = i + 1;
    }
    assert(keys@.take(keys@.len() as int) =~= keys@);
    n
}

impl RowOrder {
    /// Sorts the rows again if what was sorted earlier no longer serves.
    pub fn rebuild_update_modal_sort_cache_if_needed(
        &mut self,
        mods: &Vec<ModDiffSummary>,
        states: &Vec<RowState>,
        generation: u64,
    )
        requires
            states@.len() == mods@.len(),
        ensures
            ({
                let keys = row_keys(mods@, states@);
                if order_serves(*old(self), keys, generation) {
                    *final(self) == *old(self)
                } else {
                    &&& final(self).generation == generation
                    &&& is_row_order(keys, final(self).rows@)
                    &&& text::views(final(self).name_lowers@) == Seq::new(
                        final(self).rows@.len(),
                        |k: int|
                            text::unicode_lowercase(mods@[final(self).rows@[k] as int].name@),
                    )
                }
            }),
    {
        let keys: Vec<RowKey> = keys_of(mods, states);
        let n: usize = count_listed(&keys);
        if self.rows.len() == n && self.name_lowers.len() == n && self.generation == generation {
            return;
        }
        let rows: Vec<usize> = sorted_rows(&keys);
        let mut names: Vec<String> = Vec::new();
        let mut k: usize = 0;
        while k < rows.len()
            invariant
                is_row_order(keys@, rows@),
                mods@.len() == keys@.len(),
                k <= rows@.len(),
                text::views(names@) =~= Seq::new(
                    k as nat,
                    |j: int| text::unicode_lowercase(mods@[rows@[j] as int].name@),
                ),
            decreases rows@.len() - k,
        {
            assert(rows@[k as int] < keys@.len());
            let ghost before = text::views(names@);
            let lower: String = to_lowercase(mods[rows[k]].name.as_str());
            let ghost shown = lower@;
            names.push(lower);
            assert(text::views(names@) =~= before.push(shown));
            k = k + 1;
        }
        self.name_lowers = names;
        self.rows = rows;
        self.generation = generation;
    }
}

/// A list has one order of its rows: which rows there are and by what they are
/// placed decides it.
pub proof fn law_row_order_is_unique(keys: Seq<RowKey>, a: Seq<usize>, b: Seq<usize>)
    requires
        keys.len() <= usize::MAX,
        is_row_order(keys, a),
        is_row_order(keys, b),
    ensures
        a == b,
    decreases a.len(),
{
    lemma_same_prefix(keys, a, b, if a.len() < b.len() {
        a.len() as int
    } else {
        b.len() as int
    });
    if a.len() < b.len() {
        let v = b[a.len() as int];
        assert(keys[v as int].listed);
        assert(a.contains(v));
        let k = choose|k: int| 0 <= k < a.len() && a[k] == v;
        assert(b[k] == v);
        assert(stands_before(keys, b[k] as int, b[a.len() as int] as int));
    } else if b.len() < a.len() {
        let v = a[b.len() as int];
        assert(keys[v as int].listed);
        assert(b.contains(v));
        let k = choose|k: int| 0 <= k < b.len() && b[k] == v;
        assert(a[k] == v);
        assert(stands_before(keys, a[k] as int, a[b.len() as int] as int));
    }
    assert(a =~= b);
}

/// Two orders of the same rows agree from the start.
proof fn lemma_same_prefix(keys: Seq<RowKey>, a: Seq<usize>, b: Seq<usize>, n: int)
    requires
        keys.len() <= usize::MAX,
        is_row_order(keys, a),
        is_row_order(keys, b),
        0 <= n <= a.len(),
        n <= b.len(),
    ensures
        forall|k: int| 0 <= k < n ==> a[k] == b[k],
    decreases n,
{
    if n > 0 {
        lemma_same_prefix(keys, a, b, n - 1);
        let x = a[n - 1];
        let y = b[n - 1];
        assert(keys[x as int].listed && keys[y as int].listed);
        assert(b.contains(x) && a.contains(y));
        let i = choose|i: int| 0 <= i < b.len() && b[i] == x;
        let j = choose|j: int| 0 <= j < a.len() && a[j] == y;
        if i < n - 1 {
            assert(a[i] == x);
            assert(stands_before(keys, a[i] as int, a[n - 1] as int));
        }
        if j < n - 1 {
            assert(b[j] == y);
            assert(stands_before(keys, b[j] as int, b[n - 1] as int));
        }
        if i > n - 1 && j > n - 1 {
            assert(stands_before(keys, b[n - 1] as int, b[i] as int));
            assert(stands_before(keys, a[n - 1] as int, a[j] as int));
        }
    }
}

// ---------------------------------------------------------------------------
// Manifest
// ---------------------------------------------------------------------------

/// The lines of a manifest behind its heading: the mods that need an update, in
/// the order of the rows.
pub open spec fn manifest_lines(mods: Seq<ModDiffSummary>, rows: Seq<usize>) -> Seq<Seq<char>>
    decreases rows.len(),
{
    if rows.len() == 0 {
        Seq::empty()
    } else {
        let head = manifest_lines(mods, rows.drop_last());
        let m = mods[rows.last() as int];
        if m.needs_update {
            head.push("- "@ + m.name@ + " - "@ + figures::bytes_shown(m.total_bytes as nat))
        } else {
            head
        }
    }
}

/// The manifest of an update.
pub open spec fn manifest_shown(
    repository_name: Seq<char>,
    mods: Seq<ModDiffSummary>,
    rows: Seq<usize>,
    total_bytes: nat,
) -> Seq<char> {
    text::joined(
        seq!["# "@ + repository_name + " - "@ + figures::bytes_shown(total_bytes)] + manifest_lines(
            mods,
            rows,
        ),
        "\n"@,
    )
}

/// A line of a manifest.
fn manifest_line(mark: &str, name: &str, bytes: u64) -> (r: String)
    ensures
        r@ == mark@ + name@ + " - "@ + figures::bytes_shown(bytes as nat),
{
    let mut s: String = concat(mark, name);
    s.append(" - ");
    s.append(fmt_bytes(bytes).as_str());
    s
}

/// The manifest of an update.
pub fn build_update_manifest_text(
    repository_name: &str,
    mods: &Vec<ModDiffSummary>,
    rows: &Vec<usize>,
    total_bytes: u64,
) -> (r: String)
    requires
        forall|k: int| 0 <= k < rows@.len() ==> (#[trigger] rows@[k]) < mods@.len(),
    ensures
        r@ == manifest_shown(repository_name@, mods@, rows@, total_bytes as nat),
{
    let mut lines: Vec<String> = Vec::new();
    let heading: String = manifest_line("# ", repository_name, total_bytes);
    let ghost head = seq![heading@];
    lines.push(heading);
    let mut k: usize = 0;
    proof {
        assert(rows@.take(0) =~= Seq::empty());
        assert(text::views(lines@) =~= head + manifest_lines(mods@, rows@.take(0)));
    }
    while k < rows.len()
        invariant
            forall|k: int| 0 <= k < rows@.len() ==> (#[trigger] rows@[k]) < mods@.len(),
            k <= rows@.len(),
            text::views(lines@) == head + manifest_lines(mods@, rows@.take(k as int)),
        decreases rows@.len() - k,
    {
        let ghost before = text::views(lines@);
        proof {
            assert(rows@.take(k + 1).drop_last() =~= rows@.take(k as int));
            assert(rows@.take(k + 1).last() == rows@[k as int]);
        }
        assert(rows@[k as int] < mods@.len());
        let m: &ModDiffSummary = &mods[rows[k]];
        if m.needs_update {
            let line: String = manifest_line("- ", m.name.as_str(), m.total_bytes);
            let ghost shown = line@;
            lines.push(line);
            assert(text::views(lines@) =~= before.push(shown));
            assert(text::views(lines@) =~= head + manifest_lines(mods@, rows@.take(k + 1)));
        }
        k = k + 1;
    }
    assert(rows@.take(rows@.len() as int) =~= rows@);
    join(&lines, "\n")
}

/// Whether `char::is_alphanumeric` of std holds of a character. The answer
/// follows the Unicode tables and depends on the character alone.
pub uninterp spec fn unicode_alphanumeric(c: char) -> bool;

/// `char::is_alphanumeric` of std. Nothing more is claimed of the answer than
/// that the character alone decides it.
#[verifier::external_body]
fn char_is_alphanumeric(c: char) -> (r: bool)
    ensures
        r == unicode_alphanumeric(c),
{
    c.is_alphanumeric()
}

/// The character that stands for `c` in a file name, given whether `c` is a
/// letter or a digit.
pub open spec fn safe_char(c: char, alphanumeric: bool) -> char {
    if alphanumeric || c == '-' || c == '_' {
        c
    } else {
        '_'
    }
}

/// The character that stands for `c` in a file name.
pub fn file_name_char(c: char, alphanumeric: bool) -> (r: char)
    ensures
        r == safe_char(c, alphanumeric),
{
    if alphanumeric || c == '-' || c == '_' {
        c
    } else {
        '_'
    }
}

/// The file name that a manifest is offered under.
pub open spec fn manifest_file_name_of(repo_name: Seq<char>) -> Seq<char> {
    Seq::new(repo_name.len(), |i: int| safe_char(repo_name[i], unicode_alphanumeric(repo_name[i])))
        + "_update_manifest.txt"@
}

/// The file name that a manifest is offered under.
pub fn manifest_file_name(repo_name: &str) -> (r: String)
    ensures
        r@ == manifest_file_name_of(repo_name@),
{
    let chars: Vec<char> = chars_of(repo_name);
    let mut s: String = String::new();
    let mut i: usize = 0;
    while i < chars.len()
        invariant
            chars@ == repo_name@,
            i <= chars@.len(),
            s@ =~= Seq::new(
                i as nat,
                |j: int| safe_char(repo_name@[j], unicode_alphanumeric(repo_name@[j])),
            ),
        decreases chars@.len() - i,
    {
        let c: char = chars[i];
        s.push(file_name_char(c, char_is_alphanumeric(c)));
        i = i + 1;
    }
    s.append("_update_manifest.txt");
    s
}

} // verus!
