//! The backup manager: the stored addon backups, grouped and filtered, and
//! what its controls do.

use vstd::prelude::*;

use crate::figures;
use crate::figures::fmt_bytes;
use crate::message;
use crate::message::{one, Message, MessageModel};
use crate::text;
use crate::text::{chars_of, decimal_text, to_lowercase, trim};
use crate::update::manifest;
use crate::update::manifest::{sorted_rows, RowKey};

verus! {

broadcast use vstd::string::group_string_axioms;

/// A stored backup of an addon.
#[derive(Debug)]
pub struct AddonBackupRecord {
    pub addon_name: String,
    pub content_hash: String,
    pub folder_name: String,
    /// The place of the folder name in the order of the language.
    pub folder_rank: u64,
    pub path: String,
    pub created_at_unix_secs: u64,
    pub size_bytes: u64,
}

impl Clone for AddonBackupRecord {
    fn clone(&self) -> (r: Self)
        ensures
            r == *self,
    {
        AddonBackupRecord {
            addon_name: self.addon_name.clone(),
            content_hash: self.content_hash.clone(),
            folder_name: self.folder_name.clone(),
            folder_rank: self.folder_rank,
            path: self.path.clone(),
            created_at_unix_secs: self.created_at_unix_secs,
            size_bytes: self.size_bytes,
        }
    }
}

/// The backups of one addon. `key` is its name in lower case.
#[derive(Debug)]
pub struct BackupGroup {
    pub key: String,
    pub backups: Vec<AddonBackupRecord>,
}

// ---------------------------------------------------------------------------
// Totals
// ---------------------------------------------------------------------------

/// The size of the backups together.
pub open spec fn total_size(records: Seq<AddonBackupRecord>) -> nat
    decreases records.len(),
{
    if records.len() == 0 {
        0
    } else {
        total_size(records.drop_last()) + records.last().size_bytes as nat
    }
}

/// The backups at the front are no larger than all of them.
proof fn lemma_total_size_mono(records: Seq<AddonBackupRecord>, i: int)
    requires
        0 <= i <= records.len(),
    ensures
        total_size(records.take(i)) <= total_size(records),
    decreases records.len() - i,
{
    if i == records.len() {
        assert(records.take(i) =~= records);
    } else {
        lemma_total_size_mono(records, i + 1);
        assert(records.take(i + 1).drop_last() =~= records.take(i));
    }
}

/// The size of the backups together.
pub fn total_bytes(records: &Vec<AddonBackupRecord>) -> (r: u64)
    requires
        total_size(records@) <= u64::MAX,
    ensures
        r == total_size(records@),
{
    let mut total: u64 = 0;
    let mut i: usize = 0;
    assert(records@.take(0) =~= Seq::empty());
    while i < records.len()
        invariant
            total_size(records@) <= u64::MAX,
            i <= records@.len(),
            total == total_size(records@.take(i as int)),
        decreases records@.len() - i,
    {
        proof {
            lemma_total_size_mono(records@, i + 1);
            assert(records@.take(i + 1).drop_last() =~= records@.take(i as int));
            assert(records@.take(i + 1).last() == records@[i as int]);
        }
        total = total + records[i].size_bytes;
        i = i + 1;
    }
    assert(records@.take(records@.len() as int) =~= records@);
    total
}

/// Whether the size of all backups together fits its type.
pub fn sizes_fit(records: &Vec<AddonBackupRecord>) -> (r: bool)
    ensures
        r == (total_size(records@) <= u64::MAX),
{
    let mut total: u64 = 0;
    let mut i: usize = 0;
    assert(records@.take(0) =~= Seq::empty());
    while i < records.len()
        invariant
            i <= records@.len(),
            total == total_size(records@.take(i as int)),
        decreases records@.len() - i,
    {
        proof {
            lemma_total_size_mono(records@, i + 1);
            assert(records@.take(i + 1).drop_last() =~= records@.take(i as int));
            assert(records@.take(i + 1).last() == records@[i as int]);
        }
        match total.checked_add(records[i].size_bytes) {
            Some(sum) => total = sum,
            None => return false,
        }
        i = i + 1;
    }
    assert(records@.take(records@.len() as int) =~= records@);
    true
}

/// Whether `key` is among the first `n` keys.
pub open spec fn seen(keys: Seq<Seq<char>>, key: Seq<char>, n: int) -> bool {
    exists|j: int| 0 <= j < n && #[trigger] keys[j] == key
}

/// How many different keys there are: those that no earlier one equals.
pub open spec fn distinct_count(keys: Seq<Seq<char>>, n: int) -> nat
    decreases n,
{
    if n <= 0 {
        0
    } else {
        distinct_count(keys, n - 1) + if seen(keys, keys[n - 1], n - 1) {
            0nat
        } else {
            1nat
        }
    }
}

/// How many different texts there are.
pub fn count_distinct(keys: &Vec<String>) -> (r: usize)
    ensures
        r == distinct_count(text::views(keys@), keys@.len() as int),
{
    let ghost all = text::views(keys@);
    let mut n: usize = 0;
    let mut i: usize = 0;
    while i < keys.len()
        invariant
            all == text::views(keys@),
            i <= keys@.len(),
            n <= i,
            n == distinct_count(all, i as int),
        decreases keys@.len() - i,
    {
        let mut j: usize = 0;
        let mut found: bool = false;
        while j < i
            invariant
                all == text::views(keys@),
                i < keys@.len(),
                j <= i,
                found == seen(all, all[i as int], j as int),
            decreases i - j,
        {
            let same: bool = text::same_text(keys[i].as_str(), keys[j].as_str());
            assert(all[i as int] == keys@[i as int]@ && all[j as int] == keys@[j as int]@);
            found = found || same;
            j = j + 1;
        }
        if !found {
            n = n + 1;
        }
        i = i + 1;
    }
    n
}

// ---------------------------------------------------------------------------
// Groups
// ---------------------------------------------------------------------------

/// Whether `a` comes before `b` when texts are compared character by character
/// from position `i` on.
pub open spec fn text_before(a: Seq<char>, b: Seq<char>, i: int) -> bool
    decreases a.len() - i,
{
    if i >= b.len() {
        false
    } else if i >= a.len() {
        true
    } else if a[i] != b[i] {
        a[i] < b[i]
    } else {
        text_before(a, b, i + 1)
    }
}

/// Texts that differ stand one before the other, and not both.
proof fn lemma_text_before_total(a: Seq<char>, b: Seq<char>, i: int)
    requires
        0 <= i <= a.len(),
        i <= b.len(),
        forall|j: int| 0 <= j < i ==> a[j] == b[j],
    ensures
        text_before(a, b, i) || text_before(b, a, i) || a == b,
        !(text_before(a, b, i) && text_before(b, a, i)),
        a == b ==> !text_before(a, b, i),
    decreases a.len() - i,
{
    if i < a.len() && i < b.len() && a[i] == b[i] {
        lemma_text_before_total(a, b, i + 1);
    } else if i == a.len() && i == b.len() {
        assert(a =~= b);
    }
}

/// What stands before a text stands before whatever that text stands before.
proof fn lemma_text_before_trans(a: Seq<char>, b: Seq<char>, c: Seq<char>, i: int)
    requires
        0 <= i,
        text_before(a, b, i),
        text_before(b, c, i),
    ensures
        text_before(a, c, i),
    decreases a.len() - i,
{
    if i < a.len() && i < b.len() && i < c.len() && a[i] == b[i] && b[i] == c[i] {
        lemma_text_before_trans(a, b, c, i + 1);
    }
}

/// Whether `a` comes before `b`.
pub fn comes_before(a: &str, b: &str) -> (r: bool)
    ensures
        r == text_before(a@, b@, 0),
{
    let xs: Vec<char> = chars_of(a);
    let ys: Vec<char> = chars_of(b);
    let mut i: usize = 0;
    while i < xs.len() && i < ys.len() && xs[i] == ys[i]
        invariant
            xs@ == a@,
            ys@ == b@,
            i <= xs@.len(),
            i <= ys@.len(),
            text_before(a@, b@, 0) == text_before(a@, b@, i as int),
        decreases xs@.len() - i,
    {
        i = i + 1;
    }
    if i >= ys.len() {
        false
    } else if i >= xs.len() {
        true
    } else {
        xs[i] < ys[i]
    }
}

/// The backups with the key `key` among the first `n`, if they pass the
/// filter, in their order.
pub open spec fn members(
    records: Seq<AddonBackupRecord>,
    keys: Seq<Seq<char>>,
    passes: Seq<bool>,
    key: Seq<char>,
    n: int,
) -> Seq<AddonBackupRecord>
    decreases n,
{
    if n <= 0 {
        Seq::empty()
    } else {
        let head = members(records, keys, passes, key, n - 1);
        if passes[n - 1] && keys[n - 1] == key {
            head.push(records[n - 1])
        } else {
            head
        }
    }
}

/// Whether one of the first `n` backups that pass the filter has the key
/// `key`.
pub open spec fn shows_key(
    keys: Seq<Seq<char>>,
    passes: Seq<bool>,
    key: Seq<char>,
    n: int,
) -> bool {
    exists|i: int| 0 <= i < n && passes[i] && #[trigger] keys[i] == key
}

/// Whether the groups have a key.
pub open spec fn has_group(groups: Seq<BackupGroup>, key: Seq<char>) -> bool {
    exists|g: int| 0 <= g < groups.len() && (#[trigger] groups[g]).key@ == key
}

/// Whether the first `n` backups that pass the filter stand in the groups:
/// each key once, the keys in order, each with its backups.
pub open spec fn is_grouping(
    groups: Seq<BackupGroup>,
    records: Seq<AddonBackupRecord>,
    keys: Seq<Seq<char>>,
    passes: Seq<bool>,
    n: int,
) -> bool {
    &&& forall|g: int, h: int|
        0 <= g < h < groups.len() ==> text_before(
            (#[trigger] groups[g]).key@,
            (#[trigger] groups[h]).key@,
            0,
        )
    &&& forall|g: int|
        0 <= g < groups.len() ==> (#[trigger] groups[g]).backups@ == members(
            records,
            keys,
            passes,
            groups[g].key@,
            n,
        )
    &&& forall|key: Seq<char>| #[trigger]
        has_group(groups, key) == shows_key(keys, passes, key, n)
}

/// Without a backup of a key there are no members.
proof fn lemma_no_members(
    records: Seq<AddonBackupRecord>,
    keys: Seq<Seq<char>>,
    passes: Seq<bool>,
    key: Seq<char>,
    n: int,
)
    requires
        !shows_key(keys, passes, key, n),
    ensures
        members(records, keys, passes, key, n).len() == 0,
    decreases n,
{
    if n > 0 {
        assert(!shows_key(keys, passes, key, n - 1)) by {
            if shows_key(keys, passes, key, n - 1) {
                let i = choose|i: int| 0 <= i < n - 1 && passes[i] && #[trigger] keys[i] == key;
                assert(keys[i] == key);
            }
        }
        lemma_no_members(records, keys, passes, key, n - 1);
        assert(!(passes[n - 1] && keys[n - 1] == key));
    }
}

/// One more backup shows its own key and no other.
proof fn lemma_shows_key_step(keys: Seq<Seq<char>>, passes: Seq<bool>, n: int)
    requires
        n >= 0,
    ensures
        forall|key: Seq<char>| #[trigger]
            shows_key(keys, passes, key, n + 1) == (shows_key(keys, passes, key, n) || (passes[n]
                && keys[n] == key)),
{
    assert forall|key: Seq<char>| #[trigger] shows_key(keys, passes, key, n + 1) == (shows_key(
        keys,
        passes,
        key,
        n,
    ) || (passes[n] && keys[n] == key)) by {
        if shows_key(keys, passes, key, n + 1) {
            let i = choose|i: int| 0 <= i < n + 1 && passes[i] && #[trigger] keys[i] == key;
            if i < n {
                assert(0 <= i < n && passes[i] && keys[i] == key);
            }
        }
        if shows_key(keys, passes, key, n) {
            let i = choose|i: int| 0 <= i < n && passes[i] && #[trigger] keys[i] == key;
            assert(0 <= i < n + 1 && passes[i] && keys[i] == key);
        }
    }
}

/// The grouping of one more backup, whose key has a group.
proof fn lemma_grouping_push(
    before: Seq<BackupGroup>,
    after: Seq<BackupGroup>,
    records: Seq<AddonBackupRecord>,
    keys: Seq<Seq<char>>,
    passes: Seq<bool>,
    n: int,
    at: int,
)
    requires
        n >= 0,
        is_grouping(before, records, keys, passes, n),
        passes[n],
        0 <= at < before.len(),
        before[at].key@ == keys[n],
        after.len() == before.len(),
        forall|g: int| 0 <= g < before.len() && g != at ==> after[g] == before[g],
        after[at].key@ == before[at].key@,
        after[at].backups@ == before[at].backups@.push(records[n]),
    ensures
        is_grouping(after, records, keys, passes, n + 1),
{
    lemma_shows_key_step(keys, passes, n);
    assert forall|g: int, h: int| 0 <= g < h < after.len() implies text_before(
        (#[trigger] after[g]).key@,
        (#[trigger] after[h]).key@,
        0,
    ) by {
        assert(after[g].key@ == before[g].key@ && after[h].key@ == before[h].key@);
    }
    assert forall|g: int| 0 <= g < after.len() implies (#[trigger] after[g]).backups@ == members(
        records,
        keys,
        passes,
        after[g].key@,
        n + 1,
    ) by {
        if g != at {
            assert(after[g] == before[g]);
            lemma_text_before_total(before[g].key@, before[at].key@, 0);
            if g < at {
                assert(text_before(before[g].key@, before[at].key@, 0));
            } else {
                assert(text_before(before[at].key@, before[g].key@, 0));
            }
        } else {
            assert(before[at].backups@ == members(records, keys, passes, before[at].key@, n));
        }
    }
    assert forall|key: Seq<char>| #[trigger] has_group(after, key) == shows_key(
        keys,
        passes,
        key,
        n + 1,
    ) by {
        assert(has_group(before, key) == shows_key(keys, passes, key, n));
        assert(has_group(after, key) == has_group(before, key)) by {
            if has_group(after, key) {
                let g = choose|g: int| 0 <= g < after.len() && (#[trigger] after[g]).key@ == key;
                assert(before[g].key@ == key);
            }
            if has_group(before, key) {
                let g = choose|g: int| 0 <= g < before.len() && (#[trigger] before[g]).key@ == key;
                assert(after[g].key@ == key);
            }
        }
        if keys[n] == key {
            assert(before[at].key@ == key);
            assert(has_group(before, key));
        }
    }
}

/// The grouping of one more backup, whose key has no group yet.
proof fn lemma_grouping_insert(
    before: Seq<BackupGroup>,
    fresh: BackupGroup,
    records: Seq<AddonBackupRecord>,
    keys: Seq<Seq<char>>,
    passes: Seq<bool>,
    n: int,
    at: int,
)
    requires
        n >= 0,
        is_grouping(before, records, keys, passes, n),
        passes[n],
        0 <= at <= before.len(),
        forall|g: int| 0 <= g < at ==> text_before((#[trigger] before[g]).key@, keys[n], 0),
        at < before.len() ==> text_before(keys[n], before[at].key@, 0),
        fresh.key@ == keys[n],
        fresh.backups@ == seq![records[n]],
    ensures
        is_grouping(before.insert(at, fresh), records, keys, passes, n + 1),
{
    let after = before.insert(at, fresh);
    lemma_shows_key_step(keys, passes, n);
    assert forall|g: int| at <= g < before.len() implies text_before(
        keys[n],
        (#[trigger] before[g]).key@,
        0,
    ) by {
        if g > at {
            assert(text_before(before[at].key@, before[g].key@, 0));
            lemma_text_before_trans(keys[n], before[at].key@, before[g].key@, 0);
        }
    }
    assert(!has_group(before, keys[n])) by {
        if has_group(before, keys[n]) {
            let g = choose|g: int| 0 <= g < before.len() && (#[trigger] before[g]).key@ == keys[n];
            lemma_text_before_total(before[g].key@, keys[n], 0);
        }
    }
    assert(!shows_key(keys, passes, keys[n], n));
    lemma_no_members(records, keys, passes, keys[n], n);
    assert forall|g: int, h: int| 0 <= g < h < after.len() implies text_before(
        (#[trigger] after[g]).key@,
        (#[trigger] after[h]).key@,
        0,
    ) by {
        let a = if g < at {
            g
        } else {
            g - 1
        };
        let b = if h < at {
            h
        } else {
            h - 1
        };
        if g == at {
            assert(after[h] == before[b]);
        } else if h == at {
            assert(after[g] == before[a]);
        } else {
            assert(after[g] == before[a] && after[h] == before[b]);
            assert(text_before(before[a].key@, before[b].key@, 0));
        }
    }
    assert forall|g: int| 0 <= g < after.len() implies (#[trigger] after[g]).backups@ == members(
        records,
        keys,
        passes,
        after[g].key@,
        n + 1,
    ) by {
        if g == at {
            assert(members(records, keys, passes, keys[n], n) =~= Seq::empty());
            assert(members(records, keys, passes, keys[n], n).push(records[n]) =~= seq![records[n]]);
        } else {
            let a = if g < at {
                g
            } else {
                g - 1
            };
            assert(after[g] == before[a]);
            lemma_text_before_total(before[a].key@, keys[n], 0);
        }
    }
    assert forall|key: Seq<char>| #[trigger] has_group(after, key) == shows_key(
        keys,
        passes,
        key,
        n + 1,
    ) by {
        assert(has_group(before, key) == shows_key(keys, passes, key, n));
        if has_group(after, key) {
            let g = choose|g: int| 0 <= g < after.len() && (#[trigger] after[g]).key@ == key;
            if g < at {
                assert(before[g].key@ == key);
            } else if g > at {
                assert(before[g - 1].key@ == key);
            }
        }
        if has_group(before, key) {
            let g = choose|g: int| 0 <= g < before.len() && (#[trigger] before[g]).key@ == key;
            if g < at {
                assert(after[g].key@ == key);
            } else {
                assert(after[g + 1].key@ == key);
            }
        }
        if keys[n] == key {
            assert(after[at].key@ == key);
        }
    }
}

/// The backups that pass the filter, grouped by their keys.
pub fn group_backups(
    records: &Vec<AddonBackupRecord>,
    keys: &Vec<String>,
    passes: &Vec<bool>,
) -> (groups: Vec<BackupGroup>)
    requires
        keys@.len() == records@.len(),
        passes@.len() == records@.len(),
    ensures
        is_grouping(
            groups@,
            records@,
            text::views(keys@),
            passes@,
            records@.len() as int,
        ),
{
    let ghost all = text::views(keys@);
    let mut groups: Vec<BackupGroup> = Vec::new();
    let mut i: usize = 0;
    proof {
        assert forall|key: Seq<char>| #[trigger] has_group(groups@, key) == shows_key(
            all,
            passes@,
            key,
            0,
        ) by {}
    }
    while i < records.len()
        invariant
            all == text::views(keys@),
            keys@.len() == records@.len(),
            passes@.len() == records@.len(),
            i <= records@.len(),
            is_grouping(groups@, records@, all, passes@, i as int),
        decreases records@.len() - i,
    {
        let ghost before = groups@;
        assert(keys@[i as int]@ == all[i as int]);
        if passes[i] {
            let mut at: usize = 0;
            while at < groups.len() && comes_before(groups[at].key.as_str(), keys[i].as_str())
                invariant
                    groups@ == before,
                    i < keys@.len(),
                    keys@[i as int]@ == all[i as int],
                    at <= before.len(),
                    forall|g: int| 0 <= g < at ==> text_before(
                        (#[trigger] before[g]).key@,
                        all[i as int],
                        0,
                    ),
                decreases before.len() - at,
            {
                at = at + 1;
            }
            if at < groups.len() && text::same_text(groups[at].key.as_str(), keys[i].as_str()) {
                let mut group: BackupGroup = groups.remove(at);
                group.backups.push(records[i].clone());
                groups.insert(at, group);
                proof {
                    lemma_grouping_push(
                        before,
                        groups@,
                        records@,
                        all,
                        passes@,
                        i as int,
                        at as int,
                    );
                }
            } else {
                let mut backups: Vec<AddonBackupRecord> = Vec::new();
                backups.push(records[i].clone());
                let group: BackupGroup = BackupGroup { key: keys[i].clone(), backups };
                proof {
                    assert(group.backups@ =~= seq![records@[i as int]]);
                    if at < before.len() {
                        lemma_text_before_total(before[at as int].key@, all[i as int], 0);
                    }
                    lemma_grouping_insert(
                        before,
                        group,
                        records@,
                        all,
                        passes@,
                        i as int,
                        at as int,
                    );
                }
                groups.insert(at, group);
            }
        } else {
            proof {
                lemma_shows_key_step(all, passes@, i as int);
                assert(is_grouping(groups@, records@, all, passes@, i + 1));
            }
        }
        i = i + 1;
    }
    groups
}

/// Every backup that passes the filter stands in one group, and only in that
/// one.
pub proof fn law_every_backup_is_listed(
    groups: Seq<BackupGroup>,
    records: Seq<AddonBackupRecord>,
    keys: Seq<Seq<char>>,
    passes: Seq<bool>,
    i: int,
)
    requires
        is_grouping(groups, records, keys, passes, records.len() as int),
        0 <= i < records.len(),
        passes[i],
    ensures
        exists|g: int| #[trigger] holds_backup(groups, g, keys[i], records[i]),
        forall|g: int, h: int|
            0 <= g < groups.len() && 0 <= h < groups.len() && (#[trigger] groups[g]).key@ == keys[i]
                && (#[trigger] groups[h]).key@ == keys[i] ==> g == h,
{
    let n = records.len() as int;
    assert(keys[i] == keys[i] && shows_key(keys, passes, keys[i], n));
    assert(has_group(groups, keys[i]));
    let g = choose|g: int| 0 <= g < groups.len() && (#[trigger] groups[g]).key@ == keys[i];
    lemma_member(records, keys, passes, n, i);
    assert(holds_backup(groups, g, keys[i], records[i]));
    assert forall|g: int, h: int|
        0 <= g < groups.len() && 0 <= h < groups.len() && (#[trigger] groups[g]).key@ == keys[i]
            && (#[trigger] groups[h]).key@ == keys[i] implies g == h by {
        lemma_text_before_total(keys[i], keys[i], 0);
        if g < h {
            assert(text_before(groups[g].key@, groups[h].key@, 0));
        } else if h < g {
            assert(text_before(groups[h].key@, groups[g].key@, 0));
        }
    }
}

/// Whether group `g` has the key `key` and holds a backup.
pub open spec fn holds_backup(
    groups: Seq<BackupGroup>,
    g: int,
    key: Seq<char>,
    record: AddonBackupRecord,
) -> bool {
    0 <= g < groups.len() && groups[g].key@ == key && groups[g].backups@.contains(record)
}

/// A backup that passes is a member of its own key.
proof fn lemma_member(
    records: Seq<AddonBackupRecord>,
    keys: Seq<Seq<char>>,
    passes: Seq<bool>,
    n: int,
    i: int,
)
    requires
        0 <= i < n,
        passes[i],
    ensures
        members(records, keys, passes, keys[i], n).contains(records[i]),
    decreases n,
{
    let all = members(records, keys, passes, keys[i], n);
    let head = members(records, keys, passes, keys[i], n - 1);
    if i == n - 1 {
        assert(all.last() == records[i]);
    } else {
        lemma_member(records, keys, passes, n - 1, i);
        let k = choose|k: int| 0 <= k < head.len() && head[k] == records[i];
        assert(all[k] == records[i]);
    }
}

// ---------------------------------------------------------------------------
// The view of a group
// ---------------------------------------------------------------------------

/// By what the rows of a group are placed: the newest first, then by the name
/// of the folder.
pub open spec fn record_keys(backups: Seq<AddonBackupRecord>) -> Seq<RowKey> {
    Seq::new(
        backups.len(),
        |i: int|
            RowKey {
                rank: 0,
                progress: backups[i].created_at_unix_secs,
                name: backups[i].folder_rank,
                listed: true,
            },
    )
}

/// The heading of a group.
pub open spec fn group_heading(name: Seq<char>, backups: Seq<AddonBackupRecord>) -> MessageModel {
    MessageModel {
        key: "{name} ({count} backups, {size})"@,
        args: seq![
            ("name"@, name),
            ("count"@, text::decimal(backups.len())),
            ("size"@, figures::bytes_shown(total_size(backups))),
        ],
    }
}

/// How a group is shown: its rows are indices into its backups.
#[derive(Debug)]
pub struct BackupGroupView {
    pub addon_name: String,
    pub heading: Message,
    pub rows: Vec<usize>,
}

/// The name that a group is shown under: that of its first row.
pub open spec fn group_name(backups: Seq<AddonBackupRecord>, rows: Seq<usize>) -> Seq<char> {
    if rows.len() == 0 {
        Seq::empty()
    } else {
        backups[rows[0] as int].addon_name@
    }
}

impl BackupGroup {
    /// How the group is shown.
    pub fn view_rows(&self) -> (r: BackupGroupView)
        requires
            total_size(self.backups@) <= u64::MAX,
        ensures
            manifest::is_row_order(record_keys(self.backups@), r.rows@),
            r.addon_name@ == group_name(self.backups@, r.rows@),
            r.heading@ == group_heading(r.addon_name@, self.backups@),
    {
        let mut keys: Vec<RowKey> = Vec::new();
        let mut i: usize = 0;
        while i < self.backups.len()
            invariant
                i <= self.backups@.len(),
                keys@ =~= record_keys(self.backups@).take(i as int),
            decreases self.backups@.len() - i,
        {
            keys.push(
                RowKey {
                    rank: 0,
                    progress: self.backups[i].created_at_unix_secs,
                    name: self.backups[i].folder_rank,
                    listed: true,
                },
            );
            i = i + 1;
        }
        assert(keys@ =~= record_keys(self.backups@));
        let rows: Vec<usize> = sorted_rows(&keys);
        let addon_name: String = if rows.len() == 0 {
            String::new()
        } else {
            assert(rows@[0] < keys@.len());
            self.backups[rows[0]].addon_name.clone()
        };
        let m: Message = Message::plain("{name} ({count} backups, {size})");
        let m: Message = m.with("name", addon_name.clone());
        let m: Message = m.with("count", decimal_text(self.backups.len() as u128));
        let m: Message = m.with("size", fmt_bytes(total_bytes(&self.backups)));
        assert(m@.args =~= group_heading(addon_name@, self.backups@).args);
        BackupGroupView { addon_name, heading: m, rows }
    }
}

/// The line below the name of a backup. `date` is the day it was made.
pub open spec fn detail_line(record: AddonBackupRecord, date: Seq<char>) -> MessageModel {
    MessageModel {
        key: "Created {date} - Hash {hash} - Size {size}"@,
        args: seq![
            ("date"@, date),
            ("hash"@, record.content_hash@),
            ("size"@, figures::bytes_shown(record.size_bytes as nat)),
        ],
    }
}

/// The line below the name of a backup.
pub fn backup_detail(record: &AddonBackupRecord, date: String) -> (r: Message)
    ensures
        r@ == detail_line(*record, date@),
{
    let ghost day = date@;
    let m: Message = Message::plain("Created {date} - Hash {hash} - Size {size}");
    let m: Message = m.with("date", date);
    let m: Message = m.with("hash", record.content_hash.clone());
    let m: Message = m.with("size", fmt_bytes(record.size_bytes));
    assert(m@.args =~= detail_line(*record, day).args);
    m
}

// ---------------------------------------------------------------------------
// The manager
// ---------------------------------------------------------------------------

/// What the manager shows, and what it was made from.
#[derive(Debug)]
pub struct BackupManagerViewCache {
    pub records_version: u64,
    pub filter: String,
    pub total_backups: usize,
    pub total_bytes: u64,
    pub addon_count: usize,
    pub grouped_backups: Vec<BackupGroup>,
}

/// What a change that was asked for does, once it is confirmed.
#[derive(Debug)]
pub enum BackupManagerConfirmAction {
    DeleteBackup(AddonBackupRecord),
    DeleteAddonGroup { addon_name: String, backup_count: usize },
    RunCleanup,
}

/// What came of the last change.
#[derive(Debug)]
pub struct BackupManagerNotice {
    pub message: String,
    pub success: bool,
}

/// The state of the backup manager.
#[derive(Debug)]
pub struct BackupManager {
    pub loaded: bool,
    pub records: Vec<AddonBackupRecord>,
    pub records_version: u64,
    pub filter: String,
    pub view_cache: Option<BackupManagerViewCache>,
    pub confirm_action: Option<BackupManagerConfirmAction>,
    pub notice: Option<BackupManagerNotice>,
    pub keep_latest_per_addon: u32,
    pub max_age_days: Option<u32>,
}

/// Whether what is shown was made from other records or another filter.
pub open spec fn cache_stale(m: BackupManager, filter: Seq<char>) -> bool {
    match m.view_cache {
        Some(c) => c.records_version != m.records_version || c.filter@ != filter,
        None => true,
    }
}

/// What is shown of `records`, given their keys and which of them pass.
pub open spec fn shows(
    c: BackupManagerViewCache,
    records: Seq<AddonBackupRecord>,
    version: u64,
    filter: Seq<char>,
    keys: Seq<Seq<char>>,
    passes: Seq<bool>,
) -> bool {
    &&& c.records_version == version
    &&& c.filter@ == filter
    &&& c.total_backups == records.len()
    &&& c.total_bytes == total_size(records)
    &&& c.addon_count == distinct_count(keys, keys.len() as int)
    &&& is_grouping(c.grouped_backups@, records, keys, passes, records.len() as int)
}

/// What is shown of `records`, given their keys and which of them pass.
pub fn build_view_cache(
    records: &Vec<AddonBackupRecord>,
    records_version: u64,
    filter: String,
    keys: &Vec<String>,
    passes: &Vec<bool>,
) -> (r: BackupManagerViewCache)
    requires
        keys@.len() == records@.len(),
        passes@.len() == records@.len(),
        total_size(records@) <= u64::MAX,
    ensures
        shows(r, records@, records_version, filter@, text::views(keys@), passes@),
{
    BackupManagerViewCache {
        records_version,
        filter,
        total_backups: records.len(),
        total_bytes: total_bytes(records),
        addon_count: count_distinct(keys),
        grouped_backups: group_backups(records, keys, passes),
    }
}

/// The keys by which backups are grouped: the names in lower case.
pub open spec fn group_keys(records: Seq<AddonBackupRecord>) -> Seq<Seq<char>> {
    Seq::new(records.len(), |i: int| text::unicode_lowercase(records[i].addon_name@))
}

/// Which backups pass: all of them without a filter, else those that it hits.
pub open spec fn passing(filter_empty: bool, hits: Seq<bool>) -> Seq<bool> {
    Seq::new(hits.len(), |i: int| filter_empty || hits[i])
}

/// The line on where the backups lie.
pub fn root_line(path: String) -> (r: Message)
    ensures
        r@ == message::with_one("Backup root: {path}"@, "path"@, path@),
{
    one("Backup root: {path}", "path", path)
}

/// What a click asks of the outside, once it is confirmed.
#[derive(Debug)]
pub enum BackupJob {
    Delete(AddonBackupRecord),
    DeleteGroup(String),
    Cleanup,
}

/// The words of the window that asks before a change.
#[derive(Debug)]
pub struct Confirmation {
    pub title: &'static str,
    pub message: Message,
    pub yes: &'static str,
}

/// What the window asks.
pub open spec fn question(action: BackupManagerConfirmAction) -> MessageModel {
    match action {
        BackupManagerConfirmAction::DeleteBackup(record) => MessageModel {
            key: "Delete backup {name} ({hash})?"@,
            args: seq![("name"@, record.addon_name@), ("hash"@, record.content_hash@)],
        },
        BackupManagerConfirmAction::DeleteAddonGroup { addon_name, backup_count } => MessageModel {
            key: "Delete all {count} backups for {name}?"@,
            args: seq![("count"@, text::decimal(backup_count as nat)), ("name"@, addon_name@)],
        },
        BackupManagerConfirmAction::RunCleanup => message::plain(
            "Run backup cleanup using the configured retention rules?"@,
        ),
    }
}

/// The title of the window that asks.
pub open spec fn question_title(action: BackupManagerConfirmAction) -> Seq<char> {
    if action is RunCleanup {
        "Confirm backup cleanup"@
    } else {
        "Confirm backup deletion"@
    }
}

/// The button that says yes.
pub open spec fn question_yes(action: BackupManagerConfirmAction) -> Seq<char> {
    match action {
        BackupManagerConfirmAction::DeleteBackup(_) => "Delete backup"@,
        BackupManagerConfirmAction::DeleteAddonGroup { .. } => "Delete all backups"@,
        BackupManagerConfirmAction::RunCleanup => "Run cleanup now"@,
    }
}

/// What a confirmed change asks of the outside.
pub open spec fn job_of(action: BackupManagerConfirmAction) -> BackupJob {
    match action {
        BackupManagerConfirmAction::DeleteBackup(record) => BackupJob::Delete(record),
        BackupManagerConfirmAction::DeleteAddonGroup { addon_name, .. } => BackupJob::DeleteGroup(
            addon_name,
        ),
        BackupManagerConfirmAction::RunCleanup => BackupJob::Cleanup,
    }
}

/// The days that a rule without a usable number of days starts with.
pub const DEFAULT_MAX_AGE_DAYS: u32 = 30;

/// The line on what the manager tracks.
pub open spec fn summary_line(c: BackupManagerViewCache) -> MessageModel {
    MessageModel {
        key: "Backup manager is tracking {backups} backups across {addons} addons using {size}."@,
        args: seq![
            ("backups"@, text::decimal(c.total_backups as nat)),
            ("addons"@, text::decimal(c.addon_count as nat)),
            ("size"@, figures::bytes_shown(c.total_bytes as nat)),
        ],
    }
}

impl BackupManagerViewCache {
    /// The line on what the manager tracks.
    pub fn summary(&self) -> (r: Message)
        ensures
            r@ == summary_line(*self),
    {
        let m: Message = Message::plain(
            "Backup manager is tracking {backups} backups across {addons} addons using {size}.",
        );
        let m: Message = m.with("backups", decimal_text(self.total_backups as u128));
        let m: Message = m.with("addons", decimal_text(self.addon_count as u128));
        let m: Message = m.with("size", fmt_bytes(self.total_bytes));
        assert(m@.args =~= summary_line(*self).args);
        m
    }

    /// What stands in place of the groups when there are none.
    pub fn empty_note(&self) -> (r: Option<&'static str>)
        ensures
            r is None <==> self.grouped_backups@.len() > 0,
            r matches Some(t) ==> t@ == if self.total_backups == 0 {
                "No addon backups found."@
            } else {
                "No addon backups match the current filter."@
            },
    {
        if self.grouped_backups.len() > 0 {
            None
        } else if self.total_backups == 0 {
            Some("No addon backups found.")
        } else {
            Some("No addon backups match the current filter.")
        }
    }
}

impl BackupManager {
    /// Whether the inventory must be read before the manager shows.
    pub fn needs_inventory(&self, refresh_pending: bool) -> (r: bool)
        ensures
            r == (!self.loaded && !refresh_pending),
    {
        !self.loaded && !refresh_pending
    }

    /// Brings what is shown up to date. `filter_empty` says whether the filter
    /// names nothing, `hits` which of the records it names.
    pub fn refresh_view_cache(&mut self, filter_empty: bool, hits: &Vec<bool>)
        requires
            hits@.len() == old(self).records@.len(),
            total_size(old(self).records@) <= u64::MAX,
        ensures
            *final(self) == (BackupManager { view_cache: final(self).view_cache, ..*old(self) }),
            ({
                let filter = text::unicode_lowercase(text::trimmed(old(self).filter@));
                if cache_stale(*old(self), filter) {
                    final(self).view_cache matches Some(c) && shows(
                        c,
                        old(self).records@,
                        old(self).records_version,
                        filter,
                        group_keys(old(self).records@),
                        passing(filter_empty, hits@),
                    )
                } else {
                    final(self).view_cache == old(self).view_cache
                }
            }),
    {
        let filter: String = to_lowercase(trim(self.filter.as_str()).as_str());
        let stale: bool = match &self.view_cache {
            Some(c) => c.records_version != self.records_version || !text::same_text(
                c.filter.as_str(),
                filter.as_str(),
            ),
            None => true,
        };
        if !stale {
            return;
        }
        let mut keys: Vec<String> = Vec::new();
        let mut passes: Vec<bool> = Vec::new();
        let mut i: usize = 0;
        while i < self.records.len()
            invariant
                *self == *old(self),
                hits@.len() == self.records@.len(),
                i <= self.records@.len(),
                text::views(keys@) =~= group_keys(self.records@).take(i as int),
                passes@ =~= passing(filter_empty, hits@).take(i as int),
            decreases self.records@.len() - i,
        {
            let ghost before = text::views(keys@);
            let key: String = to_lowercase(self.records[i].addon_name.as_str());
            let ghost said = key@;
            keys.push(key);
            assert(text::views(keys@) =~= before.push(said));
            passes.push(filter_empty || hits[i]);
            i = i + 1;
        }
        proof {
            assert(text::views(keys@).len() == keys@.len());
            assert(text::views(keys@) =~= group_keys(self.records@));
            assert(passes@ =~= passing(filter_empty, hits@));
        }
        self.view_cache = Some(
            build_view_cache(&self.records, self.records_version, filter, &keys, &passes),
        );
    }

    /// The switch of the age rule: switched on, it starts with a month.
    pub fn set_max_age_enabled(&mut self, enabled: bool)
        ensures
            *final(self) == (BackupManager {
                max_age_days: if enabled {
                    Some(DEFAULT_MAX_AGE_DAYS)
                } else {
                    None
                },
                ..*old(self)
            }),
    {
        self.max_age_days = if enabled {
            Some(DEFAULT_MAX_AGE_DAYS)
        } else {
            None
        };
    }

    /// The days that the age rule shows; a rule of no days becomes one of a
    /// month.
    pub fn max_age_shown(&mut self) -> (r: Option<u32>)
        ensures
            *final(self) == (BackupManager { max_age_days: r, ..*old(self) }),
            r == match old(self).max_age_days {
                Some(0) => Some(DEFAULT_MAX_AGE_DAYS),
                days => days,
            },
    {
        if let Some(days) = self.max_age_days {
            if days == 0 {
                self.max_age_days = Some(DEFAULT_MAX_AGE_DAYS);
            }
        }
        self.max_age_days
    }

    /// Asks before the retention rules are applied.
    pub fn request_cleanup(&mut self)
        ensures
            *final(self) == (BackupManager {
                confirm_action: Some(BackupManagerConfirmAction::RunCleanup),
                ..*old(self)
            }),
    {
        self.confirm_action = Some(BackupManagerConfirmAction::RunCleanup);
    }

    /// Asks before a backup is deleted.
    pub fn request_delete(&mut self, record: &AddonBackupRecord)
        ensures
            *final(self) == (BackupManager {
                confirm_action: Some(BackupManagerConfirmAction::DeleteBackup(*record)),
                ..*old(self)
            }),
    {
        self.confirm_action = Some(BackupManagerConfirmAction::DeleteBackup(record.clone()));
    }

    /// Asks before the backups of an addon are deleted.
    pub fn request_delete_group(&mut self, addon_name: &String, backup_count: usize)
        ensures
            *final(self) == (BackupManager {
                confirm_action: Some(
                    BackupManagerConfirmAction::DeleteAddonGroup {
                        addon_name: *addon_name,
                        backup_count,
                    },
                ),
                ..*old(self)
            }),
    {
        self.confirm_action = Some(
            BackupManagerConfirmAction::DeleteAddonGroup {
                addon_name: addon_name.clone(),
                backup_count,
            },
        );
    }

    /// The window that asks before a change, if one is asked for.
    pub fn confirmation(&self) -> (r: Option<Confirmation>)
        ensures
            match (self.confirm_action, r) {
                (Some(action), Some(c)) => c.title@ == question_title(action) && c.message@
                    == question(action) && c.yes@ == question_yes(action),
                (None, None) => true,
                _ => false,
            },
    {
        match &self.confirm_action {
            Some(action) => Some(
                match action {
                    BackupManagerConfirmAction::DeleteBackup(record) => {
                        let m: Message = Message::plain("Delete backup {name} ({hash})?");
                        let m: Message = m.with("name", record.addon_name.clone());
                        let m: Message = m.with("hash", record.content_hash.clone());
                        assert(m@.args =~= question(*action).args);
                        Confirmation {
                            title: "Confirm backup deletion",
                            message: m,
                            yes: "Delete backup",
                        }
                    },
                    BackupManagerConfirmAction::DeleteAddonGroup { addon_name, backup_count } => {
                        let m: Message = Message::plain("Delete all {count} backups for {name}?");
                        let m: Message = m.with("count", decimal_text(*backup_count as u128));
                        let m: Message = m.with("name", addon_name.clone());
                        assert(m@.args =~= question(*action).args);
                        Confirmation {
                            title: "Confirm backup deletion",
                            message: m,
                            yes: "Delete all backups",
                        }
                    },
                    BackupManagerConfirmAction::RunCleanup => Confirmation {
                        title: "Confirm backup cleanup",
                        message: Message::plain(
                            "Run backup cleanup using the configured retention rules?",
                        ),
                        yes: "Run cleanup now",
                    },
                },
            ),
            None => None,
        }
    }

    /// The answer to the window: it closes, and a yes hands the change out.
    pub fn answer(&mut self, yes: bool) -> (r: Option<BackupJob>)
        ensures
            *final(self) == (BackupManager { confirm_action: None, ..*old(self) }),
            r == handed_out(old(self).confirm_action, yes),
    {
        let mut action: Option<BackupManagerConfirmAction> = None;
        std::mem::swap(&mut action, &mut self.confirm_action);
        if !yes {
            return None;
        }
        match action {
            Some(BackupManagerConfirmAction::DeleteBackup(record)) => Some(
                BackupJob::Delete(record),
            ),
            Some(BackupManagerConfirmAction::DeleteAddonGroup { addon_name, .. }) => Some(
                BackupJob::DeleteGroup(addon_name),
            ),
            Some(BackupManagerConfirmAction::RunCleanup) => Some(BackupJob::Cleanup),
            None => None,
        }
    }
}

/// Nothing is deleted unasked: a change goes out only if it was asked for and
/// the window was answered with yes, and one yes hands it out once.
pub proof fn law_changes_are_confirmed(action: Option<BackupManagerConfirmAction>, yes: bool)
    ensures
        handed_out(action, yes) is Some <==> (yes && action is Some),
        handed_out(None, yes) is None,
{
}

/// What an answer hands out.
pub open spec fn handed_out(
    action: Option<BackupManagerConfirmAction>,
    yes: bool,
) -> Option<BackupJob> {
    match action {
        Some(action) => if yes {
            Some(job_of(action))
        } else {
            None
        },
        None => None,
    }
}

} // verus!
