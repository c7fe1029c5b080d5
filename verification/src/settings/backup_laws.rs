//! What holds of the backup manager.

use vstd::prelude::*;

use crate::figures;
use crate::message;
use crate::settings::backup;
use crate::settings::backup::{
    AddonBackupRecord, BackupGroup, BackupGroupView, BackupJob, BackupManager,
    BackupManagerConfirmAction, BackupManagerViewCache, Confirmation,
};
use crate::text;

verus! {

broadcast use vstd::string::group_string_axioms;

// ---------------------------------------------------------------------------
// Totals
// ---------------------------------------------------------------------------

/// The size of two lists of backups is the size of the one and of the other; one
/// backup has its own size, and none has no size.
pub proof fn law_sizes_add_up(
    a: Seq<AddonBackupRecord>,
    b: Seq<AddonBackupRecord>,
    one: AddonBackupRecord,
)
    ensures
        backup::total_size(a + b) == backup::total_size(a) + backup::total_size(b),
        backup::total_size(seq![one]) == one.size_bytes,
        backup::total_size(Seq::empty()) == 0,
    decreases b.len(),
{
    reveal_with_fuel(backup::total_size, 2);
    assert(seq![one].drop_last() =~= Seq::empty());
    if b.len() == 0 {
        assert(a + b =~= a);
    } else {
        law_sizes_add_up(a, b.drop_last(), one);
        assert((a + b).drop_last() =~= a + b.drop_last());
    }
}

/// Different texts are counted as the elements of a set are.
pub proof fn law_different_texts_are_counted(keys: Seq<Seq<char>>, n: int)
    requires
        0 <= n <= keys.len(),
    ensures
        keys.take(n).to_set().finite(),
        backup::distinct_count(keys, n) == keys.take(n).to_set().len(),
    decreases n,
{
    broadcast use vstd::set::group_set_axioms;

    if n == 0 {
        assert(keys.take(0).to_set() =~= Set::<Seq<char>>::empty());
    } else {
        law_different_texts_are_counted(keys, n - 1);
        let front = keys.take(n - 1);
        let whole = keys.take(n);
        let head = front.to_set();
        let all = whole.to_set();
        let last = keys[n - 1];
        assert(all =~= head.insert(last)) by {
            assert forall|t: Seq<char>| all.contains(t) <==> #[trigger] head.insert(
                last,
            ).contains(t) by {
                if all.contains(t) {
                    let k = choose|k: int| 0 <= k < n && whole[k] == t;
                    if k < n - 1 {
                        assert(front[k] == t);
                    }
                }
                if head.contains(t) {
                    let k = choose|k: int| 0 <= k < n - 1 && front[k] == t;
                    assert(whole[k] == t);
                }
                assert(whole[n - 1] == last);
            }
        }
        if backup::seen(keys, last, n - 1) {
            let j = choose|j: int| 0 <= j < n - 1 && #[trigger] keys[j] == last;
            assert(front[j] == last);
        } else if head.contains(last) {
            let k = choose|k: int| 0 <= k < n - 1 && front[k] == last;
            assert(keys[k] == last);
        }
    }
}

// ---------------------------------------------------------------------------
// Groups
// ---------------------------------------------------------------------------

/// A text comes before another exactly if it is a proper beginning of that, or
/// has the smaller character where the two first differ.
pub proof fn law_texts_are_ordered_by_their_characters(a: Seq<char>, b: Seq<char>, k: int)
    requires
        0 <= k <= a.len(),
        k <= b.len(),
        forall|j: int| 0 <= j < k ==> a[j] == b[j],
    ensures
        k == a.len() && k < b.len() ==> backup::text_before(a, b, 0),
        k == b.len() ==> !backup::text_before(a, b, 0),
        k < a.len() && k < b.len() && a[k] != b[k] ==> (backup::text_before(a, b, 0) <==> a[k]
            < b[k]),
{
    lemma_before_from(a, b, 0, k);
}

proof fn lemma_before_from(a: Seq<char>, b: Seq<char>, i: int, k: int)
    requires
        0 <= i <= k <= a.len(),
        k <= b.len(),
        forall|j: int| i <= j < k ==> a[j] == b[j],
    ensures
        backup::text_before(a, b, i) == backup::text_before(a, b, k),
    decreases k - i,
{
    if i < k {
        lemma_before_from(a, b, i + 1, k);
        assert(a[i] == b[i]);
    }
}

/// A backup stands in a group exactly if it is one of the backups, passes the
/// filter and has the name of the group.
pub proof fn law_groups_hold_what_passes(
    groups: Seq<BackupGroup>,
    records: Seq<AddonBackupRecord>,
    keys: Seq<Seq<char>>,
    passes: Seq<bool>,
    g: int,
    record: AddonBackupRecord,
)
    requires
        backup::is_grouping(groups, records, keys, passes, records.len() as int),
        0 <= g < groups.len(),
    ensures
        groups[g].backups@.contains(record) <==> exists|i: int|
            0 <= i < records.len() && #[trigger] records[i] == record && passes[i] && keys[i]
                == groups[g].key@,
{
    lemma_members(records, keys, passes, groups[g].key@, records.len() as int, record);
}

proof fn lemma_members(
    records: Seq<AddonBackupRecord>,
    keys: Seq<Seq<char>>,
    passes: Seq<bool>,
    key: Seq<char>,
    n: int,
    record: AddonBackupRecord,
)
    requires
        0 <= n <= records.len(),
    ensures
        backup::members(records, keys, passes, key, n).contains(record) <==> exists|i: int|
            0 <= i < n && #[trigger] records[i] == record && passes[i] && keys[i] == key,
    decreases n,
{
    if n > 0 {
        lemma_members(records, keys, passes, key, n - 1, record);
        let head = backup::members(records, keys, passes, key, n - 1);
        let all = backup::members(records, keys, passes, key, n);
        if all.contains(record) {
            let k = choose|k: int| 0 <= k < all.len() && all[k] == record;
            if k < head.len() {
                assert(head[k] == record);
                let i = choose|i: int|
                    0 <= i < n - 1 && #[trigger] records[i] == record && passes[i] && keys[i]
                        == key;
                assert(records[i] == record);
            } else {
                assert(records[n - 1] == record);
            }
        }
        if exists|i: int|
            0 <= i < n && #[trigger] records[i] == record && passes[i] && keys[i] == key {
            let i = choose|i: int|
                0 <= i < n && #[trigger] records[i] == record && passes[i] && keys[i] == key;
            if i < n - 1 {
                assert(head.contains(record));
                let k = choose|k: int| 0 <= k < head.len() && head[k] == record;
                assert(all[k] == record);
            } else {
                assert(all[head.len() as int] == record);
            }
        }
    }
}

/// Which backups pass: without a filter all of them, with one those it hits.
pub proof fn law_filter_lets_hits_through(filter_empty: bool, hits: Seq<bool>, i: int)
    requires
        0 <= i < hits.len(),
    ensures
        backup::passing(filter_empty, hits).len() == hits.len(),
        filter_empty ==> backup::passing(filter_empty, hits)[i],
        !filter_empty ==> backup::passing(filter_empty, hits)[i] == hits[i],
{
}

/// Two backups have one key exactly if the names of their addons are the same in
/// lower case.
pub proof fn law_groups_are_of_one_addon(records: Seq<AddonBackupRecord>, i: int, j: int)
    requires
        0 <= i < records.len(),
        0 <= j < records.len(),
    ensures
        backup::group_keys(records).len() == records.len(),
        backup::group_keys(records)[i] == backup::group_keys(records)[j]
            <==> text::unicode_lowercase(records[i].addon_name@) == text::unicode_lowercase(
            records[j].addon_name@,
        ),
{
}

/// A group shows each of its backups once, the newest first, and those of one
/// moment by the names of their folders. Its heading tells the name of the
/// newest, how many there are and their size.
pub proof fn law_group_shows_the_newest_first(
    group: BackupGroup,
    r: BackupGroupView,
    k: int,
    l: int,
)
    requires
        call_ensures(BackupGroup::view_rows, (&group,), r),
        0 <= k < l < r.rows@.len(),
    ensures
        ({
            let a = group.backups@[r.rows@[k] as int];
            let b = group.backups@[r.rows@[l] as int];
            &&& r.rows@[k] != r.rows@[l]
            &&& r.rows@[k] < group.backups@.len()
            &&& a.created_at_unix_secs >= b.created_at_unix_secs
            &&& a.created_at_unix_secs == b.created_at_unix_secs ==> a.folder_rank
                <= b.folder_rank
        }),
        r.addon_name@ == group.backups@[r.rows@[0] as int].addon_name@,
{
    let keys = backup::record_keys(group.backups@);
    assert(crate::update::manifest::stands_before(keys, r.rows@[k] as int, r.rows@[l] as int));
}

/// Every backup of a group has a row, and the heading counts them all.
pub proof fn law_group_shows_every_backup(group: BackupGroup, r: BackupGroupView, i: usize)
    requires
        call_ensures(BackupGroup::view_rows, (&group,), r),
        i < group.backups@.len(),
    ensures
        r.rows@.contains(i),
        r.heading@.key == "{name} ({count} backups, {size})"@,
        r.heading@.args.contains(("name"@, r.addon_name@)),
        r.heading@.args.contains(("count"@, text::decimal(group.backups@.len()))),
        r.heading@.args.contains(
            ("size"@, figures::bytes_shown(backup::total_size(group.backups@))),
        ),
{
    let keys = backup::record_keys(group.backups@);
    assert(keys[i as int].listed);
    let args = r.heading@.args;
    assert(args[0] == args[0] && args[1] == args[1] && args[2] == args[2]);
}

/// The line below a backup tells its day, its hash and its size, each under its
/// name.
pub proof fn law_line_below_a_backup(record: AddonBackupRecord, date: Seq<char>)
    ensures
        ({
            let line = backup::detail_line(record, date);
            &&& line.key == "Created {date} - Hash {hash} - Size {size}"@
            &&& line.args.len() == 3
            &&& line.args.contains(("date"@, date))
            &&& line.args.contains(("hash"@, record.content_hash@))
            &&& line.args.contains(("size"@, figures::bytes_shown(record.size_bytes as nat)))
        }),
{
    let args = backup::detail_line(record, date).args;
    assert(args[0] == args[0] && args[1] == args[1] && args[2] == args[2]);
}

// ---------------------------------------------------------------------------
// The manager
// ---------------------------------------------------------------------------

/// What the manager shows is that of its records and its filter: how many
/// backups there are, of how many addons and how large, whether the filter hits
/// them or not; and no record changes by that.
pub proof fn law_view_is_that_of_the_records(
    m: &mut BackupManager,
    filter_empty: bool,
    hits: Vec<bool>,
)
    requires
        call_ensures(BackupManager::refresh_view_cache, (m, filter_empty, &hits), ()),
        old(m).view_cache is None,
    ensures
        final(m).records == old(m).records,
        final(m).view_cache matches Some(c) && {
            &&& c.total_backups == old(m).records@.len()
            &&& c.total_bytes == backup::total_size(old(m).records@)
            &&& c.addon_count == backup::group_keys(old(m).records@).to_set().len()
            &&& c.filter@ == text::unicode_lowercase(text::trimmed(old(m).filter@))
            &&& c.records_version == old(m).records_version
        },
{
    let keys = backup::group_keys(old(m).records@);
    law_different_texts_are_counted(keys, keys.len() as int);
    assert(keys.take(keys.len() as int) =~= keys);
}

/// What is shown is kept exactly while it is that of the same records and the
/// same filter.
pub proof fn law_view_is_made_anew_after_a_change(
    m: BackupManager,
    c: BackupManagerViewCache,
    filter: Seq<char>,
)
    requires
        m.view_cache == Some(c),
    ensures
        !backup::cache_stale(m, filter) <==> c.records_version == m.records_version && c.filter@
            == filter,
{
}

/// The line on what is tracked tells each number under its name.
pub proof fn law_tracked_numbers_are_told(c: BackupManagerViewCache)
    ensures
        ({
            let line = backup::summary_line(c);
            &&& line.args.len() == 3
            &&& line.args.contains(("backups"@, text::decimal(c.total_backups as nat)))
            &&& line.args.contains(("addons"@, text::decimal(c.addon_count as nat)))
            &&& line.args.contains(("size"@, figures::bytes_shown(c.total_bytes as nat)))
        }),
{
    let args = backup::summary_line(c).args;
    assert(args[0] == args[0] && args[1] == args[1] && args[2] == args[2]);
}

/// A request, its window and a yes hand out the change that was asked for, with
/// the backup or the addon that it was asked for; a no hands out nothing. Either
/// way nothing is asked any more, and no record is touched.
pub proof fn law_answer_hands_out_what_was_asked(
    m: &mut BackupManager,
    yes: bool,
    r: Option<BackupJob>,
)
    requires
        call_ensures(BackupManager::answer, (m, yes), r),
    ensures
        final(m).confirm_action is None,
        final(m).records == old(m).records,
        !yes ==> r is None,
        old(m).confirm_action matches Some(BackupManagerConfirmAction::DeleteBackup(record))
            ==> (yes ==> r == Some(BackupJob::Delete(record))),
        old(m).confirm_action matches Some(
            BackupManagerConfirmAction::DeleteAddonGroup { addon_name, backup_count },
        ) ==> (yes ==> r == Some(BackupJob::DeleteGroup(addon_name))),
        old(m).confirm_action matches Some(BackupManagerConfirmAction::RunCleanup) ==> (yes
            ==> r == Some(BackupJob::Cleanup)),
        old(m).confirm_action is None ==> r is None,
{
}

/// The window that asks names the backup, or the addon and how many backups of
/// it are deleted, and says so on its button.
pub proof fn law_window_names_what_is_deleted(m: BackupManager, r: Option<Confirmation>)
    requires
        call_ensures(BackupManager::confirmation, (&m,), r),
    ensures
        r is Some <==> m.confirm_action is Some,
        m.confirm_action matches Some(BackupManagerConfirmAction::DeleteBackup(record)) ==> {
            &&& r->0.message@.key == "Delete backup {name} ({hash})?"@
            &&& r->0.message@.args.contains(("name"@, record.addon_name@))
            &&& r->0.message@.args.contains(("hash"@, record.content_hash@))
            &&& r->0.yes@ == "Delete backup"@
            &&& r->0.title@ == "Confirm backup deletion"@
        },
        m.confirm_action matches Some(
            BackupManagerConfirmAction::DeleteAddonGroup { addon_name, backup_count },
        ) ==> {
            &&& r->0.message@.key == "Delete all {count} backups for {name}?"@
            &&& r->0.message@.args.contains(("name"@, addon_name@))
            &&& r->0.message@.args.contains(("count"@, text::decimal(backup_count as nat)))
            &&& r->0.yes@ == "Delete all backups"@
            &&& r->0.title@ == "Confirm backup deletion"@
        },
        m.confirm_action matches Some(BackupManagerConfirmAction::RunCleanup) ==> {
            &&& r->0.message@ == message::plain(
                "Run backup cleanup using the configured retention rules?"@,
            )
            &&& r->0.yes@ == "Run cleanup now"@
            &&& r->0.title@ == "Confirm backup cleanup"@
        },
{
    if let Some(c) = r {
        let args = c.message@.args;
        assert(args[0] == args[0] && args[1] == args[1]);
    }
}

/// A request is kept as it was made, and asks before anything is done.
pub proof fn law_request_is_kept(
    m: &mut BackupManager,
    record: AddonBackupRecord,
)
    requires
        call_ensures(BackupManager::request_delete, (m, &record), ()),
    ensures
        final(m).confirm_action == Some(BackupManagerConfirmAction::DeleteBackup(record)),
        final(m).records == old(m).records,
{
}

/// A request for the backups of an addon is kept as it was made.
pub proof fn law_request_for_an_addon_is_kept(
    m: &mut BackupManager,
    addon_name: String,
    backup_count: usize,
)
    requires
        call_ensures(BackupManager::request_delete_group, (m, &addon_name, backup_count), ()),
    ensures
        final(m).confirm_action == Some(
            BackupManagerConfirmAction::DeleteAddonGroup { addon_name, backup_count },
        ),
        final(m).records == old(m).records,
{
}

/// The age rule never has zero days: it is off, or begins with thirty.
pub proof fn law_age_rule_has_days(m: &mut BackupManager, r: Option<u32>)
    requires
        call_ensures(BackupManager::max_age_shown, (m,), r),
    ensures
        final(m).max_age_days == r,
        r is Some <==> old(m).max_age_days is Some,
        r is Some ==> r->0 > 0,
        old(m).max_age_days matches Some(d) ==> r->0 == if d == 0 {
            30
        } else {
            d
        },
        final(m).keep_latest_per_addon == old(m).keep_latest_per_addon,
{
}

/// Where there is nothing to show it is told whether there are no backups or
/// only none that the filter hits.
pub proof fn law_empty_list_of_backups_tells_why(
    c: BackupManagerViewCache,
    r: Option<&'static str>,
)
    requires
        call_ensures(BackupManagerViewCache::empty_note, (&c,), r),
    ensures
        r is Some <==> c.grouped_backups@.len() == 0,
        r is Some && c.total_backups == 0 ==> r->0@ == "No addon backups found."@,
        r is Some && c.total_backups > 0 ==> r->0@
            == "No addon backups match the current filter."@,
{
}

/// The inventory is read unless it was read or is being read.
pub proof fn law_inventory_is_read_once(m: BackupManager, pending: bool, r: bool)
    requires
        call_ensures(BackupManager::needs_inventory, (&m, pending), r),
    ensures
        !r <==> m.loaded || pending,
{
}

/// Switched on, the age rule begins with thirty days; switched off, there is
/// none. The other rule stays.
pub proof fn law_age_rule_is_switched(m: &mut BackupManager, on: bool)
    requires
        call_ensures(BackupManager::set_max_age_enabled, (m, on), ()),
    ensures
        on ==> final(m).max_age_days == Some(30u32),
        !on ==> final(m).max_age_days is None,
        final(m).keep_latest_per_addon == old(m).keep_latest_per_addon,
        final(m).records == old(m).records,
{
}

/// A cleanup is asked for before it runs.
pub proof fn law_cleanup_is_asked_for(m: &mut BackupManager)
    requires
        call_ensures(BackupManager::request_cleanup, (m,), ()),
    ensures
        final(m).confirm_action == Some(BackupManagerConfirmAction::RunCleanup),
        final(m).records == old(m).records,
{
}

} // verus!
