//! What holds of Swifty addresses and launch parameters as a whole.

use vstd::prelude::*;

use crate::repository::{RepositoryModel, SpaceModel};
use crate::swifty::finish;
use crate::swifty::import;
use crate::swifty::import::ItemModel;
use crate::swifty::scanner;
use crate::swifty::types::DetectedModel;
use crate::text;

verus! {

/// Slashes at the end of an address change nothing that is derived from it.
pub proof fn law_trailing_slash_is_ignored(address: Seq<char>)
    requires
        text::trimmed(address) == address,
    ensures
        scanner::bare_address(address.push('/')) == scanner::bare_address(address),
        scanner::base_of(address.push('/')) == scanner::base_of(address),
        scanner::name_of(address.push('/')) == scanner::name_of(address),
{
    let longer = address.push('/');
    lemma_trimmed_ends(address);
    assert(longer.drop_last() =~= address);
    assert(longer[0] == if address.len() == 0 {
        '/'
    } else {
        address[0]
    });
}

/// White space around an address changes nothing that is derived from it.
pub proof fn law_surrounding_space_is_ignored(address: Seq<char>, c: char)
    requires
        text::is_whitespace(c),
    ensures
        scanner::bare_address(address.push(c)) == scanner::bare_address(address),
        scanner::bare_address(seq![c] + address) == scanner::bare_address(address),
        scanner::base_of(address.push(c)) == scanner::base_of(address),
        scanner::base_of(seq![c] + address) == scanner::base_of(address),
        scanner::name_of(address.push(c)) == scanner::name_of(address),
        scanner::name_of(seq![c] + address) == scanner::name_of(address),
{
    lemma_trim_start_push(address, c);
    let ts = text::trimmed_start(address);
    assert(ts.push(c).drop_last() =~= ts);
    assert((seq![c] + address).skip(1) =~= address);
    assert((seq![c] + address)[0] == c);
    assert(text::trimmed(address.push(c)) == text::trimmed(address));
    assert(scanner::bare_address(address.push(c)) == scanner::bare_address(address));
    assert(scanner::bare_address(seq![c] + address) == scanner::bare_address(address));
}

/// The parent of an address with a path, followed by the name of the
/// repository, is the address itself.
pub proof fn law_parent_and_name_make_the_address(address: Seq<char>)
    requires
        scanner::last_path_slash(scanner::bare_address(address)) is Some,
    ensures
        scanner::base_of(address) + scanner::name_of(address) == scanner::bare_address(address),
{
    let t = scanner::bare_address(address);
    let n = t.len() as int;
    text::lemma_last_char_in(t, '/', scanner::scheme_end(t), n);
    text::lemma_last_char_in(t, '/', 0, n);
    text::lemma_found_from(t, "://"@, 0);
    let pos = scanner::last_path_slash(t)->0;
    assert(text::last_char_in(t, '/', 0, n) == Some(pos));
    assert(t.take(pos).push('/') + t.skip(pos + 1) =~= t);
}

/// Applying a launch-parameter line a second time changes nothing.
pub proof fn law_parameters_apply_once(repo: RepositoryModel, params: Seq<char>)
    ensures
        scanner::with_parameters(scanner::with_parameters(repo, params), params)
            == scanner::with_parameters(repo, params),
{
}

/// A launch-parameter line never clears a tick box.
pub proof fn law_parameters_never_clear(repo: RepositoryModel, params: Seq<char>)
    ensures
        ({
            let before = repo.flags;
            let after = scanner::with_parameters(repo, params).flags;
            &&& before.csla ==> after.csla
            &&& before.ef ==> after.ef
            &&& before.gm ==> after.gm
            &&& before.rf ==> after.rf
            &&& before.spe ==> after.spe
            &&& before.vn ==> after.vn
            &&& before.ws ==> after.ws
            &&& before.skip_intro ==> after.skip_intro
            &&& before.no_splash ==> after.no_splash
            &&& before.world_empty ==> after.world_empty
            &&& before.load_mission_to_memory ==> after.load_mission_to_memory
            &&& before.enable_ht ==> after.enable_ht
            &&& before.huge_pages ==> after.huge_pages
            &&& before.no_logs ==> after.no_logs
        }),
{
}

/// The name that a new profile gets is never taken.
pub proof fn law_profile_name_is_free(taken: Seq<Seq<char>>, swifty_name: Seq<char>)
    ensures
        !taken.contains(import::free_name(taken, swifty_name)),
{
    let base = import::wanted_name(swifty_name);
    if taken.contains(base) {
        lemma_some_number_is_free(taken, base, 1);
    }
}

/// A repository whose profiles have different names keeps that when a detected
/// repository becomes one more profile.
pub proof fn law_profile_names_stay_distinct(repo: RepositoryModel, detected: DetectedModel)
    requires
        repo.profile_names().no_duplicates(),
    ensures
        import::with_profile(repo, detected).profile_names().no_duplicates(),
{
    let names = repo.profile_names();
    let name = import::free_name(names, detected.name);
    law_profile_name_is_free(names, detected.name);
    let after = import::with_profile(repo, detected).profile_names();
    assert(after =~= names.push(name));
}

/// From `k` on, some alternative to a name is free.
pub proof fn lemma_some_number_is_free(taken: Seq<Seq<char>>, base: Seq<char>, k: nat)
    requires
        1 <= k <= taken.len() + 1,
        forall|j: nat| 1 <= j < k ==> taken.contains(#[trigger] import::numbered(base, j)),
    ensures
        exists|n: nat| import::first_free(taken, base, n),
    decreases taken.len() + 1 - k,
{
    if taken.contains(import::numbered(base, k)) {
        import::lemma_taken_bound(taken, base, k);
        lemma_some_number_is_free(taken, base, k + 1);
    } else {
        assert(import::first_free(taken, base, k));
    }
}

/// Every selected repository ends up as a repository or as a profile, and
/// repositories that were there keep their place, name and address.
pub proof fn law_import_loses_nothing(
    repos: Seq<RepositoryModel>,
    items: Seq<ItemModel>,
    n: int,
    spaces: Seq<SpaceModel>,
    space_id: Option<Seq<char>>,
)
    requires
        0 <= n <= items.len(),
    ensures
        ({
            let m = finish::import_all(repos, items, n, spaces, space_id);
            &&& m.imported + m.profiles == n
            &&& m.repos.len() == repos.len() + m.imported
            &&& forall|j: int|
                0 <= j < repos.len() ==> {
                    &&& (#[trigger] m.repos[j]).name == repos[j].name
                    &&& m.repos[j].address == repos[j].address
                    &&& m.repos[j].key == repos[j].key
                }
            &&& forall|i: int|
                0 <= i < n ==> finish::repo_with_key(m.repos, (#[trigger] items[i]).key) is Some
        }),
    decreases n,
{
    if n > 0 {
        law_import_loses_nothing(repos, items, n - 1, spaces, space_id);
        let m = finish::import_all(repos, items, n - 1, spaces, space_id);
        let after = finish::import_one(m, items[n - 1], spaces, space_id);
        finish::lemma_repo_with_key(m.repos, items[n - 1].key);
        finish::lemma_repo_with_key(after.repos, items[n - 1].key);
        lemma_keys_after_one(m, items[n - 1], spaces, space_id);
        assert forall|i: int| 0 <= i < n implies finish::repo_with_key(
            after.repos,
            (#[trigger] items[i]).key,
        ) is Some by {
            finish::lemma_repo_with_key(after.repos, items[i].key);
            if i < n - 1 {
                finish::lemma_repo_with_key(m.repos, items[i].key);
                let at = finish::repo_with_key(m.repos, items[i].key)->0;
                assert(after.repos[at].key == m.repos[at].key);
            } else {
                match finish::repo_with_key(m.repos, items[i].key) {
                    Some(at) => {
                        assert(after.repos[at].key == m.repos[at].key);
                    },
                    None => {
                        assert(after.repos[m.repos.len() as int].key == items[i].key);
                    },
                }
            }
        }
    }
}

/// One step of an import leaves the keys that were there, and adds at most
/// that of the item.
pub proof fn lemma_keys_after_one(
    m: finish::ImportModel,
    item: ItemModel,
    spaces: Seq<SpaceModel>,
    space_id: Option<Seq<char>>,
)
    ensures
        ({
            let after = finish::import_one(m, item, spaces, space_id);
            &&& m.repos.len() <= after.repos.len() <= m.repos.len() + 1
            &&& forall|j: int|
                0 <= j < m.repos.len() ==> {
                    &&& (#[trigger] after.repos[j]).key == m.repos[j].key
                    &&& after.repos[j].name == m.repos[j].name
                    &&& after.repos[j].address == m.repos[j].address
                }
            &&& after.repos.len() == m.repos.len() + 1 ==> after.repos.last().key == item.key
                && finish::repo_with_key(m.repos, item.key) is None
        }),
{
    finish::lemma_repo_with_key(m.repos, item.key);
}

/// If no two repositories share a key before an import, none do after it.
pub proof fn law_import_keeps_keys_distinct(
    repos: Seq<RepositoryModel>,
    items: Seq<ItemModel>,
    n: int,
    spaces: Seq<SpaceModel>,
    space_id: Option<Seq<char>>,
)
    requires
        0 <= n <= items.len(),
        forall|i: int, j: int|
            0 <= i < j < repos.len() ==> (#[trigger] repos[i]).key != (#[trigger] repos[j]).key,
    ensures
        ({
            let m = finish::import_all(repos, items, n, spaces, space_id);
            forall|i: int, j: int|
                0 <= i < j < m.repos.len() ==> (#[trigger] m.repos[i]).key != (
                #[trigger] m.repos[j]).key
        }),
    decreases n,
{
    if n > 0 {
        law_import_keeps_keys_distinct(repos, items, n - 1, spaces, space_id);
        let m = finish::import_all(repos, items, n - 1, spaces, space_id);
        let after = finish::import_one(m, items[n - 1], spaces, space_id);
        lemma_keys_after_one(m, items[n - 1], spaces, space_id);
        finish::lemma_repo_with_key(m.repos, items[n - 1].key);
        assert forall|i: int, j: int| 0 <= i < j < after.repos.len() implies (
        #[trigger] after.repos[i]).key != (#[trigger] after.repos[j]).key by {
            if j < m.repos.len() {
                assert(after.repos[i].key == m.repos[i].key);
                assert(after.repos[j].key == m.repos[j].key);
                assert(m.repos[i].key != m.repos[j].key);
            } else {
                assert(after.repos[i].key == m.repos[i].key);
                assert(after.repos[j] == after.repos.last());
            }
        }
    }
}

/// A text that trimming leaves alone has no white space at either end.
proof fn lemma_trimmed_ends(s: Seq<char>)
    requires
        text::trimmed(s) == s,
    ensures
        s.len() > 0 ==> !text::is_whitespace(s[0]) && !text::is_whitespace(s.last()),
{
    lemma_trim_start_shrinks(s);
    lemma_trim_end_shrinks(text::trimmed_start(s));
    lemma_trim_end_shrinks(s);
}

proof fn lemma_trim_start_shrinks(s: Seq<char>)
    ensures
        text::trimmed_start(s).len() <= s.len(),
        s.len() > 0 && text::is_whitespace(s[0]) ==> text::trimmed_start(s).len() < s.len(),
    decreases s.len(),
{
    if s.len() > 0 && text::is_whitespace(s[0]) {
        lemma_trim_start_shrinks(s.skip(1));
    }
}

proof fn lemma_trim_end_shrinks(s: Seq<char>)
    ensures
        text::trimmed_end(s).len() <= s.len(),
        s.len() > 0 && text::is_whitespace(s.last()) ==> text::trimmed_end(s).len() < s.len(),
    decreases s.len(),
{
    if s.len() > 0 && text::is_whitespace(s.last()) {
        lemma_trim_end_shrinks(s.drop_last());
    }
}

/// White space behind a text stays behind what is left of it, or goes with it.
proof fn lemma_trim_start_push(s: Seq<char>, c: char)
    requires
        text::is_whitespace(c),
    ensures
        text::trimmed_start(s.push(c)) == if text::trimmed_start(s).len() == 0 {
            Seq::empty()
        } else {
            text::trimmed_start(s).push(c)
        },
    decreases s.len(),
{
    reveal_with_fuel(text::trimmed_start, 2);
    let longer = s.push(c);
    if s.len() == 0 {
        assert(longer.skip(1) =~= Seq::empty());
        assert(longer[0] == c);
    } else if text::is_whitespace(s[0]) {
        assert(longer.skip(1) =~= s.skip(1).push(c));
        lemma_trim_start_push(s.skip(1), c);
    } else {
        assert(longer[0] == s[0]);
    }
}

} // verus!
