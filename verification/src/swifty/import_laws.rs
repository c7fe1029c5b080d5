//! What an import makes of the repositories that were selected.

use vstd::prelude::*;

use crate::foxy::Foxy;
use crate::repository;
use crate::repository::{LaunchFlag, LaunchFlags, ProfileModel, RepositoryModel, SpaceModel};
use crate::swifty::finish;
use crate::swifty::finish::{ImportModel, SwiftyImportOutcome};
use crate::swifty::import;
use crate::swifty::import::ItemModel;
use crate::swifty::laws;
use crate::swifty::page;
use crate::swifty::scan_laws;
use crate::swifty::scanner;
use crate::swifty::types::{DetectedModel, SwiftyDetectedRepo};
use crate::text;

verus! {

broadcast use vstd::string::group_string_axioms;

// ---------------------------------------------------------------------------
// Launch parameters
// ---------------------------------------------------------------------------

/// The arguments of a line that say more than which boxes to tick.
pub open spec fn other_arguments(params: Seq<char>) -> Seq<Seq<char>> {
    scanner::launch_args(params).filter(|a: Seq<char>| !scan_laws::says_only_boxes(a))
}

/// Whether an argument of a line names a box.
pub open spec fn line_names(params: Seq<char>, f: LaunchFlag) -> bool {
    exists|i: int|
        0 <= i < scanner::launch_args(params).len() && (scan_laws::is_option(
            #[trigger] scanner::launch_args(params)[i],
            f,
        ) || scan_laws::lists_dlc(scanner::launch_args(params)[i], f))
}

/// Whether boxes and additional parameters say what a launch-parameter line
/// says: exactly the boxes that an argument names are ticked, and the additional
/// parameters are the other arguments, separated by blanks.
pub open spec fn says_the_line(
    flags: LaunchFlags,
    additional: Seq<char>,
    params: Seq<char>,
) -> bool {
    &&& forall|f: LaunchFlag| #[trigger] scan_laws::is_ticked(flags, f) <==> line_names(params, f)
    &&& additional == text::joined(other_arguments(params), " "@)
}

proof fn lemma_blank_line(params: Seq<char>)
    requires
        forall|i: int| 0 <= i < params.len() ==> text::is_whitespace(#[trigger] params[i]),
    ensures
        scanner::split_state(params).done.len() == 0,
        scanner::split_state(params).cur.len() == 0,
        !scanner::split_state(params).quoted,
    decreases params.len(),
{
    if params.len() > 0 {
        let head = params.drop_last();
        assert(forall|i: int| 0 <= i < head.len() ==> #[trigger] head[i] == params[i]);
        lemma_blank_line(head);
        assert(text::is_whitespace(params[params.len() - 1]));
    }
}

proof fn lemma_parametrised(repo: RepositoryModel, params: Seq<char>)
    requires
        repo.flags == LaunchFlags::none(),
        repo.additional_params.len() == 0,
    ensures
        ({
            let after = import::parametrised(repo, params);
            &&& says_the_line(after.flags, after.additional_params, params)
            &&& after == (RepositoryModel {
                flags: after.flags,
                additional_params: after.additional_params,
                ..repo
            })
        }),
{
    let after = import::parametrised(repo, params);
    let with = scanner::with_parameters(repo, params);
    assert(with == after) by {
        if text::is_blank(params) {
            let from = scan_laws::lemma_trimmed_is_a_piece(params);
            lemma_blank_line(params);
            assert(scanner::launch_args(params).len() == 0);
            reveal(scanner::any_sets);
            reveal(Seq::filter);
            assert(with.flags == repo.flags);
            assert(with =~= repo);
        }
    }
    assert forall|f: LaunchFlag| #[trigger] scan_laws::is_ticked(after.flags, f) <==> line_names(
        params,
        f,
    ) by {
        scan_laws::law_arguments_tick_their_boxes(repo, params, f);
        assert(!scan_laws::is_ticked(repo.flags, f));
    }
    scan_laws::law_other_arguments_are_kept(repo, params);
    if other_arguments(params).len() == 0 {
        assert(after.additional_params =~= text::joined(other_arguments(params), " "@));
    }
}

/// A profile made from a detected repository carries its launch parameters and
/// nothing else.
pub proof fn law_profile_carries_the_parameters(detected: DetectedModel, name: Seq<char>)
    ensures
        ({
            let p = import::profile_of(detected, name);
            &&& p.name == name
            &&& says_the_line(p.flags, p.additional_params, detected.parameters)
            &&& !p.include_steam_addons
            &&& p.addons.len() == 0
            &&& p.optional_addons.len() == 0
            &&& p.external_addons.len() == 0
        }),
{
    lemma_parametrised(RepositoryModel::initial(), detected.parameters);
}

// ---------------------------------------------------------------------------
// Names of profiles
// ---------------------------------------------------------------------------

/// A new profile is called like the repository, without the white space around
/// that, or "Default" if the repository has no name; if that is taken, a blank
/// and the lowest number from 1 on that is free follow.
pub proof fn law_profile_is_called_like_the_repository(
    taken: Seq<Seq<char>>,
    swifty_name: Seq<char>,
)
    ensures
        ({
            let base = if text::is_blank(swifty_name) {
                "Default"@
            } else {
                text::trimmed(swifty_name)
            };
            let name = import::free_name(taken, swifty_name);
            &&& !taken.contains(name)
            &&& !taken.contains(base) ==> name == base
            &&& taken.contains(base) ==> exists|k: nat|
                {
                    &&& k >= 1
                    &&& name == base + " "@ + #[trigger] text::decimal(k)
                    &&& forall|j: nat|
                        1 <= j < k ==> taken.contains(base + " "@ + #[trigger] text::decimal(j))
                }
        }),
{
    laws::law_profile_name_is_free(taken, swifty_name);
    let base = import::wanted_name(swifty_name);
    if taken.contains(base) {
        laws::lemma_some_number_is_free(taken, base, 1);
        let k = choose|k: nat| import::first_free(taken, base, k);
        assert(import::numbered(base, k) == base + " "@ + text::decimal(k));
        assert forall|j: nat| 1 <= j < k implies taken.contains(
            base + " "@ + #[trigger] text::decimal(j),
        ) by {
            assert(taken.contains(import::numbered(base, j)));
        }
    }
}

// ---------------------------------------------------------------------------
// Spaces
// ---------------------------------------------------------------------------

/// A repository belongs to the space of an import exactly if the space has an
/// entry with its key, or if its address has the parent that the space was read
/// from. In the first case the address of its entry is that of the first such
/// entry, otherwise its own. It is told the folder of the space.
pub proof fn law_binding_follows_the_space(space: SpaceModel, item: ItemModel)
    ensures
        import::binding(Some(space), item) is Some <==> (exists|i: int|
            0 <= i < space.entries.len() && (#[trigger] space.entries[i]).key == item.key) || (
        scanner::bare_address(item.repo.address).len() > 0 && space.base_key == item.base_key),
        import::binding(Some(space), item) matches Some((address, folder)) ==> {
            &&& folder == space.shared_path
            &&& {
                ||| exists|i: int|
                    {
                        &&& 0 <= i < space.entries.len()
                        &&& (#[trigger] space.entries[i]).key == item.key
                        &&& space.entries[i].address == address
                        &&& forall|j: int|
                            0 <= j < i ==> (#[trigger] space.entries[j]).key != item.key
                    }
                ||| {
                    &&& address == item.repo.address
                    &&& forall|j: int|
                        0 <= j < space.entries.len() ==> (#[trigger] space.entries[j]).key
                            != item.key
                }
            }
        },
        import::binding(None, item) is None,
{
    lemma_entry_with_key(space, item.key, space.entries.len() as int);
}

proof fn lemma_entry_with_key(space: SpaceModel, key: Seq<char>, n: int)
    requires
        0 <= n <= space.entries.len(),
    ensures
        match import::entry_with_key(space, key, n) {
            Some(i) => 0 <= i < n && space.entries[i].key == key && forall|j: int|
                0 <= j < i ==> (#[trigger] space.entries[j]).key != key,
            None => forall|j: int| 0 <= j < n ==> (#[trigger] space.entries[j]).key != key,
        },
    decreases n,
{
    if n > 0 {
        lemma_entry_with_key(space, key, n - 1);
    }
}

proof fn lemma_space_with_id(spaces: Seq<SpaceModel>, id: Seq<char>)
    ensures
        match import::space_with_id(spaces, id) {
            Some(i) => 0 <= i < spaces.len() && spaces[i].id == id && forall|j: int|
                0 <= j < i ==> (#[trigger] spaces[j]).id != id,
            None => forall|j: int| 0 <= j < spaces.len() ==> (#[trigger] spaces[j]).id != id,
        },
    decreases spaces.len(),
{
    if spaces.len() > 0 {
        let head = spaces.drop_last();
        lemma_space_with_id(head, id);
        assert(forall|j: int| 0 <= j < head.len() ==> #[trigger] spaces[j] == head[j]);
    }
}

/// The space of an import is the first with the id that was brought in.
pub proof fn law_imported_space_has_the_id(spaces: Seq<SpaceModel>, id: Seq<char>)
    ensures
        import::imported_space(spaces, None) is None,
        match import::imported_space(spaces, Some(id)) {
            Some(s) => s.id == id && spaces.contains(s),
            None => forall|j: int| 0 <= j < spaces.len() ==> (#[trigger] spaces[j]).id != id,
        },
{
    lemma_space_with_id(spaces, id);
    if let Some(i) = import::space_with_id(spaces, id) {
        assert(spaces[i] == import::imported_space(spaces, Some(id))->0);
    }
}

/// An import changes nothing of a space but the folder of the one that was
/// brought in, and that only if it has none.
pub proof fn law_import_leaves_spaces_alone(
    spaces: Seq<SpaceModel>,
    space_id: Option<Seq<char>>,
    items: Seq<ItemModel>,
    i: int,
)
    requires
        0 <= i < spaces.len(),
    ensures
        ({
            let after = import::spaces_after(spaces, space_id, items);
            &&& after.len() == spaces.len()
            &&& after[i].id == spaces[i].id
            &&& after[i].base_key == spaces[i].base_key
            &&& after[i].entries == spaces[i].entries
            &&& after[i].shared_path != spaces[i].shared_path ==> {
                &&& space_id == Some(spaces[i].id)
                &&& text::is_blank(spaces[i].shared_path)
                &&& !text::is_blank(after[i].shared_path)
                &&& exists|k: int|
                    0 <= k < items.len() && text::trimmed((#[trigger] items[k]).repo.mod_folder)
                        == after[i].shared_path
            }
            &&& space_id is None ==> after == spaces
        }),
{
    import::law_shared_path_is_most_common(spaces, space_id, items);
    if let Some(id) = space_id {
        lemma_space_with_id(spaces, id);
        if let Some(path) = import::new_shared_path(spaces, space_id, items) {
            let k = choose|k: int|
                0 <= k < items.len() && text::trimmed((#[trigger] items[k]).repo.mod_folder)
                    == path;
            import::lemma_common_folder(items, items.len() as int);
            finish::lemma_trimmed_twice(items[k].repo.mod_folder);
        }
    }
}

// ---------------------------------------------------------------------------
// One repository
// ---------------------------------------------------------------------------

/// Whether some repository has a key.
pub open spec fn has_key(repos: Seq<RepositoryModel>, key: Seq<char>) -> bool {
    exists|j: int| 0 <= j < repos.len() && (#[trigger] repos[j]).key == key
}

/// What holds of a repository that an import added for an item, and goes on
/// holding of it: what Swifty said of it is kept.
pub open spec fn keeps(repo: RepositoryModel, item: ItemModel) -> bool {
    &&& repo.key == item.key
    &&& repo.name == item.repo.name
    &&& repo.address == item.repo.address
    &&& says_the_line(repo.flags, repo.additional_params, item.repo.parameters)
    &&& repo.auto_recheck_on_launch == if item.repo.autocheck {
        Some(true)
    } else {
        None
    }
    &&& scanner::bare_address(item.repo.address).len() > 0 ==> repo.app_update_url
        == scanner::base_of(item.repo.address) + "Foxy"@
    &&& scanner::bare_address(item.repo.address).len() == 0 ==> repo.app_update_url.len() == 0
}

/// An item whose key is new is added behind the repositories that were there,
/// which stay as they are. It keeps what Swifty said of it: name, address,
/// launch parameters, folder and whether it checks for updates. If it belongs to
/// the space of the import, it joins that, and takes over its folder where it
/// has none of its own.
pub proof fn law_new_repository_keeps_what_swifty_said(
    m: ImportModel,
    item: ItemModel,
    spaces: Seq<SpaceModel>,
    id: Seq<char>,
    joins: bool,
)
    requires
        !has_key(m.repos, item.key),
    ensures
        ({
            let space_id = if joins {
                Some(id)
            } else {
                None
            };
            let after = finish::import_one(m, item, spaces, space_id);
            let added = after.repos.last();
            let bound = import::binding(import::imported_space(spaces, space_id), item);
            &&& after.repos.len() == m.repos.len() + 1
            &&& forall|j: int|
                0 <= j < m.repos.len() ==> #[trigger] after.repos[j] == m.repos[j]
            &&& after.imported == m.imported + 1
            &&& after.profiles == m.profiles
            &&& after.refresh == m.refresh
            &&& keeps(added, item)
            &&& added.profiles.len() == 0
            &&& added.servers.len() == 0
            &&& !text::is_blank(item.repo.mod_folder) ==> added.path == item.repo.mod_folder
            &&& text::is_blank(item.repo.mod_folder) && bound is None ==> added.path.len() == 0
            &&& text::is_blank(item.repo.mod_folder) && bound is Some ==> added.path == (bound->0).1
            &&& bound is None ==> added.repository_space_id is None
                && added.repository_space_entry_address is None
            &&& bound is Some ==> added.repository_space_id == Some(id)
                && added.repository_space_entry_address == Some((bound->0).0)
        }),
{
    let space_id = if joins {
        Some(id)
    } else {
        None
    };
    finish::lemma_repo_with_key(m.repos, item.key);
    let named = RepositoryModel {
        name: item.repo.name,
        address: item.repo.address,
        key: item.key,
        path: if text::is_blank(item.repo.mod_folder) {
            Seq::empty()
        } else {
            item.repo.mod_folder
        },
        ..RepositoryModel::initial()
    };
    lemma_parametrised(named, item.repo.parameters);
    reveal_with_fuel(text::trimmed_start, 1);
    reveal_with_fuel(text::trimmed_end, 1);
    assert(text::is_blank(Seq::<char>::empty()));
    let after = finish::import_one(m, item, spaces, space_id);
    let added = after.repos.last();
    let bound = import::binding(import::imported_space(spaces, space_id), item);
    if text::is_blank(item.repo.mod_folder) && bound is Some && (bound->0).1.len() == 0 {
        assert(added.path =~= (bound->0).1);
    }
}

/// An item whose key is known becomes a profile of the last repository with
/// that key: the profiles that were there stay, and the new one, under a name of
/// its own, carries the launch parameters. The repository keeps its name, its
/// address and its own launch options; every other repository stays as it is.
pub proof fn law_known_repository_gets_a_profile(
    m: ImportModel,
    item: ItemModel,
    spaces: Seq<SpaceModel>,
    id: Seq<char>,
    joins: bool,
    i: int,
)
    requires
        0 <= i < m.repos.len(),
        m.repos[i].key == item.key,
        forall|j: int| i < j < m.repos.len() ==> (#[trigger] m.repos[j]).key != item.key,
    ensures
        ({
            let space_id = if joins {
                Some(id)
            } else {
                None
            };
            let after = finish::import_one(m, item, spaces, space_id);
            let was = m.repos[i];
            let now = after.repos[i];
            let bound = import::binding(import::imported_space(spaces, space_id), item);
            &&& after.repos.len() == m.repos.len()
            &&& forall|j: int|
                0 <= j < m.repos.len() && j != i ==> #[trigger] after.repos[j] == m.repos[j]
            &&& after.imported == m.imported
            &&& after.profiles == m.profiles + 1
            &&& now.profiles.len() == was.profiles.len() + 1
            &&& forall|j: int|
                0 <= j < was.profiles.len() ==> #[trigger] now.profiles[j] == was.profiles[j]
            &&& now.profiles.last().name == import::free_name(was.profile_names(), item.repo.name)
            &&& says_the_line(
                now.profiles.last().flags,
                now.profiles.last().additional_params,
                item.repo.parameters,
            )
            &&& now == (RepositoryModel {
                profiles: now.profiles,
                path: now.path,
                repository_space_id: now.repository_space_id,
                repository_space_entry_address: now.repository_space_entry_address,
                ..was
            })
            &&& bound is None ==> now.path == was.path && now.repository_space_id
                == was.repository_space_id && now.repository_space_entry_address
                == was.repository_space_entry_address
            &&& bound is Some ==> now.repository_space_id == Some(id)
                && now.repository_space_entry_address == Some((bound->0).0)
            &&& bound is Some && !text::is_blank(item.repo.mod_folder) ==> now.path
                == item.repo.mod_folder
            &&& text::is_blank(item.repo.mod_folder) && !text::is_blank(was.path) ==> now.path
                == was.path
            &&& bound is Some && text::is_blank(item.repo.mod_folder) && text::is_blank(was.path)
                && !text::is_blank((bound->0).1) ==> now.path == (bound->0).1
            &&& was.servers.len() == 0 ==> after.refresh.contains(i)
            &&& forall|j: int| #[trigger] m.refresh.contains(j) ==> after.refresh.contains(j)
            &&& forall|j: int| #[trigger]
                after.refresh.contains(j) && !m.refresh.contains(j) ==> j == i && was.servers.len()
                    == 0
        }),
{
    let space_id = if joins {
        Some(id)
    } else {
        None
    };
    finish::lemma_repo_with_key(m.repos, item.key);
    let name = import::free_name(m.repos[i].profile_names(), item.repo.name);
    law_profile_carries_the_parameters(item.repo, name);
    let after = finish::import_one(m, item, spaces, space_id);
    let longer = m.refresh.push(i);
    assert(longer[m.refresh.len() as int] == i);
    assert forall|j: int| #[trigger] m.refresh.contains(j) implies longer.contains(j) by {
        let k = choose|k: int| 0 <= k < m.refresh.len() && m.refresh[k] == j;
        assert(longer[k] == j);
    }
    assert forall|j: int| #[trigger] longer.contains(j) implies m.refresh.contains(j) || j == i by {
        let k = choose|k: int| 0 <= k < longer.len() && longer[k] == j;
        if k < m.refresh.len() {
            assert(m.refresh[k] == j);
        }
    }
}

// ---------------------------------------------------------------------------
// A whole import
// ---------------------------------------------------------------------------

proof fn lemma_later_items_keep(
    repos: Seq<RepositoryModel>,
    items: Seq<ItemModel>,
    n: int,
    spaces: Seq<SpaceModel>,
    space_id: Option<Seq<char>>,
    i: int,
)
    requires
        0 <= i < n <= items.len(),
        !has_key(repos, items[i].key),
        forall|j: int| 0 <= j < i ==> (#[trigger] items[j]).key != items[i].key,
    ensures
        ({
            let m = finish::import_all(repos, items, n, spaces, space_id);
            exists|p: int|
                repos.len() <= p < m.repos.len() && #[trigger] keeps(m.repos[p], items[i])
        }),
    decreases n,
{
    let before = finish::import_all(repos, items, n - 1, spaces, space_id);
    let m = finish::import_all(repos, items, n, spaces, space_id);
    let id = if space_id is Some {
        space_id->0
    } else {
        Seq::empty()
    };
    let item = items[n - 1];
    laws::law_import_loses_nothing(repos, items, n - 1, spaces, space_id);
    finish::lemma_repo_with_key(before.repos, item.key);
    if n - 1 == i {
        lemma_keys_of_import(repos, items, n - 1, spaces, space_id, items[i].key);
        law_new_repository_keeps_what_swifty_said(before, item, spaces, id, space_id is Some);
        assert(keeps(m.repos[m.repos.len() - 1], items[i]));
    } else {
        lemma_later_items_keep(repos, items, n - 1, spaces, space_id, i);
        let p = choose|p: int|
            repos.len() <= p < before.repos.len() && #[trigger] keeps(before.repos[p], items[i]);
        if has_key(before.repos, item.key) {
            let at = finish::repo_with_key(before.repos, item.key)->0;
            law_known_repository_gets_a_profile(before, item, spaces, id, space_id is Some, at);
            assert(keeps(m.repos[p], items[i]));
        } else {
            law_new_repository_keeps_what_swifty_said(before, item, spaces, id, space_id is Some);
            assert(keeps(m.repos[p], items[i]));
        }
    }
}

proof fn lemma_keys_of_import(
    repos: Seq<RepositoryModel>,
    items: Seq<ItemModel>,
    n: int,
    spaces: Seq<SpaceModel>,
    space_id: Option<Seq<char>>,
    key: Seq<char>,
)
    requires
        0 <= n <= items.len(),
        !has_key(repos, key),
        forall|j: int| 0 <= j < n ==> (#[trigger] items[j]).key != key,
    ensures
        !has_key(finish::import_all(repos, items, n, spaces, space_id).repos, key),
    decreases n,
{
    if n > 0 {
        lemma_keys_of_import(repos, items, n - 1, spaces, space_id, key);
        let before = finish::import_all(repos, items, n - 1, spaces, space_id);
        let m = finish::import_all(repos, items, n, spaces, space_id);
        finish::lemma_repo_with_key(before.repos, items[n - 1].key);
        laws::lemma_keys_after_one(before, items[n - 1], spaces, space_id);
        assert forall|j: int| 0 <= j < m.repos.len() implies (#[trigger] m.repos[j]).key != key by {
            if j < before.repos.len() {
                assert(m.repos[j].key == before.repos[j].key);
            } else {
                assert(m.repos[j] == m.repos.last());
            }
        }
    }
}

/// After a finished import, each selected repository whose key was not in the
/// list stands in it, behind those that were there, with what Swifty said of it:
/// name, address, launch parameters and whether it checks for updates.
pub proof fn law_finished_import_keeps_what_swifty_said(
    before: Foxy,
    after: Foxy,
    items: Seq<ItemModel>,
    space_id: Option<Seq<char>>,
    outcome: SwiftyImportOutcome,
    i: int,
)
    requires
        finish::finished(before, after, items, space_id, outcome),
        0 <= i < items.len(),
        !has_key(repository::repository_models(before.repositories@), items[i].key),
        forall|j: int| 0 <= j < i ==> (#[trigger] items[j]).key != items[i].key,
    ensures
        exists|p: int|
            before.repositories@.len() <= p < after.repositories@.len() && #[trigger] keeps(
                after.repositories@[p]@,
                items[i],
            ),
{
    let spaces = import::spaces_after(
        repository::space_models(before.repository_spaces@),
        space_id,
        items,
    );
    let repos = repository::repository_models(before.repositories@);
    lemma_later_items_keep(repos, items, items.len() as int, spaces, space_id, i);
    let m = finish::import_all(repos, items, items.len() as int, spaces, space_id);
    let p = choose|p: int|
        repos.len() <= p < m.repos.len() && #[trigger] keeps(m.repos[p], items[i]);
    assert(m.repos[p] == after.repositories@[p]@);
    assert(keeps(after.repositories@[p]@, items[i]));
}

/// Whether `now` is `was` with profiles added, perhaps moved to another folder
/// and joined to a space.
pub open spec fn extends(was: RepositoryModel, now: RepositoryModel) -> bool {
    &&& now == (RepositoryModel {
        profiles: now.profiles,
        path: now.path,
        repository_space_id: now.repository_space_id,
        repository_space_entry_address: now.repository_space_entry_address,
        ..was
    })
    &&& now.profiles.len() >= was.profiles.len()
    &&& now.profiles.take(was.profiles.len() as int) == was.profiles
}

proof fn lemma_extends_twice(a: RepositoryModel, b: RepositoryModel, c: RepositoryModel)
    requires
        extends(a, b),
        extends(b, c),
    ensures
        extends(a, c),
{
    let k = a.profiles.len() as int;
    assert(c.profiles.take(k) =~= b.profiles.take(k)) by {
        assert forall|j: int| 0 <= j < k implies c.profiles[j] == b.profiles[j] by {
            assert(c.profiles.take(b.profiles.len() as int)[j] == b.profiles[j]);
        }
    }
}

proof fn lemma_one_item_extends(
    m: ImportModel,
    item: ItemModel,
    spaces: Seq<SpaceModel>,
    space_id: Option<Seq<char>>,
    p: int,
)
    requires
        0 <= p < m.repos.len(),
    ensures
        ({
            let after = finish::import_one(m, item, spaces, space_id);
            &&& after.repos.len() >= m.repos.len()
            &&& extends(m.repos[p], after.repos[p])
            &&& space_id is None ==> after.repos[p].path == m.repos[p].path
            &&& item.key != m.repos[p].key ==> after.repos[p] == m.repos[p]
        }),
{
    finish::lemma_repo_with_key(m.repos, item.key);
    let after = finish::import_one(m, item, spaces, space_id);
    let k = m.repos[p].profiles.len() as int;
    assert(after.repos[p].profiles.take(k) =~= m.repos[p].profiles);
}

proof fn lemma_import_keeps_existing(
    repos: Seq<RepositoryModel>,
    items: Seq<ItemModel>,
    n: int,
    spaces: Seq<SpaceModel>,
    space_id: Option<Seq<char>>,
    p: int,
)
    requires
        0 <= n <= items.len(),
        0 <= p < repos.len(),
    ensures
        ({
            let m = finish::import_all(repos, items, n, spaces, space_id);
            &&& m.repos.len() >= repos.len()
            &&& extends(repos[p], m.repos[p])
            &&& space_id is None ==> m.repos[p].path == repos[p].path
            &&& (forall|j: int| 0 <= j < n ==> (#[trigger] items[j]).key != repos[p].key)
                ==> m.repos[p] == repos[p]
        }),
    decreases n,
{
    if n == 0 {
        assert(repos[p].profiles.take(repos[p].profiles.len() as int) =~= repos[p].profiles);
    } else {
        lemma_import_keeps_existing(repos, items, n - 1, spaces, space_id, p);
        let before = finish::import_all(repos, items, n - 1, spaces, space_id);
        let m = finish::import_all(repos, items, n, spaces, space_id);
        lemma_one_item_extends(before, items[n - 1], spaces, space_id, p);
        lemma_extends_twice(repos[p], before.repos[p], m.repos[p]);
    }
}

/// A finished import keeps the repositories that were there, at their places,
/// with their names, addresses, launch options and profiles; profiles are only
/// added. One that no selected repository matches is left alone.
pub proof fn law_finished_import_keeps_repositories(
    before: Foxy,
    after: Foxy,
    items: Seq<ItemModel>,
    space_id: Option<Seq<char>>,
    outcome: SwiftyImportOutcome,
    p: int,
)
    requires
        finish::finished(before, after, items, space_id, outcome),
        0 <= p < before.repositories@.len(),
    ensures
        ({
            let was = before.repositories@[p]@;
            let now = after.repositories@[p]@;
            &&& after.repositories@.len() >= before.repositories@.len()
            &&& extends(was, now)
            &&& space_id is None ==> now.path == was.path
            &&& (forall|j: int| 0 <= j < items.len() ==> (#[trigger] items[j]).key != was.key)
                ==> now == was
        }),
{
    let spaces = import::spaces_after(
        repository::space_models(before.repository_spaces@),
        space_id,
        items,
    );
    let repos = repository::repository_models(before.repositories@);
    let m = finish::import_all(repos, items, items.len() as int, spaces, space_id);
    lemma_import_keeps_existing(repos, items, items.len() as int, spaces, space_id, p);
    assert(m.repos.len() == after.repositories@.len());
    assert(m.repos[p] == after.repositories@[p]@);
}

/// A finished import counts what was selected, asks for the list to be stored
/// exactly if something was, and fetches the metadata of every repository that
/// it added.
pub proof fn law_finished_import_counts_and_refreshes(
    before: Foxy,
    after: Foxy,
    items: Seq<ItemModel>,
    space_id: Option<Seq<char>>,
    outcome: SwiftyImportOutcome,
)
    requires
        finish::finished(before, after, items, space_id, outcome),
    ensures
        outcome.imported == items.len(),
        outcome.save_repositories <==> items.len() > 0,
        after.swifty_migration_state.import_done,
        after.swifty_migration_state.imported_count == items.len(),
        after.settings_view_state.swifty_migration_offered,
        forall|p: int|
            before.repositories@.len() <= p < after.repositories@.len() ==> #[trigger]
            finish::positions(outcome.refresh@).contains(p),
{
    let spaces = import::spaces_after(
        repository::space_models(before.repository_spaces@),
        space_id,
        items,
    );
    let repos = repository::repository_models(before.repositories@);
    laws::law_import_loses_nothing(repos, items, items.len() as int, spaces, space_id);
    let m = finish::import_all(repos, items, items.len() as int, spaces, space_id);
    assert(m.repos.len() == after.repositories@.len());
    assert forall|p: int| repos.len() <= p < after.repositories@.len() implies #[trigger]
    finish::positions(outcome.refresh@).contains(p) by {
        let k = p - repos.len();
        assert(finish::positions(outcome.refresh@)[k] == finish::added_positions(m)[k]);
        assert(finish::added_positions(m)[k] == p);
    }
}

/// A finished import fills in settings that are blank and never replaces one
/// that is not: the update URL with that of the wizard unless the user set it,
/// the Arma 3 and the temporary directory with those of Swifty, each its own.
pub proof fn law_finished_import_fills_in_settings(
    before: Foxy,
    after: Foxy,
    items: Seq<ItemModel>,
    space_id: Option<Seq<char>>,
    outcome: SwiftyImportOutcome,
)
    requires
        finish::finished(before, after, items, space_id, outcome),
    ensures
        ({
            let was = before.settings_view_state;
            let now = after.settings_view_state;
            let wizard = before.swifty_migration_state;
            &&& !text::is_blank(was.arma3_directory@) ==> now.arma3_directory@
                == was.arma3_directory@
            &&& text::is_blank(was.arma3_directory@) && !text::is_blank(
                wizard.global_settings.arma_path@,
            ) ==> now.arma3_directory@ == wizard.global_settings.arma_path@
            &&& !text::is_blank(was.temp_directory@) ==> now.temp_directory@ == was.temp_directory@
            &&& text::is_blank(was.temp_directory@) && !text::is_blank(
                wizard.global_settings.temp_path@,
            ) ==> now.temp_directory@ == wizard.global_settings.temp_path@
            &&& (!text::is_blank(was.app_update_url@) || was.app_update_url_user_override)
                ==> now.app_update_url@ == was.app_update_url@
            &&& text::is_blank(was.app_update_url@) && !was.app_update_url_user_override
                && !text::is_blank(wizard.detected_updater_url@) ==> now.app_update_url@
                == text::trimmed(wizard.detected_updater_url@)
            &&& now.app_update_url_user_override == was.app_update_url_user_override
        }),
{
    finish::lemma_trimmed_twice(before.swifty_migration_state.detected_updater_url@);
}

// ---------------------------------------------------------------------------
// The wizard
// ---------------------------------------------------------------------------

proof fn lemma_first_derivable(repos: Seq<SwiftyDetectedRepo>)
    ensures
        match finish::first_derivable(repos) {
            Some(i) => 0 <= i < repos.len() && scanner::bare_address(repos[i].address@).len() > 0
                && forall|j: int|
                0 <= j < i ==> scanner::bare_address((#[trigger] repos[j]).address@).len() == 0,
            None => forall|j: int|
                0 <= j < repos.len() ==> scanner::bare_address(
                    (#[trigger] repos[j]).address@,
                ).len() == 0,
        },
    decreases repos.len(),
{
    if repos.len() > 0 {
        let head = repos.drop_last();
        lemma_first_derivable(head);
        assert(forall|j: int| 0 <= j < head.len() ==> #[trigger] repos[j] == head[j]);
    }
}

/// The URLs that a scan proposes lie beside the first repository that has an
/// address; a URL that is there is never replaced.
pub proof fn law_proposed_urls_lie_beside_the_first_repository(
    known: Seq<char>,
    repos: Seq<SwiftyDetectedRepo>,
    suffix: Seq<char>,
    i: int,
)
    requires
        0 <= i < repos.len(),
        scanner::bare_address(repos[i].address@).len() > 0,
        forall|j: int|
            0 <= j < i ==> scanner::bare_address((#[trigger] repos[j]).address@).len() == 0,
    ensures
        known.len() > 0 ==> finish::proposed_url(known, repos, suffix) == known,
        known.len() == 0 ==> finish::proposed_url(known, repos, suffix) == scanner::base_of(
            repos[i].address@,
        ) + suffix,
{
    lemma_first_derivable(repos);
}

/// A scan that was taken over before is not taken over again; another one is,
/// with all that it found, and the URLs that it proposes end in `Foxy` and in
/// `repository_space.json`.
pub proof fn law_scan_is_taken_over_once(
    before: crate::swifty::types::SwiftyMigrationState,
    after: crate::swifty::types::SwiftyMigrationState,
    scan: scanner::SwiftyScan,
    i: int,
)
    requires
        finish::scanned(before, after, scan),
        0 <= i < scan.repos@.len(),
        scanner::bare_address(scan.repos@[i].address@).len() > 0,
        forall|j: int|
            0 <= j < i ==> scanner::bare_address((#[trigger] scan.repos@[j]).address@).len() == 0,
    ensures
        before.scan_complete ==> after == before,
        !before.scan_complete ==> {
            &&& after.scan_complete
            &&& after.detected_repos == scan.repos
            &&& after.global_settings == scan.global
            &&& after.scan_error == scan.error
            &&& before.detected_updater_url@.len() == 0 ==> after.detected_updater_url@
                == scanner::base_of(scan.repos@[i].address@) + "Foxy"@
            &&& before.detected_space_url@.len() == 0 ==> after.detected_space_url@
                == scanner::base_of(scan.repos@[i].address@) + "repository_space.json"@
            &&& before.detected_updater_url@.len() > 0 ==> after.detected_updater_url@
                == before.detected_updater_url@
            &&& before.detected_space_url@.len() > 0 ==> after.detected_space_url@
                == before.detected_space_url@
        },
{
    lemma_first_derivable(scan.repos@);
}

/// What an import takes are the selected repositories, all of them and in their
/// order, and as many as are counted.
pub proof fn law_import_takes_what_is_selected(repos: Seq<SwiftyDetectedRepo>)
    ensures
        finish::selected_of(repos).len() == page::selected_count(repos),
        forall|i: int|
            0 <= i < finish::selected_of(repos).len() ==> {
                &&& (#[trigger] finish::selected_of(repos)[i]).selected
                &&& repos.contains(finish::selected_of(repos)[i])
            },
        forall|i: int|
            0 <= i < repos.len() && (#[trigger] repos[i]).selected ==> finish::selected_of(
                repos,
            ).contains(repos[i]),
        page::selected_count(repos) <= repos.len(),
        (forall|i: int| 0 <= i < repos.len() ==> (#[trigger] repos[i]).selected)
            ==> finish::selected_of(repos) == repos,
    decreases repos.len(),
{
    reveal(Seq::filter);
    let chosen = finish::selected_of(repos);
    if repos.len() > 0 {
        let head = repos.drop_last();
        let part = finish::selected_of(head);
        law_import_takes_what_is_selected(head);
        assert(forall|j: int| 0 <= j < head.len() ==> #[trigger] head[j] == repos[j]);
        assert(chosen == if repos.last().selected {
            part.push(repos.last())
        } else {
            part
        });
        assert forall|i: int| 0 <= i < chosen.len() implies {
            &&& (#[trigger] chosen[i]).selected
            &&& repos.contains(chosen[i])
        } by {
            if i < part.len() {
                assert(chosen[i] == part[i]);
                let k = choose|k: int| 0 <= k < head.len() && head[k] == part[i];
                assert(repos[k] == chosen[i]);
            } else {
                assert(chosen[i] == repos[repos.len() - 1]);
            }
        }
        assert forall|i: int| 0 <= i < repos.len() && (
        #[trigger] repos[i]).selected implies chosen.contains(repos[i]) by {
            if i < head.len() {
                assert(head[i] == repos[i]);
                let k = choose|k: int| 0 <= k < part.len() && part[k] == head[i];
                assert(chosen[k] == repos[i]);
            } else {
                assert(chosen[part.len() as int] == repos[i]);
            }
        }
        if forall|i: int| 0 <= i < repos.len() ==> (#[trigger] repos[i]).selected {
            assert(forall|i: int| 0 <= i < head.len() ==> (#[trigger] head[i]).selected);
            assert(repos[repos.len() - 1].selected);
            assert(chosen =~= repos);
        }
    } else {
        assert(chosen =~= repos);
    }
}

} // verus!
