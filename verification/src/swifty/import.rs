//! Merging detected Swifty repositories into the repository list.

use vstd::prelude::*;

use crate::foxy::Foxy;
use crate::repository;
use crate::repository::{
    ProfileModel, Repository, RepositoryModel, RepositoryProfile, RepositorySpace, SpaceModel,
};
use crate::swifty::scanner;
use crate::swifty::scanner::{apply_swifty_parameters, derive_urls};
use crate::swifty::types::{DetectedModel, SwiftyDetectedRepo};
use crate::text;
use crate::text::{blank, decimal_text, trim};

verus! {

broadcast use vstd::string::group_string_axioms;

// ---------------------------------------------------------------------------
// Profiles
// ---------------------------------------------------------------------------

/// What a fresh repository says after the launch parameters of a detected one
/// were applied to it.
pub open spec fn parametrised(repo: RepositoryModel, parameters: Seq<char>) -> RepositoryModel {
    if text::is_blank(parameters) {
        repo
    } else {
        scanner::with_parameters(repo, parameters)
    }
}

/// The profile that stands for a detected repository.
pub open spec fn profile_of(detected: DetectedModel, name: Seq<char>) -> ProfileModel {
    let repo = parametrised(RepositoryModel::initial(), detected.parameters);
    ProfileModel {
        name,
        flags: repo.flags,
        include_steam_addons: repo.include_steam_addons,
        additional_params: repo.additional_params,
        addons: repo.addons,
        optional_addons: repo.optional_addons,
        external_addons: repo.external_addons,
        ..ProfileModel::initial()
    }
}

/// The name that a profile asks for.
pub open spec fn wanted_name(swifty_name: Seq<char>) -> Seq<char> {
    if text::is_blank(swifty_name) {
        ProfileModel::initial().name
    } else {
        text::trimmed(swifty_name)
    }
}

/// The `k`-th alternative to a name that is taken.
pub open spec fn numbered(base: Seq<char>, k: nat) -> Seq<char> {
    base + " "@ + text::decimal(k)
}

/// Whether `k` numbers the first alternative that is free.
pub open spec fn first_free(taken: Seq<Seq<char>>, base: Seq<char>, k: nat) -> bool {
    &&& 1 <= k
    &&& !taken.contains(numbered(base, k))
    &&& forall|j: nat| 1 <= j < k ==> taken.contains(#[trigger] numbered(base, j))
}

/// The name that a new profile gets: the one it asks for, or the first
/// numbered alternative that is free.
pub open spec fn free_name(taken: Seq<Seq<char>>, swifty_name: Seq<char>) -> Seq<char> {
    let base = wanted_name(swifty_name);
    if !taken.contains(base) {
        base
    } else {
        numbered(base, choose|k: nat| first_free(taken, base, k))
    }
}

/// A repository with one more profile, made from a detected repository.
pub open spec fn with_profile(repo: RepositoryModel, detected: DetectedModel) -> RepositoryModel {
    RepositoryModel {
        profiles: repo.profiles.push(
            profile_of(detected, free_name(repo.profile_names(), detected.name)),
        ),
        ..repo
    }
}

/// Different numbers give different alternatives.
proof fn lemma_numbered_injective(base: Seq<char>, j: nat, k: nat)
    requires
        numbered(base, j) == numbered(base, k),
    ensures
        j == k,
{
    let head = base + " "@;
    assert(text::decimal(j) =~= numbered(base, j).skip(head.len() as int));
    assert(text::decimal(k) =~= numbered(base, k).skip(head.len() as int));
    text::lemma_decimal_injective(j, k);
}

/// Only one number is the first that is free.
pub proof fn lemma_first_free_unique(taken: Seq<Seq<char>>, base: Seq<char>, j: nat, k: nat)
    requires
        first_free(taken, base, j),
        first_free(taken, base, k),
    ensures
        j == k,
{
    if j < k {
        assert(taken.contains(numbered(base, j)));
    } else if k < j {
        assert(taken.contains(numbered(base, k)));
    }
}

/// As many alternatives as are taken need as many names.
pub proof fn lemma_taken_bound(taken: Seq<Seq<char>>, base: Seq<char>, n: nat)
    requires
        forall|j: nat| 1 <= j <= n ==> taken.contains(#[trigger] numbered(base, j)),
    ensures
        n <= taken.len(),
    decreases n,
{
    if n > 0 {
        let last = numbered(base, n);
        assert(taken.contains(last));
        let at = choose|i: int| 0 <= i < taken.len() && taken[i] == last;
        let rest = taken.remove(at);
        assert forall|j: nat| 1 <= j <= n - 1 implies rest.contains(#[trigger] numbered(base, j)) by {
            let name = numbered(base, j);
            assert(taken.contains(name));
            let i = choose|i: int| 0 <= i < taken.len() && taken[i] == name;
            if i == at {
                lemma_numbered_injective(base, j, n);
            } else if i < at {
                assert(rest[i] == name);
            } else {
                assert(rest[i - 1] == name);
            }
        }
        lemma_taken_bound(rest, base, (n - 1) as nat);
    }
}

impl Foxy {
    /// The profile that stands for a detected repository.
    pub fn profile_from_swifty_repo(swifty_repo: &SwiftyDetectedRepo, name: String) -> (r:
        RepositoryProfile)
        ensures
            r@ == profile_of(swifty_repo@, name@),
    {
        let mut repo: Repository = Repository::default();
        if !blank(swifty_repo.parameters.as_str()) {
            apply_swifty_parameters(&mut repo, swifty_repo.parameters.as_str());
        }
        RepositoryProfile {
            name,
            flags: repo.flags,
            include_steam_addons: repo.include_steam_addons,
            additional_params: repo.additional_params,
            addons: repo.addons,
            optional_addons: repo.optional_addons,
            optional_addon_favorites: Vec::new(),
            optional_addon_client_side: Vec::new(),
            external_addons: repo.external_addons,
            external_addon_favorites: Vec::new(),
            external_addon_client_side: Vec::new(),
        }
    }

    /// Whether a profile of the repository has the name.
    fn profile_name_taken(repo: &Repository, name: &String) -> (r: bool)
        ensures
            r == repo@.profile_names().contains(name@),
    {
        let mut i: usize = 0;
        while i < repo.profiles.len()
            invariant
                i <= repo.profiles@.len(),
                forall|j: int| 0 <= j < i ==> repo.profiles@[j].name@ != name@,
            decreases repo.profiles@.len() - i,
        {
            if repo.profiles[i].name == *name {
                assert(repo@.profile_names()[i as int] == name@);
                return true;
            }
            i = i + 1;
        }
        false
    }

    /// A name for a new profile that no profile of the repository has.
    pub fn unique_swifty_profile_name(repo: &Repository, swifty_name: &str) -> (r: String)
        ensures
            r@ == free_name(repo@.profile_names(), swifty_name@),
            !repo@.profile_names().contains(r@),
    {
        let base_name: String = trim(swifty_name);
        let base_name: String = if base_name.as_str().is_empty() {
            RepositoryProfile::default().name
        } else {
            base_name
        };
        if !Self::profile_name_taken(repo, &base_name) {
            return base_name;
        }
        let ghost taken = repo@.profile_names();
        let mut count: u128 = 1;
        loop
            invariant
                taken == repo@.profile_names(),
                taken.len() == repo.profiles.len(),
                taken.contains(base_name@),
                base_name@ == wanted_name(swifty_name@),
                1 <= count <= taken.len() + 1,
                forall|j: nat| 1 <= j < count ==> taken.contains(#[trigger] numbered(base_name@, j)),
            decreases taken.len() + 1 - count,
        {
            let mut candidate: String = base_name.clone();
            candidate.append(" ");
            candidate.append(decimal_text(count).as_str());
            if !Self::profile_name_taken(repo, &candidate) {
                proof {
                    assert(first_free(taken, base_name@, count as nat));
                    let k = choose|k: nat| first_free(taken, base_name@, k);
                    lemma_first_free_unique(taken, base_name@, k, count as nat);
                }
                return candidate;
            }
            proof {
                assert(taken.contains(numbered(base_name@, count as nat)));
                lemma_taken_bound(taken, base_name@, count as nat);
            }
            count = count + 1;
        }
    }

    /// Adds a detected repository as a profile of an existing one.
    pub fn add_swifty_repo_as_profile(repo: &mut Repository, swifty_repo: &SwiftyDetectedRepo)
        ensures
            final(repo)@ == with_profile(old(repo)@, swifty_repo@),
    {
        let profile_name: String = Self::unique_swifty_profile_name(
            repo,
            swifty_repo.name.as_str(),
        );
        let profile: RepositoryProfile = Self::profile_from_swifty_repo(swifty_repo, profile_name);
        let ghost before = repository::profile_models(repo.profiles@);
        repo.profiles.push(profile);
        assert(repository::profile_models(repo.profiles@) =~= before.push(profile@));
    }
}

// ---------------------------------------------------------------------------
// Repository spaces
// ---------------------------------------------------------------------------

/// A detected repository with the normal forms that matching needs: `key` of
/// its address, `base_key` of its parent URL (see [`parent_url`]).
#[derive(Debug)]
pub struct SwiftyImportItem {
    pub repo: SwiftyDetectedRepo,
    pub key: String,
    pub base_key: String,
}

/// What an import item says.
#[verifier::ext_equal]
pub struct ItemModel {
    pub repo: DetectedModel,
    pub key: Seq<char>,
    pub base_key: Seq<char>,
}

impl View for SwiftyImportItem {
    type V = ItemModel;

    open spec fn view(&self) -> ItemModel {
        ItemModel { repo: self.repo@, key: self.key@, base_key: self.base_key@ }
    }
}

/// What the items of a list say.
pub open spec fn item_models(v: Seq<SwiftyImportItem>) -> Seq<ItemModel> {
    Seq::new(v.len(), |i: int| v[i]@)
}

/// The parent URL of an address without slashes at its end: what has to be
/// brought into normal form for [`SwiftyImportItem::base_key`].
pub fn parent_url(address: &str) -> (r: Option<String>)
    ensures
        r is None <==> scanner::bare_address(address@).len() == 0,
        r matches Some(url) ==> url@ == text::without_trailing(scanner::base_of(address@), '/'),
{
    match derive_urls(address) {
        Some(urls) => Some(text::trim_end_char(urls.base_url.as_str(), '/')),
        None => None,
    }
}

/// The first space with an id.
pub open spec fn space_with_id(spaces: Seq<SpaceModel>, id: Seq<char>) -> Option<int>
    decreases spaces.len(),
{
    if spaces.len() == 0 {
        None
    } else {
        match space_with_id(spaces.drop_last(), id) {
            Some(i) => Some(i),
            None => if spaces.last().id == id {
                Some(spaces.len() - 1)
            } else {
                None
            },
        }
    }
}

/// The first entry of a space with a key.
pub open spec fn entry_with_key(space: SpaceModel, key: Seq<char>, n: int) -> Option<int>
    decreases n,
{
    if n <= 0 {
        None
    } else {
        match entry_with_key(space, key, n - 1) {
            Some(i) => Some(i),
            None => if space.entries[n - 1].key == key {
                Some(n - 1)
            } else {
                None
            },
        }
    }
}

/// The address under which a space takes a repository in: that of the entry
/// with the same key, or else its own address if both have the same parent.
pub open spec fn entry_address(space: SpaceModel, item: ItemModel) -> Option<Seq<char>> {
    match entry_with_key(space, item.key, space.entries.len() as int) {
        Some(i) => Some(space.entries[i].address),
        None => if scanner::bare_address(item.repo.address).len() > 0 && space.base_key
            == item.base_key {
            Some(item.repo.address)
        } else {
            None
        },
    }
}

/// The space that an import just brought in.
pub open spec fn imported_space(
    spaces: Seq<SpaceModel>,
    space_id: Option<Seq<char>>,
) -> Option<SpaceModel> {
    match space_id {
        Some(id) => match space_with_id(spaces, id) {
            Some(i) => Some(spaces[i]),
            None => None,
        },
        None => None,
    }
}

/// Where a repository belongs in the space that was just brought in: the
/// address of its entry and the folder of the space.
pub open spec fn binding(space: Option<SpaceModel>, item: ItemModel) -> Option<
    (Seq<char>, Seq<char>),
> {
    match space {
        Some(s) => match entry_address(s, item) {
            Some(address) => Some((address, s.shared_path)),
            None => None,
        },
        None => None,
    }
}

/// The position of the first space with an id.
pub fn find_space(spaces: &Vec<RepositorySpace>, id: &String) -> (r: Option<usize>)
    ensures
        match r {
            Some(i) => i < spaces@.len() && space_with_id(repository::space_models(spaces@), id@)
                == Some(i as int),
            None => space_with_id(repository::space_models(spaces@), id@) is None,
        },
{
    let ghost models = repository::space_models(spaces@);
    let mut i: usize = 0;
    assert(models.take(0) =~= Seq::empty());
    while i < spaces.len()
        invariant
            models == repository::space_models(spaces@),
            i <= spaces@.len(),
            space_with_id(models.take(i as int), id@) is None,
        decreases spaces@.len() - i,
    {
        proof {
            assert(models.take(i + 1).drop_last() =~= models.take(i as int));
            assert(models.take(i + 1).last() == spaces@[i as int]@);
        }
        if spaces[i].id == *id {
            proof {
                lemma_space_found_early(models, id@, i + 1);
            }
            return Some(i);
        }
        i = i + 1;
    }
    assert(models.take(models.len() as int) =~= models);
    None
}

/// A space found among the first `n` is found among all.
proof fn lemma_space_found_early(spaces: Seq<SpaceModel>, id: Seq<char>, n: int)
    requires
        0 <= n <= spaces.len(),
        space_with_id(spaces.take(n), id) is Some,
    ensures
        space_with_id(spaces, id) == space_with_id(spaces.take(n), id),
    decreases spaces.len(),
{
    if n == spaces.len() {
        assert(spaces.take(n) =~= spaces);
    } else {
        assert(spaces.drop_last().take(n) =~= spaces.take(n));
        lemma_space_found_early(spaces.drop_last(), id, n);
    }
}

/// An entry found among the first `n` is found among more.
proof fn lemma_entry_found_early(space: SpaceModel, key: Seq<char>, n: int, m: int)
    requires
        0 <= n <= m,
        entry_with_key(space, key, n) is Some,
    ensures
        entry_with_key(space, key, m) == entry_with_key(space, key, n),
    decreases m,
{
    if n < m {
        lemma_entry_found_early(space, key, n, m - 1);
    }
}

/// The address under which a space takes a repository in.
fn space_entry_address(space: &RepositorySpace, item: &SwiftyImportItem) -> (r: Option<String>)
    ensures
        repository::opt_view(r) == entry_address(space@, item@),
{
    let mut i: usize = 0;
    while i < space.entries.len()
        invariant
            i <= space.entries@.len(),
            entry_with_key(space@, item@.key, i as int) is None,
        decreases space.entries@.len() - i,
    {
        assert(space@.entries[i as int] == space.entries@[i as int]@);
        if space.entries[i].key == item.key {
            proof {
                assert(entry_with_key(space@, item@.key, i + 1) == Some(i as int));
                lemma_entry_found_early(
                    space@,
                    item@.key,
                    i + 1,
                    space.entries@.len() as int,
                );
            }
            return Some(space.entries[i].address.clone());
        }
        i = i + 1;
    }
    if derive_urls(item.repo.address.as_str()).is_some() && space.base_key == item.base_key {
        Some(item.repo.address.clone())
    } else {
        None
    }
}

/// The view of a binding.
pub open spec fn binding_view(b: Option<(String, String)>) -> Option<(Seq<char>, Seq<char>)> {
    match b {
        Some((address, path)) => Some((address@, path@)),
        None => None,
    }
}

/// Where a repository belongs in the space that was just brought in.
pub fn space_binding(
    spaces: &Vec<RepositorySpace>,
    space_id: &Option<String>,
    item: &SwiftyImportItem,
) -> (r: Option<(String, String)>)
    ensures
        binding_view(r) == binding(
            imported_space(repository::space_models(spaces@), repository::opt_view(*space_id)),
            item@,
        ),
{
    match space_id {
        Some(id) => match find_space(spaces, id) {
            Some(i) => {
                let space: &RepositorySpace = &spaces[i];
                match space_entry_address(space, item) {
                    Some(address) => Some((address, space.shared_path.clone())),
                    None => None,
                }
            },
            None => None,
        },
        None => None,
    }
}

impl Foxy {
    /// Where a repository belongs in the space with an id: the address of its
    /// entry and the folder of the space.
    pub fn swifty_space_binding_for_repo(
        &self,
        space_id: &String,
        item: &SwiftyImportItem,
    ) -> (r: Option<(String, String)>)
        ensures
            binding_view(r) == binding(
                imported_space(
                    repository::space_models(self.repository_spaces@),
                    Some(space_id@),
                ),
                item@,
            ),
    {
        space_binding(&self.repository_spaces, &Some(space_id.clone()), item)
    }
}

// ---------------------------------------------------------------------------
// The shared folder of a space
// ---------------------------------------------------------------------------

/// How many of the items lie in a folder.
pub open spec fn folder_count(items: Seq<ItemModel>, folder: Seq<char>) -> nat
    decreases items.len(),
{
    if items.len() == 0 {
        0
    } else {
        folder_count(items.drop_last(), folder) + if text::trimmed(items.last().repo.mod_folder)
            == folder {
            1nat
        } else {
            0nat
        }
    }
}

/// The folder in which most of the items lie; of several, the one that comes
/// first among the first `n` items. Items without a folder do not count.
pub open spec fn common_folder(items: Seq<ItemModel>, n: int) -> Option<Seq<char>>
    decreases n,
{
    if n <= 0 {
        None
    } else {
        let folder = text::trimmed(items[n - 1].repo.mod_folder);
        match common_folder(items, n - 1) {
            None => if folder.len() == 0 {
                None
            } else {
                Some(folder)
            },
            Some(best) => if folder.len() > 0 && folder_count(items, folder) > folder_count(
                items,
                best,
            ) {
                Some(folder)
            } else {
                Some(best)
            },
        }
    }
}

/// The folder that an import gives to the space that it brought in, if that
/// has none yet.
pub open spec fn new_shared_path(
    spaces: Seq<SpaceModel>,
    space_id: Option<Seq<char>>,
    items: Seq<ItemModel>,
) -> Option<Seq<char>> {
    let space = imported_space(spaces, space_id);
    if space_id is None || (space matches Some(s) && !text::is_blank(s.shared_path)) {
        None
    } else {
        common_folder(items, items.len() as int)
    }
}

/// The spaces after the one with an id got a folder.
pub open spec fn with_shared_path(
    spaces: Seq<SpaceModel>,
    id: Seq<char>,
    path: Seq<char>,
) -> Seq<SpaceModel> {
    match space_with_id(spaces, id) {
        Some(i) => spaces.update(i, SpaceModel { shared_path: path, ..spaces[i] }),
        None => spaces,
    }
}

/// The spaces with which an import goes on.
pub open spec fn spaces_after(
    spaces: Seq<SpaceModel>,
    space_id: Option<Seq<char>>,
    items: Seq<ItemModel>,
) -> Seq<SpaceModel> {
    match new_shared_path(spaces, space_id, items) {
        Some(path) => with_shared_path(spaces, space_id->0, path),
        None => spaces,
    }
}

/// How many of the items lie in a folder.
fn count_folder(items: &Vec<SwiftyImportItem>, folder: &String) -> (r: usize)
    ensures
        r == folder_count(item_models(items@), folder@),
{
    let ghost models = item_models(items@);
    let mut n: usize = 0;
    let mut i: usize = 0;
    assert(models.take(0) =~= Seq::empty());
    while i < items.len()
        invariant
            models == item_models(items@),
            i <= items@.len(),
            n <= i,
            n == folder_count(models.take(i as int), folder@),
        decreases items@.len() - i,
    {
        proof {
            assert(models.take(i + 1).drop_last() =~= models.take(i as int));
            assert(models.take(i + 1).last() == items@[i as int]@);
        }
        if trim(items[i].repo.mod_folder.as_str()) == *folder {
            n = n + 1;
        }
        i = i + 1;
    }
    assert(models.take(models.len() as int) =~= models);
    n
}

/// The folder in which most of the items lie.
pub fn most_common_folder(items: &Vec<SwiftyImportItem>) -> (r: Option<String>)
    ensures
        repository::opt_view(r) == common_folder(item_models(items@), items@.len() as int),
{
    let ghost models = item_models(items@);
    let mut best: Option<String> = None;
    let mut i: usize = 0;
    while i < items.len()
        invariant
            models == item_models(items@),
            i <= items@.len(),
            repository::opt_view(best) == common_folder(models, i as int),
        decreases items@.len() - i,
    {
        let folder: String = trim(items[i].repo.mod_folder.as_str());
        assert(models[i as int] == items@[i as int]@);
        if !folder.as_str().is_empty() {
            let better: bool = match &best {
                Some(b) => count_folder(items, &folder) > count_folder(items, b),
                None => true,
            };
            if better {
                best = Some(folder);
            }
        }
        i = i + 1;
    }
    best
}

/// A common folder is one of the folders, and no folder holds more items.
pub proof fn lemma_common_folder(items: Seq<ItemModel>, n: int)
    requires
        0 <= n <= items.len(),
    ensures
        match common_folder(items, n) {
            Some(best) => {
                &&& best.len() > 0
                &&& exists|i: int|
                    0 <= i < n && text::trimmed((#[trigger] items[i]).repo.mod_folder) == best
                &&& forall|j: int|
                    0 <= j < n && !text::is_blank((#[trigger] items[j]).repo.mod_folder)
                        ==> folder_count(items, text::trimmed(items[j].repo.mod_folder))
                        <= folder_count(items, best)
            },
            None => forall|j: int|
                0 <= j < n ==> text::is_blank((#[trigger] items[j]).repo.mod_folder),
        },
    decreases n,
{
    if n > 0 {
        lemma_common_folder(items, n - 1);
        assert(text::trimmed(items[n - 1].repo.mod_folder) == text::trimmed(
            items[n - 1].repo.mod_folder,
        ));
    }
}

/// The folder that an import gives to a space is one in which selected
/// repositories lie, and none holds more of them; it gives none only if the
/// space has one or no selected repository names one.
pub proof fn law_shared_path_is_most_common(
    spaces: Seq<SpaceModel>,
    space_id: Option<Seq<char>>,
    items: Seq<ItemModel>,
)
    ensures
        match new_shared_path(spaces, space_id, items) {
            Some(best) => {
                &&& exists|i: int|
                    0 <= i < items.len() && text::trimmed((#[trigger] items[i]).repo.mod_folder)
                        == best
                &&& forall|j: int|
                    0 <= j < items.len() && !text::is_blank((#[trigger] items[j]).repo.mod_folder)
                        ==> folder_count(items, text::trimmed(items[j].repo.mod_folder))
                        <= folder_count(items, best)
            },
            None => {
                ||| space_id is None
                ||| imported_space(spaces, space_id) matches Some(s) && !text::is_blank(
                    s.shared_path,
                )
                ||| forall|j: int|
                    0 <= j < items.len() ==> text::is_blank((#[trigger] items[j]).repo.mod_folder)
            },
        },
{
    lemma_common_folder(items, items.len() as int);
}

} // verus!
