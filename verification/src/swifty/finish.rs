//! Carrying out an import: repositories, update URL and directories.

use vstd::prelude::*;

use crate::foxy::{Foxy, FoxyView, SettingsViewState};
use crate::repository;
use crate::repository::{Repository, RepositoryModel, RepositorySpace, SpaceModel};
use crate::swifty::import;
use crate::swifty::import::{
    find_space, most_common_folder, space_binding, ItemModel, SwiftyImportItem,
};
use crate::swifty::scanner;
use crate::swifty::scanner::{apply_swifty_parameters, derive_urls, SwiftyScan};
use crate::swifty::types::{SwiftyDetectedRepo, SwiftyMigrationState};
use crate::text;
use crate::text::{blank, trim};

verus! {

broadcast use vstd::string::group_string_axioms;

/// The last repository with a key.
pub open spec fn repo_with_key(repos: Seq<RepositoryModel>, key: Seq<char>) -> Option<int>
    decreases repos.len(),
{
    if repos.len() == 0 {
        None
    } else if repos.last().key == key {
        Some(repos.len() - 1)
    } else {
        repo_with_key(repos.drop_last(), key)
    }
}

/// A repository made from a detected one, before it joins a space.
pub open spec fn fresh_repository(item: ItemModel) -> RepositoryModel {
    let named = RepositoryModel {
        name: item.repo.name,
        address: item.repo.address,
        key: item.key,
        path: if text::is_blank(item.repo.mod_folder) {
            Seq::empty()
        } else {
            item.repo.mod_folder
        },
        ..RepositoryModel::initial()
    };
    let tuned = import::parametrised(named, item.repo.parameters);
    RepositoryModel {
        auto_recheck_on_launch: if item.repo.autocheck {
            Some(true)
        } else {
            None
        },
        app_update_url: if scanner::bare_address(item.repo.address).len() > 0 {
            scanner::base_of(item.repo.address) + "Foxy"@
        } else {
            Seq::empty()
        },
        ..tuned
    }
}

/// A new repository in the space `id`: it takes over the folder of the space
/// if it has none of its own.
pub open spec fn joined_fresh(
    repo: RepositoryModel,
    id: Seq<char>,
    bound: Option<(Seq<char>, Seq<char>)>,
) -> RepositoryModel {
    match bound {
        Some((address, shared_path)) => RepositoryModel {
            repository_space_id: Some(id),
            repository_space_entry_address: Some(address),
            path: if text::is_blank(repo.path) && shared_path.len() > 0 {
                shared_path
            } else {
                repo.path
            },
            ..repo
        },
        None => repo,
    }
}

/// An existing repository in the space `id`: a folder that Swifty carried
/// replaces its own; without one, a repository that has no folder takes over
/// that of the space.
pub open spec fn joined_existing(
    repo: RepositoryModel,
    id: Seq<char>,
    bound: Option<(Seq<char>, Seq<char>)>,
    mod_folder: Seq<char>,
) -> RepositoryModel {
    match bound {
        Some((address, shared_path)) => RepositoryModel {
            repository_space_id: Some(id),
            repository_space_entry_address: Some(address),
            path: if !text::is_blank(mod_folder) {
                mod_folder
            } else if text::is_blank(repo.path) && !text::is_blank(shared_path) {
                shared_path
            } else {
                repo.path
            },
            ..repo
        },
        None => repo,
    }
}

/// The repository list in the course of an import.
#[verifier::ext_equal]
pub struct ImportModel {
    pub repos: Seq<RepositoryModel>,
    /// How many repositories were added.
    pub imported: nat,
    /// How many profiles were added to repositories that were there.
    pub profiles: nat,
    /// The repositories that were there and whose servers are not known.
    pub refresh: Seq<int>,
}

/// What one selected repository does to the list: it becomes a profile of the
/// repository with its key, or a new repository if there is none.
pub open spec fn import_one(
    m: ImportModel,
    item: ItemModel,
    spaces: Seq<SpaceModel>,
    space_id: Option<Seq<char>>,
) -> ImportModel {
    let bound = import::binding(import::imported_space(spaces, space_id), item);
    match repo_with_key(m.repos, item.key) {
        Some(i) => {
            let repo = joined_existing(
                import::with_profile(m.repos[i], item.repo),
                space_id->0,
                bound,
                item.repo.mod_folder,
            );
            ImportModel {
                repos: m.repos.update(i, repo),
                imported: m.imported,
                profiles: m.profiles + 1,
                refresh: if repo.servers.len() == 0 && !m.refresh.contains(i) {
                    m.refresh.push(i)
                } else {
                    m.refresh
                },
            }
        },
        None => ImportModel {
            repos: m.repos.push(joined_fresh(fresh_repository(item), space_id->0, bound)),
            imported: m.imported + 1,
            ..m
        },
    }
}

/// What the first `n` selected repositories do to the list.
pub open spec fn import_all(
    repos: Seq<RepositoryModel>,
    items: Seq<ItemModel>,
    n: int,
    spaces: Seq<SpaceModel>,
    space_id: Option<Seq<char>>,
) -> ImportModel
    decreases n,
{
    if n <= 0 {
        ImportModel { repos, imported: 0, profiles: 0, refresh: Seq::empty() }
    } else {
        import_one(
            import_all(repos, items, n - 1, spaces, space_id),
            items[n - 1],
            spaces,
            space_id,
        )
    }
}

/// What the caller has to do after an import.
#[derive(Debug)]
pub struct SwiftyImportOutcome {
    /// Whether the repository list changed and has to be stored.
    pub save_repositories: bool,
    /// The repositories whose metadata has to be fetched, in this order.
    pub refresh: Vec<usize>,
    /// How many repositories and profiles were added.
    pub imported: usize,
}

/// The position of the last repository with a key.
fn find_repository(repos: &Vec<Repository>, key: &String) -> (r: Option<usize>)
    ensures
        match r {
            Some(i) => i < repos@.len() && repo_with_key(repository::repository_models(repos@), key@)
                == Some(i as int),
            None => repo_with_key(repository::repository_models(repos@), key@) is None,
        },
{
    let ghost models = repository::repository_models(repos@);
    let mut i: usize = repos.len();
    assert(models.take(models.len() as int) =~= models);
    while i > 0
        invariant
            models == repository::repository_models(repos@),
            i <= repos@.len(),
            repo_with_key(models, key@) == repo_with_key(models.take(i as int), key@),
        decreases i,
    {
        proof {
            assert(models.take(i as int).last() == repos@[i - 1]@);
            assert(models.take(i as int).drop_last() =~= models.take(i - 1));
        }
        if repos[i - 1].key == *key {
            return Some(i - 1);
        }
        i = i - 1;
    }
    None
}

/// A new repository made from a detected one.
fn new_repository(item: &SwiftyImportItem) -> (r: Repository)
    ensures
        r@ == fresh_repository(item@),
{
    let mut repo: Repository = Repository::default();
    repo.name = item.repo.name.clone();
    repo.address = item.repo.address.clone();
    repo.key = item.key.clone();
    if !blank(item.repo.mod_folder.as_str()) {
        repo.path = item.repo.mod_folder.clone();
    }
    if !blank(item.repo.parameters.as_str()) {
        apply_swifty_parameters(&mut repo, item.repo.parameters.as_str());
    }
    if item.repo.autocheck {
        repo.auto_recheck_on_launch = Some(true);
    }
    if let Some(urls) = derive_urls(item.repo.address.as_str()) {
        repo.app_update_url = urls.updater_url;
    }
    repo
}

/// Puts a new repository into the space `id`.
fn join_fresh(repo: &mut Repository, id: &String, bound: Option<(String, String)>)
    ensures
        final(repo)@ == joined_fresh(old(repo)@, id@, import::binding_view(bound)),
{
    if let Some((address, shared_path)) = bound {
        repo.repository_space_id = Some(id.clone());
        repo.repository_space_entry_address = Some(address);
        if blank(repo.path.as_str()) && !shared_path.as_str().is_empty() {
            repo.path = shared_path;
        }
    }
}

/// Puts a repository that was there into the space `id`.
fn join_existing(
    repo: &mut Repository,
    id: &String,
    bound: Option<(String, String)>,
    mod_folder: &String,
)
    ensures
        final(repo)@ == joined_existing(
            old(repo)@,
            id@,
            import::binding_view(bound),
            mod_folder@,
        ),
{
    if let Some((address, shared_path)) = bound {
        repo.repository_space_id = Some(id.clone());
        repo.repository_space_entry_address = Some(address);
        if !blank(mod_folder.as_str()) {
            repo.path = mod_folder.clone();
        } else if blank(repo.path.as_str()) && !blank(shared_path.as_str()) {
            repo.path = shared_path;
        }
    }
}

/// Whether a list of positions holds one.
fn has_position(list: &Vec<usize>, at: usize) -> (r: bool)
    ensures
        r == positions(list@).contains(at as int),
{
    let mut i: usize = 0;
    while i < list.len()
        invariant
            i <= list@.len(),
            forall|j: int| 0 <= j < i ==> list@[j] != at,
        decreases list@.len() - i,
    {
        if list[i] == at {
            assert(positions(list@)[i as int] == at as int);
            return true;
        }
        i = i + 1;
    }
    proof {
        if positions(list@).contains(at as int) {
            let j = choose|j: int| 0 <= j < list@.len() && positions(list@)[j] == at as int;
            assert(list@[j] == at);
        }
    }
    false
}

/// Positions as integers.
pub open spec fn positions(v: Seq<usize>) -> Seq<int> {
    Seq::new(v.len(), |i: int| v[i] as int)
}

/// The counts of an import in progress.
struct ImportCounts {
    imported: usize,
    profiles: usize,
    refresh: Vec<usize>,
}

/// Merges the selected repositories into the list.
fn import_items(
    repos: &mut Vec<Repository>,
    items: &Vec<SwiftyImportItem>,
    spaces: &Vec<RepositorySpace>,
    space_id: &Option<String>,
) -> (r: ImportCounts)
    ensures
        ({
            let m = import_all(
                repository::repository_models(old(repos)@),
                import::item_models(items@),
                items@.len() as int,
                repository::space_models(spaces@),
                repository::opt_view(*space_id),
            );
            &&& repository::repository_models(final(repos)@) == m.repos
            &&& r.imported == m.imported
            &&& r.profiles == m.profiles
            &&& positions(r.refresh@) == m.refresh
            &&& r.imported + r.profiles == items@.len()
        }),
{
    let ghost start = repository::repository_models(repos@);
    let ghost models = import::item_models(items@);
    let ghost space_list = repository::space_models(spaces@);
    let ghost id = repository::opt_view(*space_id);
    let mut imported: usize = 0;
    let mut profiles: usize = 0;
    let mut refresh: Vec<usize> = Vec::new();
    let mut n: usize = 0;
    assert(positions(refresh@) =~= Seq::empty());
    while n < items.len()
        invariant
            models == import::item_models(items@),
            space_list == repository::space_models(spaces@),
            id == repository::opt_view(*space_id),
            n <= items@.len(),
            imported + profiles == n,
            import_all(start, models, n as int, space_list, id) == (ImportModel {
                repos: repository::repository_models(repos@),
                imported: imported as nat,
                profiles: profiles as nat,
                refresh: positions(refresh@),
            }),
        decreases items@.len() - n,
    {
        let item: &SwiftyImportItem = &items[n];
        let bound: Option<(String, String)> = space_binding(spaces, space_id, item);
        let ghost before = repository::repository_models(repos@);
        let ghost list = positions(refresh@);
        assert(models[n as int] == item@);
        match find_repository(repos, &item.key) {
            Some(i) => {
                let mut repo: Repository = repos.remove(i);
                Foxy::add_swifty_repo_as_profile(&mut repo, &item.repo);
                if let Some(space) = space_id {
                    join_existing(&mut repo, space, bound, &item.repo.mod_folder);
                }
                profiles = profiles + 1;
                if repo.servers.is_empty() && !has_position(&refresh, i) {
                    refresh.push(i);
                    assert(positions(refresh@) =~= list.push(i as int));
                }
                assert(repo@.servers.len() == repo.servers@.len());
                let ghost changed = repo@;
                repos.insert(i, repo);
                assert(repository::repository_models(repos@) =~= before.update(i as int, changed));
            },
            None => {
                let mut repo: Repository = new_repository(item);
                if let Some(space) = space_id {
                    join_fresh(&mut repo, space, bound);
                }
                imported = imported + 1;
                let ghost added = repo@;
                repos.push(repo);
                assert(repository::repository_models(repos@) =~= before.push(added));
            },
        }
        n = n + 1;
    }
    ImportCounts { imported, profiles, refresh }
}

/// Whether a directory or URL that Swifty knows replaces one that is blank here.
pub open spec fn filled(own: Seq<char>, offered: Seq<char>) -> Seq<char> {
    if text::is_blank(own) && !text::is_blank(offered) {
        offered
    } else {
        own
    }
}

/// The positions of the repositories that an import added, in order.
pub open spec fn added_positions(m: ImportModel) -> Seq<int> {
    Seq::new(m.imported, |k: int| m.repos.len() - m.imported + k)
}

/// The list grows by the repositories that were added.
proof fn lemma_import_grows(
    repos: Seq<RepositoryModel>,
    items: Seq<ItemModel>,
    n: int,
    spaces: Seq<SpaceModel>,
    space_id: Option<Seq<char>>,
)
    requires
        0 <= n,
    ensures
        import_all(repos, items, n, spaces, space_id).repos.len() == repos.len() + import_all(
            repos,
            items,
            n,
            spaces,
            space_id,
        ).imported,
    decreases n,
{
    if n > 0 {
        lemma_import_grows(repos, items, n - 1, spaces, space_id);
        lemma_repo_with_key(
            import_all(repos, items, n - 1, spaces, space_id).repos,
            items[n - 1].key,
        );
    }
}

/// What a search by key finds has the key, nothing behind it has, and nothing
/// is missed.
pub proof fn lemma_repo_with_key(repos: Seq<RepositoryModel>, key: Seq<char>)
    ensures
        match repo_with_key(repos, key) {
            Some(i) => 0 <= i < repos.len() && repos[i].key == key && (forall|j: int|
                i < j < repos.len() ==> (#[trigger] repos[j]).key != key),
            None => forall|j: int| 0 <= j < repos.len() ==> (#[trigger] repos[j]).key != key,
        },
    decreases repos.len(),
{
    if repos.len() > 0 && repos.last().key != key {
        lemma_repo_with_key(repos.drop_last(), key);
        assert forall|j: int| 0 <= j < repos.len() - 1 implies #[trigger] repos[j]
            == repos.drop_last()[j] by {}
    }
}

/// The first detected repository whose address gives URLs.
pub open spec fn first_derivable(repos: Seq<SwiftyDetectedRepo>) -> Option<int>
    decreases repos.len(),
{
    if repos.len() == 0 {
        None
    } else {
        match first_derivable(repos.drop_last()) {
            Some(i) => Some(i),
            None => if scanner::bare_address(repos.last().address@).len() > 0 {
                Some(repos.len() - 1)
            } else {
                None
            },
        }
    }
}

/// What is found among the first repositories is found among all.
proof fn lemma_derivable_early(repos: Seq<SwiftyDetectedRepo>, n: int)
    requires
        0 <= n <= repos.len(),
        first_derivable(repos.take(n)) is Some,
    ensures
        first_derivable(repos) == first_derivable(repos.take(n)),
    decreases repos.len(),
{
    if n == repos.len() {
        assert(repos.take(n) =~= repos);
    } else {
        assert(repos.drop_last().take(n) =~= repos.take(n));
        lemma_derivable_early(repos.drop_last(), n);
    }
}

/// The URL that a scan proposes where none is known yet: `suffix` under the
/// parent of the first repository that has one.
pub open spec fn proposed_url(
    known: Seq<char>,
    repos: Seq<SwiftyDetectedRepo>,
    suffix: Seq<char>,
) -> Seq<char> {
    match first_derivable(repos) {
        Some(i) if known.len() == 0 => scanner::base_of(repos[i].address@) + suffix,
        _ => known,
    }
}

/// The repositories of a list that are selected.
pub open spec fn selected_of(repos: Seq<SwiftyDetectedRepo>) -> Seq<SwiftyDetectedRepo> {
    repos.filter(|r: SwiftyDetectedRepo| r.selected)
}

/// How an import begins.
#[derive(Debug)]
pub enum SwiftyImportStart {
    /// There is no space to fetch: finish with these repositories.
    Finish { selected: Vec<SwiftyDetectedRepo> },
    /// The manifest of a space is being fetched already: do nothing.
    Ignore,
    /// Fetch the manifest of a space, then finish with these repositories.
    FetchSpace { url: String, selected: Vec<SwiftyDetectedRepo> },
}

impl Foxy {
    /// Open the Swifty migration view and trigger scanning.
    pub fn open_swifty_migration_view(&mut self, scan: SwiftyScan)
        ensures
            final(self).last_view == old(self).current_view,
            final(self).current_view == FoxyView::SwiftyMigration,
            scanned(old(self).swifty_migration_state, final(self).swifty_migration_state, scan),
            *final(self) == (Foxy {
                last_view: final(self).last_view,
                current_view: final(self).current_view,
                swifty_migration_state: final(self).swifty_migration_state,
                ..*old(self)
            }),
    {
        self.last_view = self.current_view;
        self.current_view = FoxyView::SwiftyMigration;
        self.ensure_swifty_migration_scanned(scan);
    }

    /// Take over what a scan found, unless one was taken over before.
    pub fn ensure_swifty_migration_scanned(&mut self, scan: SwiftyScan)
        ensures
            scanned(old(self).swifty_migration_state, final(self).swifty_migration_state, scan),
            *final(self) == (Foxy {
                swifty_migration_state: final(self).swifty_migration_state,
                ..*old(self)
            }),
    {
        if self.swifty_migration_state.scan_complete {
            return;
        }
        let mut i: usize = 0;
        let ghost before = *self;
        let ghost updater = self.swifty_migration_state.detected_updater_url@;
        let ghost space = self.swifty_migration_state.detected_space_url@;
        proof {
            assert(scan.repos@.take(0) =~= Seq::empty());
            if scan.repos@.len() == 0 {
                assert(scan.repos@ =~= Seq::empty());
            }
        }
        while i < scan.repos.len()
            invariant_except_break
                i <= scan.repos@.len(),
                *self == before,
                updater == before.swifty_migration_state.detected_updater_url@,
                space == before.swifty_migration_state.detected_space_url@,
                first_derivable(scan.repos@.take(i as int)) is None,
                i == scan.repos@.len() ==> first_derivable(scan.repos@) is None,
            ensures
                self.swifty_migration_state.detected_updater_url@ == proposed_url(
                    updater,
                    scan.repos@,
                    "Foxy"@,
                ),
                self.swifty_migration_state.detected_space_url@ == proposed_url(
                    space,
                    scan.repos@,
                    "repository_space.json"@,
                ),
                *self == (Foxy {
                    swifty_migration_state: SwiftyMigrationState {
                        detected_updater_url: self.swifty_migration_state.detected_updater_url,
                        detected_space_url: self.swifty_migration_state.detected_space_url,
                        ..before.swifty_migration_state
                    },
                    ..before
                }),
            decreases scan.repos@.len() - i,
        {
            proof {
                assert(scan.repos@.take(i + 1).drop_last() =~= scan.repos@.take(i as int));
                assert(scan.repos@.take(i + 1).last() == scan.repos@[i as int]);
                if i + 1 == scan.repos@.len() {
                    assert(scan.repos@.take(i + 1) =~= scan.repos@);
                }
            }
            if let Some(urls) = derive_urls(scan.repos[i].address.as_str()) {
                proof {
                    lemma_derivable_early(scan.repos@, i + 1);
                }
                if self.swifty_migration_state.detected_updater_url.as_str().is_empty() {
                    self.swifty_migration_state.detected_updater_url = urls.updater_url;
                }
                if self.swifty_migration_state.detected_space_url.as_str().is_empty() {
                    self.swifty_migration_state.detected_space_url = urls.space_url;
                }
                break ;
            }
            i = i + 1;
        }
        self.swifty_migration_state.global_settings = scan.global;
        self.swifty_migration_state.detected_repos = scan.repos;
        self.swifty_migration_state.scan_error = scan.error;
        self.swifty_migration_state.scan_complete = true;
    }
}

/// How taking over a scan changes the state of the wizard.
pub open spec fn scanned(
    before: SwiftyMigrationState,
    after: SwiftyMigrationState,
    scan: SwiftyScan,
) -> bool {
    if before.scan_complete {
        after == before
    } else {
        &&& after == (SwiftyMigrationState {
            detected_repos: scan.repos,
            global_settings: scan.global,
            scan_error: scan.error,
            scan_complete: true,
            detected_updater_url: after.detected_updater_url,
            detected_space_url: after.detected_space_url,
            ..before
        })
        &&& after.detected_updater_url@ == proposed_url(
            before.detected_updater_url@,
            scan.repos@,
            "Foxy"@,
        )
        &&& after.detected_space_url@ == proposed_url(
            before.detected_space_url@,
            scan.repos@,
            "repository_space.json"@,
        )
    }
}

/// What an import leaves behind, and what it asks the caller to do.
pub open spec fn finished(
    before: Foxy,
    after: Foxy,
    items: Seq<ItemModel>,
    space_id: Option<Seq<char>>,
    outcome: SwiftyImportOutcome,
) -> bool {
    let spaces = import::spaces_after(
        repository::space_models(before.repository_spaces@),
        space_id,
        items,
    );
    let m = import_all(
        repository::repository_models(before.repositories@),
        items,
        items.len() as int,
        spaces,
        space_id,
    );
    let wizard = before.swifty_migration_state;
    let settings = before.settings_view_state;
    let now = after.settings_view_state;
    &&& repository::space_models(after.repository_spaces@) == spaces
    &&& repository::repository_models(after.repositories@) == m.repos
    &&& outcome.imported == m.imported + m.profiles
    &&& outcome.save_repositories == (m.imported + m.profiles > 0)
    &&& positions(outcome.refresh@) == added_positions(m) + m.refresh
    &&& now.app_update_url@ == if settings.app_update_url_user_override {
        settings.app_update_url@
    } else {
        filled(settings.app_update_url@, text::trimmed(wizard.detected_updater_url@))
    }
    &&& now.arma3_directory@ == filled(settings.arma3_directory@, wizard.global_settings.arma_path@)
    &&& now.temp_directory@ == filled(settings.temp_directory@, wizard.global_settings.temp_path@)
    &&& after == (Foxy {
        repositories: after.repositories,
        repository_spaces: after.repository_spaces,
        swifty_migration_state: SwiftyMigrationState {
            import_done: true,
            imported_count: outcome.imported,
            ..wizard
        },
        settings_view_state: SettingsViewState {
            app_update_url: now.app_update_url,
            arma3_directory: now.arma3_directory,
            temp_directory: now.temp_directory,
            swifty_migration_offered: true,
            ..settings
        },
        ..before
    })
}

/// Gives the space with an id a folder.
fn set_shared_path(spaces: &mut Vec<RepositorySpace>, id: &String, path: String)
    ensures
        repository::space_models(final(spaces)@) == import::with_shared_path(
            repository::space_models(old(spaces)@),
            id@,
            path@,
        ),
{
    if let Some(i) = find_space(spaces, id) {
        let ghost before = repository::space_models(spaces@);
        let mut space: RepositorySpace = spaces.remove(i);
        space.shared_path = path;
        spaces.insert(i, space);
        assert(repository::space_models(spaces@) =~= before.update(
            i as int,
            SpaceModel { shared_path: path@, ..before[i as int] },
        ));
    }
}

/// Trimming a trimmed text changes nothing.
pub proof fn lemma_trimmed_twice(s: Seq<char>)
    ensures
        text::trimmed(text::trimmed(s)) == text::trimmed(s),
{
    lemma_trimmed_start_done(s);
    lemma_trimmed_end_keeps_start(text::trimmed_start(s));
    lemma_trimmed_end_done(text::trimmed_start(s));
}

proof fn lemma_trimmed_start_done(s: Seq<char>)
    ensures
        text::trimmed_start(s).len() > 0 ==> !text::is_whitespace(text::trimmed_start(s)[0]),
    decreases s.len(),
{
    if s.len() > 0 && text::is_whitespace(s[0]) {
        lemma_trimmed_start_done(s.skip(1));
    }
}

proof fn lemma_trimmed_end_keeps_start(s: Seq<char>)
    ensures
        text::trimmed_end(s).len() <= s.len(),
        text::trimmed_end(s).len() > 0 ==> text::trimmed_end(s)[0] == s[0],
    decreases s.len(),
{
    if s.len() > 0 && text::is_whitespace(s.last()) {
        lemma_trimmed_end_keeps_start(s.drop_last());
    }
}

proof fn lemma_trimmed_end_done(s: Seq<char>)
    ensures
        text::trimmed_end(text::trimmed_end(s)) == text::trimmed_end(s),
    decreases s.len(),
{
    if s.len() > 0 && text::is_whitespace(s.last()) {
        lemma_trimmed_end_done(s.drop_last());
    }
}

impl Foxy {
    /// Begin the import: take the selected repositories and decide whether the
    /// manifest of a repository space has to be fetched first.
    pub fn execute_swifty_import(&self) -> (r: SwiftyImportStart)
        ensures
            ({
                let url = text::trimmed(self.swifty_migration_state.detected_space_url@);
                let chosen = selected_of(self.swifty_migration_state.detected_repos@);
                match r {
                    SwiftyImportStart::Finish { selected } => url.len() == 0 && selected@ == chosen,
                    SwiftyImportStart::Ignore => url.len() > 0
                        && self.repository_space_import_in_flight,
                    SwiftyImportStart::FetchSpace { url: fetched, selected } => url.len() > 0
                        && !self.repository_space_import_in_flight && fetched@ == url && selected@
                        == chosen,
                }
            }),
    {
        let repos: &Vec<SwiftyDetectedRepo> = &self.swifty_migration_state.detected_repos;
        let mut selected: Vec<SwiftyDetectedRepo> = Vec::new();
        let mut i: usize = 0;
        proof {
            reveal(Seq::filter);
            assert(repos@.take(0) =~= Seq::empty());
        }
        while i < repos.len()
            invariant
                i <= repos@.len(),
                selected@ == selected_of(repos@.take(i as int)),
            decreases repos@.len() - i,
        {
            proof {
                reveal(Seq::filter);
                assert(repos@.take(i + 1).drop_last() =~= repos@.take(i as int));
                assert(repos@.take(i + 1).last() == repos@[i as int]);
            }
            if repos[i].selected {
                selected.push(repos[i].clone());
            }
            i = i + 1;
        }
        assert(repos@.take(repos@.len() as int) =~= repos@);
        let url: String = trim(self.swifty_migration_state.detected_space_url.as_str());
        if url.as_str().is_empty() {
            SwiftyImportStart::Finish { selected }
        } else if self.repository_space_import_in_flight {
            SwiftyImportStart::Ignore
        } else {
            SwiftyImportStart::FetchSpace { url, selected }
        }
    }

    /// Complete a Swifty migration import once the repository space (if any) has
    /// been fetched and applied: create `Repository` entries from the selected
    /// Swifty repos, bind them to the imported space, and migrate the updater
    /// URL and global settings.
    pub fn finish_swifty_import(
        &mut self,
        selected: &Vec<SwiftyImportItem>,
        imported_space_id: &Option<String>,
    ) -> (r: SwiftyImportOutcome)
        ensures
            finished(
                *old(self),
                *final(self),
                import::item_models(selected@),
                repository::opt_view(*imported_space_id),
                r,
            ),
    {
        let ghost items = import::item_models(selected@);
        let ghost id_view = repository::opt_view(*imported_space_id);
        if let Some(space_id) = imported_space_id {
            let space_has_path: bool = match find_space(&self.repository_spaces, space_id) {
                Some(i) => !blank(self.repository_spaces[i].shared_path.as_str()),
                None => false,
            };
            if !space_has_path {
                if let Some(best_path) = most_common_folder(selected) {
                    set_shared_path(&mut self.repository_spaces, space_id, best_path);
                }
            }
        }
        let ghost spaces = repository::space_models(self.repository_spaces@);
        assert(spaces == import::spaces_after(
            repository::space_models(old(self).repository_spaces@),
            id_view,
            items,
        ));
        let counts: ImportCounts = import_items(
            &mut self.repositories,
            selected,
            &self.repository_spaces,
            imported_space_id,
        );
        let ghost m = import_all(
            repository::repository_models(old(self).repositories@),
            items,
            items.len() as int,
            spaces,
            id_view,
        );
        proof {
            lemma_import_grows(
                repository::repository_models(old(self).repositories@),
                items,
                items.len() as int,
                spaces,
                id_view,
            );
            assert(m.repos.len() == self.repositories@.len());
        }
        let total: usize = self.repositories.len();
        let first: usize = total - counts.imported;
        let mut refresh: Vec<usize> = Vec::new();
        let mut i: usize = first;
        while i < total
            invariant
                first <= i <= total,
                first + m.imported == total,
                m.repos.len() == total,
                positions(refresh@) == added_positions(m).take(i - first),
            decreases total - i,
        {
            let ghost list = positions(refresh@);
            refresh.push(i);
            assert(positions(refresh@) =~= list.push(i as int));
            i = i + 1;
            assert(positions(refresh@) =~= added_positions(m).take(i - first));
        }
        let ghost added = refresh@;
        let mut existing: Vec<usize> = counts.refresh;
        let ghost old_ones = existing@;
        refresh.append(&mut existing);
        proof {
            assert(refresh@ =~= added + old_ones);
            assert(added_positions(m).take(total - first) =~= added_positions(m));
            assert(positions(refresh@) =~= positions(added) + positions(old_ones));
            assert(counts.imported + counts.profiles == selected.len());
            assert(positions(refresh@) =~= added_positions(m) + m.refresh);
        }
        let updater_url: String = trim(self.swifty_migration_state.detected_updater_url.as_str());
        proof {
            lemma_trimmed_twice(self.swifty_migration_state.detected_updater_url@);
        }
        if !updater_url.as_str().is_empty() && blank(
            self.settings_view_state.app_update_url.as_str(),
        ) && !self.settings_view_state.app_update_url_user_override {
            self.settings_view_state.app_update_url = updater_url;
        }
        if blank(self.settings_view_state.arma3_directory.as_str()) && !blank(
            self.swifty_migration_state.global_settings.arma_path.as_str(),
        ) {
            self.settings_view_state.arma3_directory =
            self.swifty_migration_state.global_settings.arma_path.clone();
        }
        if blank(self.settings_view_state.temp_directory.as_str()) && !blank(
            self.swifty_migration_state.global_settings.temp_path.as_str(),
        ) {
            self.settings_view_state.temp_directory =
            self.swifty_migration_state.global_settings.temp_path.clone();
        }
        self.settings_view_state.swifty_migration_offered = true;
        self.swifty_migration_state.import_done = true;
        self.swifty_migration_state.imported_count = counts.imported + counts.profiles;
        SwiftyImportOutcome {
            save_repositories: counts.imported > 0 || counts.profiles > 0,
            refresh,
            imported: counts.imported + counts.profiles,
        }
    }
}

} // verus!
