//! What holds of the pages of the migration wizard and of how an import begins.

use vstd::prelude::*;

use crate::foxy::{Foxy, FoxyView};
use crate::swifty::finish;
use crate::swifty::finish::{SwiftyImportOutcome, SwiftyImportStart};
use crate::swifty::import;
use crate::swifty::import::{ItemModel, SwiftyImportItem};
use crate::swifty::page;
use crate::swifty::page::MigrationPage;
use crate::swifty::places::swifty_data_exists;
use crate::swifty::scanner;
use crate::swifty::scanner::{derive_urls, SwiftyScan};
use crate::swifty::types::{DerivedUrls, SwiftyDetectedRepo, SwiftyMigrationState};
use crate::text;

verus! {

broadcast use vstd::string::group_string_axioms;

/// Selected repositories are counted one by one.
pub proof fn law_selected_repositories_are_counted(
    a: Seq<SwiftyDetectedRepo>,
    b: Seq<SwiftyDetectedRepo>,
    one: SwiftyDetectedRepo,
)
    ensures
        page::selected_count(a + b) == page::selected_count(a) + page::selected_count(b),
        one.selected ==> page::selected_count(seq![one]) == 1,
        !one.selected ==> page::selected_count(seq![one]) == 0,
    decreases b.len(),
{
    reveal_with_fuel(page::selected_count, 2);
    assert(seq![one].drop_last() =~= Seq::empty());
    if b.len() == 0 {
        assert(a + b =~= a);
    } else {
        law_selected_repositories_are_counted(a, b.drop_last(), one);
        assert((a + b).drop_last() =~= a + b.drop_last());
    }
}

/// Which page shows: a failed scan before all, then that nothing was found, then
/// that the import is done, and otherwise the list. The list tells how many there
/// are and how many are selected, the end of the import how many were taken.
pub proof fn law_page_of_the_wizard(s: SwiftyMigrationState, r: MigrationPage)
    requires
        call_ensures(SwiftyMigrationState::page, (&s,), r),
    ensures
        r is Failed <==> s.scan_error is Some,
        r is NothingFound <==> s.scan_error is None && s.detected_repos@.len() == 0,
        r is Done <==> s.scan_error is None && s.detected_repos@.len() > 0 && s.import_done,
        r is Choose <==> s.scan_error is None && s.detected_repos@.len() > 0 && !s.import_done,
        r matches MigrationPage::Failed { error } ==> error@ == s.scan_error->0@,
        r matches MigrationPage::Done { count, space_failed } ==> count == s.imported_count && (
        space_failed <==> s.space_import_failed && text::trimmed(s.detected_space_url@).len()
            > 0),
        r matches MigrationPage::Choose { found, selected, arma_directory, temp_directory } ==> {
            &&& found == s.detected_repos@.len()
            &&& selected == page::selected_count(s.detected_repos@)
            &&& arma_directory <==> text::trimmed(s.global_settings.arma_path@).len() > 0
            &&& temp_directory <==> text::trimmed(s.global_settings.temp_path@).len() > 0
        },
{
}

/// Selecting all changes whether each is selected, and nothing else.
pub proof fn law_selecting_all_changes_nothing_else(s: &mut SwiftyMigrationState, on: bool, i: int)
    requires
        call_ensures(SwiftyMigrationState::select_all, (s, on), ()),
        0 <= i < old(s).detected_repos@.len(),
    ensures
        final(s).detected_repos@.len() == old(s).detected_repos@.len(),
        final(s).detected_repos@[i].selected == on,
        final(s).detected_repos@[i].name == old(s).detected_repos@[i].name,
        final(s).detected_repos@[i].address == old(s).detected_repos@[i].address,
        final(s).detected_repos@[i].mod_folder == old(s).detected_repos@[i].mod_folder,
        final(s).detected_repos@[i].parameters == old(s).detected_repos@[i].parameters,
        final(s).detected_repos@[i].autocheck == old(s).detected_repos@[i].autocheck,
        final(s).scan_error == old(s).scan_error,
        final(s).import_done == old(s).import_done,
{
}

/// An import begins with what is selected. It fetches the space whose address
/// stands in the wizard, without the white space around it; without one it
/// finishes at once; while a space is being fetched it does nothing.
pub proof fn law_import_begins_with_what_is_selected(foxy: Foxy, r: SwiftyImportStart)
    requires
        call_ensures(Foxy::execute_swifty_import, (&foxy,), r),
    ensures
        ({
            let url = text::trimmed(foxy.swifty_migration_state.detected_space_url@);
            let repos = foxy.swifty_migration_state.detected_repos@;
            &&& r is Finish <==> url.len() == 0
            &&& r is Ignore <==> url.len() > 0 && foxy.repository_space_import_in_flight
            &&& r is FetchSpace <==> url.len() > 0 && !foxy.repository_space_import_in_flight
            &&& r matches SwiftyImportStart::FetchSpace { url: fetched, selected } ==> fetched@
                == url && selected@ == finish::selected_of(repos)
            &&& r matches SwiftyImportStart::Finish { selected } ==> selected@
                == finish::selected_of(repos)
        }),
{
}

/// Opening the wizard remembers the view that it came from; it changes no
/// repository and no setting.
pub proof fn law_wizard_remembers_where_it_came_from(foxy: &mut Foxy, scan: SwiftyScan)
    requires
        call_ensures(Foxy::open_swifty_migration_view, (foxy, scan), ()),
    ensures
        final(foxy).last_view == old(foxy).current_view,
        final(foxy).current_view == FoxyView::SwiftyMigration,
        final(foxy).repositories == old(foxy).repositories,
        final(foxy).repository_spaces == old(foxy).repository_spaces,
        final(foxy).settings_view_state == old(foxy).settings_view_state,
{
}

/// A finished import is noted as done, with how many were taken, and the wizard
/// is not offered again; the view stays, and so does who set the update URL.
pub proof fn law_finished_import_is_noted(
    foxy: &mut Foxy,
    selected: Vec<SwiftyImportItem>,
    space_id: Option<String>,
    r: SwiftyImportOutcome,
)
    requires
        call_ensures(Foxy::finish_swifty_import, (foxy, &selected, &space_id), r),
    ensures
        final(foxy).swifty_migration_state.import_done,
        final(foxy).swifty_migration_state.imported_count == r.imported,
        final(foxy).swifty_migration_state.detected_repos == old(
            foxy).swifty_migration_state.detected_repos,
        final(foxy).settings_view_state.swifty_migration_offered,
        final(foxy).settings_view_state.app_update_url_user_override == old(
            foxy).settings_view_state.app_update_url_user_override,
        final(foxy).current_view == old(foxy).current_view,
{
}

/// The URLs beside a repository lie under one parent: that of its address.
pub proof fn law_urls_lie_under_one_parent(address: &'static str, r: Option<DerivedUrls>)
    requires
        call_ensures(derive_urls, (address,), r),
    ensures
        r is Some <==> scanner::bare_address(address@).len() > 0,
        r matches Some(urls) ==> {
            &&& urls.updater_url@ == urls.base_url@ + "Foxy"@
            &&& urls.space_url@ == urls.base_url@ + "repository_space.json"@
            &&& urls.base_url@ == scanner::base_of(address@)
        },
{
}

/// There is something to migrate exactly if a settings file is there.
pub proof fn law_something_to_migrate(found: Vec<bool>, r: bool, i: int)
    requires
        call_ensures(swifty_data_exists, (&found,), r),
    ensures
        0 <= i < found@.len() && found@[i] ==> r,
        r ==> exists|j: int| 0 <= j < found@.len() && #[trigger] found@[j],
{
    if 0 <= i < found@.len() && found@[i] {
        assert(found@.contains(true));
    }
    if r {
        let j = choose|j: int| 0 <= j < found@.len() && found@[j] == true;
        assert(found@[j]);
    }
}

/// The items that lie in a folder are counted one by one; white space around the
/// name of a folder does not matter.
pub proof fn law_items_of_a_folder_are_counted(
    a: Seq<ItemModel>,
    b: Seq<ItemModel>,
    one: ItemModel,
    folder: Seq<char>,
)
    ensures
        import::folder_count(a + b, folder) == import::folder_count(a, folder)
            + import::folder_count(b, folder),
        text::trimmed(one.repo.mod_folder) == folder ==> import::folder_count(seq![one], folder)
            == 1,
        text::trimmed(one.repo.mod_folder) != folder ==> import::folder_count(seq![one], folder)
            == 0,
    decreases b.len(),
{
    reveal_with_fuel(import::folder_count, 2);
    assert(seq![one].drop_last() =~= Seq::empty());
    if b.len() == 0 {
        assert(a + b =~= a);
    } else {
        law_items_of_a_folder_are_counted(a, b.drop_last(), one, folder);
        assert((a + b).drop_last() =~= a + b.drop_last());
    }
}

/// Of folders in which as many items lie, the one that comes first is taken:
/// nothing before its first item is in a folder that holds as many.
pub proof fn law_first_of_the_most_common_folders(items: Seq<ItemModel>, n: int)
    requires
        0 <= n <= items.len(),
    ensures
        import::common_folder(items, n) matches Some(best) ==> exists|i: int|
            {
                &&& 0 <= i < n
                &&& text::trimmed((#[trigger] items[i]).repo.mod_folder) == best
                &&& earlier_hold_fewer(items, i, best)
            },
    decreases n,
{
    if n > 0 {
        law_first_of_the_most_common_folders(items, n - 1);
        import::lemma_common_folder(items, n - 1);
        let folder = text::trimmed(items[n - 1].repo.mod_folder);
        match import::common_folder(items, n - 1) {
            None => {
                if folder.len() > 0 {
                    assert(earlier_hold_fewer(items, n - 1, folder));
                    assert(text::trimmed(items[n - 1].repo.mod_folder) == folder);
                }
            },
            Some(best) => {
                if folder.len() > 0 && import::folder_count(items, folder) > import::folder_count(
                    items,
                    best,
                ) {
                    assert(earlier_hold_fewer(items, n - 1, folder));
                    assert(text::trimmed(items[n - 1].repo.mod_folder) == folder);
                }
            },
        }
    }
}

/// Whether each folder named before item `i` holds fewer items than `best`.
pub open spec fn earlier_hold_fewer(items: Seq<ItemModel>, i: int, best: Seq<char>) -> bool {
    forall|j: int|
        0 <= j < i && !text::is_blank((#[trigger] items[j]).repo.mod_folder)
            ==> import::folder_count(items, text::trimmed(items[j].repo.mod_folder))
            < import::folder_count(items, best)
}

} // verus!
