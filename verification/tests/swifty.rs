//! Swifty addresses, launch parameters and imports.

use foxy_views::foxy::{Foxy, FoxyView, SettingsViewState};
use foxy_views::repository::{Repository, RepositoryProfile, RepositorySpace, RepositorySpaceEntry};
use foxy_views::swifty::finish::SwiftyImportStart;
use foxy_views::swifty::import::{parent_url, SwiftyImportItem};
use foxy_views::swifty::page::MigrationPage;
use foxy_views::swifty::scanner::{
    apply_swifty_parameters, derive_urls, repo_name_from_address, scan_swifty_repositories,
    split_additional_launch_params, SettingsFile, SwiftyRepoEntry, SwiftyScan, SwiftySettings,
};
use foxy_views::swifty::types::{SwiftyDetectedRepo, SwiftyGlobalSettings, SwiftyMigrationState};

#[test]
fn derive_urls_standard_path() {
    let urls = derive_urls("http://a3.tfrod.cz:8080/mody/TFR_Main").unwrap();
    assert_eq!(urls.base_url, "http://a3.tfrod.cz:8080/mody/");
    assert_eq!(urls.updater_url, "http://a3.tfrod.cz:8080/mody/Foxy");
    assert_eq!(
        urls.space_url,
        "http://a3.tfrod.cz:8080/mody/repository_space.json"
    );
}

#[test]
fn derive_urls_trailing_slash() {
    let urls = derive_urls("http://server.com/repos/MyRepo/").unwrap();
    assert_eq!(urls.base_url, "http://server.com/repos/");
    assert_eq!(urls.updater_url, "http://server.com/repos/Foxy");
    assert_eq!(
        urls.space_url,
        "http://server.com/repos/repository_space.json"
    );
}

#[test]
fn derive_urls_no_path() {
    let urls = derive_urls("http://server.com").unwrap();
    assert_eq!(urls.base_url, "http://server.com/");
    assert_eq!(urls.updater_url, "http://server.com/Foxy");
    assert_eq!(urls.space_url, "http://server.com/repository_space.json");
}

#[test]
fn derive_urls_empty_returns_none() {
    assert!(derive_urls("").is_none());
    assert!(derive_urls("  ").is_none());
}

#[test]
fn derive_urls_deep_path() {
    let urls = derive_urls("http://host:9000/a/b/c/Repo").unwrap();
    assert_eq!(urls.base_url, "http://host:9000/a/b/c/");
    assert_eq!(urls.updater_url, "http://host:9000/a/b/c/Foxy");
    assert_eq!(
        urls.space_url,
        "http://host:9000/a/b/c/repository_space.json"
    );
}

#[test]
fn apply_swifty_parameters_maps_known_flags() {
    let mut repo = Repository::default();
    apply_swifty_parameters(
        &mut repo,
        "-skipIntro -noSplash -world=empty -LoadMissionToMemory -enableHT -hugePages -noLogs",
    );
    assert!(repo.flags.skip_intro);
    assert!(repo.flags.no_splash);
    assert!(repo.flags.world_empty);
    assert!(repo.flags.load_mission_to_memory);
    assert!(repo.flags.enable_ht);
    assert!(repo.flags.huge_pages);
    assert!(repo.flags.no_logs);
    assert!(repo.additional_params.is_empty());
}

#[test]
fn apply_swifty_parameters_maps_dlc_mod_flags() {
    let mut repo = Repository::default();
    apply_swifty_parameters(&mut repo, "-skipIntro -mod=gm");
    assert!(repo.flags.skip_intro);
    assert!(repo.flags.gm);
    assert!(!repo.flags.csla);
    assert!(repo.additional_params.is_empty());
}

#[test]
fn apply_swifty_parameters_handles_semicolon_dlcs() {
    let mut repo = Repository::default();
    apply_swifty_parameters(&mut repo, "-mod=gm;spe;ws");
    assert!(repo.flags.gm);
    assert!(repo.flags.spe);
    assert!(repo.flags.ws);
    assert!(!repo.flags.vn);
}

#[test]
fn apply_swifty_parameters_preserves_unknown_tokens() {
    let mut repo = Repository::default();
    apply_swifty_parameters(&mut repo, "-skipIntro -exThreads=7 -noSplash -window");
    assert!(repo.flags.skip_intro);
    assert!(repo.flags.no_splash);
    assert_eq!(repo.additional_params, "-exThreads=7 -window");
}

#[test]
fn apply_swifty_parameters_maps_no_land_to_world_empty() {
    let mut repo = Repository::default();
    apply_swifty_parameters(&mut repo, "-skipIntro -noLand -window");
    assert!(repo.flags.skip_intro);
    assert!(repo.flags.world_empty);
    assert_eq!(repo.additional_params, "-window");
}

#[test]
fn apply_swifty_parameters_handles_quoted_paths() {
    let mut repo = Repository::default();
    apply_swifty_parameters(&mut repo, r#"-skipIntro "C:\Users\test\mission.sqm""#);
    assert!(repo.flags.skip_intro);
    assert_eq!(repo.additional_params, r"C:\Users\test\mission.sqm");
}

#[test]
fn repo_name_from_address_works() {
    assert_eq!(
        repo_name_from_address("http://x.com/mods/TFR_Main"),
        "TFR_Main"
    );
    assert_eq!(
        repo_name_from_address("http://x.com/mods/TFR_Main/"),
        "TFR_Main"
    );
    assert_eq!(repo_name_from_address("http://x.com"), "x.com");
}

#[test]
fn derive_urls_https_scheme() {
    let urls = derive_urls("https://secure.example.com/repos/Main").unwrap();
    assert!(urls.base_url.starts_with("https://"));
    assert_eq!(urls.base_url, "https://secure.example.com/repos/");
}

#[test]
fn derive_urls_port_only_no_path() {
    let urls = derive_urls("http://192.168.1.1:8080").unwrap();
    assert_eq!(urls.base_url, "http://192.168.1.1:8080/");
    assert_eq!(urls.updater_url, "http://192.168.1.1:8080/Foxy");
}

#[test]
fn apply_swifty_parameters_all_dlcs() {
    let mut repo = Repository::default();
    apply_swifty_parameters(&mut repo, "-mod=csla;ef;gm;rf;spe;vn;ws");
    assert!(repo.flags.csla);
    assert!(repo.flags.ef);
    assert!(repo.flags.gm);
    assert!(repo.flags.rf);
    assert!(repo.flags.spe);
    assert!(repo.flags.vn);
    assert!(repo.flags.ws);
}

fn swifty_repo(name: &str, parameters: &str) -> SwiftyDetectedRepo {
    SwiftyDetectedRepo {
        name: name.to_string(),
        address: "http://example.test/mods/main".to_string(),
        mod_folder: String::new(),
        parameters: parameters.to_string(),
        autocheck: false,
        selected: true,
    }
}

#[test]
fn swifty_duplicate_profile_preserves_launch_parameters() {
    let profile = Foxy::profile_from_swifty_repo(
        &swifty_repo("Operation Alpha", "-skipIntro -mod=gm -window"),
        "Operation Alpha".to_string(),
    );

    assert_eq!(profile.name, "Operation Alpha");
    assert!(profile.flags.skip_intro);
    assert!(profile.flags.gm);
    assert_eq!(profile.additional_params, "-window");
}

#[test]
fn swifty_duplicate_profile_uses_default_unique_name_when_empty() {
    let default_name = RepositoryProfile::default().name;
    let repo = Repository {
        profiles: vec![RepositoryProfile {
            name: default_name.clone(),
            ..Default::default()
        }],
        ..Default::default()
    };

    let name = Foxy::unique_swifty_profile_name(&repo, "  ");

    assert_eq!(name, format!("{} 1", default_name));
}

// ---------------------------------------------------------------------------

fn detected(name: &str, address: &str, folder: &str) -> SwiftyDetectedRepo {
    SwiftyDetectedRepo {
        name: name.to_string(),
        address: address.to_string(),
        mod_folder: folder.to_string(),
        parameters: String::new(),
        autocheck: false,
        selected: true,
    }
}

fn item(name: &str, address: &str, folder: &str) -> SwiftyImportItem {
    SwiftyImportItem {
        repo: detected(name, address, folder),
        key: address.to_string(),
        base_key: parent_url(address).unwrap_or_default(),
    }
}

fn foxy() -> Foxy {
    Foxy {
        current_view: FoxyView::RepositoryList,
        last_view: FoxyView::Settings,
        swifty_migration_state: SwiftyMigrationState::default(),
        repositories: Vec::new(),
        repository_spaces: Vec::new(),
        repository_space_import_in_flight: false,
        settings_view_state: SettingsViewState {
            app_update_url: String::new(),
            app_update_url_user_override: false,
            arma3_directory: String::new(),
            temp_directory: String::new(),
            swifty_migration_offered: false,
        },
    }
}

fn existing(name: &str, address: &str) -> Repository {
    Repository {
        name: name.to_string(),
        address: address.to_string(),
        key: address.to_string(),
        ..Default::default()
    }
}

#[test]
fn parent_and_name_make_the_address() {
    let address = "http://host:9000/a/b/Repo";
    let urls = derive_urls(address).unwrap();
    assert_eq!(format!("{}{}", urls.base_url, repo_name_from_address(address)), address);
    assert_eq!(parent_url(address).unwrap(), "http://host:9000/a/b");
    assert!(parent_url(" / ").is_none());
}

#[test]
fn addresses_ignore_spaces_and_slashes() {
    let plain = derive_urls("http://s.com/m/R").unwrap();
    let slashed = derive_urls("http://s.com/m/R//").unwrap();
    let spaced = derive_urls(" \u{a0}http://s.com/m/R\t\n").unwrap();
    assert_eq!(plain.base_url, slashed.base_url);
    assert_eq!(plain.base_url, spaced.base_url);
}

#[test]
fn quotes_keep_arguments_together() {
    assert_eq!(
        split_additional_launch_params("-a  \"b c\"d \"\" -e"),
        vec!["-a", "b cd", "-e"]
    );
    assert!(split_additional_launch_params("  ").is_empty());
}

#[test]
fn unknown_mod_code_keeps_the_argument() {
    let mut repo = Repository::default();
    apply_swifty_parameters(&mut repo, "-mod=GM;@ace;vn");
    assert!(repo.flags.gm);
    assert!(!repo.flags.vn);
    assert_eq!(repo.additional_params, "-mod=GM;@ace;vn");
}

#[test]
fn repeated_mod_prefix_is_stripped() {
    let mut repo = Repository::default();
    apply_swifty_parameters(&mut repo, "-mod=-mod=ws");
    assert!(repo.flags.ws);
    assert!(repo.additional_params.is_empty());
}

#[test]
fn applying_parameters_twice_changes_nothing() {
    let mut repo = Repository::default();
    apply_swifty_parameters(&mut repo, "-noLogs -window");
    apply_swifty_parameters(&mut repo, "-noLogs -window");
    assert!(repo.flags.no_logs);
    assert_eq!(repo.additional_params, "-window");
    apply_swifty_parameters(&mut repo, "-hugePages");
    assert!(repo.flags.no_logs && repo.flags.huge_pages);
    assert_eq!(repo.additional_params, "-window");
}

#[test]
fn scan_merges_settings_files() {
    let settings = SwiftySettings {
        repositories: vec![
            SwiftyRepoEntry {
                name: " ".to_string(),
                address: "http://x.com/mods/TFR_Main/".to_string(),
                mod_folder: "".to_string(),
                parameters: "-noLogs".to_string(),
                autocheck: true,
            },
            SwiftyRepoEntry {
                name: "Nowhere".to_string(),
                address: "  ".to_string(),
                mod_folder: "".to_string(),
                parameters: "".to_string(),
                autocheck: false,
            },
        ],
        addons_paths: vec![" ".to_string(), "D:\\mods".to_string()],
        arma_path: "  C:\\arma ".to_string(),
        temp_path: "".to_string(),
    };
    let scan = scan_swifty_repositories(&vec![
        SettingsFile::Missing,
        SettingsFile::Unreadable,
        SettingsFile::Parsed(settings),
    ]);
    assert!(scan.error.is_none());
    assert_eq!(scan.repos.len(), 1);
    assert_eq!(scan.repos[0].name, "TFR_Main");
    assert_eq!(scan.repos[0].mod_folder, "D:\\mods");
    assert!(scan.repos[0].selected && scan.repos[0].autocheck);
    assert_eq!(scan.global.arma_path, "C:\\arma");
    assert_eq!(scan.global.temp_path, "");
}

#[test]
fn scan_reports_what_is_missing() {
    assert_eq!(
        scan_swifty_repositories(&Vec::new()).error.unwrap(),
        "No candidate Swifty directories found"
    );
    assert_eq!(
        scan_swifty_repositories(&vec![SettingsFile::Missing]).error.unwrap(),
        "No Swifty installation found on this system"
    );
    assert!(scan_swifty_repositories(&vec![SettingsFile::Unreadable]).error.is_none());
}

#[test]
fn opening_the_wizard_takes_over_the_scan_once() {
    let mut app = foxy();
    app.open_swifty_migration_view(SwiftyScan {
        repos: vec![detected("A", " / ", ""), detected("B", "http://s.com/m/B", "")],
        global: SwiftyGlobalSettings::default(),
        error: None,
    });
    assert_eq!(app.current_view, FoxyView::SwiftyMigration);
    assert_eq!(app.last_view, FoxyView::RepositoryList);
    let state = &app.swifty_migration_state;
    assert_eq!(state.detected_updater_url, "http://s.com/m/Foxy");
    assert_eq!(state.detected_space_url, "http://s.com/m/repository_space.json");
    assert_eq!(state.detected_repos.len(), 2);
    app.ensure_swifty_migration_scanned(SwiftyScan {
        repos: Vec::new(),
        global: SwiftyGlobalSettings::default(),
        error: Some("again".to_string()),
    });
    assert_eq!(app.swifty_migration_state.detected_repos.len(), 2);
    assert!(app.swifty_migration_state.scan_error.is_none());
}

#[test]
fn import_starts_with_the_space() {
    let mut app = foxy();
    let mut off = detected("Off", "http://s.com/m/Off", "");
    off.selected = false;
    app.swifty_migration_state.detected_repos = vec![off, detected("On", "http://s.com/m/On", "")];
    match app.execute_swifty_import() {
        SwiftyImportStart::Finish { selected } => {
            assert_eq!(selected.len(), 1);
            assert_eq!(selected[0].name, "On");
        }
        other => panic!("{:?}", other),
    }
    app.swifty_migration_state.detected_space_url = " http://s.com/space ".to_string();
    match app.execute_swifty_import() {
        SwiftyImportStart::FetchSpace { url, selected } => {
            assert_eq!(url, "http://s.com/space");
            assert_eq!(selected.len(), 1);
        }
        other => panic!("{:?}", other),
    }
    app.repository_space_import_in_flight = true;
    assert!(matches!(app.execute_swifty_import(), SwiftyImportStart::Ignore));
}

#[test]
fn import_adds_repositories_and_profiles() {
    let mut app = foxy();
    app.repositories = vec![existing("Old", "http://s.com/m/Old")];
    app.swifty_migration_state.detected_updater_url = " http://s.com/m/Foxy ".to_string();
    app.swifty_migration_state.global_settings.arma_path = "C:\\arma".to_string();
    let outcome = app.finish_swifty_import(
        &vec![
            item("New", "http://s.com/m/New", "D:\\new"),
            item("Old", "http://s.com/m/Old", ""),
            item("Twin", "http://s.com/m/New", ""),
        ],
        &None,
    );
    assert!(outcome.save_repositories);
    assert_eq!(outcome.imported, 3);
    assert_eq!(outcome.refresh, vec![1, 0, 1]);
    assert_eq!(app.repositories.len(), 2);
    assert_eq!(app.repositories[0].profiles.len(), 1);
    assert_eq!(app.repositories[0].profiles[0].name, "Old");
    assert_eq!(app.repositories[1].name, "New");
    assert_eq!(app.repositories[1].path, "D:\\new");
    assert_eq!(app.repositories[1].app_update_url, "http://s.com/m/Foxy");
    assert_eq!(app.repositories[1].profiles[0].name, "Twin");
    assert_eq!(app.settings_view_state.app_update_url, "http://s.com/m/Foxy");
    assert_eq!(app.settings_view_state.arma3_directory, "C:\\arma");
    assert!(app.settings_view_state.swifty_migration_offered);
    assert!(app.swifty_migration_state.import_done);
    assert_eq!(app.swifty_migration_state.imported_count, 3);
}

#[test]
fn import_binds_to_the_space() {
    let mut app = foxy();
    app.repositories = vec![existing("Old", "http://s.com/m/Old")];
    app.repository_spaces = vec![RepositorySpace {
        id: "space".to_string(),
        shared_path: " ".to_string(),
        base_key: "http://s.com/m".to_string(),
        entries: vec![RepositorySpaceEntry {
            address: "http://S.com/m/Old".to_string(),
            key: "http://s.com/m/Old".to_string(),
        }],
    }];
    app.finish_swifty_import(
        &vec![
            item("Old", "http://s.com/m/Old", ""),
            item("A", "http://s.com/m/A", " E:\\two "),
            item("B", "http://s.com/m/B", "E:\\two"),
            item("C", "http://s.com/m/C", "E:\\one"),
            item("D", "http://other.com/m/D", ""),
        ],
        &Some("space".to_string()),
    );
    assert_eq!(app.repository_spaces[0].shared_path, "E:\\two");
    assert_eq!(app.repositories[0].path, "E:\\two");
    assert_eq!(
        app.repositories[0].repository_space_entry_address.as_deref(),
        Some("http://S.com/m/Old")
    );
    assert_eq!(app.repositories[1].path, " E:\\two ");
    assert_eq!(app.repositories[1].repository_space_id.as_deref(), Some("space"));
    assert_eq!(
        app.repositories[1].repository_space_entry_address.as_deref(),
        Some("http://s.com/m/A")
    );
    assert!(app.repositories[4].repository_space_id.is_none());
    assert_eq!(app.repositories[4].path, "");
}

#[test]
fn import_respects_a_typed_update_url() {
    let mut app = foxy();
    app.settings_view_state.app_update_url_user_override = true;
    app.settings_view_state.temp_directory = "T".to_string();
    app.swifty_migration_state.detected_updater_url = "http://s.com/Foxy".to_string();
    app.swifty_migration_state.global_settings.temp_path = "U".to_string();
    let outcome = app.finish_swifty_import(&Vec::new(), &None);
    assert!(!outcome.save_repositories);
    assert_eq!(app.settings_view_state.app_update_url, "");
    assert_eq!(app.settings_view_state.temp_directory, "T");
}

#[test]
fn wizard_pages_follow_the_state() {
    let mut state = SwiftyMigrationState::default();
    assert!(matches!(state.page(), MigrationPage::NothingFound));
    state.detected_repos = vec![detected("A", "a", ""), detected("B", "b", "")];
    state.select_all(false);
    assert!(matches!(state.page(), MigrationPage::Choose { found: 2, selected: 0, .. }));
    state.select_all(true);
    assert!(matches!(state.page(), MigrationPage::Choose { found: 2, selected: 2, .. }));
    state.import_done = true;
    state.imported_count = 2;
    state.space_import_failed = true;
    assert!(matches!(state.page(), MigrationPage::Done { count: 2, space_failed: false }));
    state.detected_space_url = "u".to_string();
    assert!(matches!(state.page(), MigrationPage::Done { count: 2, space_failed: true }));
    state.scan_error = Some("no".to_string());
    assert!(matches!(state.page(), MigrationPage::Failed { .. }));
}
