//! The pages of the settings.

use foxy_views::message::Message;
use foxy_views::repository::Repository;
use foxy_views::settings::application::{
    browse_starts_check, selected_tab, settings_page, tab, update_status_line, AppUpdateMode,
    SettingsPage, UpdateCheckStatus, UpdateSettings, UpdateStatusColor, TAB_COUNT,
};
use foxy_views::settings::game_space::{
    detect_directory, directory_binding, directory_field, directory_field_mut, directory_probe,
    profile_page, shows_on_game_page, toggle_field, toggle_field_mut, validate_directory,
    DirectoryField, DirectoryProbe, GameSpaceSettings, GameToggles, ProfilePage, ToggleField,
};
use foxy_views::settings::general::{
    export_toast, filtered_languages, format_language_label, language, selected_language,
    GeneralSettings, HashIoProfilePreference, UiRendererPreference, ENGLISH, LANGUAGE_COUNT,
};
use foxy_views::settings::paths::{
    after_change, can_detect, onedrive_error, path_note, AppPath, ApplicationPathChangeFlags,
    PathSettings,
};
use foxy_views::settings::profile_manager::{
    arma3_profile_name_error, arma3_profile_protected_roots, begin_arma3_profile_action,
    confirm_enabled, finish_arma3_profile_action, open_action, profile_label_text, Arma3Profile,
    Arma3ProfileActionKind, ProfileNameError, ProfileOpError, ProfileStep,
};
use foxy_views::settings::switches::{switch_at, Switch, SwitchSettings, SWITCH_COUNT};
use foxy_views::settings::tools::{
    destination_folder, direct_download_status, download_window_stays, inherited_limit_text,
    override_limit, DirectStatusColor, FolderSettings, Removal,
};
use foxy_views::text_map::TextMap;
use foxy_views::update::direct_download::DirectDownloadSession;

fn filled(m: &Message) -> String {
    let mut text = m.key.to_string();
    for (name, value) in &m.args {
        text = text.replace(&format!("{{{name}}}"), value);
    }
    text
}

// General

fn general() -> GeneralSettings {
    GeneralSettings {
        locale: "en".to_string(),
        language_filter: String::new(),
        download_speed_limit_mbps: None,
        hash_io_profile: HashIoProfilePreference::Auto,
        ui_renderer: UiRendererPreference::Auto,
        show_memory_diagnostics_icon: true,
        close_after_launch: false,
        hide_to_tray_after_launch: false,
        show_memory_diagnostics_window: true,
        pending_reset_confirmation: false,
        show_wipe_db_confirmation: false,
    }
}

#[test]
fn languages_are_found_by_their_code() {
    assert_eq!(language(ENGLISH).code, "en");
    assert_eq!(selected_language("de"), 5);
    assert_eq!(selected_language("xx"), ENGLISH);
    assert_eq!(format_language_label(0, "System"), "System");
    assert_eq!(format_language_label(5, "Deutsch"), "Deutsch (German)");
    let codes: Vec<&str> = (0..LANGUAGE_COUNT).map(|i| language(i).code).collect();
    for (i, code) in codes.iter().enumerate() {
        assert_eq!(selected_language(code), i);
    }
}

#[test]
fn languages_are_filtered_by_both_names() {
    let mut names: Vec<String> = (0..LANGUAGE_COUNT).map(|_| "?".to_string()).collect();
    names[5] = "Deutsch".to_string();
    assert_eq!(filtered_languages(" ", &names).len(), LANGUAGE_COUNT);
    assert_eq!(filtered_languages("DEUT", &names), vec![5]);
    assert_eq!(filtered_languages("german", &names), vec![5]);
    assert!(filtered_languages("klingon", &names).is_empty());
}

#[test]
fn general_settings_keep_each_other_in_step() {
    let mut g = general();
    assert!(!g.pick_language(ENGLISH));
    assert!(g.pick_language(5));
    assert_eq!(g.locale, "de");
    g.set_unlimited(false);
    assert_eq!(g.limit_shown(), Some(1));
    g.download_speed_limit_mbps = Some(0);
    assert_eq!(g.limit_shown(), Some(1));
    g.set_unlimited(true);
    assert_eq!(g.limit_shown(), None);
    g.set_memory_icon(false);
    assert!(!g.show_memory_diagnostics_window);
    g.set_hide_to_tray(true, true);
    assert!(g.hide_to_tray_after_launch);
    g.set_close_after_launch(true);
    assert!(!g.hide_to_tray_after_launch);
    g.set_hide_to_tray(true, true);
    assert!(!g.hide_to_tray_after_launch && !g.tray_switch_enabled(true));
    g.set_close_after_launch(false);
    g.set_hide_to_tray(true, true);
    assert!(!g.check_tray(true));
    assert!(g.check_tray(false) && !g.hide_to_tray_after_launch);
}

#[test]
fn resets_and_wipes_are_confirmed() {
    let mut g = general();
    assert!(!g.answer_reset(true));
    g.request_reset();
    assert!(!g.answer_reset(false));
    g.request_reset();
    assert!(g.answer_reset(true));
    g.request_wipe(true);
    assert!(!g.show_wipe_db_confirmation);
    g.request_wipe(false);
    assert!(g.wipe_dialog_shown());
    assert!(!g.answer_wipe(true, true) && g.show_wipe_db_confirmation);
    assert!(g.answer_wipe(true, false) && !g.show_wipe_db_confirmation);
    assert!(!g.wipe_dialog_shown());
    assert_eq!(export_toast(Some(true)), Some(("Logs exported successfully.", true)));
    assert_eq!(export_toast(Some(false)), None);
    assert_eq!(export_toast(None), Some(("Failed to export logs.", false)));
}

#[test]
fn one_switch_moves_at_a_time() {
    let mut switches = SwitchSettings {
        auto_backup_on_update: false,
        apply_repo_json_client_parameters: false,
        apply_repo_json_dlc_content: false,
        warn_editor_external_addons: true,
        enable_editor_mission_list: false,
        enable_server_list: false,
        check_server_addons_before_join: false,
        check_ts3_running_before_join: false,
        check_steam_running_before_launch: false,
        auto_recheck_on_launch: false,
        auto_quick_scan_on_launch: false,
        show_debug_windows: false,
        show_fps_counter: false,
        hide_repository_image: false,
    };
    assert!(!switches.set(Switch::EditorWarning, true));
    assert!(switches.set(Switch::FpsCounter, true));
    let on: Vec<Switch> =
        (0..SWITCH_COUNT).map(switch_at).filter(|s| switches.is_on(*s)).collect();
    assert_eq!(on, vec![Switch::EditorWarning, Switch::FpsCounter]);
    assert!(switches.show_fps_counter && !switches.show_debug_windows);
    assert_eq!(Switch::ServerList.words().0, "Show Servers list");
}

#[test]
fn choices_have_words() {
    assert_eq!(HashIoProfilePreference::Balanced.words().0, "Balanced");
    assert_eq!(
        HashIoProfilePreference::Conservative.words().1,
        "Low concurrency for constrained systems."
    );
    assert_eq!(UiRendererPreference::Auto.words().0, "Auto (WGPU)");
    assert_eq!(UiRendererPreference::Glow.words().0, "Glow");
}

// Folders

fn no_flags() -> ApplicationPathChangeFlags {
    ApplicationPathChangeFlags { settings: false, addons: false, profiles: false }
}

fn paths() -> PathSettings {
    PathSettings {
        arma3_directory: "a".to_string(),
        teamspeak3_directory: "t".to_string(),
        arma3_profiles_directory: " p ".to_string(),
        steam_directory: "s".to_string(),
        temp_directory: "m".to_string(),
        backup_directory: "b".to_string(),
    }
}

#[test]
fn one_folder_changes_at_a_time() {
    let mut p = paths();
    let mut flags = no_flags();
    let r = p.type_path(AppPath::Backup, "new".to_string(), &mut flags);
    assert!(r.backups_stale && r.error.is_none());
    assert_eq!(p.backup_directory, "new");
    assert_eq!(p.temp_directory, "m");
    assert!(flags.settings && !flags.addons && !flags.profiles);
    p.type_path(AppPath::Arma3, "x".to_string(), &mut flags);
    assert!(flags.addons);
    p.type_path(AppPath::Profiles, "x".to_string(), &mut flags);
    assert!(flags.profiles);
    assert_eq!(paths().custom_profiles_dir().as_deref(), Some("p"));
}

#[test]
fn some_folders_have_a_note() {
    let note = |p| path_note(p, "D:\\kept".to_string()).map(|m| filled(&m));
    assert_eq!(
        note(AppPath::Backup).unwrap(),
        "Backups are stored here as addon folders prefixed with their local content hash. If empty, Foxy uses D:\\kept. Automatic update backups and manual addon restore both use this location.",
    );
    assert!(note(AppPath::Temp).unwrap().contains("%APPDATA%\\Foxy on Windows"));
    assert!(note(AppPath::Profiles).unwrap().starts_with("Optional."));
    assert!(note(AppPath::Arma3).is_none() && note(AppPath::Steam).is_none());
    assert_eq!(paths().folder(AppPath::Profiles), " p ");
}

#[test]
fn folders_in_onedrive_are_refused() {
    let mut p = paths();
    let mut flags = no_flags();
    let r = p.browse_path(AppPath::Arma3, "x".to_string(), true, true, &mut flags);
    assert_eq!(r.error, Some(onedrive_error()));
    assert_eq!(p.arma3_directory, "a");
    assert!(!flags.settings);
    let r = p.browse_path(AppPath::TeamSpeak3, "x".to_string(), true, true, &mut flags);
    assert!(r.error.is_none());
    assert_eq!(p.teamspeak3_directory, "x");
}

#[test]
fn picked_folders_without_the_program_are_kept_with_a_warning() {
    let mut p = paths();
    let mut flags = no_flags();
    let r = p.browse_path(AppPath::Arma3, "x".to_string(), false, false, &mut flags);
    assert!(r.error.unwrap().starts_with("Arma 3 executable was not found"));
    assert_eq!(p.arma3_directory, "x");
    let r = p.browse_path(AppPath::Temp, "y".to_string(), false, false, &mut flags);
    assert!(r.error.is_none());
}

#[test]
fn detection_sets_what_it_finds() {
    let mut p = paths();
    let mut flags = no_flags();
    assert!(can_detect(AppPath::Steam) && !can_detect(AppPath::Backup));
    let r = p.detect_path(AppPath::Steam, None, false, &mut flags);
    assert!(r.error.is_some());
    assert_eq!(p.steam_directory, "s");
    let r = p.detect_path(AppPath::Steam, Some("found".to_string()), true, &mut flags);
    assert!(r.error.is_none());
    assert_eq!(p.steam_directory, "found");
    let r = p.detect_path(AppPath::Arma3, Some("found".to_string()), true, &mut flags);
    assert_eq!(r.error, Some(onedrive_error()));
}

#[test]
fn changes_are_saved_and_told() {
    let flags = ApplicationPathChangeFlags { settings: true, addons: true, profiles: false };
    let r = after_change(flags, true, false);
    assert!(r.save && r.invalidate_addons && !r.refresh_profiles && r.tell);
    let r = after_change(flags, false, true);
    assert!(r.save && !r.invalidate_addons && !r.tell);
    assert!(!after_change(no_flags(), true, false).save);
}

// Game spaces

fn game() -> GameSpaceSettings {
    GameSpaceSettings {
        arma3_directory: String::new(),
        twwh3_directory: String::new(),
        reforger_directory: String::new(),
        teamspeak3_directory: String::new(),
        arma3_profiles_directory: String::new(),
        toggles: GameToggles {
            apply_repo_json_client_parameters: false,
            apply_repo_json_dlc_content: false,
            warn_editor_external_addons: false,
            enable_editor_mission_list: false,
            enable_server_list: false,
            check_server_addons_before_join: false,
            check_ts3_running_before_join: false,
            check_steam_running_before_launch: false,
        },
    }
}

#[test]
fn schema_names_stand_for_fields() {
    let mut g = game();
    *directory_field_mut(&mut g, "twwh3_directory").unwrap() = "w".to_string();
    assert_eq!(g.twwh3_directory, "w");
    assert_eq!(g.arma3_directory, "");
    assert!(directory_field_mut(&mut g, "unknown").is_none());
    *toggle_field_mut(&mut g, "enable_server_list").unwrap() = true;
    assert!(g.toggles.enable_server_list && !g.toggles.enable_editor_mission_list);
    assert!(toggle_field_mut(&mut g, "unknown").is_none());
    assert_eq!(directory_field("reforger_directory"), Some(DirectoryField::Reforger));
    assert_eq!(toggle_field("check_steam_running_before_launch"), Some(ToggleField::SteamCheck));
    assert_eq!(toggle_field(""), None);
}

#[test]
fn game_folders_are_checked_by_their_game() {
    assert_eq!(directory_probe("arma3_directory"), DirectoryProbe::Game);
    assert_eq!(directory_probe("teamspeak3_directory"), DirectoryProbe::TeamSpeak);
    assert_eq!(directory_probe("arma3_profiles_directory"), DirectoryProbe::Nobody);
    assert!(!validate_directory("arma3_directory", false, true));
    assert!(validate_directory("teamspeak3_directory", false, true));
    assert!(validate_directory("unknown", false, false));
    let game = Some("g".to_string());
    let client = Some("c".to_string());
    assert_eq!(detect_directory("twwh3_directory", game.clone(), client.clone()), game);
    assert_eq!(detect_directory("teamspeak3_directory", None, client.clone()), client);
    assert_eq!(detect_directory("unknown", game, client), None);
    assert!(directory_binding("arma3_directory").onedrive_check);
    assert!(directory_binding("arma3_profiles_directory").refreshes_profiles);
}

#[test]
fn game_folders_change_as_the_user_asks() {
    let mut g = game();
    let mut flags = no_flags();
    let error = g.browse("arma3_directory", "x".to_string(), true, true, &mut flags);
    assert_eq!(error, Some(onedrive_error()));
    assert!(!flags.settings);
    let error = g.browse("arma3_directory", "x".to_string(), false, false, &mut flags);
    assert_eq!(error, directory_binding("arma3_directory").validate_error);
    assert_eq!(g.arma3_directory, "x");
    assert!(flags.settings && flags.addons);
    let error = g.auto_detect("teamspeak3_directory", None, false, &mut flags);
    assert_eq!(error, Some("Could not auto-detect TeamSpeak 3 directory."));
    let error =
        g.auto_detect("teamspeak3_directory", Some("t".to_string()), true, &mut flags);
    assert_eq!(error, None);
    assert_eq!(g.teamspeak3_directory, "t");
    assert_eq!(g.browse("unknown", "x".to_string(), false, false, &mut flags), None);
}

#[test]
fn profile_pages_depend_on_the_game() {
    assert_eq!(profile_page(false, true, true), ProfilePage::UnknownGame);
    assert_eq!(profile_page(true, false, true), ProfilePage::NoProfiles);
    assert_eq!(profile_page(true, true, true), ProfilePage::Manage);
    assert_eq!(profile_page(true, true, false), ProfilePage::OpenFirst);
    assert!(shows_on_game_page("arma3_directory"));
    assert!(!shows_on_game_page("arma3_profiles_directory"));
}

// Tools

fn folders() -> FolderSettings {
    FolderSettings {
        additional_folders: vec!["a".to_string()],
        additional_folder_aliases: TextMap::new(),
        cleanup_folders: vec![("c".to_string(), true)],
        pending_removal: None,
    }
}

#[test]
fn removing_a_folder_undoes_adding_it() {
    let mut f = folders();
    assert_eq!(f.add_folder("b".to_string(), true), Some(onedrive_error()));
    assert_eq!(f.add_folder("b".to_string(), false), None);
    assert!(f.set_alias(&"b".to_string(), "Bee".to_string()));
    assert!(!f.set_alias(&"b".to_string(), "Bee".to_string()));
    assert_eq!(f.alias(&"b".to_string()), "Bee");
    f.request_additional_removal("b".to_string());
    assert_eq!(
        filled(&f.removal_message().unwrap()),
        "Remove b from additional search folders?"
    );
    assert_eq!(f.answer_removal(false, &"b".to_string()), Removal::Nothing);
    assert_eq!(f.additional_folders.len(), 2);
    f.request_additional_removal("b".to_string());
    assert_eq!(f.answer_removal(true, &"b".to_string()), Removal::AdditionalFolder);
    assert_eq!(f.additional_folders, vec!["a".to_string()]);
    assert_eq!(f.alias(&"b".to_string()), "");
    assert!(f.removal_message().is_none());
    f.request_cleanup_removal("c".to_string());
    assert_eq!(filled(&f.removal_message().unwrap()), "Remove c from cleanup folders?");
    assert_eq!(f.answer_removal(true, &"c".to_string()), Removal::CleanupFolder);
    assert!(f.cleanup_folders.is_empty());
    f.request_cleanup_removal("c".to_string());
    assert_eq!(f.answer_removal(true, &"c".to_string()), Removal::Nothing);
}

#[test]
fn aliases_vanish_when_emptied() {
    let mut f = folders();
    assert!(!f.set_alias(&"a".to_string(), String::new()));
    f.set_alias(&"a".to_string(), "A".to_string());
    assert!(f.set_alias(&"a".to_string(), String::new()));
    assert!(!f.additional_folder_aliases.contains_key(&"a".to_string()));
}

#[test]
fn direct_downloads_show_their_state() {
    let mut s = DirectDownloadSession {
        source_url: String::new(),
        destination_folder: String::new(),
        target_label: String::new(),
        files_done: 2,
        files_total: 5,
        downloaded_bytes: 0,
        total_bytes: 0,
        running: true,
        finished_successfully: false,
        error_message: None,
    };
    let (m, color) = direct_download_status(&s);
    assert_eq!(filled(&m), "Direct download in progress: 2/5 files");
    assert_eq!(color, DirectStatusColor::Dim);
    s.running = false;
    assert_eq!(direct_download_status(&s).1, DirectStatusColor::Error);
    s.finished_successfully = true;
    assert_eq!(filled(&direct_download_status(&s).0), "Direct download finished");
    assert_eq!(inherited_limit_text(Some(5), "Mbps", "Unlimited"), "5 Mbps");
    assert_eq!(inherited_limit_text(Some(0), "Mbps", "Unlimited"), "Unlimited");
    assert_eq!(inherited_limit_text(None, "Mbps", "Unlimited"), "Unlimited");
    assert_eq!(override_limit(0), 1);
    assert_eq!(override_limit(9), 9);
    assert!(download_window_stays(true, false, false));
    assert!(!download_window_stays(true, false, true));
    assert_eq!(destination_folder(" d ").as_deref(), Some("d"));
    assert_eq!(destination_folder("  "), None);
}

// Profiles

fn profile(name: &str, is_default: bool) -> Arma3Profile {
    Arma3Profile { name: name.to_string(), path: String::new(), is_default }
}

#[test]
fn profiles_have_labels_and_actions() {
    let active = Some("Me".to_string());
    assert_eq!(
        profile_label_text(&profile("Me", true), &active, "default", "last used"),
        "Me (default) - last used"
    );
    assert_eq!(profile_label_text(&profile("You", false), &active, "d", "l"), "You");
    assert!(open_action(Arma3ProfileActionKind::Delete, &profile("Me", true)).is_none());
    let clone = open_action(Arma3ProfileActionKind::Clone, &profile("Me", true)).unwrap();
    assert_eq!(clone.name_input, "Me 2");
    assert_eq!(Arma3ProfileActionKind::Delete.words().1, "Delete profile");
    assert!(confirm_enabled(Arma3ProfileActionKind::Delete, true));
    assert!(!confirm_enabled(Arma3ProfileActionKind::Rename, true));
}

#[test]
fn profile_names_are_checked() {
    let all = vec![profile("Me", true), profile("You", false)];
    let rename = open_action(Arma3ProfileActionKind::Rename, &all[0]).unwrap();
    let error = |input: &str, invalid| arma3_profile_name_error(&rename, input, &all, invalid);
    assert_eq!(error(" Me ", None), Some("Enter a different name."));
    assert_eq!(error("YOU", None), Some("A profile with this name already exists."));
    assert_eq!(error("New", None), None);
    assert_eq!(error("", Some(ProfileNameError::Empty)), Some("Profile name cannot be empty."));
    assert_eq!(error("x", Some(ProfileNameError::TooLong)), Some("Profile name is too long."));
    assert!(error("x", Some(ProfileNameError::UnsupportedCharacters))
        .unwrap()
        .starts_with("Profile name contains unsupported characters."));
    assert_eq!(
        error("con", Some(ProfileNameError::Reserved)),
        Some("This name is reserved by the operating system.")
    );
}

#[test]
fn profile_roots_are_protected() {
    let roots = arma3_profile_protected_roots(&Some("docs".to_string()), " own ");
    let all: Vec<(String, Option<&str>)> =
        roots.into_iter().map(|r| (r.base, r.below)).collect();
    let docs = "docs".to_string();
    let own = "own".to_string();
    assert_eq!(
        all,
        vec![
            (docs.clone(), Some("Arma 3")),
            (docs, Some("Arma 3 - Other Profiles")),
            (own.clone(), Some("Users")),
            (own, None)
        ]
    );
    assert!(arma3_profile_protected_roots(&None, "  ").is_empty());
}

#[test]
fn repositories_follow_a_renamed_profile() {
    let rename = {
        let mut a = open_action(Arma3ProfileActionKind::Rename, &profile("Me", false)).unwrap();
        a.name_input = " New ".to_string();
        a
    };
    assert!(matches!(begin_arma3_profile_action(&rename, true), ProfileStep::Refused(_)));
    let new_name = match begin_arma3_profile_action(&rename, false) {
        ProfileStep::Perform { new_name, .. } => new_name,
        ProfileStep::Refused(why) => panic!("{why}"),
    };
    assert_eq!(new_name, "New");
    let uses = |name: &str| Repository {
        arma3_profile: Some(name.to_string()),
        ..Repository::default()
    };
    let mut repos = vec![uses("Me"), uses("You"), Repository::default()];
    let r = finish_arma3_profile_action(&rename, &new_name, &mut repos, Ok(String::new()));
    assert!(r.success && r.save_repositories);
    assert_eq!(filled(&r.message), "Profile renamed to New.");
    assert_eq!(repos[0].arma3_profile.as_deref(), Some("New"));
    assert_eq!(repos[1].arma3_profile.as_deref(), Some("You"));
    assert_eq!(repos[2].arma3_profile, None);
}

#[test]
fn profile_failures_have_messages() {
    let delete = open_action(Arma3ProfileActionKind::Delete, &profile("Me", false)).unwrap();
    let mut repos = vec![];
    let mut end = |result| {
        filled(
            &finish_arma3_profile_action(&delete, &String::new(), &mut repos, result).message,
        )
    };
    assert_eq!(
        end(Ok("bin".to_string())),
        "Profile deleted. A backup copy was moved to bin."
    );
    assert_eq!(end(Err(ProfileOpError::InvalidName)), "The entered profile name is not valid.");
    assert_eq!(
        end(Err(ProfileOpError::TargetAlreadyExists)),
        "A profile with this name already exists."
    );
    assert_eq!(end(Err(ProfileOpError::SourceMissing)), "Profile files were not found on disk.");
    assert_eq!(
        end(Err(ProfileOpError::DefaultProfileProtected)),
        "The default Arma 3 profile cannot be deleted."
    );
    assert_eq!(
        end(Err(ProfileOpError::UnsafePath)),
        "This profile location cannot be modified safely."
    );
    assert_eq!(
        end(Err(ProfileOpError::Io("disk".to_string()))),
        "Profile operation failed: disk"
    );
}

// Tabs and updates

#[test]
fn every_tab_has_a_page() {
    for i in 0..TAB_COUNT {
        assert_eq!(selected_tab(tab(i)), i);
        assert!(settings_page(tab(i)).is_some());
    }
    assert_eq!(selected_tab("unknown"), 0);
    assert_eq!(settings_page("TS3 Plugins"), Some(SettingsPage::Ts3Plugin));
    assert_eq!(settings_page("unknown"), None);
}

#[test]
fn update_settings_note_what_the_user_chose() {
    let mut u = UpdateSettings {
        app_update_mode: AppUpdateMode::GitHub,
        app_update_mode_user_override: false,
        app_update_url: String::new(),
        app_update_url_user_override: false,
    };
    u.choose_mode(AppUpdateMode::Server);
    assert!(u.app_update_mode == AppUpdateMode::Server && u.app_update_mode_user_override);
    u.type_url("http://a".to_string());
    assert!(u.app_update_url_user_override);
    u.type_url(" ".to_string());
    assert!(!u.app_update_url_user_override);
}

#[test]
fn update_checks_have_lines() {
    let line = |s| update_status_line(&s).map(|l| (format!("{}{}", l.word, l.tail), l.color));
    assert_eq!(
        line(UpdateCheckStatus::Available("2.0".to_string())),
        Some(("Update available: v2.0".to_string(), UpdateStatusColor::Accent))
    );
    assert_eq!(
        line(UpdateCheckStatus::Failed("net".to_string())),
        Some(("Error: net".to_string(), UpdateStatusColor::Error))
    );
    assert_eq!(
        line(UpdateCheckStatus::UpToDate),
        Some(("Up to date".to_string(), UpdateStatusColor::Success))
    );
    assert!(update_status_line(&UpdateCheckStatus::Checking).unwrap().spinner);
    assert_eq!(line(UpdateCheckStatus::Idle), None);
    assert!(browse_starts_check(&UpdateCheckStatus::Idle));
    assert!(!browse_starts_check(&UpdateCheckStatus::Checking));
}
