//! The TeamSpeak plugin tab.

use foxy_views::repository::Repository;
use foxy_views::settings::ts3_plugins::{
    install_label, row_status, status_label, ScanPoll, Ts3PluginRowStatus, Ts3PluginState,
    Ts3PluginStatus,
};
use foxy_views::text_map::TextMap;

fn state() -> Ts3PluginState {
    Ts3PluginState {
        cache: None,
        running: None,
        scanning: false,
        prompt_on_update: false,
        requeued: false,
        prompt: None,
        installed_hashes: TextMap::new(),
        statuses: vec![],
    }
}

fn plugin(path: &str, hash: &str, is_installed: bool, is_up_to_date: bool) -> Ts3PluginStatus {
    Ts3PluginStatus {
        addon_name: format!("@{path}"),
        plugin_path: path.to_string(),
        file_hash: hash.to_string(),
        is_installed,
        is_up_to_date,
    }
}

fn done(statuses: Vec<Ts3PluginStatus>, prompt_on_update: bool) -> ScanPoll {
    ScanPoll::Done { statuses, ts3_running: false, prompt_on_update }
}

#[test]
fn verified_teamspeak_state_wins_over_foxy_bookkeeping() {
    // Installed and current in TeamSpeak, even when Foxy never recorded it
    // (for example a plugin installed before Foxy, or on a fresh config).
    assert_eq!(row_status(true, true, false), Ts3PluginRowStatus::UpToDate);
    // Foxy thinks it installed the current package, but TeamSpeak has an
    // older payload: the real state is what the user must act on.
    assert_eq!(row_status(true, false, true), Ts3PluginRowStatus::UpdateAvailable);
}

#[test]
fn foxy_hash_marks_install_as_pending_until_teamspeak_applies_it() {
    assert_eq!(row_status(false, false, true), Ts3PluginRowStatus::InstallPending);
    assert_eq!(row_status(false, false, false), Ts3PluginRowStatus::NotInstalled);
}

#[test]
fn a_scan_becomes_rows_and_records() {
    let mut s = state();
    let repos = vec![
        Repository { path: "C:/a".to_string(), ..Repository::default() },
        Repository::default(),
    ];
    let folders = s.start_startup_ts3_plugin_scan(&repos, true).unwrap();
    assert_eq!(folders, vec!["C:/a".to_string()]);
    assert!(s.tab_notes().checking && !s.tab_notes().start_scan);
    let r = s.poll_ts3_plugin_scan(
        &repos,
        done(vec![plugin("p", "h1", true, true), plugin("q", "h2", true, false)], true),
    );
    assert!(r.save_settings && r.scan.is_none());
    assert!(!s.scanning);
    assert!(s.installed_hashes.holds(&"p".to_string(), &"h1".to_string()));
    assert_eq!(s.prompt.as_ref().unwrap().plugin_path, "q");
    let rows = s.ts3_plugin_rows();
    assert_eq!(rows[0].status, Ts3PluginRowStatus::UpToDate);
    assert_eq!(rows[1].status, Ts3PluginRowStatus::UpdateAvailable);
    assert!(rows[0].verified_now);
    // The records stand for the rows of the next launch.
    s.cache = None;
    let rows = s.ts3_plugin_rows();
    assert_eq!(rows.len(), 2);
    assert!(!rows[0].verified_now);
    assert!(s.tab_notes().last_known);
}

#[test]
fn the_same_scan_again_changes_nothing() {
    let mut s = state();
    s.poll_ts3_plugin_scan(&vec![], done(vec![plugin("p", "h1", true, true)], false));
    let r = s.poll_ts3_plugin_scan(&vec![], done(vec![plugin("p", "h1", true, true)], false));
    assert!(!r.save_settings);
    assert!(s.prompt.is_none());
}

#[test]
fn requests_during_a_scan_are_kept() {
    let mut s = state();
    assert!(s.start_ts3_plugin_scan(&vec![], false).is_some());
    assert!(s.start_ts3_plugin_scan(&vec![], true).is_none());
    assert!(s.requeued && s.prompt_on_update);
    assert!(s.start_startup_ts3_plugin_scan(&vec![], true).is_none());
    let repos = vec![Repository { path: "C:/a".to_string(), ..Repository::default() }];
    assert!(s.poll_ts3_plugin_scan(&repos, ScanPoll::Waiting).scan.is_none());
    let follow_up = s.poll_ts3_plugin_scan(&repos, done(vec![], false));
    assert_eq!(follow_up.scan, Some(vec!["C:/a".to_string()]));
    assert!(s.scanning && !s.requeued && !s.prompt_on_update);
    s.poll_ts3_plugin_scan(&vec![], ScanPoll::Lost);
    assert!(!s.scanning);
}

#[test]
fn other_games_have_no_startup_scan() {
    assert!(state().start_startup_ts3_plugin_scan(&vec![], false).is_none());
}

#[test]
fn opening_a_plugin_is_noted() {
    let mut s = state();
    let (path, hash) = ("p".to_string(), "h".to_string());
    assert_eq!(
        s.note_install(&path, &hash, false),
        "Failed to open TS3 plugin for installation."
    );
    assert!(!s.installed_hashes.contains_key(&path));
    assert_eq!(s.note_install(&path, &hash, true), "TS3 plugin opened for installation.");
    assert!(s.installed_hashes.holds(&path, &hash));
    assert_eq!(s.answer_prompt(true, true), None);
    s.poll_ts3_plugin_scan(&vec![], done(vec![plugin("p", "new", true, false)], true));
    assert_eq!(s.answer_prompt(true, true), Some("TS3 plugin opened for installation."));
    assert!(s.prompt.is_none());
    assert!(s.installed_hashes.holds(&path, &"new".to_string()));
}

#[test]
fn every_status_has_its_label() {
    assert_eq!(status_label(Ts3PluginRowStatus::UpToDate).0, "Up to date");
    assert_eq!(status_label(Ts3PluginRowStatus::UpdateAvailable), ("Update available", true));
    assert_eq!(
        status_label(Ts3PluginRowStatus::InstallPending).0,
        "Waiting for TeamSpeak to finish installing"
    );
    assert_eq!(status_label(Ts3PluginRowStatus::NotInstalled).0, "Not installed");
    assert_eq!(install_label(Ts3PluginRowStatus::UpToDate), "Reinstall");
    assert_eq!(install_label(Ts3PluginRowStatus::NotInstalled), "Install");
}
