//! The export of the logs and the backup manager.

use foxy_views::message::Message;
use foxy_views::settings::backup::{
    backup_detail, comes_before, count_distinct, group_backups, root_line, sizes_fit,
    total_bytes, AddonBackupRecord, BackupGroup, BackupJob, BackupManager,
};
use foxy_views::settings::diagnostics::{
    archived_text, build_diagnostics_manifest, diagnostics_manifest_at, files_to_export,
    is_log_file, log_lines, log_order, manifest_fits, zip_file_name,
    zip_name_from_last_log_line, AppCounts, DiagnosticsFacts, FolderEntry, LogExportError,
    LogFile, MemoryBucket, ProcessMemory, StoredSizes,
};

fn filled(m: &Message) -> String {
    let mut text = m.key.to_string();
    for (name, value) in &m.args {
        text = text.replace(&format!("{{{name}}}"), value);
    }
    text
}

#[test]
fn archives_are_named_after_the_last_time_stamp() {
    let tail = "[2026-04-11 08:00:00.000000 +02:00] INFO old\n[2026-04-12 09:41:06.227525 +02:00] INFO last\n\n";
    assert_eq!(
        zip_name_from_last_log_line(tail).as_deref(),
        Some("foxy_logs_2026-04-12_094106.zip")
    );
    assert_eq!(zip_file_name(&Some(tail.to_string())), "foxy_logs_2026-04-12_094106.zip");
}

#[test]
fn archives_without_a_time_stamp_have_a_plain_name() {
    assert_eq!(zip_name_from_last_log_line(""), None);
    assert_eq!(zip_name_from_last_log_line("no stamp"), None);
    assert_eq!(zip_name_from_last_log_line("[2026-04-12]"), None);
    // No character begins at byte 10.
    assert_eq!(zip_name_from_last_log_line("[2026-04-1\u{e9}x09:41:06]"), None);
    assert_eq!(zip_file_name(&None), "foxy_logs.zip");
    assert_eq!(zip_file_name(&Some("x".to_string())), "foxy_logs.zip");
}

#[test]
fn lines_end_as_in_the_standard_library() {
    for text in ["", "a", "a\n", "a\r\nb", "a\r", "\n\n", "a\n\r\nb\r\n"] {
        let expected: Vec<&str> = text.lines().collect();
        assert_eq!(log_lines(text), expected);
    }
}

#[test]
fn logs_are_sorted_by_their_last_change() {
    assert_eq!(log_order(&vec![Some(5), None, Some(-1), Some(5), None]), vec![1, 4, 2, 0, 3]);
    assert!(is_log_file(true));
    assert!(!is_log_file(false));
}

#[test]
fn every_file_of_the_log_folder_is_exported() {
    let file = |modified| FolderEntry { is_file: true, modified };
    let folder = FolderEntry { is_file: false, modified: Some(3) };
    let entries = vec![file(Some(9)), folder, file(None), file(Some(-4)), folder, file(Some(9))];
    assert_eq!(files_to_export(&entries).unwrap(), vec![2, 3, 0, 5]);
    assert!(matches!(files_to_export(&vec![]), Err(LogExportError::NoLogs)));
    assert!(matches!(files_to_export(&vec![folder, folder]), Err(LogExportError::NoLogs)));
}

#[test]
fn an_archived_file_has_a_line_feed_between_its_lines() {
    let lines = |text: &str| archived_text(&log_lines(text));
    assert_eq!(lines("a\r\nb\n"), "a\nb");
    assert_eq!(lines("a\n\nb"), "a\n\nb");
    assert_eq!(lines(""), "");
}

#[test]
fn every_export_error_has_its_text() {
    let (file_name, cause) = ("a.log".to_string(), "why".to_string());
    let c = || cause.clone();
    let f = || file_name.clone();
    let said = [
        (LogExportError::ReadFolder { cause: c() }, "Failed to read log directory: why"),
        (LogExportError::NoLogs, "No log files found to export."),
        (LogExportError::CreateZip { cause: c() }, "Failed to create ZIP file: why"),
        (LogExportError::StartManifest { cause: c() }, "ZIP manifest error: why"),
        (LogExportError::WriteManifest { cause: c() }, "Failed to write ZIP manifest: why"),
        (LogExportError::StartFile { file_name: f(), cause: c() }, "ZIP error for a.log: why"),
        (LogExportError::ReadFile { file_name: f(), cause: c() }, "Failed to read a.log: why"),
        (
            LogExportError::WriteFile { file_name: f(), cause: c() },
            "Failed to write a.log to ZIP: why",
        ),
        (LogExportError::Finish { cause: c() }, "Failed to finalize ZIP: why"),
    ];
    for (error, text) in &said {
        assert_eq!(error.message(), *text);
    }
}

fn facts() -> DiagnosticsFacts {
    DiagnosticsFacts {
        version: "1.2.3".to_string(),
        logs: vec![
            LogFile { name: "a.log".to_string(), size: Some(2048) },
            LogFile { name: "b.log".to_string(), size: None },
        ],
        system_lines: vec!["os=test".to_string()],
        storage_lines: vec![],
        process: ProcessMemory {
            task_manager_bytes: Some(1024),
            working_set_bytes: None,
            peak_working_set_bytes: None,
            private_bytes: None,
            virtual_bytes: None,
            page_fault_count: Some(7),
        },
        tracked_total_bytes: 512,
        untracked: None,
        buckets: vec![MemoryBucket {
            label: "cache".to_string(),
            bytes: 512,
            detail: "textures".to_string(),
        }],
        stored: StoredSizes {
            database_db: Some(1024),
            database_wal: Some(1024),
            database_shm: None,
            settings_json: None,
            repositories_json: None,
            repository_spaces_json: None,
        },
        app: AppCounts {
            repositories: 2,
            repository_spaces: 1,
            activity_log_entries: 3,
            progress_events: 4,
            memory_diagnostic_samples: 5,
            cached_textures: 6,
            current_sync_mode: None,
            queued_startup_rechecks: 0,
            queued_quick_scans: 0,
        },
    }
}

#[test]
fn the_manifest_lists_what_is_known() {
    let text = diagnostics_manifest_at("now", &facts());
    let lines: Vec<&str> = text.lines().collect();
    assert_eq!(lines[0], "Foxy diagnostics export");
    assert_eq!(lines[1], "generated_at=now");
    assert_eq!(lines[2], "version=1.2.3");
    assert_eq!(lines[3], "retained_log_files=2");
    assert_eq!(lines[4], "retained_log_bytes=2.0 KB");
    for line in [
        "[system]",
        "os=test",
        "[storage_devices]",
        "[process_memory]",
        "task_manager_memory=1.0 KB",
        "working_set=n/a",
        "page_faults=7",
        "untracked_estimate=n/a",
        "tracked_bucket=cache bytes=512 B detail=textures",
        "[database]",
        "database_total=2.0 KB",
        "[app_state]",
        "cached_textures=6",
        "current_sync_mode=none",
        "[zip_contents]",
        "log_file=a.log size=2.0 KB",
        "log_file=b.log size=n/a",
    ] {
        assert!(lines.contains(&line), "{line} is missing in\n{text}");
    }
    assert!(text.ends_with("log_file=b.log size=n/a\n"));
}

#[test]
fn the_manifest_tells_when_it_was_made() {
    let text = build_diagnostics_manifest(&facts());
    let stamp = text.lines().nth(1).unwrap().strip_prefix("generated_at=").unwrap().to_string();
    assert_eq!(text, diagnostics_manifest_at(&stamp, &facts()));
    assert!(chrono::DateTime::parse_from_rfc3339(&stamp).is_ok());
}

#[test]
fn sums_that_do_not_fit_are_told() {
    let mut f = facts();
    assert!(manifest_fits(&f));
    f.logs[1].size = Some(u64::MAX - 2048);
    assert!(manifest_fits(&f));
    f.logs[1].size = Some(u64::MAX - 2047);
    assert!(!manifest_fits(&f));
    let mut f = facts();
    f.stored.database_db = Some(u64::MAX);
    assert!(!manifest_fits(&f));
    let largest = backup("a", 1, 1, u64::MAX);
    assert!(sizes_fit(&vec![]) && sizes_fit(&vec![largest.clone(), backup("b", 1, 1, 0)]));
    assert!(!sizes_fit(&vec![largest, backup("b", 1, 1, 1)]));
}

fn backup(name: &str, created: u64, rank: u64, size: u64) -> AddonBackupRecord {
    AddonBackupRecord {
        addon_name: name.to_string(),
        content_hash: format!("h{rank}"),
        folder_name: format!("f{rank}"),
        folder_rank: rank,
        path: String::new(),
        created_at_unix_secs: created,
        size_bytes: size,
    }
}

fn manager(records: Vec<AddonBackupRecord>) -> BackupManager {
    BackupManager {
        loaded: false,
        records,
        records_version: 1,
        filter: String::new(),
        view_cache: None,
        confirm_action: None,
        notice: None,
        keep_latest_per_addon: 3,
        max_age_days: None,
    }
}

#[test]
fn backups_stand_in_one_group_per_addon() {
    // The case of a name makes no difference, in any language.
    let mut m = manager(vec![
        backup("@\u{c4}CE", 10, 0, 100),
        backup("@cba", 20, 1, 200),
        backup("@\u{e4}ce", 30, 2, 300),
    ]);
    assert!(m.needs_inventory(false) && !m.needs_inventory(true));
    m.refresh_view_cache(true, &vec![false, false, false]);
    let cache = m.view_cache.as_ref().unwrap();
    assert_eq!(cache.addon_count, 2);
    assert_eq!(cache.total_bytes, 600);
    assert_eq!(cache.grouped_backups.len(), 2);
    assert_eq!(cache.grouped_backups[0].key, "@cba");
    assert_eq!(cache.grouped_backups[1].key, "@\u{e4}ce");
    let view = cache.grouped_backups[1].view_rows();
    assert_eq!(view.rows, vec![1, 0]);
    assert_eq!(filled(&view.heading), "@\u{e4}ce (2 backups, 400 B)");
    assert_eq!(
        filled(&cache.summary()),
        "Backup manager is tracking 3 backups across 2 addons using 600 B."
    );
    assert_eq!(cache.empty_note(), None);
}

#[test]
fn filters_leave_groups_out() {
    let mut m = manager(vec![backup("a", 1, 0, 1), backup("b", 1, 1, 1)]);
    m.filter = " B ".to_string();
    m.refresh_view_cache(false, &vec![false, true]);
    let cache = m.view_cache.as_ref().unwrap();
    assert_eq!(cache.filter, "b");
    assert_eq!(cache.total_backups, 2);
    assert_eq!(cache.grouped_backups.len(), 1);
    // Neither the records nor the filter has changed.
    m.refresh_view_cache(false, &vec![true, true]);
    assert_eq!(m.view_cache.as_ref().unwrap().grouped_backups.len(), 1);
    m.records_version = 2;
    m.refresh_view_cache(false, &vec![false, false]);
    assert_eq!(
        m.view_cache.as_ref().unwrap().empty_note(),
        Some("No addon backups match the current filter.")
    );
    let mut none = manager(vec![]);
    none.refresh_view_cache(true, &vec![]);
    assert_eq!(none.view_cache.as_ref().unwrap().empty_note(), Some("No addon backups found."));
}

#[test]
fn keys_are_counted_and_ordered() {
    let texts = |v: &[&str]| v.iter().map(|s| s.to_string()).collect::<Vec<String>>();
    assert_eq!(count_distinct(&texts(&["a", "b", "a"])), 2);
    assert!(comes_before("a", "ab") && comes_before("ab", "b") && !comes_before("a", "a"));
    let records = vec![backup("x", 1, 0, 4), backup("y", 1, 1, 5)];
    assert_eq!(total_bytes(&records), 9);
    let groups: Vec<BackupGroup> =
        group_backups(&records, &texts(&["y", "x"]), &vec![true, true]);
    assert_eq!(groups[0].key, "x");
    assert_eq!(groups[0].backups[0].addon_name, "y");
    assert_eq!(
        filled(&backup_detail(&records[0], "today".to_string())),
        "Created today - Hash h0 - Size 4 B"
    );
    assert_eq!(filled(&root_line("/backups".to_string())), "Backup root: /backups");
}

#[test]
fn the_age_rule_starts_with_a_month() {
    let mut m = manager(vec![]);
    assert_eq!(m.max_age_shown(), None);
    m.set_max_age_enabled(true);
    assert_eq!(m.max_age_shown(), Some(30));
    m.max_age_days = Some(0);
    assert_eq!(m.max_age_shown(), Some(30));
    m.max_age_days = Some(4);
    assert_eq!(m.max_age_shown(), Some(4));
    m.set_max_age_enabled(false);
    assert_eq!(m.max_age_days, None);
}

#[test]
fn nothing_is_deleted_without_a_yes() {
    let mut m = manager(vec![]);
    assert!(m.confirmation().is_none());
    assert!(m.answer(true).is_none());
    m.request_delete(&backup("a", 1, 0, 1));
    let asked = m.confirmation().unwrap();
    assert_eq!(asked.title, "Confirm backup deletion");
    assert_eq!(filled(&asked.message), "Delete backup a (h0)?");
    assert_eq!(asked.yes, "Delete backup");
    assert!(m.answer(false).is_none());
    assert!(m.confirmation().is_none());
    m.request_delete_group(&"a".to_string(), 3);
    assert_eq!(filled(&m.confirmation().unwrap().message), "Delete all 3 backups for a?");
    assert!(matches!(m.answer(true), Some(BackupJob::DeleteGroup(name)) if name == "a"));
    m.request_cleanup();
    assert_eq!(m.confirmation().unwrap().title, "Confirm backup cleanup");
    assert!(matches!(m.answer(true), Some(BackupJob::Cleanup)));
    m.request_delete(&backup("b", 1, 9, 1));
    assert!(matches!(m.answer(true), Some(BackupJob::Delete(r)) if r.folder_rank == 9));
}
