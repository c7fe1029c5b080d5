//! The update view: file rows, controls, order, manifest and graph.

use foxy_views::foxy::FoxyView;
use foxy_views::message::Line;
use foxy_views::update::diff::{
    changed_parts, diff_file_indices, update_file_diff_generation, update_file_diff_kind_code,
    update_file_diff_kind_color, update_file_diff_kind_marker, update_file_diff_row_text,
    update_totals, FileDiffKind, FileDiffSummary, ModDiffSummary,
};
use foxy_views::update::direct_download::{
    direct_elapsed, open_direct_view, pace_message, pause_button, DirectButton,
    DirectDownloadSession, DirectViewFlags,
};
use foxy_views::update::graph::{
    axis_labels, graph_scale, lane_sample_index, lane_shape, nearest_summary_sample_index,
    summary_lines, tooltip_line, tooltip_text, updated_line, DownloadFigures, LaneShape,
    SampleMark, SummaryGraphValue, SummaryTexts,
};
use foxy_views::update::manifest::{
    build_update_manifest_text, file_name_char, manifest_file_name, sorted_rows, RowKey, RowOrder,
    RowState,
};
use foxy_views::update::view::{
    card_bar, in_hash_stage, page_title, repository_update_cancel_stage, totals_message,
    update_elapsed, BarClick, BarColor, BarFill, BarText, BarTextColor, CardColor, ModProgress,
    UpdateScreen, UpdateSession,
};

#[test]
fn update_file_diff_row_text_includes_change_kind_size_and_parts() {
    let file = FileDiffSummary {
        name: "addons/main.pbo".to_string(),
        needs_update: true,
        total_bytes: 2048,
        changed_parts: 2,
        change_kind: FileDiffKind::Modified,
    };

    let text = update_file_diff_row_text(&file, "~");

    assert_eq!(text, "~ addons/main.pbo (2.0 KB, 2 parts)");
}

#[test]
fn update_file_diff_row_text_omits_empty_deleted_size() {
    let file = FileDiffSummary {
        name: "addons/old.pbo".to_string(),
        needs_update: true,
        total_bytes: 0,
        changed_parts: 0,
        change_kind: FileDiffKind::Deleted,
    };

    let text = update_file_diff_row_text(&file, "-");

    assert_eq!(text, "- addons/old.pbo");
}

#[test]
fn repository_update_cancel_stage_matches_raw_or_translated_labels() {
    assert!(repository_update_cancel_stage(
        &Some("Cancelling...".to_string()),
        "Cancel translated",
        "Revert translated",
    ));
    assert!(repository_update_cancel_stage(
        &Some("Revert translated".to_string()),
        "Cancel translated",
        "Revert translated",
    ));
    assert!(!repository_update_cancel_stage(
        &Some("Download 1/2".to_string()),
        "Cancel translated",
        "Revert translated",
    ));
}

#[test]
fn repository_update_cancel_stage_none_progress_returns_false() {
    assert!(!repository_update_cancel_stage(&None, "Cancel", "Revert"));
}

#[test]
fn repository_update_cancel_stage_reverting_changes_raw() {
    assert!(repository_update_cancel_stage(
        &Some("Reverting changes".to_string()),
        "Irrelevant",
        "Irrelevant",
    ));
}

fn file(name: &str, kind: FileDiffKind, bytes: u64, parts: usize) -> FileDiffSummary {
    FileDiffSummary {
        name: name.to_string(),
        needs_update: true,
        total_bytes: bytes,
        changed_parts: parts,
        change_kind: kind,
    }
}

fn a_mod(name: &str, needs_update: bool, bytes: u64, files: Vec<FileDiffSummary>) -> ModDiffSummary {
    ModDiffSummary {
        name: name.to_string(),
        needs_update,
        total_bytes: bytes,
        files,
    }
}

#[test]
fn kinds_have_markers_codes_and_colors() {
    let kinds = [FileDiffKind::Added, FileDiffKind::Modified, FileDiffKind::Deleted];
    let markers: Vec<&str> = kinds.iter().map(|k| update_file_diff_kind_marker(*k)).collect();
    assert_eq!(markers, vec!["+", "~", "-"]);
    let codes: Vec<u8> = kinds.iter().map(|k| update_file_diff_kind_code(*k)).collect();
    assert_eq!(codes.len(), 3);
    assert!(codes[0] != codes[1] && codes[1] != codes[2] && codes[0] != codes[2]);
    let colors: Vec<u8> =
        kinds.iter().map(|k| update_file_diff_kind_color(*k, 1, 2, 3)).collect();
    assert_eq!(colors, vec![1, 2, 3]);
}

#[test]
fn totals_count_what_needs_an_update() {
    let mods = vec![
        a_mod(
            "a",
            true,
            100,
            vec![file("x", FileDiffKind::Added, 60, 2), file("y", FileDiffKind::Modified, 40, 1)],
        ),
        a_mod("b", false, 7, vec![]),
    ];
    let totals = update_totals(&mods).unwrap();
    assert_eq!(totals.mods, 1);
    assert_eq!(totals.bytes, 100);
    assert_eq!(totals.files, 2);
    assert_eq!(totals.parts, 3);
    assert_eq!(changed_parts(&mods[0].files), Some(3));
    assert_eq!(diff_file_indices(&mods[0]), vec![0, 1]);
    let message = totals_message(&totals);
    assert!(message.args.iter().any(|(_, value)| value == "100 B"));
}

#[test]
fn generation_follows_the_files() {
    let one = a_mod("a", true, 1, vec![file("x", FileDiffKind::Added, 1, 1)]);
    let same = a_mod("a", true, 1, vec![file("x", FileDiffKind::Added, 1, 1)]);
    let other = a_mod("a", true, 1, vec![file("x", FileDiffKind::Added, 2, 1)]);
    assert_eq!(update_file_diff_generation(0, &one), update_file_diff_generation(0, &same));
    assert_ne!(update_file_diff_generation(0, &one), update_file_diff_generation(0, &other));
    assert_ne!(update_file_diff_generation(0, &one), update_file_diff_generation(1, &one));
}

fn key(rank: u8, progress: u64, name: u64, listed: bool) -> RowKey {
    RowKey { rank, progress, name, listed }
}

#[test]
fn rows_are_ordered_by_rank_progress_and_name() {
    let keys = vec![
        key(1, 0, 2, true),
        key(0, 5, 9, true),
        key(0, 50, 3, true),
        key(0, 50, 1, true),
        key(0, 99, 0, false),
        key(1, 0, 2, true),
    ];
    assert_eq!(sorted_rows(&keys), vec![3, 2, 1, 0, 5]);
}

#[test]
fn order_is_kept_while_nothing_changes() {
    let mods = vec![a_mod("B", true, 1, vec![]), a_mod("A", true, 1, vec![])];
    let states = vec![
        RowState { rank: 0, progress: 0, name: 1, finished: false },
        RowState { rank: 0, progress: 0, name: 0, finished: false },
    ];
    let mut order = RowOrder { rows: vec![], name_lowers: vec![], generation: 0 };
    order.rebuild_update_modal_sort_cache_if_needed(&mods, &states, 1);
    assert_eq!(order.rows, vec![1, 0]);
    assert_eq!(order.name_lowers, vec!["a".to_string(), "b".to_string()]);
    let swapped = vec![
        RowState { rank: 0, progress: 0, name: 0, finished: false },
        RowState { rank: 0, progress: 0, name: 1, finished: false },
    ];
    order.rebuild_update_modal_sort_cache_if_needed(&mods, &swapped, 1);
    assert_eq!(order.rows, vec![1, 0]);
    order.rebuild_update_modal_sort_cache_if_needed(&mods, &swapped, 2);
    assert_eq!(order.rows, vec![0, 1]);
}

#[test]
fn manifest_lists_mods_in_row_order() {
    let mods = vec![
        a_mod("first", true, 2048, vec![]),
        a_mod("done", false, 10, vec![]),
        a_mod("second", true, 5, vec![]),
    ];
    let text = build_update_manifest_text("Repo", &mods, &vec![2, 1, 0], 2053);
    assert_eq!(text, "# Repo - 2.0 KB\n- second - 5 B\n- first - 2.0 KB");
}

#[test]
fn manifest_file_names_keep_letters_of_any_language() {
    assert_eq!(manifest_file_name("My Repo/1"), "My_Repo_1_update_manifest.txt");
    assert_eq!(manifest_file_name("Ünïcødé-x_y"), "Ünïcødé-x_y_update_manifest.txt");
    assert_eq!(file_name_char('?', false), '_');
    assert_eq!(file_name_char('-', false), '-');
}

fn session() -> UpdateSession {
    UpdateSession {
        modal_open: true,
        current_view: FoxyView::RepositoryUpdate,
        selected: Some(0),
        download_running: false,
        syncing_repository: None,
        download_finished: false,
        download_finished_repo: None,
        stage: None,
        paused: false,
        has_summary: false,
        has_plugin_prompt: false,
        update_ready_repo: None,
    }
}

#[test]
fn bar_starts_a_download_and_acknowledges_it() {
    let mut s = session();
    let controls = s.controls(3, "Cancel", "Revert");
    assert!(controls.can_start);
    assert_eq!(controls.bar_text, BarText::Start);
    assert_eq!(s.click_bar(3), BarClick::StartDownload(0));
    assert_eq!(session().click_bar(0), BarClick::Nothing);

    let mut done = session();
    done.download_finished = true;
    done.download_finished_repo = Some(0);
    assert_eq!(done.controls(0, "Cancel", "Revert").bar_text, BarText::Finished);
    assert_eq!(done.click_bar(0), BarClick::Acknowledge(0));
}

#[test]
fn running_download_can_be_paused_and_cancelled() {
    let mut s = session();
    s.download_running = true;
    s.syncing_repository = Some(0);
    s.stage = Some("Download 1/2".to_string());
    let controls = s.controls(3, "Cancel", "Revert");
    assert!(controls.can_toggle_pause && controls.can_cancel && !controls.can_start);
    s.stage = Some("Cancelling...".to_string());
    let controls = s.controls(3, "Cancel", "Revert");
    assert!(!controls.can_toggle_pause && !controls.can_cancel);
}

#[test]
fn bar_colours_and_share_follow_the_session() {
    let mut s = session();
    let idle = s.controls(3, "Cancel", "Revert");
    assert_eq!(idle.bar_hover, Some(BarColor::AccentHover));
    assert_eq!(idle.bar_share, BarFill::Empty);
    s.download_running = true;
    s.syncing_repository = Some(0);
    s.stage = Some("Download 1/2".to_string());
    let running = s.controls(3, "Cancel", "Revert");
    assert_eq!(running.bar_hover, None);
    assert_eq!(running.bar_share, BarFill::Progress);
    let mut done = session();
    done.download_finished = true;
    done.download_finished_repo = Some(0);
    let finished = done.controls(0, "Cancel", "Revert");
    assert_eq!(finished.bar_hover, Some(BarColor::SuccessMuted));
    assert_eq!(finished.bar_share, BarFill::Full);
}

#[test]
fn running_downloads_say_how_they_go() {
    let text = |s: &str| s.to_string();
    let pace = pace_message(text("Hash"), text("12.5"), text("8 Mbps"), text("1:00"), text("2:00"));
    assert_eq!(
        pace.key,
        "{stage} {percent}% - {speed} - {elapsed} elapsed / {remaining} remaining"
    );
    let args: Vec<(&str, &str)> = pace.args.iter().map(|(n, v)| (*n, v.as_str())).collect();
    assert_eq!(
        args,
        vec![
            ("stage", "Hash"),
            ("percent", "12.5"),
            ("speed", "8 Mbps"),
            ("elapsed", "1:00"),
            ("remaining", "2:00"),
        ]
    );
    assert_eq!(direct_elapsed(None), "0s");
    assert_eq!(update_elapsed(None), "00:00");
    assert_eq!(direct_elapsed(Some(text("5s"))), "5s");
    assert_eq!(update_elapsed(Some(text("00:05"))), "00:05");
    let mut s = session();
    assert_eq!(s.stage_label("Updating"), "Updating");
    s.stage = Some(text("Download"));
    assert_eq!(s.stage_label("Updating"), "Download");
}

#[test]
fn the_summary_has_two_lines_for_each_column() {
    let lines = summary_lines(SummaryTexts {
        planned_bytes: 2048,
        downloaded_bytes: 1024,
        average_speed: "8 Mbps".to_string(),
        cumulative_hash: "1 s".to_string(),
        after_download_hash: "2 s".to_string(),
        download_stage: "3 s".to_string(),
        total: "5 s".to_string(),
    });
    assert_eq!(lines.len(), 6);
    assert_eq!(lines[0].args, vec![("size", "2.0 KB".to_string())]);
    assert_eq!(lines[1].args[1], ("speed", "8 Mbps".to_string()));
    assert_eq!(lines[5].key, "Total duration: {duration}");
    assert_eq!(lines[5].args[0].1, "5 s");
}

#[test]
fn direct_download_takes_the_place_of_the_view() {
    let mut s = session();
    assert_eq!(s.screen(false), UpdateScreen::Repository);
    assert_eq!(s.screen(true), UpdateScreen::DirectDownload);
    s.modal_open = false;
    assert_eq!(s.screen(true), UpdateScreen::Hidden);
}

#[test]
fn titles_and_stages() {
    assert_eq!(page_title("Update", &None), "Update");
    assert!(page_title("Update", &Some("Repo".to_string())).contains("Repo"));
    assert!(!in_hash_stage(&None));
}

#[test]
fn cards_follow_the_progress() {
    let m = a_mod("a", true, 2048, vec![]);
    let progress = Some(ModProgress {
        done: false,
        percent: "50".to_string(),
        files_done: 1,
        files_total: 2,
        bytes_done: 1024,
        bytes_total: 2048,
    });
    let running = card_bar(&m, &progress, true, false).unwrap();
    assert_eq!(running.fill, BarFill::Progress);
    assert!(running.text.args.iter().any(|(_, v)| v == "1.0 KB"));
    let finished = card_bar(&m, &None, false, true).unwrap();
    assert_eq!(finished.fill, BarFill::Full);
    assert_eq!(finished.color, CardColor::Success);
    assert_eq!(finished.text_color, BarTextColor::White);
    let waiting = card_bar(&m, &None, false, false).unwrap();
    assert_eq!(waiting.text_color, BarTextColor::Normal);
}

#[test]
fn pointer_picks_the_nearest_sample() {
    let marks = vec![
        SampleMark { distance: 5, has_value: true },
        SampleMark { distance: 2, has_value: false },
        SampleMark { distance: 2, has_value: true },
        SampleMark { distance: 9, has_value: true },
    ];
    assert_eq!(nearest_summary_sample_index(&marks), 1);
    assert_eq!(lane_sample_index(&marks), 2);
    assert_eq!(lane_shape(&marks), LaneShape::Line);
    assert_eq!(lane_shape(&vec![SampleMark { distance: 0, has_value: false }]), LaneShape::Empty);
    assert_eq!(lane_shape(&vec![SampleMark { distance: 0, has_value: true }]), LaneShape::Dot(0));
}

#[test]
fn graph_spans_its_samples() {
    assert!(graph_scale(&vec![]).is_none());
    let scale = graph_scale(&vec![0, 500, 2_000]).unwrap();
    assert_eq!((scale.first_ms, scale.last_ms), (0, 2_000));
    let (first, middle, last) = axis_labels(scale);
    assert_eq!((first.as_str(), middle.as_str(), last.as_str()), ("0.0s", "1.0s", "2.0s"));
    assert_eq!(tooltip_text(&vec!["a".to_string(), "b".to_string()]), "a\nb");
    let memory = tooltip_line(SummaryGraphValue::MemoryBytes, "Speicher", "1.0 GB".to_string());
    assert!(matches!(memory, Line::Plain(text) if text == "Speicher: 1.0 GB"));
    let disk = tooltip_line(SummaryGraphValue::DiskWriteMbps, "", "8.0 Mbps".to_string());
    assert!(matches!(disk, Line::Keyed(m) if m.key == "Disk write: {speed}"));
    let line = updated_line(DownloadFigures { mods_updated: 1, files_updated: 2, parts_updated: 3 });
    assert!(line.args.iter().any(|(_, v)| v == "2"));
}

fn download() -> DirectDownloadSession {
    DirectDownloadSession {
        source_url: "http://x".to_string(),
        destination_folder: "/tmp".to_string(),
        target_label: "x".to_string(),
        files_done: 1,
        files_total: 3,
        downloaded_bytes: 1024,
        total_bytes: 0,
        running: true,
        finished_successfully: false,
        error_message: None,
    }
}

#[test]
fn direct_downloads_show_how_far_they_are() {
    let mut s = download();
    assert_eq!(s.details().len(), 5);
    s.total_bytes = 10;
    assert_eq!(s.details().len(), 6);
    assert_eq!(s.button(), DirectButton::Progress);
    match s.stage_line(&None, "Preparing") {
        Line::Keyed(m) => assert_eq!(m.args, vec![("name", "Preparing".to_string())]),
        Line::Plain(_) => panic!("a running download names what it loads"),
    }
    s.running = false;
    assert_eq!(s.button(), DirectButton::Failed);
    s.finished_successfully = true;
    assert_eq!(s.button(), DirectButton::Finished);
    let open = DirectViewFlags { modal_open: true, direct_view: true };
    let closed = DirectViewFlags { modal_open: false, direct_view: false };
    assert_eq!(s.click_button(open), closed);
    assert_eq!(open_direct_view(&None, open), closed);
    assert_ne!(pause_button(true).0, pause_button(false).0);
}
