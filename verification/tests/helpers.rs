//! Texts against the standard library, and small decisions of the views.

use foxy_views::foxy::FoxyView;
use foxy_views::repository::{RepositorySpace, RepositorySpaceEntry};
use foxy_views::settings::benchmarks::record::BenchmarkKind;
use foxy_views::swifty::import::{most_common_folder, space_binding, SwiftyImportItem};
use foxy_views::swifty::types::SwiftyDetectedRepo;
use foxy_views::text::{
    chars_of, contains, eq_ignore_ascii_case, find, find_last_char, same_text,
    starts_with, string_of, to_ascii_lowercase, trim_end_char, trim_start_text,
};
use foxy_views::update::direct_download::{
    button_key, AssumedShare, DirectButton, DirectDownloadSession,
};
use foxy_views::update::graph::{
    lane_color, lane_label, lane_marks_sample, lane_value, nearest_mark, LaneColor, SampleMark,
    SummaryGraphValue,
};
use foxy_views::update::view::UpdateSession;

const TEXTS: [&str; 9] = [
    "",
    "abc",
    "ABC def",
    "//a//b//",
    "\u{c4}RGER \u{df}",
    "\u{130}stanbul",
    "\u{3a3}\u{391}\u{3a3}",
    "x=\u{1f600}=x",
    "aaab",
];

#[test]
fn texts_agree_with_the_standard_library() {
    for s in TEXTS {
        assert_eq!(to_ascii_lowercase(s), s.to_ascii_lowercase());
        assert_eq!(trim_end_char(s, '/'), s.trim_end_matches('/'));
        assert_eq!(trim_start_text(s, "//"), s.trim_start_matches("//"));
        assert_eq!(chars_of(s), s.chars().collect::<Vec<char>>());
        let n = s.chars().count();
        assert_eq!(string_of(&chars_of(s), n / 2, n), s.chars().skip(n / 2).collect::<String>());
        for t in TEXTS {
            assert_eq!(eq_ignore_ascii_case(s, t), s.eq_ignore_ascii_case(t));
            assert_eq!(same_text(s, t), s == t);
            assert_eq!(contains(s, t), s.contains(t));
            assert_eq!(starts_with(s, t), s.starts_with(t));
        }
    }
}

#[test]
fn searches_give_the_first_or_the_last_place() {
    let s = chars_of("abcabc");
    assert_eq!(find(&s, &chars_of("bc")), Some(1));
    assert_eq!(find(&s, &chars_of("cb")), None);
    assert_eq!(find_last_char(&s, 'a', 0, 6), Some(3));
    assert_eq!(find_last_char(&s, 'a', 0, 3), Some(0));
    assert_eq!(find_last_char(&s, 'a', 1, 3), None);
}

fn item(address: &str, key: &str, base_key: &str, folder: &str) -> SwiftyImportItem {
    SwiftyImportItem {
        repo: SwiftyDetectedRepo {
            name: String::new(),
            address: address.to_string(),
            mod_folder: folder.to_string(),
            parameters: String::new(),
            autocheck: false,
            selected: true,
        },
        key: key.to_string(),
        base_key: base_key.to_string(),
    }
}

#[test]
fn repositories_find_their_place_in_a_space() {
    let spaces = vec![RepositorySpace {
        id: "s".to_string(),
        shared_path: "D:/mods".to_string(),
        base_key: "base".to_string(),
        entries: vec![RepositorySpaceEntry {
            address: "http://entry".to_string(),
            key: "k".to_string(),
        }],
    }];
    let id = Some("s".to_string());
    let folder = "D:/mods".to_string();
    assert_eq!(
        space_binding(&spaces, &id, &item("http://a/b", "k", "", "")),
        Some(("http://entry".to_string(), folder.clone()))
    );
    assert_eq!(
        space_binding(&spaces, &id, &item("http://a/b", "other", "base", "")),
        Some(("http://a/b".to_string(), folder))
    );
    assert_eq!(space_binding(&spaces, &id, &item("http://a/b", "x", "y", "")), None);
    assert_eq!(space_binding(&spaces, &None, &item("http://a/b", "k", "", "")), None);
}

#[test]
fn the_most_common_folder_wins() {
    let of = |folder: &str| item("http://a", "", "", folder);
    assert_eq!(most_common_folder(&vec![of("a"), of("b"), of("b")]).as_deref(), Some("b"));
    assert_eq!(most_common_folder(&vec![of(" ")]), None);
    assert_eq!(most_common_folder(&vec![]), None);
}

#[test]
fn lanes_have_labels_and_colours() {
    let lanes: Vec<SummaryGraphValue> = (0..5).map(lane_value).collect();
    let labels: Vec<&str> = lanes.iter().map(|lane| lane_label(*lane)).collect();
    assert_eq!(
        labels,
        vec!["Download speed", "Disk write speed", "Hash files/s", "CPU", "Memory"]
    );
    assert_eq!(lane_color(lanes[0]), LaneColor::Accent);
    assert_eq!(lane_color(lanes[4]), LaneColor::Info);
    let marks = vec![
        SampleMark { distance: 1, has_value: false },
        SampleMark { distance: 2, has_value: true },
        SampleMark { distance: 2, has_value: true },
    ];
    assert_eq!(nearest_mark(&marks, false), Some(0));
    assert_eq!(nearest_mark(&marks, true), Some(1));
    assert_eq!(nearest_mark(&vec![], false), None);
    assert!(lane_marks_sample(&marks, 1) && !lane_marks_sample(&marks, 0));
    assert!(!lane_marks_sample(&marks, 3));
}

#[test]
fn the_update_view_stays_while_changes_are_undone() {
    let mut s = UpdateSession {
        modal_open: true,
        current_view: FoxyView::RepositoryUpdate,
        selected: Some(1),
        download_running: true,
        syncing_repository: Some(1),
        download_finished: false,
        download_finished_repo: None,
        stage: Some("Reverting changes".to_string()),
        paused: false,
        has_summary: false,
        has_plugin_prompt: false,
        update_ready_repo: None,
    };
    assert!(s.downloading() && !s.finished_for_selected());
    s.close("c", "r");
    assert!(s.modal_open);
    s.stage = Some("r".to_string());
    s.close("c", "r");
    assert!(s.modal_open);
    s.stage = None;
    s.close("c", "r");
    assert!(!s.modal_open);
    s.download_finished = true;
    s.download_finished_repo = Some(1);
    assert!(s.finished_for_selected());
}

#[test]
fn direct_downloads_assume_an_end() {
    let mut s = DirectDownloadSession {
        source_url: String::new(),
        destination_folder: String::new(),
        target_label: String::new(),
        files_done: 0,
        files_total: 0,
        downloaded_bytes: 0,
        total_bytes: 0,
        running: true,
        finished_successfully: false,
        error_message: None,
    };
    assert_eq!(s.assumed_share(), AssumedShare::Nothing);
    s.running = false;
    assert_eq!(s.assumed_share(), AssumedShare::All);
    assert_eq!(button_key(DirectButton::Progress), None);
    assert_eq!(button_key(DirectButton::Failed), Some("Download failed - click to close"));
}

#[test]
fn only_rechecks_transfer_nothing() {
    assert!(!BenchmarkKind::Recheck.transfers_files());
    assert!(BenchmarkKind::Update.transfers_files());
    assert!(BenchmarkKind::Redownload.transfers_files());
}
