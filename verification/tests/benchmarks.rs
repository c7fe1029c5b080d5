//! Benchmarks: what is shown of a run, the list, the comparison and the export.

use foxy_views::message::{Line, Message};
use foxy_views::settings::benchmarks::compare::{
    area_triangles, card_rows, comparison_cell, comparison_rows, kind_text, merge_charts,
    missing_ratio, ratio_source, row_label, stages_compare, SolOperation,
};
use foxy_views::settings::benchmarks::detail::{
    chart_at, chart_count, comparison_shows, headline_stats, log_heading, machine_rows,
    metric_rows, metric_shows, notes_dirty, outcome_text, raw_line, run_rows, run_word,
    save_notes, sol_build, sol_grade, sol_hover, sol_light, sol_totals, sol_work, ChartChoice,
    MetricUnit, OutcomeColor, SolGrade,
};
use foxy_views::settings::benchmarks::export::{
    encode_png, export_file_name, export_label, take_screenshot, BenchmarkExportJob, ChartImage,
    ExportStep, Shot,
};
use foxy_views::settings::benchmarks::filters::{
    kind_filter_label, BenchmarkFilters, BenchmarkOutcomeFilter, KnownRepository,
};
use foxy_views::settings::benchmarks::list::{
    benchmark_row_hover, compare_letter, empty_state, row_button_look, row_buttons, row_chips,
    row_meta, row_note, BenchmarksView, RowAction, RowEffect,
};
use foxy_views::settings::benchmarks::reading::Measure;
use foxy_views::settings::benchmarks::record::{
    cpu_title, BenchmarkBuild, BenchmarkKind, BenchmarkMachine, BenchmarkMetrics,
    BenchmarkOutcome, BenchmarkRecord, BenchmarkRepository, BenchmarkSample, BenchmarkStage,
    HeadlineRate,
};
use foxy_views::settings::benchmarks::series::{
    charts_for, stage_rows, ChartPoint, ChartValue, YUnit,
};

fn measure(x: f64) -> Measure {
    Measure { bits: x.to_bits() }
}

fn record(samples: Vec<BenchmarkSample>, stages: Vec<BenchmarkStage>) -> BenchmarkRecord {
    BenchmarkRecord {
        id: "x".into(),
        name: "x".into(),
        notes: String::new(),
        kind: BenchmarkKind::Recheck,
        started_at: 0,
        started_at_local: String::new(),
        finished_at_local: String::new(),
        elapsed_ms: 0,
        outcome: BenchmarkOutcome::Success,
        operation_id: None,
        repository: BenchmarkRepository::default(),
        addons: vec![],
        favourite: false,
        hidden: false,
        build: BenchmarkBuild::default(),
        machine: BenchmarkMachine::default(),
        metrics: BenchmarkMetrics::default(),
        stages,
        sol_text: None,
        rate: None,
        sol: vec![],
        samples,
        log_file: None,
        log_line_count: 0,
    }
}

fn stage(name: &str, seconds: f64) -> BenchmarkStage {
    BenchmarkStage { name: name.into(), seconds: measure(seconds), details: String::new() }
}

fn filled(m: &Message) -> String {
    let mut text = m.key.to_string();
    for (name, value) in &m.args {
        text = text.replace(&format!("{{{name}}}"), value);
    }
    text
}

fn shown(line: &Line) -> String {
    match line {
        Line::Plain(text) => text.clone(),
        Line::Keyed(m) => filled(m),
    }
}

// Measurements

#[test]
fn measures_compare_and_cut_like_floats() {
    let floor = measure(0.85);
    for x in [
        0.0, -0.0, 1.0, -1.0, 0.85, 0.8499999999999999, 1e-310, 3.999, 4294967296.5, 1e18, 1e19,
        1.8e19, 1e300, -1e300, f64::INFINITY, f64::NEG_INFINITY, f64::NAN, f64::MIN_POSITIVE,
        9007199254740993.0, 0.9999999999999999,
    ] {
        let m = measure(x);
        assert_eq!(m.is_above_zero(), x > 0.0, "{x}");
        assert_eq!(m.is_at_most_zero(), x <= 0.0, "{x}");
        assert_eq!(m.is_at_least(floor), x >= 0.85, "{x}");
        assert_eq!(m.to_whole(), x as u64, "{x}");
    }
    assert_eq!(Measure::zero(), measure(0.0));
}

// Detail

#[test]
fn headline_stats_follow_the_action() {
    let mut record = record(vec![], vec![]);
    record.elapsed_ms = 2_000;
    record.metrics.hash_files_total = 40;
    let labels: Vec<&str> =
        headline_stats(&record).iter().map(|(label, _, _)| *label).collect();
    assert_eq!(labels, vec!["Elapsed", "Files checked", "Files per second"]);
    assert_eq!(headline_stats(&record)[2].1, "20");

    record.kind = BenchmarkKind::Update;
    record.metrics.avg_download_bps = measure(1024.0);
    record.metrics.downloaded_bytes = 2048;
    let labels: Vec<&str> =
        headline_stats(&record).iter().map(|(label, _, _)| *label).collect();
    assert_eq!(
        labels,
        vec!["Elapsed", "Average download speed", "Downloaded", "Files checked"]
    );
}

#[test]
fn headline_values_are_formatted() {
    let mut r = record(vec![], vec![]);
    r.kind = BenchmarkKind::Redownload;
    r.elapsed_ms = 1_234;
    r.metrics.avg_download_bps = measure(1536.9);
    r.sol_text = Some("0.91".to_string());
    let stats = headline_stats(&r);
    assert_eq!(stats[0], ("Elapsed", format!("{:.1} s", 1.234), false));
    assert_eq!(stats[1], ("Average download speed", "1.5 KB/s".to_string(), true));
    assert_eq!(stats[2], ("Speed of light", "0.91".to_string(), true));
}

#[test]
fn metrics_without_a_value_are_left_out() {
    let mut r = record(vec![], vec![]);
    r.elapsed_ms = 1;
    let rows = metric_rows(&r);
    assert_eq!(rows.len(), 18);
    assert_eq!(rows[0].label, "Elapsed");
    assert!(rows[0].lower_is_better && rows[0].unit == MetricUnit::Seconds);
    assert!(metric_shows(&rows[0]) && !metric_shows(&rows[1]));
    let other = metric_rows(&record(vec![], vec![]));
    assert!(comparison_shows(&other[0], &rows[0]) && !comparison_shows(&other[1], &rows[1]));
    for (a, b) in rows.iter().zip(&other) {
        assert_eq!(a.label, b.label);
    }
}

#[test]
fn outcomes_and_tables_are_in_words() {
    let (word, tail, color) =
        outcome_text(&BenchmarkOutcome::Failed { message: "disk".to_string() });
    assert_eq!((word, tail.as_str(), color), ("Failed", ": disk", OutcomeColor::Error));
    assert_eq!(outcome_text(&BenchmarkOutcome::Success).0, "Success");
    assert_eq!(outcome_text(&BenchmarkOutcome::Cancelled).2, OutcomeColor::Dim);
    let mut r = record(vec![], vec![]);
    r.addons = vec!["@a".to_string(), "@b".to_string()];
    r.operation_id = Some("op".to_string());
    r.machine.cpu = "CPU".to_string();
    r.machine.cpu_cores = 8;
    r.machine.total_memory_bytes = 2048;
    r.build.version = "1.0".to_string();
    r.build.commit = "abc".to_string();
    r.build.kind = "release".to_string();
    let rows: Vec<(&str, String)> =
        run_rows(&r).iter().map(|(label, line)| (*label, shown(line))).collect();
    assert_eq!(rows.len(), 7);
    assert!(rows.contains(&("Addons", "@a, @b".to_string())));
    assert_eq!(rows[6], ("Operation", "op".to_string()));
    let rows: Vec<(&str, String)> =
        machine_rows(&r).iter().map(|(label, line)| (*label, shown(line))).collect();
    assert_eq!(rows[0], ("Build", "1.0 (abc, release)".to_string()));
    assert_eq!(rows[2], ("CPU", "CPU x8".to_string()));
    assert_eq!(rows[3], ("RAM", "2.0 KB".to_string()));
    assert_eq!(rows[6], ("Speed limit", "Unlimited".to_string()));
    assert_eq!(rows[7], ("Extended diagnostics", "No".to_string()));
}

#[test]
fn notes_are_saved_as_typed() {
    let mut r = record(vec![], vec![]);
    assert!(!notes_dirty(&r, "") && notes_dirty(&r, "n"));
    save_notes(&mut r, "n");
    assert_eq!(r.notes, "n");
    assert!(!notes_dirty(&r, "n"));
}

#[test]
fn charts_are_numbered_after_the_stages() {
    assert_eq!(chart_count(true, 2), 3);
    assert_eq!(chart_count(false, 2), 2);
    assert_eq!(chart_at(true, 2, 0), Some(ChartChoice::Stages));
    assert_eq!(chart_at(true, 2, 2), Some(ChartChoice::Lines(1)));
    assert_eq!(chart_at(true, 2, 3), None);
    assert_eq!(chart_at(false, 2, 0), Some(ChartChoice::Lines(0)));
    assert_eq!(chart_at(false, 0, 0), None);
}

#[test]
fn ratios_are_graded_and_described() {
    assert_eq!(sol_grade(measure(0.85)), SolGrade::Green);
    assert_eq!(sol_grade(measure(0.84)), SolGrade::Amber);
    assert_eq!(sol_grade(measure(0.5)), SolGrade::Amber);
    assert_eq!(sol_grade(measure(0.49)), SolGrade::Red);
    assert_eq!(run_word(1), "run");
    assert_eq!(run_word(2), "runs");
    assert_eq!(
        sol_totals(2, "runs", 2048, "3.0 s", Some(measure(1024.0))),
        "2 runs  \u{b7}  2.0 KB  \u{b7}  3.0 s  \u{b7}  1.0 KB/s"
    );
    assert_eq!(sol_totals(1, "run", 0, "1 s", None), "1 run  \u{b7}  1 s");
    assert_eq!(sol_work(0), "n/a");
    assert_eq!(sol_work(512), "512 B");
    assert_eq!(sol_light(None), "n/a");
    assert_eq!(sol_light(Some(measure(1024.0))), "1.0 KB/s");
    let pairs = vec![
        ("a".to_string(), "1".to_string()),
        ("b".to_string(), "2".to_string()),
    ];
    assert_eq!(raw_line(&pairs), "a=1  b=2");
}

// Charts

#[test]
fn charts_drop_flat_series() {
    let record = record(
        vec![BenchmarkSample {
            t_ms: 1000,
            hash_files_done: 3,
            memory_bytes: 10,
            ..Default::default()
        }],
        vec![],
    );
    let defs = charts_for(&record, "A: ", 8);
    let keys: Vec<&str> = defs.iter().map(|def| def.key).collect();
    assert_eq!(keys, vec!["hashing", "memory"]);
    assert_eq!(defs[0].series[0].label, "A: Files");
    assert_eq!(
        defs[0].series[0].points,
        vec![ChartPoint { t_ms: 1000, value: ChartValue::Whole(3) }]
    );
    assert!(defs[0].series[0].has_signal());
    assert_eq!(defs[1].unit, YUnit::Bytes);
}

#[test]
fn cpu_title_uses_thread_count_when_known() {
    let mut rec = record(vec![], vec![]);
    assert_eq!(cpu_title(&rec), "CPU (one core = 100%)");
    rec.machine.cpu_threads = 4;
    assert_eq!(cpu_title(&rec), "CPU (all cores)");
}

#[test]
fn stage_rows_align_by_name() {
    let a = record(vec![], vec![stage("hash", 2.0), stage("download", 5.0)]);
    let b = record(vec![], vec![stage("download", 4.0)]);
    let rows = stage_rows(&[&a, &b], &vec![]);
    assert_eq!(rows.len(), 2);
    assert_eq!(rows[0].label, "hash");
    assert_eq!(rows[0].values, vec![measure(2.0), measure(0.0)]);
    assert_eq!(rows[1].values, vec![measure(5.0), measure(4.0)]);
}

#[test]
fn stage_rows_drop_stages_that_are_zero_everywhere() {
    let a = record(vec![], vec![stage("create_context", 0.0), stage("download", 5.0)]);
    let b = record(vec![], vec![stage("create_context", 0.002)]);
    assert_eq!(stage_rows(&[&a], &vec![]).len(), 1);
    assert_eq!(stage_rows(&[&a, &b], &vec![]).len(), 2);
}

#[test]
fn stage_rows_leave_out_the_enclosing_action_total() {
    let a = record(
        vec![],
        vec![
            stage("tree_hash_bootstrap", 822.0),
            stage("download_skip_after_quick_verify", 829.0),
        ],
    );
    let totals = vec!["download_skip_after_quick_verify".to_string()];
    let rows = stage_rows(&[&a], &totals);
    assert_eq!(rows.len(), 1);
    assert_eq!(rows[0].label, "tree_hash_bootstrap");
}

#[test]
fn area_mesh_covers_every_segment() {
    let triangles = area_triangles(3);
    assert_eq!(triangles.len() * 3, 2 * 2 * 3);
    assert!(triangles.iter().all(|(a, b, c)| *a < 6 && *b < 6 && *c < 6));
    assert!(area_triangles(1).is_empty() && area_triangles(0).is_empty());
}

// Comparison

#[test]
fn comparisons_have_every_row_once() {
    let op = |name: &str, parts: &[&str]| SolOperation {
        op: name.to_string(),
        sub_parts: parts.iter().map(|p| p.to_string()).collect(),
    };
    let a = vec![op("hash", &["read"]), op("write", &[])];
    let b = vec![op("hash", &["read", "cpu"]), op("net", &[])];
    let rows = comparison_rows(&a, &b);
    let row = |op: &str, part: Option<&str>| (op.to_string(), part.map(str::to_string));
    assert_eq!(
        rows,
        vec![
            row("hash", None),
            row("hash", Some("read")),
            row("write", None),
            row("hash", Some("cpu")),
            row("net", None)
        ]
    );
    assert_eq!(comparison_cell(&a, &rows[1]), Some((0, Some(0))));
    assert_eq!(comparison_cell(&a, &rows[3]), None);
    assert_eq!(comparison_cell(&b, &rows[4]), Some((1, None)));
    assert_eq!(kind_text("x", "x"), "x");
    assert_eq!(kind_text("x", ""), "x");
    assert_eq!(kind_text("", "y"), "y");
    assert_eq!(kind_text("x", "y"), "A x; B y");
}

#[test]
fn charts_of_both_runs_share_their_axes() {
    let sample = |files: u64, memory: u64| BenchmarkSample {
        t_ms: 1,
        hash_files_done: files,
        memory_bytes: memory,
        ..Default::default()
    };
    let a = charts_for(&record(vec![sample(1, 0)], vec![]), "A: ", 8);
    let b = charts_for(&record(vec![sample(2, 3)], vec![]), "B: ", 8);
    let merged = merge_charts(&a, &b);
    assert_eq!(merged.len(), 2);
    assert_eq!(merged[0].title, "Files checked");
    let labels: Vec<&str> = merged[0].series.iter().map(|s| s.label.as_str()).collect();
    assert_eq!(labels, vec!["A: Files", "B: Files"]);
    assert_eq!(merged[1].series.len(), 1);
}

// List

fn view() -> BenchmarksView {
    let mut second = record(vec![], vec![]);
    second.id = "y".to_string();
    BenchmarksView {
        records: vec![record(vec![], vec![]), second],
        expanded: vec![],
        pending_remove: None,
        selected: vec![],
        compare_open: false,
        compare_by_date: false,
    }
}

#[test]
fn clicks_switch_and_switch_back() {
    let mut v = view();
    assert_eq!(v.find("y"), Some(1));
    assert_eq!(v.find("z"), None);
    for _ in 0..2 {
        let before = (v.records[1].favourite, v.records[1].hidden, v.expanded.len());
        assert_eq!(
            v.apply_benchmark_row_action("y", RowAction::ToggleFavourite),
            RowEffect::Persist
        );
        assert_eq!(v.apply_benchmark_row_action("y", RowAction::ToggleHidden), RowEffect::Persist);
        assert_eq!(v.apply_benchmark_row_action("y", RowAction::ToggleExpand), RowEffect::Nothing);
        assert_eq!(v.records[1].favourite, !before.0);
        assert_eq!(v.records[1].hidden, !before.1);
        assert_ne!(v.expanded.len(), before.2);
    }
    assert!(!v.records[0].favourite && !v.records[1].favourite && v.expanded.is_empty());
    assert_eq!(
        v.apply_benchmark_row_action("y", RowAction::ToggleSelect),
        RowEffect::ToggleSelected
    );
    assert_eq!(v.apply_benchmark_row_action("y", RowAction::Export), RowEffect::StartExport);
}

#[test]
fn removals_are_confirmed() {
    let mut v = view();
    assert_eq!(v.apply_benchmark_row_action("y", RowAction::Remove), RowEffect::Nothing);
    assert_eq!(v.pending_remove.as_deref(), Some("y"));
    assert_eq!(v.apply_benchmark_row_action("y", RowAction::CancelRemove), RowEffect::Nothing);
    assert_eq!(v.pending_remove, None);
    v.apply_benchmark_row_action("y", RowAction::Remove);
    assert_eq!(v.apply_benchmark_row_action("y", RowAction::ConfirmRemove), RowEffect::Remove);
    assert_eq!(row_buttons(true, false).len(), 2);
    assert!(row_buttons(false, true).contains(&(RowAction::Export, false)));
}

#[test]
fn rows_say_what_is_known() {
    let mut r = record(vec![], vec![]);
    r.repository.name = "Repo".to_string();
    r.repository.url = "http://r".to_string();
    r.started_at_local = "today".to_string();
    assert_eq!(row_meta(&r), "Repo  \u{b7}  today");
    r.build.version = "1.0".to_string();
    r.build.commit = "abc".to_string();
    assert_eq!(row_meta(&r), "Repo  \u{b7}  today  \u{b7}  1.0 abc");
    assert_eq!(benchmark_row_hover(&r), "http://r\nx");
    assert_eq!(row_note(&r, false), None);
    r.notes = " first\nsecond ".to_string();
    assert_eq!(benchmark_row_hover(&r), "http://r\nx\nfirst\nsecond");
    assert_eq!(row_note(&r, false).as_deref(), Some("first"));
    assert_eq!(row_note(&r, true), None);
    r.elapsed_ms = 2_000;
    r.metrics.hash_files_total = 4;
    r.hidden = true;
    let chips = row_chips(&r);
    let labels: Vec<&str> = chips.iter().map(|(label, _)| *label).collect();
    assert_eq!(labels, vec!["Hidden", "files", "elapsed"]);
    assert_eq!(chips[2].1, "2.0 s");
    assert_eq!(empty_state(false, true).0, "No benchmarks match the current filters.");
    assert_eq!(
        empty_state(true, false).1,
        Some("Enable Benchmarks to be offered a save after rechecks and updates.")
    );
}

#[test]
fn compared_records_change_places() {
    let mut v = view();
    v.records[0].started_at = 20;
    v.records[1].started_at = 10;
    v.selected = vec!["x".to_string(), "y".to_string()];
    assert_eq!(v.compare_order(), vec!["x", "y"]);
    v.compare_by_date = true;
    assert_eq!(v.compare_order(), vec!["y", "x"]);
    assert!(v.can_swap());
    v.swap_compare_order();
    assert!(!v.compare_by_date);
    assert_eq!(v.compare_order(), vec!["x", "y"]);
    v.swap_compare_order();
    assert_eq!(v.compare_order(), vec!["y", "x"]);
    v.selected.pop();
    v.swap_compare_order();
    assert_eq!(v.compare_order(), vec!["y"]);
}

#[test]
fn filters_are_labelled() {
    let known = vec![KnownRepository { url: "http://a".to_string(), name: "A".to_string() }];
    let mut filters = BenchmarkFilters {
        search: String::new(),
        kind: None,
        repository: None,
        outcome: BenchmarkOutcomeFilter::All,
        favourites_only: false,
        show_hidden: false,
    };
    assert_eq!(shown(&filters.repository_label(&known)), "All repositories");
    filters.repository = Some("http://a".to_string());
    assert_eq!(shown(&filters.repository_label(&known)), "A");
    filters.repository = Some("http://gone".to_string());
    assert_eq!(shown(&filters.repository_label(&known)), "All repositories");
    assert_eq!(filters.outcome.label(), "All outcomes");
    assert_eq!(BenchmarkOutcomeFilter::Failed.label(), "Failed");
    assert_eq!(kind_filter_label(filters.kind), "All actions");
    assert_eq!(kind_filter_label(Some(BenchmarkKind::Redownload)), "Redownload");
}

#[test]
fn rates_are_shown_in_their_unit() {
    let bytes = HeadlineRate {
        value: measure(2048.9),
        rounded: "2049".to_string(),
        unit: "B/s".to_string(),
    };
    assert_eq!(bytes.text(), "2.0 KB/s");
    let files =
        HeadlineRate { value: measure(12.4), rounded: "12".to_string(), unit: "files/s".to_string() };
    assert_eq!(files.text(), "12 files/s");
    let mut r = record(vec![], vec![]);
    r.rate = Some(files);
    assert_eq!(row_chips(&r)[0], ("avg", "12 files/s".to_string()));
    assert_eq!(row_button_look(RowAction::ToggleHidden, true, false).2, "Unhide benchmark");
    assert_eq!(row_button_look(RowAction::Export, false, false).1, "Export");
}

#[test]
fn comparisons_are_labelled() {
    let mut r = record(vec![], vec![]);
    r.build.version = "1.2".to_string();
    r.build.commit = "abc".to_string();
    r.machine.cpu = "Chip".to_string();
    r.machine.cpu_cores = 8;
    let rows = card_rows(&r);
    assert_eq!(rows[1], ("Build", "1.2 abc".to_string()));
    assert_eq!(rows[4], ("CPU", "Chip x8".to_string()));
    assert!(!stages_compare(&r, &r));
    assert!(stages_compare(&r, &record(vec![], vec![stage("hash", 1.0)])));
    assert_eq!(row_label("hash", &None), "hash");
    assert_eq!(row_label("hash", &Some("disk".to_string())), "hash / disk");
    assert_eq!(ratio_source("Disk", "measured"), "Disk \u{b7} measured");
    assert_eq!(missing_ratio("too short", &None), "too short \u{b7} raw n/a");
    assert_eq!(missing_ratio("too short", &Some("1.20".to_string())), "too short \u{b7} raw 1.20");
    assert_eq!(sol_build("Build", &r), "Build 1.2 abc");
    let (light, faster) = sol_hover("Light source", "measured", Some("1.50".to_string()));
    assert_eq!(light, "Light source: measured");
    assert_eq!(
        faster.as_ref().map(filled).as_deref(),
        Some("Could be up to 1.50x faster before physics objects.")
    );
    assert!(sol_hover("Light source", "measured", None).1.is_none());
    assert_eq!(log_heading("Log", &r), None);
    r.log_file = Some("run.log".to_string());
    r.log_line_count = 12;
    assert_eq!(log_heading("Log", &r).as_deref(), Some("Log (12)"));
}

#[test]
fn two_records_are_compared() {
    let mut v = view();
    v.selected = vec!["y".to_string(), "gone".to_string()];
    assert_eq!(v.selected_positions(), vec![1]);
    let (label, enabled) = v.compare_button();
    assert_eq!(filled(&label), "Compare selected (1/2)");
    assert!(!enabled);
    v.open_compare();
    assert!(!v.compare_open);
    v.selected = vec!["y".to_string(), "x".to_string()];
    v.open_compare();
    assert!(v.compare_open);
    assert_eq!(v.compared(&vec!["x".to_string(), "y".to_string()]), Some((0, 1)));
    assert_eq!(v.compared(&vec!["x".to_string()]), None);
    assert!(!v.compare_open);
    assert_eq!(compare_letter(0), "A");
    assert_eq!(compare_letter(1), "B");
    v.records[0].hidden = true;
    let summary: Vec<String> = v.summary().iter().map(filled).collect();
    assert_eq!(summary, vec!["2 saved".to_string(), "1 hidden".to_string()]);
}

// Export

fn picture() -> ChartImage {
    ChartImage { width: 3, height: 2, rgba: (0..24).collect() }
}

#[test]
fn pictures_survive_encoding() {
    let image = picture();
    assert!(image.is_whole());
    let png = encode_png(&image).unwrap();
    let back = image::load_from_memory(&png).unwrap().to_rgba8();
    assert_eq!((back.width(), back.height()), (3, 2));
    assert_eq!(back.into_raw(), image.rgba);
    assert!(!ChartImage { width: 3, height: 3, rgba: vec![0; 24] }.is_whole());
}

#[test]
fn screenshots_become_files() {
    assert!(matches!(take_screenshot(&None), Shot::Unusable));
    match take_screenshot(&Some(picture())) {
        Shot::Encoded(png) => assert_eq!(png, encode_png(&picture()).unwrap()),
        _ => panic!("a whole picture can be encoded"),
    }
    // A picture without pixels has no PNG file.
    let nothing = ChartImage { width: 0, height: 0, rgba: vec![] };
    assert!(matches!(take_screenshot(&Some(nothing)), Shot::Unusable));
}

#[test]
fn exports_capture_every_chart_in_order() {
    let mut job = BenchmarkExportJob::new("id".to_string(), 2);
    let mut asked = false;
    let mut frames = 0;
    loop {
        let shot = if asked { take_screenshot(&Some(picture())) } else { Shot::Waiting };
        match job.begin_frame(shot) {
            ExportStep::Finish => break,
            ExportStep::Draw(index) => {
                asked = job.end_frame(Some(format!("chart{index}")));
            }
        }
        frames += 1;
        assert!(frames < 20);
    }
    let names: Vec<&str> = job.images.iter().map(|i| i.file_name.as_str()).collect();
    assert_eq!(names, vec!["chart0.png", "chart1.png"]);
}

#[test]
fn exports_end_without_screenshots() {
    let mut job = BenchmarkExportJob::new("id".to_string(), 2);
    let mut frames = 0;
    while let ExportStep::Draw(index) = job.begin_frame(Shot::Waiting) {
        job.end_frame(Some(format!("chart{index}")));
        frames += 1;
        assert!(frames < 500);
    }
    assert!(job.images.is_empty());
    assert_eq!(job.chart_index, 2);
    let mut empty = BenchmarkExportJob::new("id".to_string(), 0);
    assert_eq!(empty.begin_frame(Shot::Waiting), ExportStep::Finish);
    assert_eq!(export_file_name("id"), "id.zip");
    assert_eq!(export_label("Run", 0, 3), "Run  (1/3)");
}
