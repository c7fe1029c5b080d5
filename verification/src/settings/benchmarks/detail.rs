//! The figures of one benchmark.

use vstd::prelude::*;

use crate::figures;
use crate::figures::{fmt_bytes, per_second_text, seconds_text};
use crate::message;
use crate::message::{one, Line, LineModel, Message, MessageModel};
use crate::repository;
use crate::settings::benchmarks::reading;
use crate::settings::benchmarks::reading::Measure;
use crate::settings::benchmarks::record;
use crate::settings::benchmarks::record::{cpu_title, BenchmarkOutcome, BenchmarkRecord};
use crate::text;
use crate::text::{concat, decimal_text, join, same_text, trim};

verus! {

broadcast use vstd::string::group_string_axioms;

// ---------------------------------------------------------------------------
// Headline
// ---------------------------------------------------------------------------

/// What figures say: caption, value, and whether it is a rate.
pub open spec fn stat_models(v: Seq<(&'static str, String, bool)>) -> Seq<
    (Seq<char>, Seq<char>, bool),
> {
    Seq::new(v.len(), |i: int| (v[i].0@, v[i].1@, v[i].2))
}

/// `s` with one more figure, if `condition` holds.
pub open spec fn stat_if(
    s: Seq<(Seq<char>, Seq<char>, bool)>,
    condition: bool,
    label: Seq<char>,
    value: Seq<char>,
    rate: bool,
) -> Seq<(Seq<char>, Seq<char>, bool)> {
    if condition {
        s.push((label, value, rate))
    } else {
        s
    }
}

/// The figures worth a headline tile for a run.
pub open spec fn headline(r: BenchmarkRecord) -> Seq<(Seq<char>, Seq<char>, bool)> {
    let m = r.metrics;
    let transfers = record::transfers(r.kind);
    let s = seq![("Elapsed"@, figures::seconds_shown(r.elapsed_ms as nat) + " s"@, false)];
    let s = stat_if(
        s,
        transfers && reading::above_zero(m.avg_download_bps),
        "Average download speed"@,
        figures::bytes_shown(reading::whole_part(m.avg_download_bps)) + "/s"@,
        true,
    );
    let s = stat_if(
        s,
        m.downloaded_bytes > 0,
        "Downloaded"@,
        figures::bytes_shown(m.downloaded_bytes as nat),
        false,
    );
    let s = stat_if(
        s,
        m.patch_savings_bytes > 0,
        "Patch savings"@,
        figures::bytes_shown(m.patch_savings_bytes as nat),
        false,
    );
    let s = stat_if(
        s,
        m.hash_files_total > 0,
        "Files checked"@,
        text::decimal(m.hash_files_total as nat),
        false,
    );
    let s = stat_if(
        s,
        m.hash_files_total > 0 && r.elapsed_ms > 0 && !transfers,
        "Files per second"@,
        figures::per_second_shown(m.hash_files_total as nat, r.elapsed_ms as nat),
        true,
    );
    let s = stat_if(
        s,
        m.pending_updates > 0,
        "Pending updates found"@,
        text::decimal(m.pending_updates as nat),
        false,
    );
    let s = stat_if(s, r.sol_text is Some, "Speed of light"@, r.sol_text->0@, true);
    let s = stat_if(
        s,
        m.peak_memory_bytes > 0,
        "Peak memory"@,
        figures::bytes_shown(m.peak_memory_bytes as nat),
        false,
    );
    stat_if(
        s,
        reading::above_zero(m.avg_cpu_percent),
        record::cpu_title_of(r.machine.cpu_threads),
        m.avg_cpu_share_text@ + "%"@,
        false,
    )
}

/// Adds a figure.
fn add_stat(
    stats: &mut Vec<(&'static str, String, bool)>,
    label: &'static str,
    value: String,
    rate: bool,
)
    ensures
        stat_models(final(stats)@) == stat_models(old(stats)@).push((label@, value@, rate)),
{
    let ghost before = stat_models(stats@);
    let ghost said = value@;
    stats.push((label, value, rate));
    assert(stat_models(stats@) =~= before.push((label@, said, rate)));
}

/// The figures worth a headline tile for this record: caption key, value
/// text and whether it is a rate (accent coloured).
pub fn headline_stats(record: &BenchmarkRecord) -> (r: Vec<(&'static str, String, bool)>)
    ensures
        stat_models(r@) == headline(*record),
{
    let m = &record.metrics;
    let transfers: bool = record.kind.transfers_files();
    let mut stats: Vec<(&'static str, String, bool)> = Vec::new();
    assert(stat_models(stats@) =~= Seq::empty());
    add_stat(
        &mut stats,
        "Elapsed",
        concat(seconds_text(record.elapsed_ms).as_str(), " s"),
        false,
    );
    if transfers && m.avg_download_bps.is_above_zero() {
        let rate: String = concat(fmt_bytes(m.avg_download_bps.to_whole()).as_str(), "/s");
        add_stat(&mut stats, "Average download speed", rate, true);
    }
    if m.downloaded_bytes > 0 {
        add_stat(&mut stats, "Downloaded", fmt_bytes(m.downloaded_bytes), false);
    }
    if m.patch_savings_bytes > 0 {
        add_stat(&mut stats, "Patch savings", fmt_bytes(m.patch_savings_bytes), false);
    }
    if m.hash_files_total > 0 {
        add_stat(&mut stats, "Files checked", decimal_text(m.hash_files_total as u128), false);
        if record.elapsed_ms > 0 && !transfers {
            add_stat(
                &mut stats,
                "Files per second",
                per_second_text(m.hash_files_total, record.elapsed_ms),
                true,
            );
        }
    }
    if m.pending_updates > 0 {
        add_stat(
            &mut stats,
            "Pending updates found",
            decimal_text(m.pending_updates as u128),
            false,
        );
    }
    if let Some(sol) = &record.sol_text {
        add_stat(&mut stats, "Speed of light", sol.clone(), true);
    }
    if m.peak_memory_bytes > 0 {
        add_stat(&mut stats, "Peak memory", fmt_bytes(m.peak_memory_bytes), false);
    }
    if m.avg_cpu_percent.is_above_zero() {
        add_stat(
            &mut stats,
            cpu_title(record),
            concat(m.avg_cpu_share_text.as_str(), "%"),
            false,
        );
    }
    stats
}

// ---------------------------------------------------------------------------
// Metrics
// ---------------------------------------------------------------------------

/// The unit of a figure.
#[derive(Debug, Clone, Copy, PartialEq, Eq, Structural)]
pub enum MetricUnit {
    Bytes,
    BytesPerSec,
    Seconds,
    Count,
    Percent,
}

/// The value of a figure.
#[derive(Debug, Clone, Copy, PartialEq, Eq, Structural)]
pub enum MetricValue {
    /// Milliseconds, shown in seconds.
    Millis(u64),
    Whole(u64),
    Measured(Measure),
}

/// Whether a value is greater than zero.
pub open spec fn value_above_zero(v: MetricValue) -> bool {
    match v {
        MetricValue::Millis(n) => n > 0,
        MetricValue::Whole(n) => n > 0,
        MetricValue::Measured(m) => reading::above_zero(m),
    }
}

/// Whether a value is at most zero.
pub open spec fn value_at_most_zero(v: MetricValue) -> bool {
    match v {
        MetricValue::Millis(n) => n == 0,
        MetricValue::Whole(n) => n == 0,
        MetricValue::Measured(m) => reading::at_most_zero(m),
    }
}

impl MetricValue {
    /// Whether the value is greater than zero.
    pub fn is_above_zero(self) -> (r: bool)
        ensures
            r == value_above_zero(self),
    {
        match self {
            MetricValue::Millis(n) => n > 0,
            MetricValue::Whole(n) => n > 0,
            MetricValue::Measured(m) => m.is_above_zero(),
        }
    }

    /// Whether the value is at most zero.
    pub fn is_at_most_zero(self) -> (r: bool)
        ensures
            r == value_at_most_zero(self),
    {
        match self {
            MetricValue::Millis(n) => n == 0,
            MetricValue::Whole(n) => n == 0,
            MetricValue::Measured(m) => m.is_at_most_zero(),
        }
    }
}

/// A figure of a run.
#[derive(Debug)]
pub struct MetricRow {
    pub label: &'static str,
    pub unit: MetricUnit,
    pub value: MetricValue,
    pub lower_is_better: bool,
}

/// What a figure says.
pub struct MetricModel {
    pub label: Seq<char>,
    pub unit: MetricUnit,
    pub value: MetricValue,
    pub lower_is_better: bool,
}

/// What figures say.
pub open spec fn metric_models(v: Seq<MetricRow>) -> Seq<MetricModel> {
    Seq::new(
        v.len(),
        |i: int|
            MetricModel {
                label: v[i].label@,
                unit: v[i].unit,
                value: v[i].value,
                lower_is_better: v[i].lower_is_better,
            },
    )
}

/// A duration, of which less is better.
pub open spec fn duration(label: Seq<char>, ms: u64) -> MetricModel {
    MetricModel {
        label,
        unit: MetricUnit::Seconds,
        value: MetricValue::Millis(ms),
        lower_is_better: true,
    }
}

/// A size.
pub open spec fn size(label: Seq<char>, bytes: u64, lower_is_better: bool) -> MetricModel {
    MetricModel {
        label,
        unit: MetricUnit::Bytes,
        value: MetricValue::Whole(bytes),
        lower_is_better,
    }
}

/// A number of things.
pub open spec fn count(label: Seq<char>, n: u64) -> MetricModel {
    MetricModel {
        label,
        unit: MetricUnit::Count,
        value: MetricValue::Whole(n),
        lower_is_better: false,
    }
}

/// A rate.
pub open spec fn rate(label: Seq<char>, bps: Measure) -> MetricModel {
    MetricModel {
        label,
        unit: MetricUnit::BytesPerSec,
        value: MetricValue::Measured(bps),
        lower_is_better: false,
    }
}

/// The figures of a run.
pub open spec fn metrics_of(r: BenchmarkRecord) -> Seq<MetricModel> {
    let m = r.metrics;
    seq![
        duration("Elapsed"@, r.elapsed_ms),
        duration("Download stage"@, m.download_stage_ms),
        duration("Hash stage"@, m.hash_stage_ms),
        size("Downloaded"@, m.downloaded_bytes, true),
        size("Planned transfer"@, m.planned_transfer_bytes, true),
        size("Full download size"@, m.full_download_bytes, true),
        size("Patch savings"@, m.patch_savings_bytes, false),
        count("Patched files"@, m.patched_files),
        count("Mods updated"@, m.mods_updated),
        count("Files updated"@, m.files_updated),
        count("Parts updated"@, m.parts_updated),
        rate("Average download speed"@, m.avg_download_bps),
        rate("Peak download speed"@, m.peak_download_bps),
        count("Files checked"@, m.hash_files_total),
        count("Parts checked"@, m.hash_parts_total),
        count("Pending updates found"@, m.pending_updates),
        size("Peak memory"@, m.peak_memory_bytes, true),
        MetricModel {
            label: "Average CPU"@,
            unit: MetricUnit::Percent,
            value: MetricValue::Measured(m.avg_cpu_share),
            lower_is_better: true,
        },
    ]
}

/// Adds a figure.
fn add_metric(
    rows: &mut Vec<MetricRow>,
    label: &'static str,
    unit: MetricUnit,
    value: MetricValue,
    lower_is_better: bool,
)
    ensures
        metric_models(final(rows)@) == metric_models(old(rows)@).push(
            MetricModel { label: label@, unit, value, lower_is_better },
        ),
{
    let ghost before = metric_models(rows@);
    rows.push(MetricRow { label, unit, value, lower_is_better });
    assert(metric_models(rows@) =~= before.push(
        MetricModel { label: label@, unit, value, lower_is_better },
    ));
}

/// Adds a duration.
fn add_duration(rows: &mut Vec<MetricRow>, label: &'static str, ms: u64)
    ensures
        metric_models(final(rows)@) == metric_models(old(rows)@).push(duration(label@, ms)),
{
    add_metric(rows, label, MetricUnit::Seconds, MetricValue::Millis(ms), true);
}

/// Adds a size.
fn add_size(rows: &mut Vec<MetricRow>, label: &'static str, bytes: u64, lower_is_better: bool)
    ensures
        metric_models(final(rows)@) == metric_models(old(rows)@).push(
            size(label@, bytes, lower_is_better),
        ),
{
    add_metric(rows, label, MetricUnit::Bytes, MetricValue::Whole(bytes), lower_is_better);
}

/// Adds a number of things.
fn add_count(rows: &mut Vec<MetricRow>, label: &'static str, n: u64)
    ensures
        metric_models(final(rows)@) == metric_models(old(rows)@).push(count(label@, n)),
{
    add_metric(rows, label, MetricUnit::Count, MetricValue::Whole(n), false);
}

/// Adds a rate.
fn add_rate(rows: &mut Vec<MetricRow>, label: &'static str, bps: Measure)
    ensures
        metric_models(final(rows)@) == metric_models(old(rows)@).push(rate(label@, bps)),
{
    add_metric(rows, label, MetricUnit::BytesPerSec, MetricValue::Measured(bps), false);
}

/// The figures of a run.
pub fn metric_rows(record: &BenchmarkRecord) -> (rows: Vec<MetricRow>)
    ensures
        metric_models(rows@) == metrics_of(*record),
{
    let m = &record.metrics;
    let mut rows: Vec<MetricRow> = Vec::new();
    assert(metric_models(rows@) =~= Seq::empty());
    add_duration(&mut rows, "Elapsed", record.elapsed_ms);
    add_duration(&mut rows, "Download stage", m.download_stage_ms);
    add_duration(&mut rows, "Hash stage", m.hash_stage_ms);
    add_size(&mut rows, "Downloaded", m.downloaded_bytes, true);
    add_size(&mut rows, "Planned transfer", m.planned_transfer_bytes, true);
    add_size(&mut rows, "Full download size", m.full_download_bytes, true);
    add_size(&mut rows, "Patch savings", m.patch_savings_bytes, false);
    add_count(&mut rows, "Patched files", m.patched_files);
    add_count(&mut rows, "Mods updated", m.mods_updated);
    add_count(&mut rows, "Files updated", m.files_updated);
    add_count(&mut rows, "Parts updated", m.parts_updated);
    add_rate(&mut rows, "Average download speed", m.avg_download_bps);
    add_rate(&mut rows, "Peak download speed", m.peak_download_bps);
    add_count(&mut rows, "Files checked", m.hash_files_total);
    add_count(&mut rows, "Parts checked", m.hash_parts_total);
    add_count(&mut rows, "Pending updates found", m.pending_updates);
    add_size(&mut rows, "Peak memory", m.peak_memory_bytes, true);
    add_metric(
        &mut rows,
        "Average CPU",
        MetricUnit::Percent,
        MetricValue::Measured(m.avg_cpu_share),
        true,
    );
    rows
}

/// Whether a figure shows among the results: the time does in any case, the
/// others if they are more than nothing.
pub fn metric_shows(row: &MetricRow) -> (r: bool)
    ensures
        r == (value_above_zero(row.value) || row.label@ == "Elapsed"@),
{
    row.value.is_above_zero() || same_text(row.label, "Elapsed")
}

/// Whether a row of a comparison shows: not if neither run has anything to
/// show in it.
pub fn comparison_shows(a: &MetricRow, b: &MetricRow) -> (r: bool)
    ensures
        r == !(value_at_most_zero(a.value) && value_at_most_zero(b.value)),
{
    !(a.value.is_at_most_zero() && b.value.is_at_most_zero())
}

/// The figures of any two runs stand in the same order, under the same names,
/// in the same units, so that a comparison can put them side by side.
pub proof fn law_metrics_line_up(a: BenchmarkRecord, b: BenchmarkRecord)
    ensures
        metrics_of(a).len() == metrics_of(b).len(),
        forall|i: int|
            0 <= i < metrics_of(a).len() ==> (#[trigger] metrics_of(a)[i]).label == metrics_of(
                b,
            )[i].label && metrics_of(a)[i].unit == metrics_of(b)[i].unit
                && metrics_of(a)[i].lower_is_better == metrics_of(b)[i].lower_is_better,
{
}

// ---------------------------------------------------------------------------
// Outcome
// ---------------------------------------------------------------------------

/// The colour of an outcome.
#[derive(Debug, Clone, Copy, PartialEq, Eq, Structural)]
pub enum OutcomeColor {
    Success,
    Error,
    Dim,
}

/// An outcome in words: the word to be translated, what follows it, and the
/// colour of the dot.
pub open spec fn outcome_shown(o: BenchmarkOutcome) -> (Seq<char>, Seq<char>, OutcomeColor) {
    match o {
        BenchmarkOutcome::Success => ("Success"@, Seq::empty(), OutcomeColor::Success),
        BenchmarkOutcome::Failed { message } => (
            "Failed"@,
            ": "@ + message@,
            OutcomeColor::Error,
        ),
        BenchmarkOutcome::Cancelled => (
            "Operation cancelled"@,
            Seq::empty(),
            OutcomeColor::Dim,
        ),
    }
}

/// An outcome in words.
pub fn outcome_text(o: &BenchmarkOutcome) -> (r: (&'static str, String, OutcomeColor))
    ensures
        (r.0@, r.1@, r.2) == outcome_shown(*o),
{
    match o {
        BenchmarkOutcome::Success => ("Success", String::new(), OutcomeColor::Success),
        BenchmarkOutcome::Failed { message } => (
            "Failed",
            concat(": ", message.as_str()),
            OutcomeColor::Error,
        ),
        BenchmarkOutcome::Cancelled => ("Operation cancelled", String::new(), OutcomeColor::Dim),
    }
}

// ---------------------------------------------------------------------------
// Run and machine
// ---------------------------------------------------------------------------

/// What rows say.
pub open spec fn row_models(v: Seq<(&'static str, Line)>) -> Seq<(Seq<char>, LineModel)> {
    Seq::new(v.len(), |i: int| (v[i].0@, v[i].1@))
}

/// A row that stands as it is.
pub open spec fn plain_row(label: Seq<char>, value: Seq<char>) -> (Seq<char>, LineModel) {
    (label, LineModel::Plain(value))
}

/// A row with a word to be translated.
pub open spec fn keyed_row(label: Seq<char>, word: Seq<char>) -> (Seq<char>, LineModel) {
    (label, LineModel::Keyed(message::plain(word)))
}

/// The rows on the run.
pub open spec fn run_rows_of(r: BenchmarkRecord) -> Seq<(Seq<char>, LineModel)> {
    let s = seq![
        keyed_row("Action"@, record::kind_label(r.kind)),
        plain_row("Started"@, r.started_at_local@),
        plain_row("Finished"@, r.finished_at_local@),
        plain_row("Repository"@, r.repository.name@),
        plain_row("Local path"@, r.repository.local_path@),
    ];
    let s = if r.addons@.len() > 0 {
        s.push(plain_row("Addons"@, text::joined(text::views(r.addons@), ", "@)))
    } else {
        s
    };
    match r.operation_id {
        Some(op) => s.push(plain_row("Operation"@, op@)),
        None => s,
    }
}

/// The rows on the machine.
pub open spec fn machine_rows_of(r: BenchmarkRecord) -> Seq<(Seq<char>, LineModel)> {
    let m = r.machine;
    seq![
        plain_row(
            "Build"@,
            r.build.version@ + " ("@ + r.build.commit@ + ", "@ + r.build.kind@ + ")"@,
        ),
        plain_row("System"@, m.os@),
        plain_row("CPU"@, m.cpu@ + " x"@ + text::decimal(m.cpu_cores as nat)),
        plain_row("RAM"@, figures::bytes_shown(m.total_memory_bytes as nat)),
        plain_row("Repository storage"@, m.repository_storage_class@),
        plain_row("Hash profile"@, m.hash_io_profile@),
        match m.download_speed_limit_mbps {
            Some(limit) => plain_row("Speed limit"@, text::decimal(limit as nat) + " Mb/s"@),
            None => keyed_row("Speed limit"@, "Unlimited"@),
        },
        keyed_row(
            "Extended diagnostics"@,
            if m.extended_diagnostics {
                "Yes"@
            } else {
                "No"@
            },
        ),
    ]
}

/// Adds a row that stands as it is.
fn add_plain(rows: &mut Vec<(&'static str, Line)>, label: &'static str, value: String)
    ensures
        row_models(final(rows)@) == row_models(old(rows)@).push(plain_row(label@, value@)),
{
    let ghost before = row_models(rows@);
    let ghost said = value@;
    rows.push((label, Line::Plain(value)));
    assert(row_models(rows@) =~= before.push(plain_row(label@, said)));
}

/// Adds a row with a word to be translated.
fn add_keyed(rows: &mut Vec<(&'static str, Line)>, label: &'static str, word: &'static str)
    ensures
        row_models(final(rows)@) == row_models(old(rows)@).push(keyed_row(label@, word@)),
{
    let ghost before = row_models(rows@);
    rows.push((label, Line::Keyed(Message::plain(word))));
    assert(row_models(rows@) =~= before.push(keyed_row(label@, word@)));
}

/// The rows on the run.
pub fn run_rows(record: &BenchmarkRecord) -> (rows: Vec<(&'static str, Line)>)
    ensures
        row_models(rows@) == run_rows_of(*record),
{
    let mut rows: Vec<(&'static str, Line)> = Vec::new();
    assert(row_models(rows@) =~= Seq::empty());
    add_keyed(&mut rows, "Action", record.kind.label());
    add_plain(&mut rows, "Started", record.started_at_local.clone());
    add_plain(&mut rows, "Finished", record.finished_at_local.clone());
    add_plain(&mut rows, "Repository", record.repository.name.clone());
    add_plain(&mut rows, "Local path", record.repository.local_path.clone());
    if record.addons.len() > 0 {
        add_plain(&mut rows, "Addons", join(&record.addons, ", "));
    }
    if let Some(op) = &record.operation_id {
        add_plain(&mut rows, "Operation", op.clone());
    }
    rows
}

/// The rows on the machine.
pub fn machine_rows(record: &BenchmarkRecord) -> (rows: Vec<(&'static str, Line)>)
    ensures
        row_models(rows@) == machine_rows_of(*record),
{
    let m = &record.machine;
    let mut rows: Vec<(&'static str, Line)> = Vec::new();
    assert(row_models(rows@) =~= Seq::empty());
    let mut build: String = concat(record.build.version.as_str(), " (");
    build.append(record.build.commit.as_str());
    build.append(", ");
    build.append(record.build.kind.as_str());
    build.append(")");
    add_plain(&mut rows, "Build", build);
    add_plain(&mut rows, "System", m.os.clone());
    let mut cpu: String = concat(m.cpu.as_str(), " x");
    cpu.append(decimal_text(m.cpu_cores as u128).as_str());
    add_plain(&mut rows, "CPU", cpu);
    add_plain(&mut rows, "RAM", fmt_bytes(m.total_memory_bytes));
    add_plain(&mut rows, "Repository storage", m.repository_storage_class.clone());
    add_plain(&mut rows, "Hash profile", m.hash_io_profile.clone());
    match m.download_speed_limit_mbps {
        Some(limit) => add_plain(
            &mut rows,
            "Speed limit",
            concat(decimal_text(limit as u128).as_str(), " Mb/s"),
        ),
        None => add_keyed(&mut rows, "Speed limit", "Unlimited"),
    }
    add_keyed(
        &mut rows,
        "Extended diagnostics",
        if m.extended_diagnostics {
            "Yes"
        } else {
            "No"
        },
    );
    rows
}

// ---------------------------------------------------------------------------
// Notes
// ---------------------------------------------------------------------------

/// Whether notes that are being written differ from the saved ones, so that
/// they can be saved.
pub fn notes_dirty(record: &BenchmarkRecord, draft: &str) -> (r: bool)
    ensures
        r == (draft@ != record.notes@),
{
    !same_text(draft, record.notes.as_str())
}

/// Saves notes, without the white space around them.
pub fn save_notes(record: &mut BenchmarkRecord, draft: &str)
    ensures
        final(record).notes@ == text::trimmed(draft@),
        *final(record) == (BenchmarkRecord { notes: final(record).notes, ..*old(record) }),
{
    record.notes = trim(draft);
}

// ---------------------------------------------------------------------------
// Charts
// ---------------------------------------------------------------------------

/// One of the charts of a record.
#[derive(Debug, Clone, Copy, PartialEq, Eq, Structural)]
pub enum ChartChoice {
    /// The bars of the stages.
    Stages,
    /// A line chart, by its number.
    Lines(usize),
}

/// How many charts a record has: the bars of the stages, if it has any, and
/// its line charts.
pub open spec fn chart_count_of(has_stages: bool, lines: nat) -> nat {
    if has_stages {
        lines + 1
    } else {
        lines
    }
}

/// Chart `index` of a record: the bars of the stages come first.
pub open spec fn chart_at_of(has_stages: bool, lines: nat, index: nat) -> Option<ChartChoice> {
    if has_stages && index == 0 {
        Some(ChartChoice::Stages)
    } else {
        let line = if has_stages {
            index - 1
        } else {
            index as int
        };
        if line < lines {
            Some(ChartChoice::Lines(line as usize))
        } else {
            None
        }
    }
}

/// How many charts a record has.
pub fn chart_count(has_stages: bool, lines: usize) -> (r: usize)
    requires
        lines < usize::MAX,
    ensures
        r == chart_count_of(has_stages, lines as nat),
{
    if has_stages {
        lines + 1
    } else {
        lines
    }
}

/// Chart `index` of a record.
pub fn chart_at(has_stages: bool, lines: usize, index: usize) -> (r: Option<ChartChoice>)
    ensures
        r == chart_at_of(has_stages, lines as nat, index as nat),
{
    if has_stages && index == 0 {
        return Some(ChartChoice::Stages);
    }
    let line: usize = if has_stages {
        index - 1
    } else {
        index
    };
    if line < lines {
        Some(ChartChoice::Lines(line))
    } else {
        None
    }
}

/// There are as many charts as are counted: every number below the count has
/// one, and no other number has.
pub proof fn law_every_counted_chart_is_there(has_stages: bool, lines: nat, index: nat)
    requires
        lines < usize::MAX,
    ensures
        chart_at_of(has_stages, lines, index) is Some <==> index < chart_count_of(
            has_stages,
            lines,
        ),
{
}

// ---------------------------------------------------------------------------
// Speed of light
// ---------------------------------------------------------------------------

/// How close to the light a run came: green near it, amber with headroom, red
/// when most of the time was not the work.
#[derive(Debug, Clone, Copy, PartialEq, Eq, Structural)]
pub enum SolGrade {
    Green,
    Amber,
    Red,
}

/// The bits of 0.85, from which on a ratio is green.
pub const SOL_GREEN_BITS: u64 = 0x3feb_3333_3333_3333;

/// The bits of one half, from which on a ratio is amber.
pub const SOL_AMBER_BITS: u64 = 0x3fe0_0000_0000_0000;

/// The grade of a ratio.
pub fn sol_grade(sol: Measure) -> (r: SolGrade)
    ensures
        r == if reading::at_least(sol, (Measure { bits: SOL_GREEN_BITS })) {
            SolGrade::Green
        } else if reading::at_least(sol, (Measure { bits: SOL_AMBER_BITS })) {
            SolGrade::Amber
        } else {
            SolGrade::Red
        },
{
    if sol.is_at_least(Measure { bits: SOL_GREEN_BITS }) {
        SolGrade::Green
    } else if sol.is_at_least(Measure { bits: SOL_AMBER_BITS }) {
        SolGrade::Amber
    } else {
        SolGrade::Red
    }
}

/// The totals of an operation: its runs, how much it worked through, how long
/// it took and how fast it was, as far as they are known. `run_word` is the
/// translated word for its runs, `took` the duration as text.
pub open spec fn sol_totals_of(
    runs: nat,
    run_word: Seq<char>,
    work_bytes: u64,
    took: Seq<char>,
    actual_bps: Option<Measure>,
) -> Seq<char> {
    let s = seq![text::decimal(runs) + " "@ + run_word];
    let s = if work_bytes > 0 {
        s.push(figures::bytes_shown(work_bytes as nat))
    } else {
        s
    };
    let s = s.push(took);
    let s = match actual_bps {
        Some(bps) => s.push(figures::bytes_shown(reading::whole_part(bps)) + "/s"@),
        None => s,
    };
    text::joined(s, "  \u{00B7}  "@)
}

/// The totals of an operation.
pub fn sol_totals(
    runs: u64,
    run_word: &str,
    work_bytes: u64,
    took: &str,
    actual_bps: Option<Measure>,
) -> (r: String)
    ensures
        r@ == sol_totals_of(runs as nat, run_word@, work_bytes, took@, actual_bps),
{
    let mut parts: Vec<String> = Vec::new();
    let mut head: String = concat(decimal_text(runs as u128).as_str(), " ");
    head.append(run_word);
    let ghost said = seq![head@];
    parts.push(head);
    assert(text::views(parts@) =~= said);
    if work_bytes > 0 {
        let ghost before = text::views(parts@);
        parts.push(fmt_bytes(work_bytes));
        assert(text::views(parts@) =~= before.push(figures::bytes_shown(work_bytes as nat)));
    }
    let ghost before = text::views(parts@);
    parts.push(took.to_owned());
    assert(text::views(parts@) =~= before.push(took@));
    if let Some(bps) = actual_bps {
        let ghost before = text::views(parts@);
        parts.push(concat(fmt_bytes(bps.to_whole()).as_str(), "/s"));
        assert(text::views(parts@) =~= before.push(
            figures::bytes_shown(reading::whole_part(bps)) + "/s"@,
        ));
    }
    join(&parts, "  \u{00B7}  ")
}

/// The word for a number of runs.
pub fn run_word(runs: u64) -> (r: &'static str)
    ensures
        r@ == if runs == 1 {
            "run"@
        } else {
            "runs"@
        },
{
    if runs == 1 {
        "run"
    } else {
        "runs"
    }
}

/// How much a resource worked through, in words.
pub fn sol_work(work_bytes: u64) -> (r: String)
    ensures
        r@ == if work_bytes > 0 {
            figures::bytes_shown(work_bytes as nat)
        } else {
            "n/a"@
        },
{
    if work_bytes > 0 {
        fmt_bytes(work_bytes)
    } else {
        "n/a".to_owned()
    }
}

/// How fast a resource could have been, in words.
pub fn sol_light(light_bps: Option<Measure>) -> (r: String)
    ensures
        r@ == match light_bps {
            Some(bps) => figures::bytes_shown(reading::whole_part(bps)) + "/s"@,
            None => "n/a"@,
        },
{
    match light_bps {
        Some(bps) => concat(fmt_bytes(bps.to_whole()).as_str(), "/s"),
        None => "n/a".to_owned(),
    }
}

/// What stands behind a ratio: where its light comes from, and how much faster
/// it could have been, if that is known. `light_word` and `light_source` are
/// translated, `headroom` is the factor as text.
pub open spec fn sol_hover_of(
    light_word: Seq<char>,
    light_source: Seq<char>,
    headroom: Option<Seq<char>>,
) -> (Seq<char>, Option<MessageModel>) {
    (
        light_word + ": "@ + light_source,
        match headroom {
            Some(factor) => Some(
                message::with_one(
                    "Could be up to {factor}x faster before physics objects."@,
                    "factor"@,
                    factor,
                ),
            ),
            None => None,
        },
    )
}

/// What stands behind a ratio.
pub fn sol_hover(light_word: &str, light_source: &str, headroom: Option<String>) -> (r: (
    String,
    Option<Message>,
))
    ensures
        (
            r.0@,
            match r.1 {
                Some(m) => Some(m@),
                None => None,
            },
        ) == sol_hover_of(light_word@, light_source@, repository::opt_view(headroom)),
{
    let mut s: String = concat(light_word, ": ");
    s.append(light_source);
    match headroom {
        Some(factor) => (
            s,
            Some(one("Could be up to {factor}x faster before physics objects.", "factor", factor)),
        ),
        None => (s, None),
    }
}

/// The build of a run; `word` is the translated word for it.
pub fn sol_build(word: &str, record: &BenchmarkRecord) -> (r: String)
    ensures
        r@ == word@ + " "@ + record.build.version@ + " "@ + record.build.commit@,
{
    let mut s: String = concat(word, " ");
    s.append(record.build.version.as_str());
    s.append(" ");
    s.append(record.build.commit.as_str());
    s
}

/// The heading of the log of a run, if there is one; `word` is the translated
/// word for it.
pub fn log_heading(word: &str, record: &BenchmarkRecord) -> (r: Option<String>)
    ensures
        repository::opt_view(r) == if record.log_file is Some {
            Some(word@ + " ("@ + text::decimal(record.log_line_count as nat) + ")"@)
        } else {
            None
        },
{
    if record.log_file.is_some() {
        let mut s: String = concat(word, " (");
        s.append(decimal_text(record.log_line_count as u128).as_str());
        s.append(")");
        Some(s)
    } else {
        None
    }
}

/// A line of the log that the ratios were read from: its names and values.
pub open spec fn raw_line_of(pairs: Seq<(String, String)>) -> Seq<char> {
    text::joined(Seq::new(pairs.len(), |i: int| pairs[i].0@ + "="@ + pairs[i].1@), "  "@)
}

/// A line of the log that the ratios were read from.
pub fn raw_line(pairs: &Vec<(String, String)>) -> (r: String)
    ensures
        r@ == raw_line_of(pairs@),
{
    let mut parts: Vec<String> = Vec::new();
    let mut i: usize = 0;
    while i < pairs.len()
        invariant
            i <= pairs@.len(),
            text::views(parts@) =~= Seq::new(
                i as nat,
                |j: int| pairs@[j].0@ + "="@ + pairs@[j].1@,
            ),
        decreases pairs@.len() - i,
    {
        let ghost before = text::views(parts@);
        let mut s: String = concat(pairs[i].0.as_str(), "=");
        s.append(pairs[i].1.as_str());
        let ghost said = s@;
        parts.push(s);
        assert(text::views(parts@) =~= before.push(said));
        i = i + 1;
    }
    join(&parts, "  ")
}

} // verus!
