//! What holds of the figures, charts and rows of saved benchmarks.

use vstd::prelude::*;

use crate::figures;
use crate::message;
use crate::message::LineModel;
use crate::repository;
use crate::settings::benchmarks::compare;
use crate::settings::benchmarks::compare::SolOperation;
use crate::settings::benchmarks::detail;
use crate::settings::benchmarks::detail::{
    ChartChoice, MetricModel, MetricUnit, MetricValue, OutcomeColor,
};
use crate::settings::benchmarks::export;
use crate::settings::benchmarks::export::{ExportStep, JobModel};
use crate::settings::benchmarks::filters;
use crate::settings::benchmarks::filters::KnownRepository;
use crate::settings::benchmarks::list;
use crate::settings::benchmarks::list::{BenchmarksView, RowAction, RowEffect};
use crate::settings::benchmarks::reading;
use crate::settings::benchmarks::reading::Measure;
use crate::settings::benchmarks::record;
use crate::settings::benchmarks::record::{
    BenchmarkKind, BenchmarkOutcome, BenchmarkRecord, BenchmarkSample, BenchmarkStage,
};
use crate::settings::benchmarks::series;
use crate::settings::benchmarks::series::{
    BarModel, ChartDef, ChartModel, ChartPoint, ChartValue, Plotted, SeriesModel, YUnit,
};
use crate::text;

verus! {

broadcast use vstd::string::group_string_axioms;

// ---------------------------------------------------------------------------
// Figures
// ---------------------------------------------------------------------------

/// Whether figures hold one under a name, with a unit and a value; `less` says
/// whether less of it is better.
pub open spec fn tells(
    rows: Seq<MetricModel>,
    label: Seq<char>,
    unit: MetricUnit,
    value: MetricValue,
    less: bool,
) -> bool {
    rows.contains(MetricModel { label, unit, value, lower_is_better: less })
}

/// Each figure of a run stands under its own name: durations, of which less is
/// better.
pub proof fn law_durations_stand_under_their_names(r: BenchmarkRecord)
    ensures
        ({
            let rows = detail::metrics_of(r);
            let (s, m) = (MetricUnit::Seconds, r.metrics);
            &&& tells(rows, "Elapsed"@, s, MetricValue::Millis(r.elapsed_ms), true)
            &&& tells(rows, "Download stage"@, s, MetricValue::Millis(m.download_stage_ms), true)
            &&& tells(rows, "Hash stage"@, s, MetricValue::Millis(m.hash_stage_ms), true)
            &&& rows.len() == 18
        }),
{
    let rows = detail::metrics_of(r);
    assert(rows[0] == rows[0] && rows[1] == rows[1] && rows[2] == rows[2]);
}

/// Each figure of a run stands under its own name: sizes and rates. Of what was
/// transferred and of memory less is better, of what was saved and of speed more.
pub proof fn law_sizes_stand_under_their_names(r: BenchmarkRecord)
    ensures
        ({
            let rows = detail::metrics_of(r);
            let (b, m) = (MetricUnit::Bytes, r.metrics);
            let v = MetricUnit::BytesPerSec;
            &&& tells(rows, "Downloaded"@, b, MetricValue::Whole(m.downloaded_bytes), true)
            &&& tells(
                rows,
                "Planned transfer"@,
                b,
                MetricValue::Whole(m.planned_transfer_bytes),
                true,
            )
            &&& tells(
                rows,
                "Full download size"@,
                b,
                MetricValue::Whole(m.full_download_bytes),
                true,
            )
            &&& tells(rows, "Patch savings"@, b, MetricValue::Whole(m.patch_savings_bytes), false)
            &&& tells(rows, "Peak memory"@, b, MetricValue::Whole(m.peak_memory_bytes), true)
            &&& tells(
                rows,
                "Average download speed"@,
                v,
                MetricValue::Measured(m.avg_download_bps),
                false,
            )
            &&& tells(
                rows,
                "Peak download speed"@,
                v,
                MetricValue::Measured(m.peak_download_bps),
                false,
            )
            &&& tells(
                rows,
                "Average CPU"@,
                MetricUnit::Percent,
                MetricValue::Measured(m.avg_cpu_share),
                true,
            )
        }),
{
    let rows = detail::metrics_of(r);
    assert(rows[3] == rows[3] && rows[4] == rows[4] && rows[5] == rows[5] && rows[6] == rows[6]);
    assert(rows[11] == rows[11] && rows[12] == rows[12] && rows[16] == rows[16] && rows[17]
        == rows[17]);
}

/// Each figure of a run stands under its own name: numbers of things.
pub proof fn law_counts_stand_under_their_names(r: BenchmarkRecord)
    ensures
        ({
            let rows = detail::metrics_of(r);
            let (c, m) = (MetricUnit::Count, r.metrics);
            &&& tells(rows, "Patched files"@, c, MetricValue::Whole(m.patched_files), false)
            &&& tells(rows, "Mods updated"@, c, MetricValue::Whole(m.mods_updated), false)
            &&& tells(rows, "Files updated"@, c, MetricValue::Whole(m.files_updated), false)
            &&& tells(rows, "Parts updated"@, c, MetricValue::Whole(m.parts_updated), false)
            &&& tells(rows, "Files checked"@, c, MetricValue::Whole(m.hash_files_total), false)
            &&& tells(rows, "Parts checked"@, c, MetricValue::Whole(m.hash_parts_total), false)
            &&& tells(
                rows,
                "Pending updates found"@,
                c,
                MetricValue::Whole(m.pending_updates),
                false,
            )
        }),
{
    let rows = detail::metrics_of(r);
    assert(rows[7] == rows[7] && rows[8] == rows[8] && rows[9] == rows[9] && rows[10] == rows[10]);
    assert(rows[13] == rows[13] && rows[14] == rows[14] && rows[15] == rows[15]);
}

/// What a figure says of zero: a number above zero is not at most zero, and a
/// whole number or a duration is one or the other.
pub proof fn law_figures_are_above_zero_or_not(v: MetricValue)
    ensures
        !(detail::value_above_zero(v) && detail::value_at_most_zero(v)),
        !(v is Measured) ==> (detail::value_above_zero(v) || detail::value_at_most_zero(v)),
        v == MetricValue::Whole(0) || v == MetricValue::Millis(0) ==> !detail::value_above_zero(v),
{
}

/// The headline tells a figure exactly if there is something to tell, each under
/// its own name; the time it always tells.
pub proof fn law_headline_tells_what_there_is(r: BenchmarkRecord)
    ensures
        ({
            let said = detail::headline(r);
            let m = r.metrics;
            let fetches = r.kind == BenchmarkKind::Update || r.kind == BenchmarkKind::Redownload;
            &&& said.contains(
                ("Elapsed"@, figures::seconds_shown(r.elapsed_ms as nat) + " s"@, false),
            )
            &&& fetches && reading::above_zero(m.avg_download_bps) ==> said.contains(
                (
                    "Average download speed"@,
                    figures::bytes_shown(reading::whole_part(m.avg_download_bps)) + "/s"@,
                    true,
                ),
            )
            &&& m.downloaded_bytes > 0 ==> said.contains(
                ("Downloaded"@, figures::bytes_shown(m.downloaded_bytes as nat), false),
            )
            &&& m.patch_savings_bytes > 0 ==> said.contains(
                ("Patch savings"@, figures::bytes_shown(m.patch_savings_bytes as nat), false),
            )
            &&& m.hash_files_total > 0 ==> said.contains(
                ("Files checked"@, text::decimal(m.hash_files_total as nat), false),
            )
            &&& m.hash_files_total > 0 && r.elapsed_ms > 0 && !fetches ==> said.contains(
                (
                    "Files per second"@,
                    figures::per_second_shown(m.hash_files_total as nat, r.elapsed_ms as nat),
                    true,
                ),
            )
            &&& m.pending_updates > 0 ==> said.contains(
                ("Pending updates found"@, text::decimal(m.pending_updates as nat), false),
            )
            &&& r.sol_text matches Some(t) ==> said.contains(("Speed of light"@, t@, true))
            &&& m.peak_memory_bytes > 0 ==> said.contains(
                ("Peak memory"@, figures::bytes_shown(m.peak_memory_bytes as nat), false),
            )
            &&& reading::above_zero(m.avg_cpu_percent) && r.machine.cpu_threads > 0
                ==> said.contains(("CPU (all cores)"@, m.avg_cpu_share_text@ + "%"@, false))
            &&& reading::above_zero(m.avg_cpu_percent) && r.machine.cpu_threads == 0
                ==> said.contains(("CPU (one core = 100%)"@, m.avg_cpu_share_text@ + "%"@, false))
            &&& said.len() == 1 + one_if(fetches && reading::above_zero(m.avg_download_bps))
                + one_if(m.downloaded_bytes > 0) + one_if(m.patch_savings_bytes > 0) + one_if(
                m.hash_files_total > 0,
            ) + one_if(m.hash_files_total > 0 && r.elapsed_ms > 0 && !fetches) + one_if(
                m.pending_updates > 0,
            ) + one_if(r.sol_text is Some) + one_if(m.peak_memory_bytes > 0) + one_if(
                reading::above_zero(m.avg_cpu_percent),
            )
        }),
{
    let m = r.metrics;
    let transfers = record::transfers(r.kind);
    let s0 = seq![("Elapsed"@, figures::seconds_shown(r.elapsed_ms as nat) + " s"@, false)];
    assert(s0.contains(s0[0]));
    let c1 = transfers && reading::above_zero(m.avg_download_bps);
    let v1 = figures::bytes_shown(reading::whole_part(m.avg_download_bps)) + "/s"@;
    let s1 = detail::stat_if(s0, c1, "Average download speed"@, v1, true);
    lemma_stat_if(s0, c1, "Average download speed"@, v1, true);
    let c2 = m.downloaded_bytes > 0;
    let v2 = figures::bytes_shown(m.downloaded_bytes as nat);
    let s2 = detail::stat_if(s1, c2, "Downloaded"@, v2, false);
    lemma_stat_if(s1, c2, "Downloaded"@, v2, false);
    let c3 = m.patch_savings_bytes > 0;
    let v3 = figures::bytes_shown(m.patch_savings_bytes as nat);
    let s3 = detail::stat_if(s2, c3, "Patch savings"@, v3, false);
    lemma_stat_if(s2, c3, "Patch savings"@, v3, false);
    let c4 = m.hash_files_total > 0;
    let v4 = text::decimal(m.hash_files_total as nat);
    let s4 = detail::stat_if(s3, c4, "Files checked"@, v4, false);
    lemma_stat_if(s3, c4, "Files checked"@, v4, false);
    let c5 = m.hash_files_total > 0 && r.elapsed_ms > 0 && !transfers;
    let v5 = figures::per_second_shown(m.hash_files_total as nat, r.elapsed_ms as nat);
    let s5 = detail::stat_if(s4, c5, "Files per second"@, v5, true);
    lemma_stat_if(s4, c5, "Files per second"@, v5, true);
    let c6 = m.pending_updates > 0;
    let v6 = text::decimal(m.pending_updates as nat);
    let s6 = detail::stat_if(s5, c6, "Pending updates found"@, v6, false);
    lemma_stat_if(s5, c6, "Pending updates found"@, v6, false);
    let s7 = detail::stat_if(s6, r.sol_text is Some, "Speed of light"@, r.sol_text->0@, true);
    lemma_stat_if(s6, r.sol_text is Some, "Speed of light"@, r.sol_text->0@, true);
    let c8 = m.peak_memory_bytes > 0;
    let v8 = figures::bytes_shown(m.peak_memory_bytes as nat);
    let s8 = detail::stat_if(s7, c8, "Peak memory"@, v8, false);
    lemma_stat_if(s7, c8, "Peak memory"@, v8, false);
    let title = record::cpu_title_of(r.machine.cpu_threads);
    let v9 = m.avg_cpu_share_text@ + "%"@;
    lemma_stat_if(s8, reading::above_zero(m.avg_cpu_percent), title, v9, false);
    let c9 = reading::above_zero(m.avg_cpu_percent);
    assert(detail::headline(r) == detail::stat_if(s8, c9, title, v9, false));
}

/// One if a condition holds, nothing otherwise.
pub open spec fn one_if(condition: bool) -> int {
    if condition {
        1
    } else {
        0
    }
}

proof fn lemma_stat_if(
    s: Seq<(Seq<char>, Seq<char>, bool)>,
    condition: bool,
    label: Seq<char>,
    value: Seq<char>,
    rate: bool,
)
    ensures
        ({
            let t = detail::stat_if(s, condition, label, value, rate);
            &&& condition ==> t.contains((label, value, rate))
            &&& forall|x: (Seq<char>, Seq<char>, bool)| #[trigger]
                s.contains(x) ==> t.contains(x)
            &&& t.len() == s.len() + one_if(condition)
        }),
{
    let t = detail::stat_if(s, condition, label, value, rate);
    if condition {
        assert(t[s.len() as int] == (label, value, rate));
    }
    assert forall|x: (Seq<char>, Seq<char>, bool)| #[trigger] s.contains(x) implies t.contains(
        x,
    ) by {
        let k = choose|k: int| 0 <= k < s.len() && s[k] == x;
        assert(t[k] == x);
    }
}

/// An outcome in words: a failure tells its message, and each outcome has its
/// own colour.
pub proof fn law_outcomes_are_told(o: BenchmarkOutcome)
    ensures
        o is Success ==> detail::outcome_shown(o) == (
            "Success"@,
            Seq::<char>::empty(),
            OutcomeColor::Success,
        ),
        o matches BenchmarkOutcome::Failed { message } ==> detail::outcome_shown(o) == (
            "Failed"@,
            ": "@ + message@,
            OutcomeColor::Error,
        ),
        o is Cancelled ==> detail::outcome_shown(o) == (
            "Operation cancelled"@,
            Seq::<char>::empty(),
            OutcomeColor::Dim,
        ),
{
}

/// The rows on a run and on its machine tell each thing under its own name.
pub proof fn law_rows_stand_under_their_names(r: BenchmarkRecord)
    ensures
        ({
            let run = detail::run_rows_of(r);
            &&& run.contains(("Started"@, LineModel::Plain(r.started_at_local@)))
            &&& run.contains(("Finished"@, LineModel::Plain(r.finished_at_local@)))
            &&& run.contains(("Repository"@, LineModel::Plain(r.repository.name@)))
            &&& run.contains(("Local path"@, LineModel::Plain(r.repository.local_path@)))
            &&& run.contains(
                (
                    "Action"@,
                    LineModel::Keyed(
                        message::plain(
                            match r.kind {
                                BenchmarkKind::Recheck => "Recheck"@,
                                BenchmarkKind::Update => "Update"@,
                                BenchmarkKind::Redownload => "Redownload"@,
                            },
                        ),
                    ),
                ),
            )
            &&& r.addons@.len() > 0 ==> run.contains(
                ("Addons"@, LineModel::Plain(text::joined(text::views(r.addons@), ", "@))),
            )
            &&& r.operation_id matches Some(op) ==> run.contains(
                ("Operation"@, LineModel::Plain(op@)),
            )
            &&& run.len() == 5 + one_if(r.addons@.len() > 0) + one_if(r.operation_id is Some)
        }),
        ({
            let rows = detail::machine_rows_of(r);
            let m = r.machine;
            &&& rows.contains(
                (
                    "Build"@,
                    LineModel::Plain(
                        r.build.version@ + " ("@ + r.build.commit@ + ", "@ + r.build.kind@ + ")"@,
                    ),
                ),
            )
            &&& rows.contains(("System"@, LineModel::Plain(m.os@)))
            &&& rows.contains(
                ("CPU"@, LineModel::Plain(m.cpu@ + " x"@ + text::decimal(m.cpu_cores as nat))),
            )
            &&& rows.contains(
                ("RAM"@, LineModel::Plain(figures::bytes_shown(m.total_memory_bytes as nat))),
            )
            &&& rows.contains(("Repository storage"@, LineModel::Plain(m.repository_storage_class@)))
            &&& rows.contains(("Hash profile"@, LineModel::Plain(m.hash_io_profile@)))
            &&& m.download_speed_limit_mbps matches Some(limit) ==> rows.contains(
                ("Speed limit"@, LineModel::Plain(text::decimal(limit as nat) + " Mb/s"@)),
            )
            &&& m.download_speed_limit_mbps is None ==> rows.contains(
                ("Speed limit"@, LineModel::Keyed(message::plain("Unlimited"@))),
            )
            &&& m.extended_diagnostics ==> rows.contains(
                ("Extended diagnostics"@, LineModel::Keyed(message::plain("Yes"@))),
            )
            &&& !m.extended_diagnostics ==> rows.contains(
                ("Extended diagnostics"@, LineModel::Keyed(message::plain("No"@))),
            )
            &&& rows.len() == 8
        }),
{
    let run = detail::run_rows_of(r);
    assert(run[0] == run[0] && run[1] == run[1] && run[2] == run[2] && run[3] == run[3] && run[4]
        == run[4]);
    assert(run[run.len() - 1] == run[run.len() - 1] && run[5] == run[5]);
    let rows = detail::machine_rows_of(r);
    assert(rows[0] == rows[0] && rows[1] == rows[1] && rows[2] == rows[2] && rows[3] == rows[3]);
    assert(rows[4] == rows[4] && rows[5] == rows[5] && rows[6] == rows[6] && rows[7] == rows[7]);
}

/// The bars of the stages come first among the charts; line chart `k` is the
/// chart `k`, or the next one if there are bars.
pub proof fn law_stages_come_first(lines: nat, k: nat)
    requires
        k < lines < usize::MAX,
    ensures
        detail::chart_at_of(true, lines, 0) == Some(ChartChoice::Stages),
        detail::chart_at_of(true, lines, k + 1) == Some(ChartChoice::Lines(k as usize)),
        detail::chart_at_of(false, lines, k) == Some(ChartChoice::Lines(k as usize)),
        detail::chart_count_of(true, lines) == lines + 1,
        detail::chart_count_of(false, lines) == lines,
{
}

// ---------------------------------------------------------------------------
// Charts
// ---------------------------------------------------------------------------

/// What a sample says of what a line plots.
pub open spec fn said_of(s: BenchmarkSample, v: ChartValue, what: Plotted) -> bool {
    match v {
        ChartValue::Measured(m) => {
            ||| what == Plotted::Download && m == s.download_bps
            ||| what == Plotted::DiskWrite && m == s.disk_write_bps
            ||| what == Plotted::Cpu && m == s.cpu_share
            ||| what == Plotted::Progress && m == s.progress_percent
        },
        ChartValue::Whole(n) => {
            ||| what == Plotted::Downloaded && n == s.downloaded_bytes
            ||| what == Plotted::FilesChecked && n == s.hash_files_done
            ||| what == Plotted::Memory && n == s.memory_bytes
        },
    }
}

/// A line has a point for each sample, at its time and with what it says of what
/// is plotted.
pub proof fn law_line_follows_the_samples(
    samples: Seq<BenchmarkSample>,
    what: Plotted,
    i: int,
)
    requires
        0 <= i < samples.len(),
    ensures
        series::points_of(samples, what).len() == samples.len(),
        series::points_of(samples, what)[i].t_ms == samples[i].t_ms,
        said_of(samples[i], series::points_of(samples, what)[i].value, what),
{
}

/// Whether charts hold one with a line.
pub open spec fn plots(
    charts: Seq<ChartModel>,
    key: Seq<char>,
    title: Seq<char>,
    unit: YUnit,
    line: SeriesModel,
) -> bool {
    exists|c: int|
        {
            &&& 0 <= c < charts.len()
            &&& (#[trigger] charts[c]).key == key
            &&& charts[c].title == title
            &&& charts[c].unit == unit
            &&& charts[c].series.contains(line)
        }
}

proof fn lemma_signalling_keeps(lines: Seq<SeriesModel>, i: int)
    requires
        0 <= i < lines.len(),
        series::signals(lines[i].points),
    ensures
        series::signalling(lines).contains(lines[i]),
    decreases lines.len(),
{
    let head = lines.drop_last();
    let kept = series::signalling(lines);
    let part = series::signalling(head);
    if i < head.len() {
        lemma_signalling_keeps(head, i);
        let k = choose|k: int| 0 <= k < part.len() && part[k] == head[i];
        assert(kept[k] == lines[i]);
    } else {
        assert(kept[part.len() as int] == lines[i]);
    }
}

proof fn lemma_with_chart(charts: Seq<ChartModel>, chart: ChartModel, i: int)
    requires
        0 <= i < chart.series.len(),
    ensures
        series::signals(chart.series[i].points) ==> plots(
            series::with_chart(charts, chart),
            chart.key,
            chart.title,
            chart.unit,
            chart.series[i],
        ),
{
    if series::signals(chart.series[i].points) {
        lemma_signalling_keeps(chart.series, i);
        let after = series::with_chart(charts, chart);
        let c = charts.len() as int;
        assert(after[c].series.contains(chart.series[i]));
    }
}

proof fn lemma_with_chart_keeps(
    charts: Seq<ChartModel>,
    chart: ChartModel,
    key: Seq<char>,
    title: Seq<char>,
    unit: YUnit,
    line: SeriesModel,
)
    ensures
        plots(charts, key, title, unit, line) ==> plots(
            series::with_chart(charts, chart),
            key,
            title,
            unit,
            line,
        ),
{
    if plots(charts, key, title, unit, line) {
        let c = choose|c: int|
            {
                &&& 0 <= c < charts.len()
                &&& (#[trigger] charts[c]).key == key
                &&& charts[c].title == title
                &&& charts[c].unit == unit
                &&& charts[c].series.contains(line)
            };
        let after = series::with_chart(charts, chart);
        assert(after[c] == charts[c]);
    }
}

/// The line of a record that plots something.
pub open spec fn line_of(
    r: BenchmarkRecord,
    what: Plotted,
    label: Seq<char>,
    color: nat,
    cumulative: bool,
) -> SeriesModel {
    SeriesModel { label, color, points: series::points_of(r.samples@, what), cumulative }
}

/// Everything that was measured and is more than nothing is plotted, in its own
/// chart, under its own name and in its own unit: transfer and disk rates
/// together, what was downloaded, files, memory, processor and progress each on
/// its own.
pub proof fn law_everything_measured_is_plotted(
    r: BenchmarkRecord,
    prefix: Seq<char>,
    colors: nat,
)
    requires
        colors > 0,
    ensures
        ({
            let charts = series::charts_of(r, prefix, colors);
            let s = |what: Plotted| series::signals(series::points_of(r.samples@, what));
            let cpu = if r.machine.cpu_threads > 0 {
                "CPU (all cores)"@
            } else {
                "CPU (one core = 100%)"@
            };
            &&& s(Plotted::Download) ==> plots(
                charts,
                "rates"@,
                "Transfer rates"@,
                YUnit::BytesPerSec,
                line_of(r, Plotted::Download, prefix + "Download"@, 0nat % colors, false),
            )
            &&& s(Plotted::DiskWrite) ==> plots(
                charts,
                "rates"@,
                "Transfer rates"@,
                YUnit::BytesPerSec,
                line_of(r, Plotted::DiskWrite, prefix + "Disk write"@, 1nat % colors, false),
            )
            &&& s(Plotted::Downloaded) ==> plots(
                charts,
                "downloaded"@,
                "Downloaded"@,
                YUnit::Bytes,
                line_of(r, Plotted::Downloaded, prefix + "Downloaded"@, 0nat % colors, true),
            )
            &&& s(Plotted::FilesChecked) ==> plots(
                charts,
                "hashing"@,
                "Files checked"@,
                YUnit::Count,
                line_of(r, Plotted::FilesChecked, prefix + "Files"@, 2nat % colors, true),
            )
            &&& s(Plotted::Memory) ==> plots(
                charts,
                "memory"@,
                "Process memory"@,
                YUnit::Bytes,
                line_of(r, Plotted::Memory, prefix + "Memory"@, 3nat % colors, false),
            )
            &&& s(Plotted::Cpu) ==> plots(
                charts,
                "cpu"@,
                cpu,
                YUnit::Percent,
                line_of(r, Plotted::Cpu, prefix + "CPU"@, 4nat % colors, false),
            )
            &&& s(Plotted::Progress) ==> plots(
                charts,
                "progress"@,
                "Progress"@,
                YUnit::Percent,
                line_of(r, Plotted::Progress, prefix + "Progress"@, 5nat % colors, true),
            )
        }),
{
    let l1 = line_of(r, Plotted::Download, prefix + "Download"@, 0nat % colors, false);
    let l2 = line_of(r, Plotted::DiskWrite, prefix + "Disk write"@, 1nat % colors, false);
    let l3 = line_of(r, Plotted::Downloaded, prefix + "Downloaded"@, 0nat % colors, true);
    let l4 = line_of(r, Plotted::FilesChecked, prefix + "Files"@, 2nat % colors, true);
    let l5 = line_of(r, Plotted::Memory, prefix + "Memory"@, 3nat % colors, false);
    let l6 = line_of(r, Plotted::Cpu, prefix + "CPU"@, 4nat % colors, false);
    let l7 = line_of(r, Plotted::Progress, prefix + "Progress"@, 5nat % colors, true);
    let cpu = record::cpu_title_of(r.machine.cpu_threads);
    let c1 = ChartModel {
        key: "rates"@,
        title: "Transfer rates"@,
        unit: YUnit::BytesPerSec,
        series: seq![l1, l2],
    };
    let c2 = ChartModel {
        key: "downloaded"@,
        title: "Downloaded"@,
        unit: YUnit::Bytes,
        series: seq![l3],
    };
    let c3 = ChartModel {
        key: "hashing"@,
        title: "Files checked"@,
        unit: YUnit::Count,
        series: seq![l4],
    };
    let c4 = ChartModel {
        key: "memory"@,
        title: "Process memory"@,
        unit: YUnit::Bytes,
        series: seq![l5],
    };
    let c5 = ChartModel { key: "cpu"@, title: cpu, unit: YUnit::Percent, series: seq![l6] };
    let c6 = ChartModel {
        key: "progress"@,
        title: "Progress"@,
        unit: YUnit::Percent,
        series: seq![l7],
    };
    let s0 = Seq::<ChartModel>::empty();
    let s1 = series::with_chart(s0, c1);
    let s2 = series::with_chart(s1, c2);
    let s3 = series::with_chart(s2, c3);
    let s4 = series::with_chart(s3, c4);
    let s5 = series::with_chart(s4, c5);
    let s6 = series::with_chart(s5, c6);
    lemma_with_chart(s0, c1, 0);
    lemma_with_chart(s0, c1, 1);
    lemma_with_chart(s1, c2, 0);
    lemma_with_chart(s2, c3, 0);
    lemma_with_chart(s3, c4, 0);
    lemma_with_chart(s4, c5, 0);
    lemma_with_chart(s5, c6, 0);
    lemma_kept_to_the_end(s1, c2, c3, c4, c5, c6, c1.key, c1.title, c1.unit, l1);
    lemma_kept_to_the_end(s1, c2, c3, c4, c5, c6, c1.key, c1.title, c1.unit, l2);
    lemma_with_chart_keeps(s2, c3, c2.key, c2.title, c2.unit, l3);
    lemma_with_chart_keeps(s3, c4, c2.key, c2.title, c2.unit, l3);
    lemma_with_chart_keeps(s4, c5, c2.key, c2.title, c2.unit, l3);
    lemma_with_chart_keeps(s5, c6, c2.key, c2.title, c2.unit, l3);
    lemma_with_chart_keeps(s3, c4, c3.key, c3.title, c3.unit, l4);
    lemma_with_chart_keeps(s4, c5, c3.key, c3.title, c3.unit, l4);
    lemma_with_chart_keeps(s5, c6, c3.key, c3.title, c3.unit, l4);
    lemma_with_chart_keeps(s4, c5, c4.key, c4.title, c4.unit, l5);
    lemma_with_chart_keeps(s5, c6, c4.key, c4.title, c4.unit, l5);
    lemma_with_chart_keeps(s5, c6, c5.key, c5.title, c5.unit, l6);
    assert(s6 == series::charts_of(r, prefix, colors));
}

proof fn lemma_kept_to_the_end(
    s1: Seq<ChartModel>,
    c2: ChartModel,
    c3: ChartModel,
    c4: ChartModel,
    c5: ChartModel,
    c6: ChartModel,
    key: Seq<char>,
    title: Seq<char>,
    unit: YUnit,
    line: SeriesModel,
)
    ensures
        ({
            let s2 = series::with_chart(s1, c2);
            let s3 = series::with_chart(s2, c3);
            let s4 = series::with_chart(s3, c4);
            let s5 = series::with_chart(s4, c5);
            plots(s1, key, title, unit, line) ==> plots(
                series::with_chart(s5, c6),
                key,
                title,
                unit,
                line,
            )
        }),
{
    let s2 = series::with_chart(s1, c2);
    let s3 = series::with_chart(s2, c3);
    let s4 = series::with_chart(s3, c4);
    let s5 = series::with_chart(s4, c5);
    lemma_with_chart_keeps(s1, c2, key, title, unit, line);
    lemma_with_chart_keeps(s2, c3, key, title, unit, line);
    lemma_with_chart_keeps(s3, c4, key, title, unit, line);
    lemma_with_chart_keeps(s4, c5, key, title, unit, line);
    lemma_with_chart_keeps(s5, c6, key, title, unit, line);
}

// ---------------------------------------------------------------------------
// Stages
// ---------------------------------------------------------------------------

/// How long a stage took is what the first stage of that name says; one that is
/// missing took no time.
pub proof fn law_stage_time_is_that_of_the_first(
    stages: Seq<BenchmarkStage>,
    name: Seq<char>,
    i: int,
)
    ensures
        0 <= i < stages.len() && stages[i].name@ == name && (forall|j: int|
            0 <= j < i ==> (#[trigger] stages[j]).name@ != name) ==> series::stage_seconds(
            stages,
            name,
            0,
        ) == stages[i].seconds,
        (forall|j: int| 0 <= j < stages.len() ==> (#[trigger] stages[j]).name@ != name)
            ==> series::stage_seconds(stages, name, 0) == (Measure { bits: 0 }),
{
    lemma_stage_seconds(stages, name, 0, i);
}

proof fn lemma_stage_seconds(stages: Seq<BenchmarkStage>, name: Seq<char>, from: int, i: int)
    requires
        0 <= from,
    ensures
        from <= i < stages.len() && stages[i].name@ == name && (forall|j: int|
            from <= j < i ==> (#[trigger] stages[j]).name@ != name) ==> series::stage_seconds(
            stages,
            name,
            from,
        ) == stages[i].seconds,
        (forall|j: int| from <= j < stages.len() ==> (#[trigger] stages[j]).name@ != name)
            ==> series::stage_seconds(stages, name, from) == (Measure { bits: 0 }),
    decreases stages.len() - from,
{
    if from < stages.len() {
        lemma_stage_seconds(stages, name, from + 1, i);
        assert(stages[from].name@ == stages[from].name@);
    }
}

/// A stage that took noticeable time in one of the records has a row of bars,
/// with the time that it took in each of them; one that took none has no row.
pub proof fn law_stages_have_their_bars(
    records: Seq<&BenchmarkRecord>,
    names: Seq<Seq<char>>,
    n: int,
    i: int,
)
    requires
        0 <= n < names.len(),
        0 <= i < records.len(),
    ensures
        reading::at_least(
            series::stage_seconds(records[i].stages@, names[n], 0),
            Measure { bits: series::STAGE_FLOOR_BITS },
        ) ==> exists|k: int|
            {
                &&& 0 <= k < series::bars_of(records, names).len()
                &&& (#[trigger] series::bars_of(records, names)[k]).label == names[n]
                &&& series::bars_of(records, names)[k].values.len() == records.len()
                &&& series::bars_of(records, names)[k].values[i] == series::stage_seconds(
                    records[i].stages@,
                    names[n],
                    0,
                )
            },
    decreases names.len(),
{
    let head = names.drop_last();
    let bars = series::bars_of(records, names);
    let part = series::bars_of(records, head);
    let took = series::stage_seconds(records[i].stages@, names[n], 0);
    if reading::at_least(took, Measure { bits: series::STAGE_FLOOR_BITS }) {
        if n < head.len() {
            law_stages_have_their_bars(records, head, n, i);
            let k = choose|k: int|
                {
                    &&& 0 <= k < part.len()
                    &&& (#[trigger] part[k]).label == head[n]
                    &&& part[k].values.len() == records.len()
                    &&& part[k].values[i] == took
                };
            assert(bars[k] == part[k]);
        } else {
            let bar = series::bar_of(records, names[n]);
            assert(bar.values[i] == took);
            assert(series::bar_shows(bar.values));
            assert(bars[part.len() as int] == bar);
        }
    }
}

/// The stages of all records are named, those of one record after those of the
/// one before it.
pub proof fn law_names_of_all_records(records: Seq<&BenchmarkRecord>, n: int, i: int, j: int)
    requires
        0 <= i < n <= records.len(),
        0 <= j < records[i].stages@.len(),
    ensures
        series::all_names(records, n).contains(records[i].stages@[j].name@),
    decreases n,
{
    let all = series::all_names(records, n);
    let head = series::all_names(records, n - 1);
    let name = records[i].stages@[j].name@;
    if i < n - 1 {
        law_names_of_all_records(records, n - 1, i, j);
        let k = choose|k: int| 0 <= k < head.len() && head[k] == name;
        assert(all[k] == name);
    } else {
        assert(all[head.len() + j] == series::stage_names(records[i].stages@)[j]);
    }
}

/// No stage is lost: each name that was seen and does not only enclose others is
/// kept.
pub proof fn law_no_stage_is_lost(names: Seq<Seq<char>>, totals: Seq<Seq<char>>, i: int)
    requires
        0 <= i < names.len(),
        !totals.contains(names[i]),
    ensures
        series::first_seen(names, totals).contains(names[i]),
    decreases names.len(),
{
    let head = names.drop_last();
    let part = series::first_seen(head, totals);
    let all = series::first_seen(names, totals);
    if i < head.len() {
        law_no_stage_is_lost(head, totals, i);
        let k = choose|k: int| 0 <= k < part.len() && part[k] == head[i];
        assert(all[k] == names[i]);
    } else if !part.contains(names[i]) {
        assert(all[part.len() as int] == names[i]);
    }
}

// ---------------------------------------------------------------------------
// Comparison
// ---------------------------------------------------------------------------

/// The card of a compared record tells each thing under its own name.
pub proof fn law_card_tells_the_record(r: BenchmarkRecord)
    ensures
        ({
            let rows = compare::card_rows_of(r);
            &&& rows.contains(("Repository"@, r.repository.name@))
            &&& rows.contains(("Build"@, r.build.version@ + " "@ + r.build.commit@))
            &&& rows.contains(("Repository storage"@, r.machine.repository_storage_class@))
            &&& rows.contains(("Hash profile"@, r.machine.hash_io_profile@))
            &&& rows.contains(
                ("CPU"@, r.machine.cpu@ + " x"@ + text::decimal(r.machine.cpu_cores as nat)),
            )
            &&& rows.len() == 5
        }),
{
    let rows = compare::card_rows_of(r);
    assert(rows[0] == rows[0] && rows[1] == rows[1] && rows[2] == rows[2] && rows[3] == rows[3]
        && rows[4] == rows[4]);
}

proof fn lemma_operation_at(s: Seq<SolOperation>, op: Seq<char>, from: int)
    requires
        0 <= from,
    ensures
        match compare::operation_at(s, op, from) {
            Some(i) => from <= i < s.len() && s[i].op@ == op && forall|j: int|
                from <= j < i ==> (#[trigger] s[j]).op@ != op,
            None => forall|j: int| from <= j < s.len() ==> (#[trigger] s[j]).op@ != op,
        },
    decreases s.len() - from,
{
    if from < s.len() {
        lemma_operation_at(s, op, from + 1);
    }
}

proof fn lemma_part_at(parts: Seq<String>, name: Seq<char>, from: int)
    requires
        0 <= from,
    ensures
        match compare::part_at(parts, name, from) {
            Some(i) => from <= i < parts.len() && parts[i]@ == name && forall|j: int|
                from <= j < i ==> (#[trigger] parts[j])@ != name,
            None => forall|j: int| from <= j < parts.len() ==> (#[trigger] parts[j])@ != name,
        },
    decreases parts.len() - from,
{
    if from < parts.len() {
        lemma_part_at(parts, name, from + 1);
    }
}

/// What a row compares is found in a record under its own name: the first
/// operation of that name, and of a part the first part of that name in it.
pub proof fn law_cells_are_found_by_name(
    s: Seq<SolOperation>,
    op: Seq<char>,
    part: Option<Seq<char>>,
)
    ensures
        match compare::cell_at(s, (op, part)) {
            Some((i, j)) => {
                &&& 0 <= i < s.len()
                &&& s[i].op@ == op
                &&& (j is None <==> part is None)
                &&& part matches Some(name) ==> 0 <= j->0 < s[i].sub_parts@.len()
                    && s[i].sub_parts@[j->0]@ == name
            },
            None => {
                ||| forall|i: int| 0 <= i < s.len() ==> (#[trigger] s[i]).op@ != op
                ||| exists|i: int|
                    {
                        &&& 0 <= i < s.len()
                        &&& (#[trigger] s[i]).op@ == op
                        &&& part matches Some(name) && forall|j: int|
                            0 <= j < s[i].sub_parts@.len() ==> (#[trigger] s[i].sub_parts@[j])@
                                != name
                    }
            },
        },
{
    lemma_operation_at(s, op, 0);
    if let Some(i) = compare::operation_at(s, op, 0) {
        if let Some(name) = part {
            lemma_part_at(s[i].sub_parts@, name, 0);
        }
    }
}

/// The rows of a comparison: each operation gives one for itself and one for
/// each of its parts.
pub proof fn law_operations_give_rows(s: Seq<SolOperation>, n: int, i: int, j: int)
    requires
        0 <= i < n <= s.len(),
        0 <= j < s[i].sub_parts@.len(),
    ensures
        compare::all_rows(s, n).contains((s[i].op@, None)),
        compare::all_rows(s, n).contains((s[i].op@, Some(s[i].sub_parts@[j]@))),
    decreases n,
{
    let all = compare::all_rows(s, n);
    let head = compare::all_rows(s, n - 1);
    let whole = (s[i].op@, None::<Seq<char>>);
    let part = (s[i].op@, Some(s[i].sub_parts@[j]@));
    if i < n - 1 {
        law_operations_give_rows(s, n - 1, i, j);
        let k = choose|k: int| 0 <= k < head.len() && head[k] == whole;
        assert(all[k] == whole);
        let l = choose|l: int| 0 <= l < head.len() && head[l] == part;
        assert(all[l] == part);
    } else {
        assert(all[head.len() as int] == whole);
        assert(all[head.len() + j + 1] == part);
    }
}

/// What is said of the kinds of two ratios: what both say if they agree, what
/// one says if the other says nothing, and otherwise both, A before B.
pub proof fn law_kinds_of_two_ratios(a: Seq<char>, b: Seq<char>)
    ensures
        compare::kind_text_of(a, a) == a,
        compare::kind_text_of(a, Seq::empty()) == a,
        compare::kind_text_of(Seq::empty(), b) == b,
        a != b && a.len() > 0 && b.len() > 0 ==> compare::kind_text_of(a, b) == "A "@ + a
            + "; B "@ + b,
        compare::row_label_of(a, None) == a,
        compare::row_label_of(a, Some(b)) == a + " / "@ + b,
        compare::missing_ratio_of(a, Some(b)) == a + " \u{00B7} raw "@ + b,
        compare::missing_ratio_of(a, None) == a + " \u{00B7} raw n/a"@,
{
    if b.len() == 0 {
        assert(b =~= Seq::empty());
    }
    reveal_strlit(" \u{00B7} raw ");
    reveal_strlit("n/a");
    reveal_strlit(" \u{00B7} raw n/a");
    assert(compare::missing_ratio_of(a, None) =~= a + " \u{00B7} raw n/a"@);
}

proof fn lemma_chart_with(charts: Seq<ChartDef>, key: Seq<char>, from: int)
    requires
        0 <= from,
    ensures
        match compare::chart_with(charts, key, from) {
            Some(i) => from <= i < charts.len() && charts[i].key@ == key && forall|j: int|
                from <= j < i ==> (#[trigger] charts[j]).key@ != key,
            None => forall|j: int| from <= j < charts.len() ==> (#[trigger] charts[j]).key@ != key,
        },
    decreases charts.len() - from,
{
    if from < charts.len() {
        lemma_chart_with(charts, key, from + 1);
    }
}

/// A chart of both records has the lines of the first record, then those of the
/// second, of the charts with its key; where only one record has such a chart,
/// it is that chart.
pub proof fn law_merged_chart_has_the_lines_of_both(
    a: Seq<ChartDef>,
    b: Seq<ChartDef>,
    i: int,
    j: int,
)
    requires
        0 <= i < a.len(),
        0 <= j < b.len(),
        forall|k: int| 0 <= k < i ==> (#[trigger] a[k]).key@ != a[i].key@,
        forall|k: int| 0 <= k < j ==> (#[trigger] b[k]).key@ != b[j].key@,
    ensures
        a[i].key@ == b[j].key@ ==> {
            let c = compare::merged_chart(a, b, a[i].key@);
            &&& c.title == a[i].title@
            &&& c.unit == a[i].unit
            &&& c.series == a[i]@.series + b[j]@.series
        },
        (forall|k: int| 0 <= k < b.len() ==> (#[trigger] b[k]).key@ != a[i].key@) ==> {
            let c = compare::merged_chart(a, b, a[i].key@);
            &&& c.title == a[i].title@
            &&& c.unit == a[i].unit
            &&& c.series == a[i]@.series
        },
        (forall|k: int| 0 <= k < a.len() ==> (#[trigger] a[k]).key@ != b[j].key@) ==> {
            let c = compare::merged_chart(a, b, b[j].key@);
            &&& c.title == b[j].title@
            &&& c.unit == b[j].unit
            &&& c.series == b[j]@.series
        },
{
    lemma_chart_with(a, a[i].key@, 0);
    lemma_chart_with(b, a[i].key@, 0);
    lemma_chart_with(a, b[j].key@, 0);
    lemma_chart_with(b, b[j].key@, 0);
    assert(a[i].key@ == a[i].key@ && b[j].key@ == b[j].key@);
    if let Some(x) = compare::chart_with(a, a[i].key@, 0) {
        assert(x == i) by {
            if x < i {
                assert(a[x].key@ != a[i].key@);
            }
        }
    }
    if let Some(y) = compare::chart_with(b, b[j].key@, 0) {
        assert(y == j) by {
            if y < j {
                assert(b[y].key@ != b[j].key@);
            }
        }
    }
    assert(a[i]@.series + Seq::<SeriesModel>::empty() =~= a[i]@.series);
    assert(Seq::<SeriesModel>::empty() + b[j]@.series =~= b[j]@.series);
}

/// The charts of both records are those that one of them has.
pub proof fn law_merged_charts_are_those_of_either(
    a: Seq<ChartDef>,
    b: Seq<ChartDef>,
    key: Seq<char>,
)
    ensures
        compare::merged_keys(a, b).contains(key) <==> (exists|i: int|
            0 <= i < a.len() && (#[trigger] a[i]).key@ == key) || (exists|j: int|
            0 <= j < b.len() && (#[trigger] b[j]).key@ == key),
    decreases b.len(),
{
    let all = compare::merged_keys(a, b);
    if b.len() == 0 {
        if all.contains(key) {
            let k = choose|k: int| 0 <= k < all.len() && all[k] == key;
            assert(a[k].key@ == key);
        }
        if exists|i: int| 0 <= i < a.len() && (#[trigger] a[i]).key@ == key {
            let i = choose|i: int| 0 <= i < a.len() && (#[trigger] a[i]).key@ == key;
            assert(all[i] == key);
        }
    } else {
        let rest = b.drop_last();
        let head = compare::merged_keys(a, rest);
        law_merged_charts_are_those_of_either(a, rest, key);
        if head.contains(key) {
            let k = choose|k: int| 0 <= k < head.len() && head[k] == key;
            assert(all[k] == key);
        }
        if b.last().key@ == key && !head.contains(key) {
            assert(all[head.len() as int] == key);
        }
        if all.contains(key) {
            let k = choose|k: int| 0 <= k < all.len() && all[k] == key;
            if k < head.len() {
                assert(head[k] == key);
            } else {
                assert(b[b.len() - 1].key@ == key);
            }
        }
        if exists|j: int| 0 <= j < b.len() && (#[trigger] b[j]).key@ == key {
            let j = choose|j: int| 0 <= j < b.len() && (#[trigger] b[j]).key@ == key;
            if j < rest.len() {
                assert(rest[j].key@ == key);
            }
        }
        if exists|j: int| 0 <= j < rest.len() && (#[trigger] rest[j]).key@ == key {
            let j = choose|j: int| 0 <= j < rest.len() && (#[trigger] rest[j]).key@ == key;
            assert(b[j].key@ == key);
        }
    }
}

// ---------------------------------------------------------------------------
// The list
// ---------------------------------------------------------------------------

proof fn lemma_record_from(records: Seq<BenchmarkRecord>, id: Seq<char>, from: int)
    requires
        0 <= from,
    ensures
        match list::record_from(records, id, from) {
            Some(i) => from <= i < records.len() && records[i].id@ == id && forall|j: int|
                from <= j < i ==> (#[trigger] records[j]).id@ != id,
            None => forall|j: int| from <= j < records.len() ==> (#[trigger] records[j]).id@ != id,
        },
    decreases records.len() - from,
{
    if from < records.len() {
        lemma_record_from(records, id, from + 1);
    }
}

/// A click on a star or on the eye of a record switches just that, on the first
/// record with the id; nothing else of it changes, and no other record does.
pub proof fn law_switches_touch_one_record(
    before: BenchmarksView,
    after: BenchmarksView,
    id: Seq<char>,
    action: RowAction,
    i: int,
)
    requires
        list::is_after(before, after, id, action),
        0 <= i < before.records@.len(),
    ensures
        ({
            let was = before.records@[i];
            let now = after.records@[i];
            let hit = was.id@ == id && forall|j: int|
                0 <= j < i ==> (#[trigger] before.records@[j]).id@ != id;
            &&& after.records@.len() == before.records@.len()
            &&& hit && action == RowAction::ToggleFavourite ==> now == (BenchmarkRecord {
                favourite: !was.favourite,
                ..was
            })
            &&& hit && action == RowAction::ToggleHidden ==> now == (BenchmarkRecord {
                hidden: !was.hidden,
                ..was
            })
            &&& !hit ==> now == was
            &&& action != RowAction::ToggleFavourite && action != RowAction::ToggleHidden ==> now
                == was
        }),
{
    lemma_record_from(before.records@, id, 0);
    assert(before.records@[i].id@ == before.records@[i].id@);
}

/// Asking for a removal marks the record and removes nothing; calling it off
/// takes the mark away; no other click touches it. A click on a row opens its
/// details or closes them, and leaves those of the others.
pub proof fn law_removal_is_asked_for_first(
    before: BenchmarksView,
    after: BenchmarksView,
    id: Seq<char>,
    action: RowAction,
    other: Seq<char>,
)
    requires
        list::is_after(before, after, id, action),
    ensures
        after.records@.len() == before.records@.len(),
        action == RowAction::Remove ==> repository::opt_view(after.pending_remove) == Some(id),
        action == RowAction::CancelRemove ==> after.pending_remove is None,
        action != RowAction::Remove && action != RowAction::CancelRemove ==> after.pending_remove
            == before.pending_remove,
        action == RowAction::ToggleExpand ==> (list::holds(after.expanded@, id) <==> !list::holds(
            before.expanded@,
            id,
        )),
        other != id || action != RowAction::ToggleExpand ==> list::holds(after.expanded@, other)
            == list::holds(before.expanded@, other),
        after.selected == before.selected,
{
    lemma_record_from(before.records@, id, 0);
}

/// What a click asks of the outside: stars and eyes are written to disk, only a
/// confirmed removal removes, and asking for one does nothing.
pub proof fn law_effects_of_clicks(action: RowAction)
    ensures
        list::effect_of(action) == RowEffect::Persist <==> action == RowAction::ToggleFavourite
            || action == RowAction::ToggleHidden,
        list::effect_of(action) == RowEffect::Remove <==> action == RowAction::ConfirmRemove,
        list::effect_of(action) == RowEffect::StartExport <==> action == RowAction::Export,
        list::effect_of(action) == RowEffect::ToggleSelected <==> action
            == RowAction::ToggleSelect,
{
}

/// The buttons of a row: while a removal waits for an answer only that can be
/// given; otherwise everything works, but no second export beside a running one.
pub proof fn law_buttons_of_a_row(exporting: bool)
    ensures
        list::buttons_of(true, exporting).contains((RowAction::ConfirmRemove, true)),
        list::buttons_of(true, exporting).contains((RowAction::CancelRemove, true)),
        list::buttons_of(true, exporting).len() == 2,
        list::buttons_of(false, exporting).contains((RowAction::Remove, true)),
        list::buttons_of(false, exporting).contains((RowAction::Export, !exporting)),
        list::buttons_of(false, exporting).contains((RowAction::ToggleHidden, true)),
        list::buttons_of(false, exporting).contains((RowAction::ToggleFavourite, true)),
        list::buttons_of(false, exporting).contains((RowAction::ToggleSelect, true)),
        list::buttons_of(false, exporting).len() == 5,
{
    let a = list::buttons_of(true, exporting);
    assert(a[0] == a[0] && a[1] == a[1]);
    let b = list::buttons_of(false, exporting);
    assert(b[0] == b[0] && b[1] == b[1] && b[2] == b[2] && b[3] == b[3] && b[4] == b[4]);
}

/// The button of the eye offers what would happen, that of the star shows how it
/// is now.
pub proof fn law_buttons_tell_what_they_do(hidden: bool, favourite: bool)
    ensures
        list::button_look(RowAction::ToggleHidden, true, favourite).2 == "Unhide benchmark"@,
        list::button_look(RowAction::ToggleHidden, false, favourite).2 == "Hide benchmark"@,
        list::button_look(RowAction::ToggleFavourite, hidden, true).0 == "\u{2605}"@,
        list::button_look(RowAction::ToggleFavourite, hidden, false).0 == "\u{2606}"@,
        list::button_look(RowAction::Remove, hidden, favourite).2 == "Remove benchmark"@,
        list::button_look(RowAction::ConfirmRemove, hidden, favourite).1 == "Confirm remove"@,
        list::button_look(RowAction::CancelRemove, hidden, favourite).1 == "Cancel"@,
        list::button_look(RowAction::Export, hidden, favourite).1 == "Export"@,
        list::button_look(RowAction::ToggleSelect, hidden, favourite).1 == "Compare"@,
{
}

/// A list without rows says whether nothing was saved or nothing matches, and
/// how to save something.
pub proof fn law_empty_list_tells_why(enabled: bool)
    ensures
        list::empty_state_of(false, enabled) == (
            "No benchmarks match the current filters."@,
            None::<Seq<char>>,
        ),
        list::empty_state_of(true, enabled).0 == "No benchmarks saved yet."@,
        list::empty_state_of(true, true).1 == Some(
            "Run a recheck or update and choose Save benchmark when it finishes."@,
        ),
        list::empty_state_of(true, false).1 == Some(
            "Enable Benchmarks to be offered a save after rechecks and updates."@,
        ),
{
}

/// Hidden records are counted one by one, and the line above the list counts all
/// records, and the hidden ones if there are any.
pub proof fn law_records_are_counted(a: Seq<BenchmarkRecord>, b: Seq<BenchmarkRecord>)
    ensures
        list::hidden_count(a + b) == list::hidden_count(a) + list::hidden_count(b),
        a.len() == 1 ==> list::hidden_count(a) == one_if(a[0].hidden),
        list::hidden_count(Seq::empty()) == 0,
        list::summary_of(a)[0] == message::with_one(
            "{count} saved"@,
            "count"@,
            text::decimal(a.len()),
        ),
        list::hidden_count(a) > 0 ==> list::summary_of(a).len() == 2 && list::summary_of(a)[1]
            == message::with_one(
            "{count} hidden"@,
            "count"@,
            text::decimal(list::hidden_count(a)),
        ),
        list::hidden_count(a) == 0 ==> list::summary_of(a).len() == 1,
    decreases b.len(),
{
    reveal_with_fuel(list::hidden_count, 2);
    if b.len() == 0 {
        assert(a + b =~= a);
    } else {
        law_records_are_counted(a, b.drop_last());
        assert((a + b).drop_last() =~= a + b.drop_last());
        assert((a + b).last() == b.last());
    }
}

/// The selected records are found in the order of the selection; one that is
/// gone is left out.
pub proof fn law_selection_is_found_in_order(
    a: Seq<String>,
    b: Seq<String>,
    id: String,
    records: Seq<BenchmarkRecord>,
    i: int,
)
    ensures
        list::selected_records(a + b, records) == list::selected_records(a, records)
            + list::selected_records(b, records),
        0 <= i < records.len() && records[i].id@ == id@ && (forall|j: int|
            0 <= j < i ==> (#[trigger] records[j]).id@ != id@) ==> list::selected_records(
            seq![id],
            records,
        ) == seq![i],
        (forall|j: int| 0 <= j < records.len() ==> (#[trigger] records[j]).id@ != id@)
            ==> list::selected_records(seq![id], records).len() == 0,
    decreases b.len(),
{
    let one = seq![id];
    assert(one.drop_last() =~= Seq::empty());
    assert(one.last() == id);
    reveal_with_fuel(list::selected_records, 2);
    lemma_record_from(records, id@, 0);
    if 0 <= i < records.len() && records[i].id@ == id@ && (forall|j: int|
        0 <= j < i ==> (#[trigger] records[j]).id@ != id@) {
        assert(records[i].id@ == id@);
        assert(list::record_from(records, id@, 0) == Some(i));
        assert(list::selected_records(one, records) =~= seq![i]);
    }
    if b.len() == 0 {
        assert(a + b =~= a);
        assert(list::selected_records(a, records) + list::selected_records(b, records)
            =~= list::selected_records(a, records));
    } else {
        law_selection_is_found_in_order(a, b.drop_last(), id, records, i);
        assert((a + b).drop_last() =~= a + b.drop_last());
        assert((a + b).last() == b.last());
        assert(list::selected_records(a + b, records) =~= list::selected_records(a, records)
            + list::selected_records(b, records));
    }
}

/// Without the order by date, or if the first selected record is not the newer
/// one, the records are compared in the order of the selection.
pub proof fn law_selection_decides_the_order(v: BenchmarksView, a: int, b: int)
    requires
        v.selected@.len() == 2,
        0 <= a < v.records@.len(),
        0 <= b < v.records@.len(),
        list::record_from(v.records@, v.selected@[0]@, 0) == Some(a),
        list::record_from(v.records@, v.selected@[1]@, 0) == Some(b),
    ensures
        !v.compare_by_date || v.records@[a].started_at <= v.records@[b].started_at
            ==> list::compare_order_of(v) == seq![v.selected@[0]@, v.selected@[1]@],
        v.compare_by_date && v.records@[a].started_at > v.records@[b].started_at
            ==> list::compare_order_of(v) == seq![v.selected@[1]@, v.selected@[0]@],
{
    let order = text::views(v.selected@);
    assert(order =~= seq![v.selected@[0]@, v.selected@[1]@]);
    assert(order.reverse() =~= seq![v.selected@[1]@, v.selected@[0]@]);
}

proof fn lemma_chip_if(
    s: Seq<(Seq<char>, Seq<char>)>,
    condition: bool,
    label: Seq<char>,
    value: Seq<char>,
)
    ensures
        ({
            let t = list::chip_if(s, condition, label, value);
            &&& condition ==> t.contains((label, value))
            &&& forall|x: (Seq<char>, Seq<char>)| #[trigger] s.contains(x) ==> t.contains(x)
            &&& t.len() == s.len() + one_if(condition)
        }),
{
    let t = list::chip_if(s, condition, label, value);
    if condition {
        assert(t[s.len() as int] == (label, value));
    }
    assert forall|x: (Seq<char>, Seq<char>)| #[trigger] s.contains(x) implies t.contains(x) by {
        let k = choose|k: int| 0 <= k < s.len() && s[k] == x;
        assert(t[k] == x);
    }
}

/// The chips of a row tell a figure exactly if there is something to tell, each
/// under its own name; the time they always tell.
pub proof fn law_chips_tell_what_there_is(r: BenchmarkRecord)
    ensures
        ({
            let chips = list::chips_of(r);
            let m = r.metrics;
            let fetches = r.kind == BenchmarkKind::Update || r.kind == BenchmarkKind::Redownload;
            &&& chips.contains(("elapsed"@, figures::seconds_shown(r.elapsed_ms as nat) + " s"@))
            &&& r.hidden ==> chips.contains(("Hidden"@, "\u{1F6AB}"@))
            &&& r.sol_text matches Some(t) ==> chips.contains(("SoL"@, t@))
            &&& fetches && m.downloaded_bytes > 0 ==> chips.contains(
                ("downloaded"@, figures::bytes_shown(m.downloaded_bytes as nat)),
            )
            &&& r.rate matches Some(rate) ==> chips.contains(("avg"@, record::rate_shown(rate)))
            &&& m.hash_files_total > 0 && !fetches ==> chips.contains(
                ("files"@, text::decimal(m.hash_files_total as nat)),
            )
            &&& chips.len() == 1 + one_if(r.hidden) + one_if(r.sol_text is Some) + one_if(
                fetches && m.downloaded_bytes > 0,
            ) + one_if(r.rate is Some) + one_if(m.hash_files_total > 0 && !fetches)
        }),
        r.rate matches Some(rate) ==> {
            &&& rate.unit@ == "B/s"@ ==> record::rate_shown(rate) == figures::bytes_shown(
                reading::whole_part(rate.value),
            ) + "/s"@
            &&& rate.unit@ != "B/s"@ ==> record::rate_shown(rate) == rate.rounded@ + " "@
                + rate.unit@
        },
{
    let m = r.metrics;
    let transfers = record::transfers(r.kind);
    let s0 = Seq::<(Seq<char>, Seq<char>)>::empty();
    let s1 = list::chip_if(s0, r.hidden, "Hidden"@, "\u{1F6AB}"@);
    lemma_chip_if(s0, r.hidden, "Hidden"@, "\u{1F6AB}"@);
    let s2 = list::chip_if(s1, r.sol_text is Some, "SoL"@, r.sol_text->0@);
    lemma_chip_if(s1, r.sol_text is Some, "SoL"@, r.sol_text->0@);
    let c3 = transfers && m.downloaded_bytes > 0;
    let v3 = figures::bytes_shown(m.downloaded_bytes as nat);
    let s3 = list::chip_if(s2, c3, "downloaded"@, v3);
    lemma_chip_if(s2, c3, "downloaded"@, v3);
    let s4 = list::chip_if(s3, r.rate is Some, "avg"@, record::rate_shown(r.rate->0));
    lemma_chip_if(s3, r.rate is Some, "avg"@, record::rate_shown(r.rate->0));
    let c5 = m.hash_files_total > 0 && !transfers;
    let v5 = text::decimal(m.hash_files_total as nat);
    let s5 = list::chip_if(s4, c5, "files"@, v5);
    lemma_chip_if(s4, c5, "files"@, v5);
    let v6 = figures::seconds_shown(r.elapsed_ms as nat) + " s"@;
    lemma_chip_if(s5, true, "elapsed"@, v6);
    assert(list::chips_of(r) == list::chip_if(s5, true, "elapsed"@, v6));
}

/// The line below a record tells its repository and when it ran, and storage and
/// build where they are known; the text over it tells address, id and notes.
pub proof fn law_row_tells_where_and_when(r: BenchmarkRecord)
    ensures
        ({
            let parts = list::meta_parts(r);
            let build = r.build.version@ + " "@ + r.build.commit@;
            &&& parts[0] == r.repository.name@
            &&& parts[1] == r.started_at_local@
            &&& r.machine.repository_storage_class@.len() > 0 ==> parts[2]
                == r.machine.repository_storage_class@
            &&& r.build.version@.len() > 0 ==> parts.last() == build
            &&& parts.len() == 2 + one_if(r.machine.repository_storage_class@.len() > 0) + one_if(
                r.build.version@.len() > 0,
            )
        }),
        text::is_blank(r.notes@) ==> list::hover_of(r) == r.repository.url@ + "\n"@ + r.id@,
        !text::is_blank(r.notes@) ==> list::hover_of(r) == r.repository.url@ + "\n"@ + r.id@
            + "\n"@ + text::trimmed(r.notes@),
        list::first_note(r) is None <==> text::is_blank(r.notes@),
{
}

/// The label of the chosen repository is its name, if it is known.
pub proof fn law_chosen_repository_is_named(
    url: String,
    known: Seq<KnownRepository>,
    i: int,
)
    ensures
        0 <= i < known.len() && known[i].url@ == url@ && (forall|j: int|
            0 <= j < i ==> (#[trigger] known[j]).url@ != url@) ==> filters::repository_label(
            Some(url),
            known,
        ) == LineModel::Plain(known[i].name@),
        (forall|j: int| 0 <= j < known.len() ==> (#[trigger] known[j]).url@ != url@)
            ==> filters::repository_label(Some(url), known) == LineModel::Keyed(
            message::plain("All repositories"@),
        ),
        filters::repository_label(None, known) == LineModel::Keyed(
            message::plain("All repositories"@),
        ),
{
    lemma_name_from(known, url@, 0, i);
}

proof fn lemma_name_from(known: Seq<KnownRepository>, url: Seq<char>, from: int, i: int)
    requires
        0 <= from,
    ensures
        from <= i < known.len() && known[i].url@ == url && (forall|j: int|
            from <= j < i ==> (#[trigger] known[j]).url@ != url) ==> filters::name_from(
            known,
            url,
            from,
        ) == Some(known[i].name@),
        (forall|j: int| from <= j < known.len() ==> (#[trigger] known[j]).url@ != url)
            ==> filters::name_from(known, url, from) is None,
    decreases known.len() - from,
{
    if from < known.len() {
        lemma_name_from(known, url, from + 1, i);
        assert(known[from].url@ == known[from].url@);
    }
}

// ---------------------------------------------------------------------------
// Export
// ---------------------------------------------------------------------------

/// A screenshot that came is kept under the key of the chart that was drawn; if
/// none came in time, or there was nothing in it, the chart is passed over.
/// Before that, nothing is kept and the export stays at its chart.
pub proof fn law_screenshots_are_kept_under_their_chart(
    j: JobModel,
    arrived: bool,
    png: Option<Seq<u8>>,
)
    requires
        j.index < j.count,
    ensures
        ({
            let (next, step) = export::begun(j, arrived, png);
            let over = j.requested && (arrived || j.frames > export::SCREENSHOT_TIMEOUT_FRAMES);
            &&& !over ==> next == j && step == ExportStep::Draw(j.index as usize)
            &&& over ==> next.index == j.index + 1 && next.frames == 0 && !next.requested
                && next.drawn is None && next.id == j.id && next.count == j.count
            &&& over && j.drawn is Some && png is Some ==> next.images == j.images.push(
                (j.drawn->0 + ".png"@, png->0),
            )
            &&& over && (j.drawn is None || png is None) ==> next.images == j.images
            &&& over && j.index + 1 == j.count ==> step == ExportStep::Finish
        }),
        export::begun(JobModel { index: j.count, ..j }, arrived, png).1 == ExportStep::Finish,
{
}

/// A screenshot is asked for once for each chart, when it has been drawn often
/// enough; the export remembers what the frame drew.
pub proof fn law_screenshot_is_asked_for_once(j: JobModel, drawn: Option<Seq<char>>)
    ensures
        ({
            let (next, asks) = export::ended(j, drawn);
            &&& next.frames == j.frames + 1
            &&& next.drawn == drawn
            &&& asks ==> !j.requested && next.requested
            &&& j.requested ==> !asks && next.requested
            &&& !j.requested && j.frames + 1 >= export::SETTLE_FRAMES ==> asks
            &&& !j.requested && j.frames + 1 < export::SETTLE_FRAMES ==> !asks && !next.requested
            &&& next.index == j.index && next.images == j.images && next.id == j.id && next.count
                == j.count
        }),
{
}

} // verus!
