//! Chart series derived from a benchmark record.

use vstd::prelude::*;

use crate::settings::benchmarks::reading;
use crate::settings::benchmarks::reading::Measure;
use crate::settings::benchmarks::record;
use crate::settings::benchmarks::record::{
    cpu_title, BenchmarkRecord, BenchmarkSample, BenchmarkStage,
};
use crate::text;
use crate::text::{concat, same_text};

verus! {

broadcast use vstd::string::group_string_axioms;

// ---------------------------------------------------------------------------
// Line charts
// ---------------------------------------------------------------------------

/// The unit of a chart.
#[derive(Debug, Clone, Copy, PartialEq, Eq, Structural)]
pub enum YUnit {
    Bytes,
    BytesPerSec,
    Percent,
    Count,
}

/// A value in a chart.
#[derive(Debug, Clone, Copy, PartialEq, Eq, Structural)]
pub enum ChartValue {
    Whole(u64),
    Measured(Measure),
}

/// A point of a chart: what was measured, and when.
#[derive(Debug, Clone, Copy, PartialEq, Eq, Structural)]
pub struct ChartPoint {
    pub t_ms: u64,
    pub value: ChartValue,
}

/// A line of a chart.
#[derive(Debug)]
pub struct ChartSeries {
    pub label: String,
    /// The number of the colour.
    pub color: usize,
    /// Sorted by time.
    pub points: Vec<ChartPoint>,
    /// A running total rather than a rate: the mean is meaningless, only
    /// the final value is reported.
    pub cumulative: bool,
}

/// What a line of a chart is.
#[verifier::ext_equal]
pub struct SeriesModel {
    pub label: Seq<char>,
    pub color: nat,
    pub points: Seq<ChartPoint>,
    pub cumulative: bool,
}

impl View for ChartSeries {
    type V = SeriesModel;

    open spec fn view(&self) -> SeriesModel {
        SeriesModel {
            label: self.label@,
            color: self.color as nat,
            points: self.points@,
            cumulative: self.cumulative,
        }
    }
}

impl Clone for ChartSeries {
    fn clone(&self) -> (r: Self)
        ensures
            r@ == self@,
    {
        let points: Vec<ChartPoint> = self.points.clone();
        assert(points@ =~= self.points@);
        ChartSeries {
            label: self.label.clone(),
            color: self.color,
            points,
            cumulative: self.cumulative,
        }
    }
}

/// What the lines of a chart are.
pub open spec fn series_models(v: Seq<ChartSeries>) -> Seq<SeriesModel> {
    Seq::new(v.len(), |i: int| v[i]@)
}

/// One chart of a record: title key, unit and the series it plots.
#[derive(Debug)]
pub struct ChartDef {
    pub key: &'static str,
    pub title: &'static str,
    pub unit: YUnit,
    pub series: Vec<ChartSeries>,
}

/// What a chart is.
#[verifier::ext_equal]
pub struct ChartModel {
    pub key: Seq<char>,
    pub title: Seq<char>,
    pub unit: YUnit,
    pub series: Seq<SeriesModel>,
}

impl View for ChartDef {
    type V = ChartModel;

    open spec fn view(&self) -> ChartModel {
        ChartModel {
            key: self.key@,
            title: self.title@,
            unit: self.unit,
            series: series_models(self.series@),
        }
    }
}

/// What charts are.
pub open spec fn chart_models(v: Seq<ChartDef>) -> Seq<ChartModel> {
    Seq::new(v.len(), |i: int| v[i]@)
}

/// What a line of a chart plots.
#[derive(Debug, Clone, Copy, PartialEq, Eq, Structural)]
pub enum Plotted {
    Download,
    DiskWrite,
    Downloaded,
    FilesChecked,
    Memory,
    Cpu,
    Progress,
}

/// What a sample says of what is plotted.
pub open spec fn sampled(s: BenchmarkSample, what: Plotted) -> ChartValue {
    match what {
        Plotted::Download => ChartValue::Measured(s.download_bps),
        Plotted::DiskWrite => ChartValue::Measured(s.disk_write_bps),
        Plotted::Downloaded => ChartValue::Whole(s.downloaded_bytes),
        Plotted::FilesChecked => ChartValue::Whole(s.hash_files_done),
        Plotted::Memory => ChartValue::Whole(s.memory_bytes),
        Plotted::Cpu => ChartValue::Measured(s.cpu_share),
        Plotted::Progress => ChartValue::Measured(s.progress_percent),
    }
}

/// The points of a line.
pub open spec fn points_of(samples: Seq<BenchmarkSample>, what: Plotted) -> Seq<ChartPoint> {
    Seq::new(
        samples.len(),
        |i: int| ChartPoint { t_ms: samples[i].t_ms, value: sampled(samples[i], what) },
    )
}

/// Whether a value is greater than zero.
pub open spec fn value_above_zero(v: ChartValue) -> bool {
    match v {
        ChartValue::Whole(n) => n > 0,
        ChartValue::Measured(m) => reading::above_zero(m),
    }
}

/// Whether a line shows anything: one of its values is greater than zero.
pub open spec fn signals(points: Seq<ChartPoint>) -> bool {
    exists|i: int| 0 <= i < points.len() && value_above_zero((#[trigger] points[i]).value)
}

/// The lines that show anything, in order.
pub open spec fn signalling(series: Seq<SeriesModel>) -> Seq<SeriesModel>
    decreases series.len(),
{
    if series.len() == 0 {
        Seq::empty()
    } else {
        let head = signalling(series.drop_last());
        if signals(series.last().points) {
            head.push(series.last())
        } else {
            head
        }
    }
}

/// `charts` with one more chart, which keeps the lines that show anything. A
/// chart without any is left out.
pub open spec fn with_chart(charts: Seq<ChartModel>, chart: ChartModel) -> Seq<ChartModel> {
    let left = signalling(chart.series);
    if left.len() == 0 {
        charts
    } else {
        charts.push(ChartModel { series: left, ..chart })
    }
}

/// A line of a chart.
pub open spec fn series_of(
    r: BenchmarkRecord,
    what: Plotted,
    label: Seq<char>,
    color: nat,
    cumulative: bool,
) -> SeriesModel {
    SeriesModel { label, color, points: points_of(r.samples@, what), cumulative }
}

/// The charts of a record, before empty lines are left out. Every label begins
/// with `prefix`; there are `colors` colours.
pub open spec fn charts_of(r: BenchmarkRecord, prefix: Seq<char>, colors: nat) -> Seq<ChartModel> {
    let s = Seq::<ChartModel>::empty();
    let s = with_chart(
        s,
        ChartModel {
            key: "rates"@,
            title: "Transfer rates"@,
            unit: YUnit::BytesPerSec,
            series: seq![
                series_of(r, Plotted::Download, prefix + "Download"@, 0nat % colors, false),
                series_of(r, Plotted::DiskWrite, prefix + "Disk write"@, 1nat % colors, false),
            ],
        },
    );
    let s = with_chart(
        s,
        ChartModel {
            key: "downloaded"@,
            title: "Downloaded"@,
            unit: YUnit::Bytes,
            series: seq![
                series_of(r, Plotted::Downloaded, prefix + "Downloaded"@, 0nat % colors, true),
            ],
        },
    );
    let s = with_chart(
        s,
        ChartModel {
            key: "hashing"@,
            title: "Files checked"@,
            unit: YUnit::Count,
            series: seq![
                series_of(r, Plotted::FilesChecked, prefix + "Files"@, 2nat % colors, true),
            ],
        },
    );
    let s = with_chart(
        s,
        ChartModel {
            key: "memory"@,
            title: "Process memory"@,
            unit: YUnit::Bytes,
            series: seq![series_of(r, Plotted::Memory, prefix + "Memory"@, 3nat % colors, false)],
        },
    );
    let s = with_chart(
        s,
        ChartModel {
            key: "cpu"@,
            title: record::cpu_title_of(r.machine.cpu_threads),
            unit: YUnit::Percent,
            series: seq![series_of(r, Plotted::Cpu, prefix + "CPU"@, 4nat % colors, false)],
        },
    );
    with_chart(
        s,
        ChartModel {
            key: "progress"@,
            title: "Progress"@,
            unit: YUnit::Percent,
            series: seq![series_of(r, Plotted::Progress, prefix + "Progress"@, 5nat % colors, true)],
        },
    )
}

/// What a sample says of what is plotted.
fn sample_value(s: &BenchmarkSample, what: Plotted) -> (r: ChartValue)
    ensures
        r == sampled(*s, what),
{
    match what {
        Plotted::Download => ChartValue::Measured(s.download_bps),
        Plotted::DiskWrite => ChartValue::Measured(s.disk_write_bps),
        Plotted::Downloaded => ChartValue::Whole(s.downloaded_bytes),
        Plotted::FilesChecked => ChartValue::Whole(s.hash_files_done),
        Plotted::Memory => ChartValue::Whole(s.memory_bytes),
        Plotted::Cpu => ChartValue::Measured(s.cpu_share),
        Plotted::Progress => ChartValue::Measured(s.progress_percent),
    }
}

/// The points of a line.
fn points(record: &BenchmarkRecord, what: Plotted) -> (r: Vec<ChartPoint>)
    ensures
        r@ == points_of(record.samples@, what),
{
    let mut out: Vec<ChartPoint> = Vec::new();
    let mut i: usize = 0;
    while i < record.samples.len()
        invariant
            i <= record.samples@.len(),
            out@ =~= points_of(record.samples@, what).take(i as int),
        decreases record.samples@.len() - i,
    {
        let s: &BenchmarkSample = &record.samples[i];
        out.push(ChartPoint { t_ms: s.t_ms, value: sample_value(s, what) });
        i = i + 1;
    }
    assert(out@ =~= points_of(record.samples@, what));
    out
}

impl ChartSeries {
    /// Whether the line shows anything: one of its values is greater than
    /// zero.
    pub fn has_signal(&self) -> (r: bool)
        ensures
            r == signals(self.points@),
    {
        let mut i: usize = 0;
        while i < self.points.len()
            invariant
                i <= self.points@.len(),
                forall|j: int|
                    0 <= j < i ==> !value_above_zero((#[trigger] self.points@[j]).value),
            decreases self.points@.len() - i,
        {
            let above: bool = match self.points[i].value {
                ChartValue::Whole(n) => n > 0,
                ChartValue::Measured(m) => m.is_above_zero(),
            };
            if above {
                assert(value_above_zero(self.points@[i as int].value));
                return true;
            }
            i = i + 1;
        }
        false
    }
}

/// Adds a chart with the lines of `series` that show anything, if there are
/// any.
fn add_chart(
    charts: &mut Vec<ChartDef>,
    key: &'static str,
    title: &'static str,
    unit: YUnit,
    series: Vec<ChartSeries>,
)
    ensures
        chart_models(final(charts)@) == with_chart(
            chart_models(old(charts)@),
            ChartModel { key: key@, title: title@, unit, series: series_models(series@) },
        ),
{
    let ghost all = series_models(series@);
    let ghost before = chart_models(charts@);
    let mut left: Vec<ChartSeries> = Vec::new();
    let mut i: usize = 0;
    proof {
        assert(all.take(0) =~= Seq::empty());
        assert(series_models(left@) =~= Seq::empty());
    }
    while i < series.len()
        invariant
            all == series_models(series@),
            i <= series@.len(),
            series_models(left@) == signalling(all.take(i as int)),
        decreases series@.len() - i,
    {
        proof {
            assert(all.take(i + 1).drop_last() =~= all.take(i as int));
            assert(all.take(i + 1).last() == series@[i as int]@);
        }
        if series[i].has_signal() {
            let ghost kept = series_models(left@);
            let line: ChartSeries = series[i].clone();
            let ghost made = line@;
            left.push(line);
            assert(series_models(left@) =~= kept.push(made));
        }
        i = i + 1;
    }
    assert(all.take(all.len() as int) =~= all);
    if left.len() > 0 {
        let ghost kept = series_models(left@);
        assert(kept.len() > 0);
        let chart: ChartDef = ChartDef { key, title, unit, series: left };
        let ghost made = chart@;
        charts.push(chart);
        assert(chart_models(charts@) =~= before.push(made));
    } else {
        assert(series_models(left@).len() == 0);
    }
}

/// A line of a chart.
fn line(
    record: &BenchmarkRecord,
    what: Plotted,
    prefix: &str,
    label: &str,
    color: usize,
    cumulative: bool,
) -> (r: ChartSeries)
    ensures
        r@ == series_of(*record, what, prefix@ + label@, color as nat, cumulative),
{
    ChartSeries { label: concat(prefix, label), color, points: points(record, what), cumulative }
}

/// The charts for one record, with an optional prefix on every series label
/// (the comparison view prefixes "A: " / "B: "). Colours are numbers below
/// `colors`.
pub fn charts_for(record: &BenchmarkRecord, prefix: &str, colors: usize) -> (r: Vec<ChartDef>)
    requires
        colors > 0,
    ensures
        chart_models(r@) == charts_of(*record, prefix@, colors as nat),
{
    let mut charts: Vec<ChartDef> = Vec::new();
    assert(chart_models(charts@) =~= Seq::empty());
    let download: ChartSeries = line(
        record,
        Plotted::Download,
        prefix,
        "Download",
        0 % colors,
        false,
    );
    let disk: ChartSeries = line(
        record,
        Plotted::DiskWrite,
        prefix,
        "Disk write",
        1 % colors,
        false,
    );
    let ghost rates = seq![download@, disk@];
    let series: Vec<ChartSeries> = vec![download, disk];
    assert(series_models(series@) =~= rates);
    add_chart(&mut charts, "rates", "Transfer rates", YUnit::BytesPerSec, series);
    add_single(
        &mut charts,
        "downloaded",
        "Downloaded",
        YUnit::Bytes,
        line(record, Plotted::Downloaded, prefix, "Downloaded", 0 % colors, true),
    );
    add_single(
        &mut charts,
        "hashing",
        "Files checked",
        YUnit::Count,
        line(record, Plotted::FilesChecked, prefix, "Files", 2 % colors, true),
    );
    add_single(
        &mut charts,
        "memory",
        "Process memory",
        YUnit::Bytes,
        line(record, Plotted::Memory, prefix, "Memory", 3 % colors, false),
    );
    add_single(
        &mut charts,
        "cpu",
        cpu_title(record),
        YUnit::Percent,
        line(record, Plotted::Cpu, prefix, "CPU", 4 % colors, false),
    );
    add_single(
        &mut charts,
        "progress",
        "Progress",
        YUnit::Percent,
        line(record, Plotted::Progress, prefix, "Progress", 5 % colors, true),
    );
    charts
}

/// Adds a chart of one line, if it shows anything.
fn add_single(
    charts: &mut Vec<ChartDef>,
    key: &'static str,
    title: &'static str,
    unit: YUnit,
    series: ChartSeries,
)
    ensures
        chart_models(final(charts)@) == with_chart(
            chart_models(old(charts)@),
            ChartModel { key: key@, title: title@, unit, series: seq![series@] },
        ),
{
    let ghost one = seq![series@];
    let all: Vec<ChartSeries> = vec![series];
    assert(series_models(all@) =~= one);
    add_chart(charts, key, title, unit, all);
}

/// What is left of lines shows something, and so does what is left of charts:
/// no chart that is drawn is empty.
pub proof fn law_no_chart_is_empty(charts: Seq<ChartModel>, chart: ChartModel)
    requires
        forall|c: int| 0 <= c < charts.len() ==> (#[trigger] charts[c]).series.len() > 0,
    ensures
        forall|c: int|
            0 <= c < with_chart(charts, chart).len() ==> (#[trigger] with_chart(
                charts,
                chart,
            )[c]).series.len() > 0,
        forall|i: int|
            0 <= i < signalling(chart.series).len() ==> signals(
                (#[trigger] signalling(chart.series)[i]).points,
            ),
{
    lemma_signalling(chart.series);
}

/// What is left of lines shows something.
proof fn lemma_signalling(series: Seq<SeriesModel>)
    ensures
        forall|i: int|
            0 <= i < signalling(series).len() ==> signals(
                (#[trigger] signalling(series)[i]).points,
            ),
    decreases series.len(),
{
    if series.len() > 0 {
        let head = signalling(series.drop_last());
        lemma_signalling(series.drop_last());
        assert forall|i: int| 0 <= i < signalling(series).len() implies signals(
            (#[trigger] signalling(series)[i]).points,
        ) by {
            if i < head.len() {
                assert(signalling(series)[i] == head[i]);
            }
        }
    }
}

// ---------------------------------------------------------------------------
// Stages
// ---------------------------------------------------------------------------

/// Stages under this many seconds in every record are noise the chart
/// would only render as empty tracks. These are the bits of half a
/// millisecond.
pub const STAGE_FLOOR_BITS: u64 = 0x3f40_624d_d2f1_a9fc;

/// A row of bars.
#[derive(Debug)]
pub struct BarRow {
    pub label: String,
    /// One value per compared record, in legend order.
    pub values: Vec<Measure>,
}

/// What a row of bars is.
#[verifier::ext_equal]
pub struct BarModel {
    pub label: Seq<char>,
    pub values: Seq<Measure>,
}

/// What rows of bars are.
pub open spec fn bar_models(v: Seq<BarRow>) -> Seq<BarModel> {
    Seq::new(v.len(), |i: int| BarModel { label: v[i].label@, values: v[i].values@ })
}

/// The names of stages.
pub open spec fn stage_names(stages: Seq<BenchmarkStage>) -> Seq<Seq<char>> {
    Seq::new(stages.len(), |i: int| stages[i].name@)
}

/// The names of the stages of the first `n` records, one after the other.
pub open spec fn all_names(records: Seq<&BenchmarkRecord>, n: int) -> Seq<Seq<char>>
    decreases n,
{
    if n <= 0 {
        Seq::empty()
    } else {
        all_names(records, n - 1) + stage_names(records[n - 1].stages@)
    }
}

/// Names in the order in which they are first seen, without those that only
/// enclose other stages.
pub open spec fn first_seen(names: Seq<Seq<char>>, totals: Seq<Seq<char>>) -> Seq<Seq<char>>
    decreases names.len(),
{
    if names.len() == 0 {
        Seq::empty()
    } else {
        let head = first_seen(names.drop_last(), totals);
        if head.contains(names.last()) || totals.contains(names.last()) {
            head
        } else {
            head.push(names.last())
        }
    }
}

/// How long the first stage of a name took, from stage `i` on; a stage that is
/// missing took no time.
pub open spec fn stage_seconds(stages: Seq<BenchmarkStage>, name: Seq<char>, i: int) -> Measure
    decreases stages.len() - i,
{
    if i >= stages.len() {
        Measure { bits: 0 }
    } else if stages[i].name@ == name {
        stages[i].seconds
    } else {
        stage_seconds(stages, name, i + 1)
    }
}

/// The row of a stage.
pub open spec fn bar_of(records: Seq<&BenchmarkRecord>, name: Seq<char>) -> BarModel {
    BarModel {
        label: name,
        values: Seq::new(records.len(), |i: int| stage_seconds(records[i].stages@, name, 0)),
    }
}

/// Whether a stage took any time in one of the records.
pub open spec fn bar_shows(values: Seq<Measure>) -> bool {
    exists|i: int|
        0 <= i < values.len() && reading::at_least(
            #[trigger] values[i],
            Measure { bits: STAGE_FLOOR_BITS },
        )
}

/// The rows of stages that took any time, in order.
pub open spec fn bars_of(records: Seq<&BenchmarkRecord>, names: Seq<Seq<char>>) -> Seq<BarModel>
    decreases names.len(),
{
    if names.len() == 0 {
        Seq::empty()
    } else {
        let head = bars_of(records, names.drop_last());
        let bar = bar_of(records, names.last());
        if bar_shows(bar.values) {
            head.push(bar)
        } else {
            head
        }
    }
}

/// Whether a list holds a text.
fn holds_text(list: &Vec<String>, s: &str) -> (r: bool)
    ensures
        r == text::views(list@).contains(s@),
{
    let ghost all = text::views(list@);
    let mut i: usize = 0;
    while i < list.len()
        invariant
            all == text::views(list@),
            i <= list@.len(),
            forall|j: int| 0 <= j < i ==> all[j] != s@,
        decreases list@.len() - i,
    {
        assert(all[i as int] == list@[i as int]@);
        if same_text(list[i].as_str(), s) {
            return true;
        }
        i = i + 1;
    }
    false
}

/// Names in the order in which they are first seen.
fn seen_names(records: &[&BenchmarkRecord], totals: &Vec<String>) -> (r: Vec<String>)
    ensures
        text::views(r@) == first_seen(
            all_names(records@, records@.len() as int),
            text::views(totals@),
        ),
{
    let ghost skipped = text::views(totals@);
    let mut names: Vec<String> = Vec::new();
    let mut n: usize = 0;
    assert(text::views(names@) =~= Seq::empty());
    while n < records.len()
        invariant
            skipped == text::views(totals@),
            n <= records@.len(),
            text::views(names@) == first_seen(all_names(records@, n as int), skipped),
        decreases records@.len() - n,
    {
        let stages: &Vec<BenchmarkStage> = &records[n].stages;
        let ghost earlier = all_names(records@, n as int);
        let ghost own = stage_names(stages@);
        let mut i: usize = 0;
        assert(earlier + own.take(0) =~= earlier);
        while i < stages.len()
            invariant
                skipped == text::views(totals@),
                own == stage_names(stages@),
                i <= stages@.len(),
                text::views(names@) == first_seen(earlier + own.take(i as int), skipped),
            decreases stages@.len() - i,
        {
            let ghost now = earlier + own.take(i + 1);
            let ghost kept = text::views(names@);
            proof {
                assert(now.drop_last() =~= earlier + own.take(i as int));
                assert(now.last() == stages@[i as int].name@);
            }
            let name: &String = &stages[i].name;
            if !holds_text(&names, name.as_str()) && !holds_text(totals, name.as_str()) {
                names.push(name.clone());
                assert(text::views(names@) =~= kept.push(name@));
            }
            i = i + 1;
        }
        assert(own.take(own.len() as int) =~= own);
        n = n + 1;
    }
    names
}

/// How long the first stage of a name took.
fn seconds_of_stage(stages: &Vec<BenchmarkStage>, name: &str) -> (r: Measure)
    ensures
        r == stage_seconds(stages@, name@, 0),
{
    let mut i: usize = 0;
    while i < stages.len()
        invariant
            i <= stages@.len(),
            stage_seconds(stages@, name@, 0) == stage_seconds(stages@, name@, i as int),
        decreases stages@.len() - i,
    {
        if same_text(stages[i].name.as_str(), name) {
            return stages[i].seconds;
        }
        i = i + 1;
    }
    Measure::zero()
}

/// Whether a stage took any time in one of the records.
fn shows_bar(values: &Vec<Measure>) -> (r: bool)
    ensures
        r == bar_shows(values@),
{
    let floor: Measure = Measure { bits: STAGE_FLOOR_BITS };
    let mut i: usize = 0;
    while i < values.len()
        invariant
            floor.bits == STAGE_FLOOR_BITS,
            i <= values@.len(),
            forall|j: int| 0 <= j < i ==> !reading::at_least(#[trigger] values@[j], floor),
        decreases values@.len() - i,
    {
        if values[i].is_at_least(floor) {
            assert(reading::at_least(values@[i as int], floor));
            return true;
        }
        i = i + 1;
    }
    false
}

/// Stage rows for one or two records; a stage missing from a record is 0
/// and a stage that is 0 in every record is left out. `action_totals` names
/// the stages that enclose the others.
pub fn stage_rows(records: &[&BenchmarkRecord], action_totals: &Vec<String>) -> (r: Vec<BarRow>)
    ensures
        bar_models(r@) == bars_of(
            records@,
            first_seen(all_names(records@, records@.len() as int), text::views(action_totals@)),
        ),
{
    let names: Vec<String> = seen_names(records, action_totals);
    let ghost all = text::views(names@);
    let mut rows: Vec<BarRow> = Vec::new();
    let mut i: usize = 0;
    proof {
        assert(all.take(0) =~= Seq::empty());
        assert(bar_models(rows@) =~= Seq::empty());
    }
    while i < names.len()
        invariant
            all == text::views(names@),
            i <= names@.len(),
            bar_models(rows@) == bars_of(records@, all.take(i as int)),
        decreases names@.len() - i,
    {
        let ghost name = names@[i as int]@;
        proof {
            assert(all.take(i + 1).drop_last() =~= all.take(i as int));
            assert(all.take(i + 1).last() == name);
        }
        let mut values: Vec<Measure> = Vec::new();
        let mut n: usize = 0;
        while n < records.len()
            invariant
                i < names@.len(),
                name == names@[i as int]@,
                n <= records@.len(),
                values@ =~= bar_of(records@, name).values.take(n as int),
            decreases records@.len() - n,
        {
            values.push(seconds_of_stage(&records[n].stages, names[i].as_str()));
            n = n + 1;
        }
        assert(values@ =~= bar_of(records@, name).values);
        if shows_bar(&values) {
            let ghost kept = bar_models(rows@);
            rows.push(BarRow { label: names[i].clone(), values });
            assert(bar_models(rows@) =~= kept.push(bar_of(records@, name)));
        }
        i = i + 1;
    }
    assert(all.take(all.len() as int) =~= all);
    rows
}

/// No stage has two rows: names that are first seen are all different, and none
/// of them only encloses others.
pub proof fn law_stages_have_one_row(names: Seq<Seq<char>>, totals: Seq<Seq<char>>)
    ensures
        forall|i: int, j: int|
            0 <= i < j < first_seen(names, totals).len() ==> #[trigger] first_seen(names, totals)[i]
                != #[trigger] first_seen(names, totals)[j],
        forall|i: int|
            0 <= i < first_seen(names, totals).len() ==> !totals.contains(
                #[trigger] first_seen(names, totals)[i],
            ),
    decreases names.len(),
{
    if names.len() > 0 {
        let head = first_seen(names.drop_last(), totals);
        let all = first_seen(names, totals);
        law_stages_have_one_row(names.drop_last(), totals);
        assert forall|i: int, j: int| 0 <= i < j < all.len() implies #[trigger] all[i]
            != #[trigger] all[j] by {
            assert(all[i] == head[i]);
            if j < head.len() {
                assert(all[j] == head[j]);
            } else {
                assert(head.contains(head[i]));
            }
        }
        assert forall|i: int| 0 <= i < all.len() implies !totals.contains(#[trigger] all[i]) by {
            if i < head.len() {
                assert(all[i] == head[i]);
            }
        }
    }
}

} // verus!
