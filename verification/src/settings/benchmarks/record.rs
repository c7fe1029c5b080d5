//! A saved benchmark.

use vstd::prelude::*;

use crate::figures;
use crate::figures::fmt_bytes;
use crate::settings::benchmarks::reading;
use crate::settings::benchmarks::reading::Measure;
use crate::text::{concat, same_text};

verus! {

broadcast use vstd::string::group_string_axioms;

/// What was run.
#[derive(Debug, Clone, Copy, PartialEq, Eq, Structural)]
pub enum BenchmarkKind {
    Recheck,
    Update,
    Redownload,
}

/// Whether a run of a kind transfers files.
pub open spec fn transfers(kind: BenchmarkKind) -> bool {
    kind != BenchmarkKind::Recheck
}

/// The label of a kind.
pub open spec fn kind_label(kind: BenchmarkKind) -> Seq<char> {
    match kind {
        BenchmarkKind::Recheck => "Recheck"@,
        BenchmarkKind::Update => "Update"@,
        BenchmarkKind::Redownload => "Redownload"@,
    }
}

impl BenchmarkKind {
    /// Whether a run of the kind transfers files.
    pub fn transfers_files(self) -> (r: bool)
        ensures
            r == transfers(self),
    {
        self != BenchmarkKind::Recheck
    }

    /// The label of the kind.
    pub fn label(self) -> (r: &'static str)
        ensures
            r@ == kind_label(self),
    {
        match self {
            BenchmarkKind::Recheck => "Recheck",
            BenchmarkKind::Update => "Update",
            BenchmarkKind::Redownload => "Redownload",
        }
    }
}

/// How a run ended.
#[derive(Debug)]
pub enum BenchmarkOutcome {
    Success,
    Failed { message: String },
    Cancelled,
}

/// The repository of a run.
#[derive(Debug, Default)]
pub struct BenchmarkRepository {
    pub name: String,
    pub url: String,
    pub local_path: String,
}

/// The build that ran.
#[derive(Debug, Default)]
pub struct BenchmarkBuild {
    pub version: String,
    pub commit: String,
    pub kind: String,
}

/// The machine that ran.
#[derive(Debug, Default)]
pub struct BenchmarkMachine {
    pub os: String,
    pub cpu: String,
    pub cpu_cores: u32,
    /// Zero if the number of threads is not known.
    pub cpu_threads: u32,
    pub total_memory_bytes: u64,
    pub repository_storage_class: String,
    pub hash_io_profile: String,
    pub download_speed_limit_mbps: Option<u32>,
    pub extended_diagnostics: bool,
}

/// The figures of a run.
#[derive(Debug, Default)]
pub struct BenchmarkMetrics {
    pub download_stage_ms: u64,
    pub hash_stage_ms: u64,
    pub downloaded_bytes: u64,
    pub planned_transfer_bytes: u64,
    pub full_download_bytes: u64,
    pub patch_savings_bytes: u64,
    pub patched_files: u64,
    pub mods_updated: u64,
    pub files_updated: u64,
    pub parts_updated: u64,
    pub avg_download_bps: Measure,
    pub peak_download_bps: Measure,
    pub hash_files_total: u64,
    pub hash_parts_total: u64,
    pub pending_updates: u64,
    pub peak_memory_bytes: u64,
    pub avg_cpu_percent: Measure,
    /// The average in the scale of the title, see `cpu_title`.
    pub avg_cpu_share: Measure,
    /// The same with one decimal, as text.
    pub avg_cpu_share_text: String,
}

/// A stage of a run.
#[derive(Debug)]
pub struct BenchmarkStage {
    pub name: String,
    pub seconds: Measure,
    pub details: String,
}

/// What was measured at one time.
#[derive(Debug, Clone, Copy, Default, PartialEq, Eq, Structural)]
pub struct BenchmarkSample {
    pub t_ms: u64,
    pub download_bps: Measure,
    pub disk_write_bps: Measure,
    pub downloaded_bytes: u64,
    pub hash_files_done: u64,
    pub memory_bytes: u64,
    /// The load in the scale of the title, see `cpu_title`.
    pub cpu_share: Measure,
    pub progress_percent: Measure,
}

/// A rate worth a headline.
#[derive(Debug)]
pub struct HeadlineRate {
    pub value: Measure,
    /// The value without decimals, as text.
    pub rounded: String,
    pub unit: String,
}

/// A rate in words: bytes are shown as a size.
pub open spec fn rate_shown(rate: HeadlineRate) -> Seq<char> {
    if rate.unit@ == "B/s"@ {
        figures::bytes_shown(reading::whole_part(rate.value)) + "/s"@
    } else {
        rate.rounded@ + " "@ + rate.unit@
    }
}

impl HeadlineRate {
    /// The rate in words.
    pub fn text(&self) -> (r: String)
        ensures
            r@ == rate_shown(*self),
    {
        if same_text(self.unit.as_str(), "B/s") {
            concat(fmt_bytes(self.value.to_whole()).as_str(), "/s")
        } else {
            let mut s: String = concat(self.rounded.as_str(), " ");
            s.append(self.unit.as_str());
            s
        }
    }
}

/// A saved benchmark.
#[derive(Debug)]
pub struct BenchmarkRecord {
    pub id: String,
    pub name: String,
    pub notes: String,
    pub kind: BenchmarkKind,
    /// When the run began, for putting runs in order.
    pub started_at: i64,
    pub started_at_local: String,
    pub finished_at_local: String,
    pub elapsed_ms: u64,
    pub outcome: BenchmarkOutcome,
    pub operation_id: Option<String>,
    pub repository: BenchmarkRepository,
    pub addons: Vec<String>,
    pub favourite: bool,
    pub hidden: bool,
    pub build: BenchmarkBuild,
    pub machine: BenchmarkMachine,
    pub metrics: BenchmarkMetrics,
    pub stages: Vec<BenchmarkStage>,
    /// How close the run came to the fastest time possible, as text.
    pub sol_text: Option<String>,
    /// The rate worth a headline.
    pub rate: Option<HeadlineRate>,
    /// The lines of the log that the ratios were read from.
    pub sol: Vec<Vec<(String, String)>>,
    pub samples: Vec<BenchmarkSample>,
    pub log_file: Option<String>,
    pub log_line_count: u64,
}

/// The title of what is said of the processor.
pub open spec fn cpu_title_of(threads: u32) -> Seq<char> {
    if threads > 0 {
        "CPU (all cores)"@
    } else {
        "CPU (one core = 100%)"@
    }
}

/// Chart and metric title for CPU, saying which scale the values use.
pub fn cpu_title(record: &BenchmarkRecord) -> (r: &'static str)
    ensures
        r@ == cpu_title_of(record.machine.cpu_threads),
{
    if record.machine.cpu_threads > 0 {
        "CPU (all cores)"
    } else {
        "CPU (one core = 100%)"
    }
}

} // verus!
