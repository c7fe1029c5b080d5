//! The speed history of a download: its time axis, its lanes, and the sample
//! that the pointer picks.

use vstd::prelude::*;

use crate::figures;
use crate::figures::{fmt_bytes, format_summary_elapsed_seconds};
use crate::message;
use crate::message::{one, Line, LineModel, Message, MessageModel};
use crate::text;
use crate::text::{concat, decimal_text, join};

verus! {

broadcast use vstd::string::group_string_axioms;

/// What a lane of the history shows.
#[derive(Debug, Clone, Copy, PartialEq, Eq, Structural)]
pub enum SummaryGraphValue {
    DownloadMbps,
    DiskWriteMbps,
    HashFilesPerSec,
    CpuPercent,
    MemoryBytes,
}

/// The time that the history spans.
#[derive(Debug, Clone, Copy, PartialEq, Eq, Structural)]
pub struct SummaryGraphScale {
    pub first_ms: u64,
    pub last_ms: u64,
}

/// The time that samples at the given moments span, at least a millisecond.
/// Fewer than two samples make no history.
pub fn graph_scale(elapsed_ms: &Vec<u64>) -> (r: Option<SummaryGraphScale>)
    requires
        elapsed_ms@.len() >= 2 ==> elapsed_ms@[0] < u64::MAX,
    ensures
        r is None <==> elapsed_ms@.len() < 2,
        r matches Some(scale) ==> {
            &&& scale.first_ms == elapsed_ms@[0]
            &&& scale.last_ms == if elapsed_ms@.last() > elapsed_ms@[0] {
                elapsed_ms@.last() as int
            } else {
                elapsed_ms@[0] + 1
            }
        },
{
    let n: usize = elapsed_ms.len();
    if n < 2 {
        return None;
    }
    let first: u64 = elapsed_ms[0];
    let last: u64 = elapsed_ms[n - 1];
    let least: u64 = first + 1;
    Some(
        SummaryGraphScale {
            first_ms: first,
            last_ms: if last > least {
                last
            } else {
                least
            },
        },
    )
}

/// The labels at the beginning, in the middle and at the end of the axis.
pub fn axis_labels(scale: SummaryGraphScale) -> (r: (String, String, String))
    requires
        scale.first_ms < scale.last_ms,
    ensures
        r.0@ == figures::axis_time_shown(scale.first_ms as nat),
        r.1@ == figures::axis_time_shown(
            (scale.first_ms + (scale.last_ms - scale.first_ms) / 2) as nat,
        ),
        r.2@ == figures::axis_time_shown(scale.last_ms as nat),
{
    let middle: u64 = scale.first_ms + ((scale.last_ms - scale.first_ms) / 2);
    (
        format_summary_elapsed_seconds(scale.first_ms),
        format_summary_elapsed_seconds(middle),
        format_summary_elapsed_seconds(scale.last_ms),
    )
}

/// What the lane in a row shows.
pub fn lane_value(row: usize) -> (r: SummaryGraphValue)
    ensures
        r == match row {
            0 => SummaryGraphValue::DownloadMbps,
            1 => SummaryGraphValue::DiskWriteMbps,
            2 => SummaryGraphValue::HashFilesPerSec,
            3 => SummaryGraphValue::CpuPercent,
            _ => SummaryGraphValue::MemoryBytes,
        },
{
    match row {
        0 => SummaryGraphValue::DownloadMbps,
        1 => SummaryGraphValue::DiskWriteMbps,
        2 => SummaryGraphValue::HashFilesPerSec,
        3 => SummaryGraphValue::CpuPercent,
        _ => SummaryGraphValue::MemoryBytes,
    }
}

/// The name of a lane. That of the processor is not translated.
pub fn lane_label(value: SummaryGraphValue) -> (r: &'static str)
    ensures
        r@ == match value {
            SummaryGraphValue::DownloadMbps => "Download speed"@,
            SummaryGraphValue::DiskWriteMbps => "Disk write speed"@,
            SummaryGraphValue::HashFilesPerSec => "Hash files/s"@,
            SummaryGraphValue::CpuPercent => "CPU"@,
            SummaryGraphValue::MemoryBytes => "Memory"@,
        },
{
    match value {
        SummaryGraphValue::DownloadMbps => "Download speed",
        SummaryGraphValue::DiskWriteMbps => "Disk write speed",
        SummaryGraphValue::HashFilesPerSec => "Hash files/s",
        SummaryGraphValue::CpuPercent => "CPU",
        SummaryGraphValue::MemoryBytes => "Memory",
    }
}

/// The colour of a lane.
#[derive(Debug, Clone, Copy, PartialEq, Eq, Structural)]
pub enum LaneColor {
    Accent,
    Success,
    Text,
    Warn,
    Info,
}

/// The colour of a lane.
pub fn lane_color(value: SummaryGraphValue) -> (r: LaneColor)
    ensures
        r == match value {
            SummaryGraphValue::DownloadMbps => LaneColor::Accent,
            SummaryGraphValue::DiskWriteMbps => LaneColor::Success,
            SummaryGraphValue::HashFilesPerSec => LaneColor::Text,
            SummaryGraphValue::CpuPercent => LaneColor::Warn,
            SummaryGraphValue::MemoryBytes => LaneColor::Info,
        },
{
    match value {
        SummaryGraphValue::DownloadMbps => LaneColor::Accent,
        SummaryGraphValue::DiskWriteMbps => LaneColor::Success,
        SummaryGraphValue::HashFilesPerSec => LaneColor::Text,
        SummaryGraphValue::CpuPercent => LaneColor::Warn,
        SummaryGraphValue::MemoryBytes => LaneColor::Info,
    }
}

// ---------------------------------------------------------------------------
// Picking a sample
// ---------------------------------------------------------------------------

/// How far the mark of a sample is from the pointer, and whether the sample has
/// a value in the lane. The distance is an integer that orders as the distance
/// on the screen does.
#[derive(Debug, Clone, Copy, PartialEq, Eq, Structural)]
pub struct SampleMark {
    pub distance: u32,
    pub has_value: bool,
}

/// Whether a sample counts: with `need_value`, only if it has a value.
pub open spec fn counts(marks: Seq<SampleMark>, need_value: bool, j: int) -> bool {
    0 <= j < marks.len() && (need_value ==> marks[j].has_value)
}

/// Whether sample `i` is the first of the nearest ones that count.
pub open spec fn is_nearest(marks: Seq<SampleMark>, need_value: bool, i: int) -> bool {
    &&& counts(marks, need_value, i)
    &&& forall|j: int| #[trigger]
        counts(marks, need_value, j) ==> marks[i].distance <= marks[j].distance && (j < i
            ==> marks[i].distance < marks[j].distance)
}

/// The first of the samples nearest to the pointer; with `need_value`, of those
/// that have a value in the lane.
pub fn nearest_mark(marks: &Vec<SampleMark>, need_value: bool) -> (r: Option<usize>)
    ensures
        r is Some ==> is_nearest(marks@, need_value, r->0 as int),
        r is None ==> (need_value || marks@.len() == 0) && forall|j: int|
            0 <= j < marks@.len() ==> !(#[trigger] marks@[j]).has_value,
{
    let mut best: Option<usize> = None;
    let mut i: usize = 0;
    while i < marks.len()
        invariant
            i <= marks@.len(),
            match best {
                Some(b) => b < i && counts(marks@, need_value, b as int) && (forall|j: int|
                    j < i && #[trigger] counts(marks@, need_value, j)
                        ==> marks@[b as int].distance <= marks@[j].distance && (j < b
                        ==> marks@[b as int].distance < marks@[j].distance)),
                None => forall|j: int| j < i ==> !#[trigger] counts(marks@, need_value, j),
            },
        decreases marks@.len() - i,
    {
        if !need_value || marks[i].has_value {
            assert(counts(marks@, need_value, i as int));
            let better: bool = match best {
                Some(b) => marks[i].distance < marks[b].distance,
                None => true,
            };
            if better {
                best = Some(i);
            }
        }
        i = i + 1;
    }
    match best {
        Some(b) => {
            assert forall|j: int| #[trigger] counts(marks@, need_value, j) implies marks@[b as int].distance
                <= marks@[j].distance && (j < b ==> marks@[b as int].distance
                < marks@[j].distance) by {
                assert(j < i);
            }
            Some(b)
        },
        None => {
            assert forall|j: int| 0 <= j < marks@.len() implies !(#[trigger] marks@[j]).has_value by {
                assert(!counts(marks@, need_value, j));
            }
            proof {
                if marks@.len() > 0 {
                    assert(!counts(marks@, need_value, 0));
                }
            }
            None
        },
    }
}

/// The sample that the pointer picks.
pub fn nearest_summary_sample_index(marks: &Vec<SampleMark>) -> (r: usize)
    ensures
        marks@.len() == 0 ==> r == 0,
        marks@.len() > 0 ==> is_nearest(marks@, false, r as int),
{
    let r: Option<usize> = nearest_mark(marks, false);
    match r {
        Some(i) => i,
        None => {
            proof {
                if marks@.len() > 0 {
                    assert(!marks@[0].has_value);
                }
            }
            0
        },
    }
}

/// The sample that the pointer picks among those with a value in the lane, or
/// else the one that it picks among all.
pub fn lane_sample_index(marks: &Vec<SampleMark>) -> (r: usize)
    ensures
        marks@.len() == 0 ==> r == 0,
        marks@.len() > 0 ==> {
            ||| is_nearest(marks@, true, r as int)
            ||| (forall|j: int| 0 <= j < marks@.len() ==> !(#[trigger] marks@[j]).has_value)
                && is_nearest(marks@, false, r as int)
        },
{
    match nearest_mark(marks, true) {
        Some(i) => i,
        None => nearest_summary_sample_index(marks),
    }
}

/// A pointer picks one sample: no two are the first of the nearest.
pub proof fn law_pointer_picks_one_sample(marks: Seq<SampleMark>, need_value: bool, i: int, j: int)
    requires
        is_nearest(marks, need_value, i),
        is_nearest(marks, need_value, j),
    ensures
        i == j,
{
    assert(counts(marks, need_value, i));
    assert(counts(marks, need_value, j));
}

// ---------------------------------------------------------------------------
// Drawing a lane
// ---------------------------------------------------------------------------

/// How the values of a lane are drawn.
#[derive(Debug, Clone, Copy, PartialEq, Eq, Structural)]
pub enum LaneShape {
    /// Nothing was measured.
    Empty,
    /// One value: a dot at this sample.
    Dot(usize),
    /// A line through the values.
    Line,
}

/// How many samples have a value in the lane.
pub open spec fn value_count(marks: Seq<SampleMark>) -> nat
    decreases marks.len(),
{
    if marks.len() == 0 {
        0
    } else {
        value_count(marks.drop_last()) + if marks.last().has_value {
            1nat
        } else {
            0nat
        }
    }
}

/// How the values of a lane are drawn.
pub fn lane_shape(marks: &Vec<SampleMark>) -> (r: LaneShape)
    ensures
        match r {
            LaneShape::Empty => value_count(marks@) == 0,
            LaneShape::Dot(i) => value_count(marks@) == 1 && i < marks@.len()
                && marks@[i as int].has_value,
            LaneShape::Line => value_count(marks@) >= 2,
        },
{
    let mut count: usize = 0;
    let mut first: usize = 0;
    let mut i: usize = 0;
    assert(marks@.take(0) =~= Seq::empty());
    while i < marks.len()
        invariant
            i <= marks@.len(),
            count <= i,
            count == value_count(marks@.take(i as int)),
            count > 0 ==> first < i && marks@[first as int].has_value,
        decreases marks@.len() - i,
    {
        proof {
            assert(marks@.take(i + 1).drop_last() =~= marks@.take(i as int));
            assert(marks@.take(i + 1).last() == marks@[i as int]);
        }
        if marks[i].has_value {
            if count == 0 {
                first = i;
            }
            count = count + 1;
        }
        i = i + 1;
    }
    assert(marks@.take(marks@.len() as int) =~= marks@);
    if count == 0 {
        LaneShape::Empty
    } else if count == 1 {
        LaneShape::Dot(first)
    } else {
        LaneShape::Line
    }
}

/// Whether the picked sample is marked in the lane: only if it has a value.
pub fn lane_marks_sample(marks: &Vec<SampleMark>, selected: usize) -> (r: bool)
    ensures
        r == (selected < marks@.len() && marks@[selected as int].has_value),
{
    selected < marks.len() && marks[selected].has_value
}

/// A line of the tooltip: what a lane shows at the picked sample. `word` is the
/// translated name of the lane.
pub open spec fn tooltip_line_of(
    value: SummaryGraphValue,
    word: Seq<char>,
    shown: Seq<char>,
) -> LineModel {
    match value {
        SummaryGraphValue::DownloadMbps => LineModel::Keyed(
            message::with_one("Download: {speed}"@, "speed"@, shown),
        ),
        SummaryGraphValue::DiskWriteMbps => LineModel::Keyed(
            message::with_one("Disk write: {speed}"@, "speed"@, shown),
        ),
        SummaryGraphValue::HashFilesPerSec => LineModel::Keyed(
            message::with_one("Hash files: {speed}"@, "speed"@, shown),
        ),
        SummaryGraphValue::CpuPercent => LineModel::Plain("CPU: "@ + shown),
        SummaryGraphValue::MemoryBytes => LineModel::Plain(word + ": "@ + shown),
    }
}

/// A line of the tooltip.
pub fn tooltip_line(value: SummaryGraphValue, word: &str, shown: String) -> (r: Line)
    ensures
        r@ == tooltip_line_of(value, word@, shown@),
{
    match value {
        SummaryGraphValue::DownloadMbps => Line::Keyed(one("Download: {speed}", "speed", shown)),
        SummaryGraphValue::DiskWriteMbps => Line::Keyed(
            one("Disk write: {speed}", "speed", shown),
        ),
        SummaryGraphValue::HashFilesPerSec => Line::Keyed(
            one("Hash files: {speed}", "speed", shown),
        ),
        SummaryGraphValue::CpuPercent => Line::Plain(concat("CPU: ", shown.as_str())),
        SummaryGraphValue::MemoryBytes => {
            let mut s: String = concat(word, ": ");
            s.append(shown.as_str());
            Line::Plain(s)
        },
    }
}

/// The lines of the tooltip, one under the other.
pub fn tooltip_text(lines: &Vec<String>) -> (r: String)
    ensures
        r@ == text::joined(text::views(lines@), "\n"@),
{
    join(lines, "\n")
}

/// The figures of a download.
#[derive(Debug, Clone, Copy, PartialEq, Eq, Structural)]
pub struct DownloadFigures {
    pub mods_updated: u64,
    pub files_updated: u64,
    pub parts_updated: u64,
}

/// The line beside the heading of the summary.
pub fn updated_line(f: DownloadFigures) -> (r: Message)
    ensures
        r@ == (MessageModel {
            key: "Updated: {mods} mods, {files} files, {parts} parts"@,
            args: seq![
                ("mods"@, text::decimal(f.mods_updated as nat)),
                ("files"@, text::decimal(f.files_updated as nat)),
                ("parts"@, text::decimal(f.parts_updated as nat)),
            ],
        }),
{
    let m: Message = Message::plain("Updated: {mods} mods, {files} files, {parts} parts");
    let m: Message = m.with("mods", decimal_text(f.mods_updated as u128));
    let m: Message = m.with("files", decimal_text(f.files_updated as u128));
    let m: Message = m.with("parts", decimal_text(f.parts_updated as u128));
    assert(m@.args =~= seq![
        ("mods"@, text::decimal(f.mods_updated as nat)),
        ("files"@, text::decimal(f.files_updated as nat)),
        ("parts"@, text::decimal(f.parts_updated as nat)),
    ]);
    m
}

/// The sizes of a download, and its speed and durations as texts.
#[derive(Debug)]
pub struct SummaryTexts {
    pub planned_bytes: u64,
    pub downloaded_bytes: u64,
    pub average_speed: String,
    pub cumulative_hash: String,
    pub after_download_hash: String,
    pub download_stage: String,
    /// The download stage and the hashing after it together.
    pub total: String,
}

/// The lines of the summary, two for each of its columns.
pub open spec fn summary_lines_of(s: SummaryTexts) -> Seq<MessageModel> {
    seq![
        message::with_one(
            "Planned transfer: {size}"@,
            "size"@,
            figures::bytes_shown(s.planned_bytes as nat),
        ),
        MessageModel {
            key: "Downloaded: {size} at {speed} avg"@,
            args: seq![
                ("size"@, figures::bytes_shown(s.downloaded_bytes as nat)),
                ("speed"@, s.average_speed@),
            ],
        },
        message::with_one("Cumulative hash: {duration}"@, "duration"@, s.cumulative_hash@),
        message::with_one("After download hash: {duration}"@, "duration"@, s.after_download_hash@),
        message::with_one("Download stage: {duration}"@, "duration"@, s.download_stage@),
        message::with_one("Total duration: {duration}"@, "duration"@, s.total@),
    ]
}

/// The lines of the summary, two for each of its columns.
pub fn summary_lines(s: SummaryTexts) -> (r: Vec<Message>)
    ensures
        message::message_models(r@) == summary_lines_of(s),
{
    let ghost lines = summary_lines_of(s);
    let downloaded: Message = one(
        "Downloaded: {size} at {speed} avg",
        "size",
        fmt_bytes(s.downloaded_bytes),
    ).with("speed", s.average_speed);
    assert(downloaded@.args =~= lines[1].args);
    let mut out: Vec<Message> = Vec::new();
    out.push(one("Planned transfer: {size}", "size", fmt_bytes(s.planned_bytes)));
    out.push(downloaded);
    out.push(one("Cumulative hash: {duration}", "duration", s.cumulative_hash));
    out.push(one("After download hash: {duration}", "duration", s.after_download_hash));
    out.push(one("Download stage: {duration}", "duration", s.download_stage));
    out.push(one("Total duration: {duration}", "duration", s.total));
    assert(message::message_models(out@) =~= lines);
    out
}

} // verus!
