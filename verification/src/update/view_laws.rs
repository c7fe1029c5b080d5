//! What holds of the controls of the update views and of the speed history.

use vstd::prelude::*;

use crate::figures;
use crate::foxy::FoxyView;
use crate::message;
use crate::message::{Line, LineModel, Message};
use crate::text;
use crate::update::diff::{
    update_file_diff_kind_code, update_file_diff_kind_color, update_file_diff_kind_marker,
    FileDiffKind, ModDiffSummary,
};
use crate::update::direct_download::{
    button_key, direct_elapsed, open_direct_view, pause_button, AssumedShare, DirectButton,
    DirectDownloadSession, DirectViewFlags,
};
use crate::update::graph;
use crate::update::graph::{
    axis_labels, graph_scale, lane_color, lane_label, lane_sample_index, lane_shape, lane_value,
    nearest_summary_sample_index, updated_line, DownloadFigures, LaneColor, LaneShape, SampleMark,
    SummaryGraphScale, SummaryGraphValue,
};
use crate::update::manifest;
use crate::update::manifest::{RowOrder, RowState};
use crate::update::view::{update_elapsed, BarClick, UpdateScreen, UpdateSession};

verus! {

broadcast use vstd::string::group_string_axioms;

// ---------------------------------------------------------------------------
// The view of an update
// ---------------------------------------------------------------------------

/// A click on the bar: a finished update is acknowledged and its view closes;
/// otherwise the download of the selected repository starts if there is
/// something to update and none runs; else nothing happens. It is always about
/// the selected repository.
pub proof fn law_click_is_about_the_selected_repository(
    s: &mut UpdateSession,
    pending: usize,
    r: BarClick,
)
    requires
        call_ensures(UpdateSession::click_bar, (s, pending), r),
    ensures
        final(s).selected == old(s).selected,
        r matches BarClick::Acknowledge(i) ==> old(s).selected == Some(i) && old(
            s).download_finished && !final(s).modal_open && !final(s).download_finished && !final(
            s).has_summary && final(s).current_view == FoxyView::RepositoryList,
        r matches BarClick::StartDownload(i) ==> old(s).selected == Some(i) && pending > 0
            && final(s).modal_open == old(s).modal_open && final(s).update_ready_repo is None
            && final(s).stage is None,
        r is Nothing ==> *final(s) == *old(s),
        old(s).download_finished && old(s).selected is Some && old(s).download_finished_repo
            == old(s).selected ==> r is Acknowledge,
        !old(s).download_finished && !old(s).download_running && pending > 0 && old(
            s).selected is Some ==> r is StartDownload,
        !old(s).download_finished && pending == 0 ==> r is Nothing,
        !old(s).download_finished && old(s).download_running && old(s).syncing_repository
            == old(s).selected ==> r is Nothing,
{
}

/// The view closes and goes back to the list, unless a download is being undone.
pub proof fn law_view_does_not_close_while_undoing(
    s: &mut UpdateSession,
    cancelling: &'static str,
    reverting: &'static str,
)
    requires
        call_ensures(UpdateSession::close, (s, cancelling, reverting), ()),
    ensures
        ({
            let undoing = old(s).stage matches Some(label) && (label@ == cancelling@ || label@
                == reverting@ || label@ == "Cancelling..."@ || label@ == "Reverting changes"@);
            &&& undoing ==> *final(s) == *old(s)
            &&& !undoing ==> !final(s).modal_open && final(s).current_view
                == FoxyView::RepositoryList && final(s).selected == old(s).selected && final(
                s).download_running == old(s).download_running
        }),
{
}

/// The direct download shows before the update of a repository, and nothing
/// while the view is closed.
pub proof fn law_what_the_view_shows(s: UpdateSession, direct: bool, r: UpdateScreen)
    requires
        call_ensures(UpdateSession::screen, (&s, direct), r),
    ensures
        r is Hidden <==> !s.modal_open,
        s.modal_open ==> (r is DirectDownload <==> direct),
        s.modal_open ==> (r is Repository <==> !direct),
{
}

// ---------------------------------------------------------------------------
// Direct downloads
// ---------------------------------------------------------------------------

/// The button of a direct download: how far it is while it runs, and then
/// whether it went well. It closes the view, but not while the download runs.
pub proof fn law_button_of_a_direct_download(
    s: DirectDownloadSession,
    flags: DirectViewFlags,
    button: DirectButton,
    after: DirectViewFlags,
    key: Option<&'static str>,
)
    requires
        call_ensures(DirectDownloadSession::button, (&s,), button),
        call_ensures(DirectDownloadSession::click_button, (&s, flags), after),
        call_ensures(button_key, (button,), key),
    ensures
        button is Progress <==> s.running,
        !s.running ==> (button is Finished <==> s.finished_successfully),
        !s.running ==> (button is Failed <==> !s.finished_successfully),
        s.running ==> after == flags,
        !s.running ==> !after.modal_open && !after.direct_view,
        key is None <==> s.running,
        !s.running && s.finished_successfully ==> key->0@ == "Download finished - click to close"@,
        !s.running && !s.finished_successfully ==> key->0@ == "Download failed - click to close"@,
{
}

/// Without a download the view goes; with one nothing changes.
pub proof fn law_no_view_without_a_download(
    session: Option<DirectDownloadSession>,
    flags: DirectViewFlags,
    r: DirectViewFlags,
)
    requires
        call_ensures(open_direct_view, (&session, flags), r),
    ensures
        session is Some ==> r == flags,
        session is None ==> !r.modal_open && !r.direct_view,
{
}

/// The line above the bar tells the stage, and that it is being downloaded while
/// the download runs.
pub proof fn law_stage_of_a_direct_download(
    s: DirectDownloadSession,
    stage: Option<String>,
    preparing: &'static str,
    r: Line,
)
    requires
        call_ensures(DirectDownloadSession::stage_line, (&s, &stage, preparing), r),
    ensures
        s.running ==> (stage matches Some(label) ==> r@ == LineModel::Keyed(
            message::with_one("Downloading {name}"@, "name"@, label@),
        )),
        s.running && stage is None ==> r@ == LineModel::Keyed(
            message::with_one("Downloading {name}"@, "name"@, preparing@),
        ),
        !s.running ==> (stage matches Some(label) ==> r@ == LineModel::Plain(label@)),
        !s.running && stage is None ==> r@ == LineModel::Plain(preparing@),
{
}

/// The pause button offers the other of pausing and going on.
pub proof fn law_pause_button_offers_the_other(paused: bool, r: (&'static str, bool))
    requires
        call_ensures(pause_button, (paused,), r),
    ensures
        r.1 == paused,
        paused ==> r.0@ == "Resume download"@,
        !paused ==> r.0@ == "Pause download"@,
{
}

// ---------------------------------------------------------------------------
// The speed history
// ---------------------------------------------------------------------------

/// The axis spans from the first sample to the last, and always some time.
pub proof fn law_axis_spans_the_samples(times: Vec<u64>, r: Option<SummaryGraphScale>)
    requires
        times@.len() >= 2 ==> times@[0] < u64::MAX,
        call_ensures(graph_scale, (&times,), r),
    ensures
        r is Some <==> times@.len() >= 2,
        r is Some ==> {
            &&& r->0.first_ms == times@[0]
            &&& r->0.first_ms < r->0.last_ms
            &&& r->0.last_ms >= times@.last()
            &&& times@.last() > times@[0] ==> r->0.last_ms == times@.last()
            &&& times@.last() <= times@[0] ==> r->0.last_ms - r->0.first_ms == 1
        },
{
}

/// The label in the middle of the axis is as far from the one end as from the
/// other, to a millisecond.
pub proof fn law_middle_label_is_in_the_middle(
    scale: SummaryGraphScale,
    r: (String, String, String),
)
    requires
        scale.first_ms < scale.last_ms,
        call_ensures(axis_labels, (scale,), r),
    ensures
        r.0@ == figures::axis_time_shown(scale.first_ms as nat),
        r.2@ == figures::axis_time_shown(scale.last_ms as nat),
        exists|middle: int|
            0 <= (scale.last_ms - middle) - (middle - scale.first_ms) <= 1 && r.1@
                == #[trigger] figures::axis_time_shown(middle as nat),
{
    let middle = scale.first_ms + (scale.last_ms - scale.first_ms) / 2;
    assert(r.1@ == figures::axis_time_shown(middle as nat));
}

/// Each lane shows its own value, under its own name and in its own colour.
pub proof fn law_lanes_are_told_apart(
    row: usize,
    other: usize,
    a: SummaryGraphValue,
    b: SummaryGraphValue,
    color_a: LaneColor,
    color_b: LaneColor,
    name: &'static str,
)
    requires
        row < 5,
        other < 5,
        call_ensures(lane_value, (row,), a),
        call_ensures(lane_value, (other,), b),
        call_ensures(lane_color, (a,), color_a),
        call_ensures(lane_color, (b,), color_b),
        call_ensures(lane_label, (a,), name),
    ensures
        row != other ==> a != b && color_a != color_b,
        a is DownloadMbps ==> name@ == "Download speed"@,
        a is DiskWriteMbps ==> name@ == "Disk write speed"@,
        a is HashFilesPerSec ==> name@ == "Hash files/s"@,
        a is CpuPercent ==> name@ == "CPU"@,
        a is MemoryBytes ==> name@ == "Memory"@,
{
}

/// The sample that the pointer picks is one of the samples, none is nearer, and
/// of those that are as near it is the first.
pub proof fn law_picked_sample_is_the_nearest(marks: Vec<SampleMark>, r: usize, j: int)
    requires
        call_ensures(nearest_summary_sample_index, (&marks,), r),
        0 <= j < marks@.len(),
    ensures
        r < marks@.len(),
        marks@[r as int].distance <= marks@[j].distance,
        marks@[j].distance == marks@[r as int].distance ==> r <= j,
{
    assert(graph::counts(marks@, false, j));
}

/// In a lane a sample with a value is picked if there is one, and of those the
/// nearest.
pub proof fn law_lane_picks_a_sample_with_a_value(marks: Vec<SampleMark>, r: usize, j: int)
    requires
        call_ensures(lane_sample_index, (&marks,), r),
        0 <= j < marks@.len(),
        marks@[j].has_value,
    ensures
        r < marks@.len(),
        marks@[r as int].has_value,
        marks@[r as int].distance <= marks@[j].distance,
{
    assert(graph::counts(marks@, true, j));
    assert(marks@[j].has_value);
}

/// Values are counted one by one.
pub proof fn law_values_are_counted(a: Seq<SampleMark>, b: Seq<SampleMark>, one: SampleMark)
    ensures
        graph::value_count(a + b) == graph::value_count(a) + graph::value_count(b),
        one.has_value ==> graph::value_count(seq![one]) == 1,
        !one.has_value ==> graph::value_count(seq![one]) == 0,
    decreases b.len(),
{
    reveal_with_fuel(graph::value_count, 2);
    assert(seq![one].drop_last() =~= Seq::empty());
    if b.len() == 0 {
        assert(a + b =~= a);
    } else {
        law_values_are_counted(a, b.drop_last(), one);
        assert((a + b).drop_last() =~= a + b.drop_last());
    }
}

/// One value is a dot where it was measured, more of them are a line.
pub proof fn law_shape_of_a_lane(marks: Vec<SampleMark>, r: LaneShape)
    requires
        call_ensures(lane_shape, (&marks,), r),
    ensures
        r is Empty <==> graph::value_count(marks@) == 0,
        r is Line <==> graph::value_count(marks@) > 1,
        r matches LaneShape::Dot(i) ==> i < marks@.len() && marks@[i as int].has_value
            && graph::value_count(marks@) == 1,
{
}

/// The line beside the summary tells each number under its name.
pub proof fn law_updated_line_tells_each_number(f: DownloadFigures, r: Message)
    requires
        call_ensures(updated_line, (f,), r),
    ensures
        r@.args.len() == 3,
        r@.args.contains(("mods"@, text::decimal(f.mods_updated as nat))),
        r@.args.contains(("files"@, text::decimal(f.files_updated as nat))),
        r@.args.contains(("parts"@, text::decimal(f.parts_updated as nat))),
{
    let args = r@.args;
    assert(args[0] == args[0] && args[1] == args[1] && args[2] == args[2]);
}

// ---------------------------------------------------------------------------
// Smaller texts
// ---------------------------------------------------------------------------

/// A time that is known is shown as it is, one that is not as none.
pub proof fn law_elapsed_times(
    time: String,
    update: String,
    none: String,
    direct: String,
    direct_none: String,
)
    requires
        call_ensures(update_elapsed, (Some(time),), update),
        call_ensures(update_elapsed, (None,), none),
        call_ensures(direct_elapsed, (Some(time),), direct),
        call_ensures(direct_elapsed, (None,), direct_none),
    ensures
        update@ == time@,
        direct@ == time@,
        none@ == "00:00"@,
        direct_none@ == "0s"@,
{
}

/// The label of a stage is what the download last said.
pub proof fn law_stage_is_what_was_said(s: UpdateSession, updating: &'static str, r: String)
    requires
        call_ensures(UpdateSession::stage_label, (&s, updating), r),
    ensures
        s.stage matches Some(label) ==> r@ == label@,
        s.stage is None ==> r@ == updating@,
{
}

/// A running download that has said nothing has done nothing, a finished one
/// everything.
pub proof fn law_assumed_share(s: DirectDownloadSession, r: AssumedShare)
    requires
        call_ensures(DirectDownloadSession::assumed_share, (&s,), r),
    ensures
        s.running <==> r is Nothing,
        !s.running <==> r is All,
{
}

/// Each kind of change has its own sign, its own number and its own colour.
pub proof fn law_kinds_of_change_are_told_apart(
    kind: FileDiffKind,
    sign: &'static str,
    code: u8,
    added: u32,
    modified: u32,
    deleted: u32,
    color: u32,
)
    requires
        call_ensures(update_file_diff_kind_marker, (kind,), sign),
        call_ensures(update_file_diff_kind_code, (kind,), code),
        call_ensures(update_file_diff_kind_color::<u32>, (kind, added, modified, deleted), color),
    ensures
        kind is Added ==> sign@ == "+"@ && code == 1 && color == added,
        kind is Modified ==> sign@ == "~"@ && code == 2 && color == modified,
        kind is Deleted ==> sign@ == "-"@ && code == 3 && color == deleted,
{
}

/// Rows that were sorted for this generation stay; otherwise they are sorted
/// anew, and each row has the name of its mod in lower case beside it.
pub proof fn law_rows_are_sorted_anew_for_a_generation(
    order: &mut RowOrder,
    mods: Vec<ModDiffSummary>,
    states: Vec<RowState>,
    generation: u64,
    k: int,
)
    requires
        states@.len() == mods@.len(),
        call_ensures(
            RowOrder::rebuild_update_modal_sort_cache_if_needed,
            (order, &mods, &states, generation),
            (),
        ),
        old(order).generation != generation,
    ensures
        final(order).generation == generation,
        manifest::is_row_order(manifest::row_keys(mods@, states@), final(order).rows@),
        final(order).name_lowers@.len() == final(order).rows@.len(),
        0 <= k < final(order).rows@.len() ==> final(order).name_lowers@[k]@
            == text::unicode_lowercase(mods@[final(order).rows@[k] as int].name@),
{
    let lowers = text::views(final(order).name_lowers@);
    assert(lowers.len() == final(order).rows@.len());
    if 0 <= k < final(order).rows@.len() {
        assert(lowers[k] == final(order).name_lowers@[k]@);
    }
}

} // verus!
