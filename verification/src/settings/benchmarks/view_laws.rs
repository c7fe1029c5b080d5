//! What holds of the smaller texts and choices of the benchmark views.

use vstd::prelude::*;

use crate::double;
use crate::figures;
use crate::message;
use crate::message::Message;
use crate::settings::benchmarks::compare::{ratio_source, stages_compare};
use crate::settings::benchmarks::detail;
use crate::settings::benchmarks::detail::{
    log_heading, notes_dirty, run_word, sol_build, sol_grade, sol_work, SolGrade,
};
use crate::settings::benchmarks::export;
use crate::settings::benchmarks::export::{
    encode_png, export_file_name, take_screenshot, ChartImage, Shot,
};
use crate::settings::benchmarks::filters::{kind_filter_label, BenchmarkOutcomeFilter};
use crate::settings::benchmarks::list;
use crate::settings::benchmarks::list::{compare_letter, row_note, BenchmarksView};
use crate::settings::benchmarks::reading;
use crate::settings::benchmarks::reading::Measure;
use crate::settings::benchmarks::record;
use crate::settings::benchmarks::record::{cpu_title, BenchmarkKind, BenchmarkRecord, HeadlineRate};
use crate::settings::diagnostics;
use crate::text;

verus! {

broadcast use vstd::string::group_string_axioms;

// ---------------------------------------------------------------------------
// Measurements
// ---------------------------------------------------------------------------

/// The whole part of a measurement is the largest whole number that is no larger.
/// `digits` over `2^below` is the measurement.
pub proof fn law_whole_part_is_the_floor(r: Measure, digits: nat, below: nat)
    requires
        0 < below <= 52,
        digits == 0x10_0000_0000_0000 + r.bits % 0x10_0000_0000_0000,
        r.bits / 0x10_0000_0000_0000 == 1075 - below,
    ensures
        reading::whole_part(r) * double::two_to(below) <= digits,
        digits < (reading::whole_part(r) + 1) * double::two_to(below),
{
    let p = double::two_to(below);
    double::lemma_two_to_pos(below);
    let w = digits / p;
    assert(w * p <= digits < (w + 1) * p) by (nonlinear_arith)
        requires
            w == digits / p,
            p > 0,
    ;
    assert(r.bits <= reading::INFINITY_BITS);
}

/// What is at least as much as something that is enough is enough, and every
/// positive number is at least itself.
pub proof fn law_at_least_is_an_order(a: Measure, b: Measure, c: Measure)
    ensures
        reading::at_least(a, b) && reading::at_least(b, c) ==> reading::at_least(a, c),
        reading::above_zero(a) ==> reading::at_least(a, a),
        reading::above_zero(a) && reading::above_zero(b) ==> reading::at_least(a, b)
            || reading::at_least(b, a),
        reading::at_least(a, b) && reading::above_zero(b) ==> reading::above_zero(a),
{
}

/// A ratio that is no smaller has no worse grade. From 0.85 on it is green, and
/// from one half on amber.
pub proof fn law_larger_ratio_has_no_worse_grade(
    a: Measure,
    b: Measure,
    of_a: SolGrade,
    of_b: SolGrade,
)
    requires
        call_ensures(sol_grade, (a,), of_a),
        call_ensures(sol_grade, (b,), of_b),
        reading::at_least(a, b),
    ensures
        of_b is Green ==> of_a is Green,
        of_b is Amber ==> of_a is Green || of_a is Amber,
        of_a is Red ==> of_b is Red,
        of_a is Green <==> 0x3feb_3333_3333_3333 <= a.bits <= 0x7ff0_0000_0000_0000,
        of_a is Amber <==> 0x3fe0_0000_0000_0000 <= a.bits < 0x3feb_3333_3333_3333,
{
}

/// A rate in bytes is shown as a size per second, any other with its own unit.
pub proof fn law_rates_are_shown_with_their_unit(rate: HeadlineRate)
    ensures
        rate.unit@ == "B/s"@ ==> record::rate_shown(rate) == figures::bytes_shown(
            reading::whole_part(rate.value),
        ) + "/s"@,
        rate.unit@ != "B/s"@ ==> record::rate_shown(rate) == rate.rounded@ + " "@ + rate.unit@,
{
}

/// The title of the processor tells the scale that goes with what is known of
/// its threads.
pub proof fn law_title_tells_the_scale(r: BenchmarkRecord, title: &'static str)
    requires
        call_ensures(cpu_title, (&r,), title),
    ensures
        r.machine.cpu_threads == 0 ==> title@ == "CPU (one core = 100%)"@,
        r.machine.cpu_threads != 0 ==> title@ == "CPU (all cores)"@,
{
}

// ---------------------------------------------------------------------------
// The list
// ---------------------------------------------------------------------------

/// The note of a row is the first line of the notes, without the white space
/// around them; there is none without notes or in a row that is expanded.
pub proof fn law_note_is_the_first_line(
    r: BenchmarkRecord,
    expanded: bool,
    note: Option<String>,
    line: Seq<char>,
    rest: Seq<char>,
)
    requires
        call_ensures(row_note, (&r, expanded), note),
        line.len() > 0,
        !line.contains('\n'),
        line.last() != '\r',
        text::trimmed(r.notes@) == line + seq!['\n'] + rest || text::trimmed(r.notes@) == line,
    ensures
        expanded ==> note is None,
        !expanded ==> note is Some && note->0@ == line,
{
    let notes = text::trimmed(r.notes@);
    if notes == line {
        crate::settings::diagnostics_laws::law_last_line_may_end_with_the_text(line);
        assert(diagnostics::lines_of(notes)[0] == line);
    } else {
        crate::settings::diagnostics_laws::law_line_ends_with_a_line_feed(line, rest);
        assert(diagnostics::lines_of(notes)[0] == line);
    }
}

/// A record without notes has no note in its row.
pub proof fn law_no_notes_no_note(r: BenchmarkRecord, expanded: bool, note: Option<String>)
    requires
        call_ensures(row_note, (&r, expanded), note),
        text::is_blank(r.notes@),
    ensures
        note is None,
{
}

/// The button that compares tells how many of the selected records are there,
/// and works with two of them.
pub proof fn law_compare_button_needs_two(v: BenchmarksView, r: (Message, bool))
    requires
        call_ensures(BenchmarksView::compare_button, (&v,), r),
    ensures
        r.1 <==> list::selected_records(v.selected@, v.records@).len() == 2,
        r.0@ == message::with_one(
            "Compare selected ({count}/2)"@,
            "count"@,
            text::decimal(list::selected_records(v.selected@, v.records@).len()),
        ),
{
}

/// The compared records are those of the two ids, each in its place; without
/// either of them the comparison closes. No record changes.
pub proof fn law_compared_records_have_the_ids(
    v: &mut BenchmarksView,
    order: Vec<String>,
    r: Option<(usize, usize)>,
)
    requires
        call_ensures(BenchmarksView::compared, (v, &order), r),
    ensures
        r matches Some((a, b)) ==> {
            &&& order@.len() >= 2
            &&& a < old(v).records@.len() && old(v).records@[a as int].id@ == order@[0]@
            &&& b < old(v).records@.len() && old(v).records@[b as int].id@ == order@[1]@
            &&& *final(v) == *old(v)
        },
        r is None ==> !final(v).compare_open,
        final(v).records == old(v).records,
        final(v).selected == old(v).selected,
{
    if order@.len() >= 2 {
        lemma_found(old(v).records@, order@[0]@, 0);
        lemma_found(old(v).records@, order@[1]@, 0);
    }
}

/// Two ids that records have are compared.
pub proof fn law_known_ids_are_compared(
    v: &mut BenchmarksView,
    order: Vec<String>,
    r: Option<(usize, usize)>,
    i: int,
    j: int,
)
    requires
        call_ensures(BenchmarksView::compared, (v, &order), r),
        order@.len() >= 2,
        0 <= i < old(v).records@.len(),
        0 <= j < old(v).records@.len(),
        old(v).records@[i].id@ == order@[0]@,
        old(v).records@[j].id@ == order@[1]@,
    ensures
        r is Some,
{
    lemma_found(old(v).records@, order@[0]@, 0);
    lemma_found(old(v).records@, order@[1]@, 0);
}

proof fn lemma_found(records: Seq<BenchmarkRecord>, id: Seq<char>, from: int)
    requires
        0 <= from,
    ensures
        match list::record_from(records, id, from) {
            Some(i) => from <= i < records.len() && records[i].id@ == id,
            None => forall|j: int| from <= j < records.len() ==> (#[trigger] records[j]).id@ != id,
        },
    decreases records.len() - from,
{
    if from < records.len() {
        lemma_found(records, id, from + 1);
    }
}

/// Swapping exchanges the two compared records as they stand, and from then on
/// their dates do not matter; without two of them it does nothing.
pub proof fn law_swapped_records_change_places(v: &mut BenchmarksView)
    requires
        call_ensures(BenchmarksView::swap_compare_order, (v,), ()),
    ensures
        old(v).selected@.len() == 2 ==> {
            &&& final(v).selected@.len() == 2
            &&& !final(v).compare_by_date
            &&& list::compare_order_of(*final(v)).len() == 2
            &&& list::compare_order_of(*final(v))[0] == list::compare_order_of(*old(v))[1]
            &&& list::compare_order_of(*final(v))[1] == list::compare_order_of(*old(v))[0]
        },
        old(v).selected@.len() != 2 ==> *final(v) == *old(v),
        final(v).records == old(v).records,
{
    if old(v).selected@.len() == 2 {
        let now = text::views(final(v).selected@);
        assert(now.len() == final(v).selected@.len());
        assert(list::compare_order_of(*old(v)).len() == 2);
        assert(now == list::compare_order_of(*old(v)).reverse());
        assert(now.len() == 2);
    }
}

/// Compared records have the letters A and B.
pub proof fn law_letters_of_compared_records(a: &'static str, b: &'static str)
    requires
        call_ensures(compare_letter, (0,), a),
        call_ensures(compare_letter, (1,), b),
    ensures
        a@ == "A"@,
        b@ == "B"@,
{
}

/// The label of a choice of kinds is that of the kind, and one of its own for
/// all of them.
pub proof fn law_label_of_a_choice_of_kinds(kind: BenchmarkKind, r: &'static str, all: &'static str)
    requires
        call_ensures(kind_filter_label, (Some(kind),), r),
        call_ensures(kind_filter_label, (None,), all),
    ensures
        r@ == record::kind_label(kind),
        all@ == "All actions"@,
{
}

/// The label of a choice of outcomes.
pub proof fn law_label_of_a_choice_of_outcomes(filter: BenchmarkOutcomeFilter, r: &'static str)
    requires
        call_ensures(BenchmarkOutcomeFilter::label, (filter,), r),
    ensures
        filter is All ==> r@ == "All outcomes"@,
        filter is Success ==> r@ == "Success"@,
        filter is Failed ==> r@ == "Failed"@,
{
}

// ---------------------------------------------------------------------------
// Details
// ---------------------------------------------------------------------------

/// Notes can be saved exactly if they differ from the saved ones.
pub proof fn law_changed_notes_can_be_saved(r: BenchmarkRecord, draft: &'static str, dirty: bool)
    requires
        call_ensures(notes_dirty, (&r, draft), dirty),
    ensures
        !dirty <==> draft@ == r.notes@,
{
}

/// The totals of an operation: its runs and its duration always, its work and
/// its speed where they are known, in this order.
pub proof fn law_totals_of_an_operation(
    runs: nat,
    word: Seq<char>,
    bytes: u64,
    took: Seq<char>,
    bps: Option<Measure>,
)
    ensures
        ({
            let dot = "  \u{00B7}  "@;
            let head = text::decimal(runs) + " "@ + word;
            let said = detail::sol_totals_of(runs, word, bytes, took, bps);
            &&& bytes == 0 && bps is None ==> said == head + dot + took
            &&& bytes > 0 && bps is None ==> said == head + dot + figures::bytes_shown(
                bytes as nat,
            ) + dot + took
            &&& bytes == 0 && bps is Some ==> said == head + dot + took + dot + (
            figures::bytes_shown(reading::whole_part(bps->0)) + "/s"@)
            &&& bytes > 0 && bps is Some ==> said == head + dot + figures::bytes_shown(
                bytes as nat,
            ) + dot + took + dot + (figures::bytes_shown(reading::whole_part(bps->0)) + "/s"@)
        }),
{
    reveal_with_fuel(text::joined, 4);
    let head = text::decimal(runs) + " "@ + word;
    let work = figures::bytes_shown(bytes as nat);
    let s1 = seq![head];
    let s2 = s1.push(work);
    assert(s2.drop_last() =~= s1);
    assert(s1.push(took).drop_last() =~= s1);
    assert(s2.push(took).drop_last() =~= s2);
    if bps is Some {
        let speed = figures::bytes_shown(reading::whole_part(bps->0)) + "/s"@;
        assert(s1.push(took).push(speed).drop_last() =~= s1.push(took));
        assert(s2.push(took).push(speed).drop_last() =~= s2.push(took));
    }
}

/// One run is a run, any other number are runs.
pub proof fn law_one_run_is_a_run(runs: u64, r: &'static str)
    requires
        call_ensures(run_word, (runs,), r),
    ensures
        runs == 1 ==> r@ == "run"@,
        runs != 1 ==> r@ == "runs"@,
{
}

/// Work is told as a size if there was any.
pub proof fn law_work_is_told_as_a_size(bytes: u64, r: String)
    requires
        call_ensures(sol_work, (bytes,), r),
    ensures
        bytes != 0 ==> r@ == figures::bytes_shown(bytes as nat),
        bytes == 0 ==> r@ == "n/a"@,
{
}

/// What stands behind a ratio names its light, and how much faster it could have
/// been if that is known.
pub proof fn law_hover_names_the_light(
    word: Seq<char>,
    source: Seq<char>,
    headroom: Option<Seq<char>>,
)
    ensures
        detail::sol_hover_of(word, source, headroom).0 == word + ": "@ + source,
        detail::sol_hover_of(word, source, headroom).1 is Some <==> headroom is Some,
        headroom matches Some(factor) ==> detail::sol_hover_of(word, source, headroom).1 == Some(
            message::with_one(
                "Could be up to {factor}x faster before physics objects."@,
                "factor"@,
                factor,
            ),
        ),
{
}

/// The build tells its version before its commit; the log tells its lines and
/// has a heading only if there is a log.
pub proof fn law_build_and_log_of_a_run(
    word: &'static str,
    r: BenchmarkRecord,
    build: String,
    heading: Option<String>,
)
    requires
        call_ensures(sol_build, (word, &r), build),
        call_ensures(log_heading, (word, &r), heading),
    ensures
        build@ == word@ + " "@ + r.build.version@ + " "@ + r.build.commit@,
        heading is Some <==> r.log_file is Some,
        heading is Some ==> heading->0@ == word@ + " ("@ + text::decimal(r.log_line_count as nat)
            + ")"@,
{
}

/// A line of the log: each name with its value, two blanks between them.
pub proof fn law_raw_line_adds_up(a: Seq<(String, String)>, b: Seq<(String, String)>)
    requires
        a.len() > 0,
        b.len() > 0,
    ensures
        detail::raw_line_of(a + b) == detail::raw_line_of(a) + "  "@ + detail::raw_line_of(b),
        a.len() == 1 ==> detail::raw_line_of(a) == a[0].0@ + "="@ + a[0].1@,
{
    let left = Seq::new(a.len(), |i: int| a[i].0@ + "="@ + a[i].1@);
    let right = Seq::new(b.len(), |i: int| b[i].0@ + "="@ + b[i].1@);
    let all = a + b;
    let both = Seq::new(all.len(), |i: int| all[i].0@ + "="@ + all[i].1@);
    assert(both =~= left + right);
    crate::text_laws::law_joining_adds_up(left, right, "  "@);
}

/// Stages are compared if either record has some; the source of a ratio tells
/// its kind first.
pub proof fn law_what_is_compared(
    a: BenchmarkRecord,
    b: BenchmarkRecord,
    shown: bool,
    kind: &'static str,
    light: &'static str,
    source: String,
)
    requires
        call_ensures(stages_compare, (&a, &b), shown),
        call_ensures(ratio_source, (kind, light), source),
    ensures
        !shown <==> a.stages@.len() == 0 && b.stages@.len() == 0,
        source@ == kind@ + " \u{00B7} "@ + light@,
{
}

// ---------------------------------------------------------------------------
// Export
// ---------------------------------------------------------------------------

/// A screenshot is used exactly if the chart in it is large enough and could be
/// encoded, and then it is what the encoder made of that chart.
pub proof fn law_shot_is_what_the_encoder_made(
    image: ChartImage,
    encoded: Result<Vec<u8>, String>,
    shot: Shot,
    small: Shot,
)
    requires
        image.wf(),
        call_ensures(encode_png, (&image,), encoded),
        call_ensures(take_screenshot, (&Some(image),), shot),
        call_ensures(take_screenshot, (&None::<ChartImage>,), small),
    ensures
        encoded matches Ok(bytes) ==> (shot matches Shot::Encoded(made) && made@ == bytes@),
        encoded is Err ==> shot is Unusable,
        small is Unusable,
{
    assert(export::encoded(encoded) == export::png_of(image.rgba@, image.width, image.height));
}

/// The archive of an export is named after the record.
pub proof fn law_archive_is_named_after_the_record(id: &'static str, r: String)
    requires
        call_ensures(export_file_name, (id,), r),
    ensures
        id@.is_prefix_of(r@),
        r@ == id@ + ".zip"@,
{
}

} // verus!
