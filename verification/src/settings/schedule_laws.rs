//! What holds of scheduled jobs: the list, the editor, the calendar and the
//! texts.

use vstd::prelude::*;

use crate::message;
use crate::message::{LineModel, Message};
use crate::repository::{Repository, RepositorySpace};
use crate::settings::schedule_texts;
use crate::settings::schedule_texts::{
    active_status, english_words, finish_edit, scheduling_outcome_color, EditRequest, OutcomeColor, RepoLabel,
    ScheduleWords, SpaceLabel,
};
use crate::settings::scheduling;
use crate::settings::scheduling::{
    apply_job_list_action, key_of, prefill_target, JobListAction, JobListEffect, JobRunOutcome,
    JobSchedule, JobTarget, PrefilledTarget, RepoInstanceKey, ScheduleJobDraft,
    ScheduledJob, TargetKind,
};
use crate::text;
use crate::text_laws;

verus! {

broadcast use vstd::string::group_string_axioms;

// ---------------------------------------------------------------------------
// The list
// ---------------------------------------------------------------------------

/// Deleting a job takes that job out and keeps all others in their order;
/// switching one switches that one alone; editing and running change nothing.
/// What changed is to be saved, and nothing else is.
pub proof fn law_list_actions_concern_one_job(
    jobs: &mut Vec<ScheduledJob>,
    action: JobListAction,
    r: JobListEffect,
    i: usize,
    j: int,
)
    requires
        call_ensures(apply_job_list_action, (jobs, action), r),
        0 <= j < old(jobs)@.len(),
    ensures
        action == JobListAction::Delete(i) && i < old(jobs)@.len() ==> {
            &&& r == JobListEffect::SaveSettings
            &&& final(jobs)@.len() == old(jobs)@.len() - 1
            &&& j < i ==> final(jobs)@[j] == old(jobs)@[j]
            &&& j > i ==> final(jobs)@[j - 1] == old(jobs)@[j]
        },
        action == JobListAction::ToggleEnabled(i) && i < old(jobs)@.len() ==> {
            &&& r == JobListEffect::SaveSettings
            &&& final(jobs)@.len() == old(jobs)@.len()
            &&& j != i ==> final(jobs)@[j] == old(jobs)@[j]
            &&& j == i ==> final(jobs)@[j].enabled == !old(jobs)@[j].enabled && final(jobs)@[j]
                == (ScheduledJob { enabled: final(jobs)@[j].enabled, ..old(jobs)@[j] })
        },
        action == JobListAction::Edit(i) ==> final(jobs)@ == old(jobs)@ && (i < old(jobs)@.len()
            ==> r == JobListEffect::OpenEditor(i)),
        action == JobListAction::RunNow(i) ==> final(jobs)@ == old(jobs)@ && r
            == JobListEffect::Run(i),
        i >= old(jobs)@.len() && action != JobListAction::RunNow(i) && (action
            == JobListAction::Delete(i) || action == JobListAction::ToggleEnabled(i) || action
            == JobListAction::Edit(i)) ==> final(jobs)@ == old(jobs)@ && r
            == JobListEffect::Nothing,
{
}

/// Saving a job leaves every other job as it is and where it is; a job with a
/// new id comes at the end, one with a known id takes the place of that.
pub proof fn law_saving_leaves_the_others(jobs: Seq<ScheduledJob>, job: ScheduledJob, j: int)
    requires
        0 <= j < jobs.len(),
    ensures
        ({
            let after = scheduling::upserted(jobs, job);
            &&& jobs[j].id@ != job.id@ ==> after[j] == jobs[j]
            &&& jobs[j].id@ == job.id@ && (forall|k: int|
                0 <= k < j ==> (#[trigger] jobs[k]).id@ != job.id@) ==> after.len() == jobs.len()
                && after[j] == (ScheduledJob { enabled: jobs[j].enabled, ..job })
            &&& (forall|k: int| 0 <= k < jobs.len() ==> (#[trigger] jobs[k]).id@ != job.id@)
                ==> after.len() == jobs.len() + 1 && after.last() == job
        }),
{
    scheduling::lemma_job_with_id(jobs, job.id@, jobs.len() as int);
    assert(jobs[j].id@ == jobs[j].id@);
}

/// Ending an edit: cancelling changes no job; a job that was built is saved and
/// closes the editor; an error keeps the draft as it is, with the error on it,
/// and changes no job.
pub proof fn law_edit_ends_with_a_job_or_an_error(
    editor: &mut Option<ScheduleJobDraft>,
    jobs: &mut Vec<ScheduledJob>,
    request: EditRequest,
    changed: bool,
)
    requires
        call_ensures(finish_edit, (editor, jobs, request), changed),
    ensures
        changed <==> (request matches EditRequest::Save(Ok(_))),
        !changed ==> final(jobs)@ == old(jobs)@,
        request is Cancel ==> *final(editor) is None,
        request is Stay ==> *final(editor) == *old(editor),
        request matches EditRequest::Save(Ok(job)) ==> *final(editor) is None && final(jobs)@
            == scheduling::upserted(old(jobs)@, job),
        request matches EditRequest::Save(Err(error)) ==> {
            &&& *final(editor) is Some <==> *old(editor) is Some
            &&& *old(editor) matches Some(draft) ==> *final(editor) == Some(
                ScheduleJobDraft { error: Some(error), ..draft },
            )
        },
{
}

// ---------------------------------------------------------------------------
// The editor
// ---------------------------------------------------------------------------

/// A new job works on the first space, else on the first repository, under its
/// own address and folder; the rest of the draft stays.
pub proof fn law_new_job_works_on_the_first_space(
    spaces: &Vec<RepositorySpace>,
    repositories: &Vec<Repository>,
    target: PrefilledTarget,
    draft: &mut ScheduleJobDraft,
)
    requires
        call_ensures(prefill_target, (spaces, repositories), target),
        call_ensures(ScheduleJobDraft::prefill, (draft, target), ()),
    ensures
        spaces@.len() > 0 ==> {
            &&& final(draft).target_kind == TargetKind::Space
            &&& final(draft).target_space_id matches Some(id) && id@ == spaces@[0].id@
            &&& final(draft).target_repo == old(draft).target_repo
        },
        spaces@.len() == 0 && repositories@.len() > 0 ==> {
            &&& final(draft).target_kind == TargetKind::Repository
            &&& final(draft).target_repo matches Some(key) && key.remote_url@
                == repositories@[0].address@ && key.local_path@ == repositories@[0].path@
            &&& final(draft).target_space_id == old(draft).target_space_id
        },
        spaces@.len() == 0 && repositories@.len() == 0 ==> *final(draft) == *old(draft),
        final(draft).name == old(draft).name,
        final(draft).weekdays == old(draft).weekdays,
        final(draft).post_action == old(draft).post_action,
{
}

/// A shutdown that the system does not offer is dropped; any other choice stays.
pub proof fn law_only_an_impossible_shutdown_is_dropped(
    draft: &mut ScheduleJobDraft,
    can_shut_down: bool,
)
    requires
        call_ensures(ScheduleJobDraft::settle_post_action, (draft, can_shut_down), ()),
    ensures
        can_shut_down || !(old(draft).post_action is ShutdownPc) ==> *final(draft) == *old(draft),
        !can_shut_down && old(draft).post_action is ShutdownPc ==> final(draft).post_action is DoNothing,
        final(draft).recheck == old(draft).recheck,
        final(draft).download == old(draft).download,
        final(draft).post_action_only_on_success == old(draft).post_action_only_on_success,
{
}

/// Taking a repository out of a selection takes out that one and no other;
/// putting it in keeps the others.
pub proof fn law_selection_concerns_one_repository(
    draft: &mut ScheduleJobDraft,
    key: RepoInstanceKey,
    on: bool,
    other: (Seq<char>, Seq<char>),
)
    requires
        call_ensures(ScheduleJobDraft::select_custom, (draft, key, on), ()),
    ensures
        ({
            let was = scheduling::key_views(old(draft).target_custom@);
            let now = scheduling::key_views(final(draft).target_custom@);
            &&& on ==> now.contains((key.remote_url@, key.local_path@))
            &&& !on ==> !now.contains((key.remote_url@, key.local_path@))
            &&& other != (key.remote_url@, key.local_path@) ==> (now.contains(other)
                <==> was.contains(other))
        }),
{
    let was = scheduling::key_views(old(draft).target_custom@);
    let now = scheduling::key_views(final(draft).target_custom@);
    let own = scheduling::key_view(key);
    if on {
        assert(now[was.len() as int] == own);
        if was.contains(other) {
            let k = choose|k: int| 0 <= k < was.len() && was[k] == other;
            assert(now[k] == other);
        }
        if now.contains(other) && other != own {
            let k = choose|k: int| 0 <= k < now.len() && now[k] == other;
            assert(was[k] == other);
        }
    } else {
        scheduling::law_deselected_repository_is_gone(was, own);
        if other != own {
            lemma_filter_keeps(was, own, other);
        }
    }
}

proof fn lemma_filter_keeps(
    keys: Seq<(Seq<char>, Seq<char>)>,
    key: (Seq<char>, Seq<char>),
    other: (Seq<char>, Seq<char>),
)
    requires
        other != key,
    ensures
        scheduling::without_key(keys, key).contains(other) <==> keys.contains(other),
    decreases keys.len(),
{
    reveal(Seq::filter);
    if keys.len() > 0 {
        let head = keys.drop_last();
        lemma_filter_keeps(head, key, other);
        let part = scheduling::without_key(head, key);
        let all = scheduling::without_key(keys, key);
        assert(all == if keys.last() != key {
            part.push(keys.last())
        } else {
            part
        });
        if part.contains(other) {
            let k = choose|k: int| 0 <= k < part.len() && part[k] == other;
            assert(all[k] == other);
        }
        if keys.last() == other {
            assert(all[part.len() as int] == other);
            assert(keys[keys.len() - 1] == other);
        }
        if all.contains(other) && keys.last() != other {
            let k = choose|k: int| 0 <= k < all.len() && all[k] == other;
            assert(part[k] == other);
        }
        if head.contains(other) {
            let k = choose|k: int| 0 <= k < head.len() && head[k] == other;
            assert(keys[k] == other);
        }
        if keys.contains(other) && keys.last() != other {
            let k = choose|k: int| 0 <= k < keys.len() && keys[k] == other;
            assert(head[k] == other);
        }
    }
}

/// An edited job keeps its id; a new one gets one that tells the moment, and
/// different moments give different ids.
pub proof fn law_job_ids(id: Seq<char>, a: nat, b: nat)
    ensures
        schedule_texts::job_id_at(Some(id), a as int) == id,
        schedule_texts::job_id_at(None, a as int) == "job-"@ + text::decimal(a),
        schedule_texts::job_id_at(None, a as int) == schedule_texts::job_id_at(None, b as int)
            ==> a == b,
{
    let x = schedule_texts::job_id_at(None, a as int);
    let y = schedule_texts::job_id_at(None, b as int);
    if x == y {
        let n = "job-"@.len() as int;
        assert(x.skip(n) =~= text::decimal(a));
        assert(y.skip(n) =~= text::decimal(b));
        text::lemma_decimal_injective(a, b);
    }
}

// ---------------------------------------------------------------------------
// The calendar
// ---------------------------------------------------------------------------

proof fn lemma_year(year: int)
    ensures
        schedule_texts::days_before_month(year, 1) == 0,
        schedule_texts::days_before_month(year, 12) == 306 + schedule_texts::month_days(year, 2),
{
    let feb = schedule_texts::month_days(year, 2);
    assert(schedule_texts::days_before_month(year, 1) == 0);
    assert(schedule_texts::days_before_month(year, 2) == 31);
    assert(schedule_texts::days_before_month(year, 3) == 31 + feb);
    assert(schedule_texts::days_before_month(year, 4) == 62 + feb);
    assert(schedule_texts::days_before_month(year, 5) == 92 + feb);
    assert(schedule_texts::days_before_month(year, 6) == 123 + feb);
    assert(schedule_texts::days_before_month(year, 7) == 153 + feb);
    assert(schedule_texts::days_before_month(year, 8) == 184 + feb);
    assert(schedule_texts::days_before_month(year, 9) == 215 + feb);
    assert(schedule_texts::days_before_month(year, 10) == 245 + feb);
    assert(schedule_texts::days_before_month(year, 11) == 276 + feb);
    assert(schedule_texts::days_before_month(year, 12) == 306 + feb);
}

/// Days are numbered one after the other: within a month, from month to month
/// and from year to year; the first of January 1970 has the number zero.
pub proof fn law_days_follow_each_other(year: int, month: int, day: int)
    requires
        1 <= month <= 12,
        1 <= day <= schedule_texts::month_days(year, month),
    ensures
        schedule_texts::day_number(1970, 1, 1) == 0,
        day < schedule_texts::month_days(year, month) ==> schedule_texts::day_number(
            year,
            month,
            day + 1,
        ) == schedule_texts::day_number(year, month, day) + 1,
        day == schedule_texts::month_days(year, month) && month < 12
            ==> schedule_texts::day_number(year, month + 1, 1) == schedule_texts::day_number(
            year,
            month,
            day,
        ) + 1,
        day == 31 && month == 12 ==> schedule_texts::day_number(year + 1, 1, 1)
            == schedule_texts::day_number(year, month, day) + 1,
{
    lemma_year(year);
    lemma_year(1970);
    assert(schedule_texts::days_before_month(year, month + 1) == schedule_texts::days_before_month(
        year,
        month,
    ) + schedule_texts::month_days(year, month));
}

/// A year has 365 days, and one more every fourth year, but not in the years
/// that end a century unless 400 divides them.
pub proof fn law_leap_years(year: int)
    ensures
        schedule_texts::month_days(year, 2) == 28 || schedule_texts::month_days(year, 2) == 29,
        schedule_texts::month_days(year, 2) == 29 <==> year % 4 == 0 && !(year % 100 == 0 && year
            % 400 != 0),
        schedule_texts::day_number(year + 1, 1, 1) - schedule_texts::day_number(year, 1, 1) == 337
            + schedule_texts::month_days(year, 2),
{
    lemma_year(year);
    law_days_follow_each_other(year, 12, 31);
}

/// A clock shows hours and minutes in two digits.
pub proof fn law_clock_shows_hours_and_minutes(hour: nat, minute: nat)
    requires
        minute < 60,
    ensures
        schedule_texts::clock_shown(60 * hour + minute) == text::padded_two(hour) + ":"@
            + text::padded_two(minute),
{
    assert((60 * hour + minute) / 60 == hour && (60 * hour + minute) % 60 == minute);
}

/// A year is shown in four digits or more, behind a minus if it lies before the
/// year 0, and behind a plus if it has more than four digits.
pub proof fn law_years_are_shown(year: int)
    ensures
        0 <= year <= 9999 ==> schedule_texts::year_shown(year).len() == 4 && text_laws::value_of(
            schedule_texts::year_shown(year),
        ) == year,
        year > 9999 ==> schedule_texts::year_shown(year)[0] == '+' && text_laws::value_of(
            schedule_texts::year_shown(year).skip(1),
        ) == year,
        year < 0 ==> schedule_texts::year_shown(year)[0] == '-' && text_laws::value_of(
            schedule_texts::year_shown(year).skip(1),
        ) == -year,
{
    reveal_strlit("+");
    reveal_strlit("-");
    let n = if year < 0 {
        (-year) as nat
    } else {
        year as nat
    };
    lemma_padded_four(n);
    if year < 0 || year > 9999 {
        assert(schedule_texts::year_shown(year).skip(1) =~= schedule_texts::padded_four(n));
    }
}

proof fn lemma_padded_four(n: nat)
    ensures
        text_laws::value_of(schedule_texts::padded_four(n)) == n,
        n <= 9999 ==> schedule_texts::padded_four(n).len() == 4,
{
    reveal_strlit("0");
    reveal_strlit("00");
    text_laws::law_decimal_form_has_the_value(n);
    text_laws::law_padded_number_has_the_value(n);
    lemma_zeros("00"@, text::padded_two(n));
    lemma_zeros("0"@, text::decimal(n));
    reveal_with_fuel(text::decimal, 5);
}

proof fn lemma_zeros(zeros: Seq<char>, s: Seq<char>)
    requires
        forall|i: int| 0 <= i < zeros.len() ==> zeros[i] == '0',
    ensures
        text_laws::value_of(zeros + s) == text_laws::value_of(s),
    decreases zeros.len() + s.len(),
{
    let all = zeros + s;
    if s.len() > 0 {
        lemma_zeros(zeros, s.drop_last());
        assert(all.drop_last() =~= zeros + s.drop_last());
    } else if zeros.len() > 0 {
        lemma_zeros(zeros.drop_last(), s);
        assert(all.drop_last() =~= zeros.drop_last() + s);
        assert(zeros.last() == '0');
    } else {
        assert(all =~= s);
    }
}

/// A moment shows its year, its month, its day, and the hour and the minute that
/// it is at the offset, whatever the second.
pub proof fn law_moments_show_day_and_time(
    unix_ms: int,
    offset_s: int,
    year: int,
    month: int,
    day: int,
    days: int,
    hour: nat,
    minute: nat,
    second: nat,
)
    requires
        hour < 24,
        minute < 60,
        second < 60,
        unix_ms / 1000 + offset_s == 86_400 * days + 3600 * hour + 60 * minute + second,
    ensures
        schedule_texts::minute_text(unix_ms, offset_s, year, month, day)
            == schedule_texts::year_shown(year) + "-"@ + text::padded_two(month as nat) + "-"@
            + text::padded_two(day as nat) + " "@ + (text::padded_two(hour) + ":"@
            + text::padded_two(minute)),
{
    let of_day = 3600 * hour + 60 * minute + second;
    assert(schedule_texts::local_seconds(unix_ms, offset_s) % 86_400 == of_day);
    assert(of_day / 60 == 60 * hour + minute);
    law_clock_shows_hours_and_minutes(hour, minute);
}

// ---------------------------------------------------------------------------
// Texts
// ---------------------------------------------------------------------------

/// The name of a day is listed exactly if the day is in the set; the names stand
/// in the order of the week.
pub proof fn law_days_are_named(weekdays: u8, names: Seq<Seq<char>>, n: int, day: int)
    requires
        0 <= day < n <= 7,
        names.len() == 7,
        forall|a: int, b: int| 0 <= a < b < 7 ==> #[trigger] names[a] != #[trigger] names[b],
    ensures
        schedule_texts::day_names(weekdays, names, n).contains(names[day])
            <==> schedule_texts::has_day(weekdays, day as u8),
        schedule_texts::day_names(weekdays, names, n).len() <= n,
    decreases n,
{
    lemma_day_names_from(weekdays, names, n);
    if n > 1 && day < n - 1 {
        law_days_are_named(weekdays, names, n - 1, day);
    } else if n > 1 {
        lemma_day_names_from(weekdays, names, n - 1);
    }
    let all = schedule_texts::day_names(weekdays, names, n);
    let head = schedule_texts::day_names(weekdays, names, n - 1);
    if day < n - 1 {
        if head.contains(names[day]) {
            let k = choose|k: int| 0 <= k < head.len() && head[k] == names[day];
            assert(all[k] == names[day]);
        }
        if all.contains(names[day]) {
            let k = choose|k: int| 0 <= k < all.len() && all[k] == names[day];
            assert(names[day] != names[n - 1]);
            assert(head[k] == names[day]);
        }
    } else {
        if schedule_texts::has_day(weekdays, day as u8) {
            assert(all[head.len() as int] == names[day]);
        } else if all.contains(names[day]) {
            let k = choose|k: int| 0 <= k < all.len() && all[k] == names[day];
            assert(head[k] == names[day]);
            assert(is_name_of(names, n - 1, head[k]));
            let d = choose|d: int| 0 <= d < n - 1 && #[trigger] names[d] == head[k];
            assert(names[d] != names[n - 1]);
        }
    }
}

spec fn is_name_of(names: Seq<Seq<char>>, n: int, name: Seq<char>) -> bool {
    exists|d: int| 0 <= d < n && #[trigger] names[d] == name
}

proof fn lemma_day_names_from(weekdays: u8, names: Seq<Seq<char>>, n: int)
    requires
        0 <= n <= 7,
        names.len() == 7,
    ensures
        schedule_texts::day_names(weekdays, names, n).len() <= n,
        forall|k: int|
            0 <= k < schedule_texts::day_names(weekdays, names, n).len() ==> is_name_of(
                names,
                n,
                #[trigger] schedule_texts::day_names(weekdays, names, n)[k],
            ),
    decreases n,
{
    if n > 0 {
        lemma_day_names_from(weekdays, names, n - 1);
        let all = schedule_texts::day_names(weekdays, names, n);
        let head = schedule_texts::day_names(weekdays, names, n - 1);
        assert forall|k: int| 0 <= k < all.len() implies is_name_of(
            names,
            n,
            #[trigger] all[k],
        ) by {
            if k < head.len() {
                assert(is_name_of(names, n - 1, head[k]));
                let d = choose|d: int| 0 <= d < n - 1 && #[trigger] names[d] == head[k];
                assert(names[d] == all[k]);
            } else {
                assert(names[n - 1] == all[k]);
            }
        }
    }
}

/// The days of a set in words: all seven and none have words of their own, any
/// other set is the list of its days.
pub proof fn law_sets_of_days_in_words(weekdays: u8, words: ScheduleWords)
    ensures
        weekdays == 0b0111_1111u8 ==> schedule_texts::weekdays_shown(weekdays, words)
            == words.every_day@,
        weekdays == 0 ==> schedule_texts::weekdays_shown(weekdays, words) == words.no_days@,
        weekdays != 0b0111_1111u8 && schedule_texts::day_names(
            weekdays,
            text::views(words.weekdays@),
            7,
        ).len() > 0 ==> schedule_texts::weekdays_shown(weekdays, words) == text::joined(
            schedule_texts::day_names(weekdays, text::views(words.weekdays@), 7),
            ", "@,
        ),
{
    if weekdays == 0 {
        lemma_no_days(text::views(words.weekdays@), 7);
    }
}

proof fn lemma_no_days(names: Seq<Seq<char>>, n: int)
    requires
        n <= 7,
    ensures
        schedule_texts::day_names(0, names, n).len() == 0,
    decreases n,
{
    if n > 0 {
        lemma_no_days(names, n - 1);
        let day = (n - 1) as u8;
        assert(0u8 & (1u8 << day) == 0) by (bit_vector);
    }
}

/// When a job runs, in words: a job that runs once tells its next run if it has
/// one, and otherwise whether it was missed; another tells its days and its time
/// of day, each in its own place.
pub proof fn law_schedule_in_words(
    job: ScheduledJob,
    next: Option<Seq<char>>,
    words: ScheduleWords,
)
    ensures
        ({
            let said = schedule_texts::schedule_shown(job, next, words);
            let missed = job.last_result matches Some(run) && run.outcome == JobRunOutcome::Missed;
            &&& job.schedule is OnceAt ==> {
                &&& next matches Some(when) ==> said == LineModel::Keyed(
                    message::with_one("Once at {when}"@, "when"@, when),
                )
                &&& next is None && missed ==> said == LineModel::Plain(words.missed_job@)
                &&& next is None && !missed ==> said == LineModel::Plain(words.completed_job@)
            }
            &&& job.schedule matches JobSchedule::Recurring { minutes_of_day, weekdays } ==> {
                &&& said matches LineModel::Keyed(m) && m.key == "{days} at {time}"@
                    && m.args.contains(
                    ("days"@, schedule_texts::weekdays_shown(weekdays, words)),
                ) && m.args.contains(
                    ("time"@, schedule_texts::clock_shown(minutes_of_day as nat)),
                )
            }
        }),
{
    if let JobSchedule::Recurring { minutes_of_day, weekdays } = job.schedule {
        let said = schedule_texts::schedule_shown(job, next, words);
        if let LineModel::Keyed(m) = said {
            assert(m.args[0] == ("days"@, schedule_texts::weekdays_shown(weekdays, words)));
            assert(m.args[1] == ("time"@, schedule_texts::clock_shown(minutes_of_day as nat)));
        }
    }
}

/// What a job does, in words: its operations, the check before the download, and
/// what happens afterwards if something does.
pub proof fn law_stages_in_words(job: ScheduledJob, words: ScheduleWords)
    ensures
        ({
            let said = schedule_texts::stages_shown(job, words);
            let stages = if job.recheck && job.download {
                words.recheck@ + " + "@ + words.download@
            } else if job.recheck {
                words.recheck@
            } else if job.download {
                words.download@
            } else {
                words.no_operations@
            };
            &&& job.post_action is DoNothing ==> said == LineModel::Plain(stages)
            &&& job.post_action is CloseApp ==> (said matches LineModel::Keyed(m) && m.key
                == "{stages} then {post}"@ && m.args.contains(("stages"@, stages))
                && m.args.contains(("post"@, words.close_foxy@)))
            &&& job.post_action is ShutdownPc ==> (said matches LineModel::Keyed(m) && m.key
                == "{stages} then {post}"@ && m.args.contains(("stages"@, stages))
                && m.args.contains(("post"@, words.shut_down_pc@)))
        }),
{
    reveal_with_fuel(text::joined, 3);
    let said = schedule_texts::stages_shown(job, words);
    let none = Seq::<Seq<char>>::empty();
    let a = seq![words.recheck@];
    let b = seq![words.download@];
    assert(a + b =~= seq![words.recheck@, words.download@]);
    assert(a + none =~= a);
    assert(none + b =~= b);
    assert((a + b).drop_last() =~= a);
    if let LineModel::Keyed(m) = said {
        assert(m.args[0] == m.args[0] && m.args[1] == m.args[1]);
    }
}

/// Each outcome of a run has its own word and its own colour, and the line on
/// the last run tells time and outcome, each in its own place.
pub proof fn law_outcomes_in_words(
    when: Seq<char>,
    outcome: JobRunOutcome,
    words: ScheduleWords,
    color: OutcomeColor,
)
    requires
        call_ensures(scheduling_outcome_color, (outcome,), color),
    ensures
        ({
            let line = schedule_texts::last_run_line(when, outcome, words);
            let word = match outcome {
                JobRunOutcome::Success => words.succeeded@,
                JobRunOutcome::PartialFailure => words.partly_failed@,
                JobRunOutcome::Failed => words.failed@,
                JobRunOutcome::Skipped => words.skipped@,
                JobRunOutcome::Missed => words.missed@,
            };
            &&& line.key == "Last run {when}: {outcome}"@
            &&& line.args.contains(("when"@, when))
            &&& line.args.contains(("outcome"@, word))
        }),
        color == OutcomeColor::Success <==> outcome == JobRunOutcome::Success,
        color == OutcomeColor::Error <==> outcome == JobRunOutcome::Failed,
        color == OutcomeColor::Dim <==> outcome == JobRunOutcome::Skipped,
{
    let line = schedule_texts::last_run_line(when, outcome, words);
    assert(line.args[0] == line.args[0] && line.args[1] == line.args[1]);
}

/// A target in words: the name of the repository or of the space that it means,
/// found by both normal forms or by its id, or a word for one that is not known;
/// a selection tells how many it holds.
pub proof fn law_targets_are_named(
    target: JobTarget,
    url_key: Seq<char>,
    path_key: Seq<char>,
    repos: Seq<RepoLabel>,
    spaces: Seq<SpaceLabel>,
    words: ScheduleWords,
    i: int,
)
    ensures
        ({
            let said = schedule_texts::target_shown(
                target,
                url_key,
                path_key,
                repos,
                spaces,
                words,
            );
            &&& target is Repository && 0 <= i < repos.len() && repos[i].url_key@ == url_key
                && repos[i].path_key@ == path_key && (forall|j: int|
                0 <= j < i ==> (#[trigger] repos[j]).url_key@ != url_key || repos[j].path_key@
                    != path_key) ==> said == LineModel::Plain(repos[i].name@)
            &&& target is Repository && (forall|j: int|
                0 <= j < repos.len() ==> (#[trigger] repos[j]).url_key@ != url_key
                    || repos[j].path_key@ != path_key) ==> said == LineModel::Plain(
                words.unknown_repository@,
            )
            &&& target matches JobTarget::Space { space_id } ==> {
                &&& 0 <= i < spaces.len() && spaces[i].id@ == space_id@ && (forall|j: int|
                    0 <= j < i ==> (#[trigger] spaces[j]).id@ != space_id@) ==> said
                    == LineModel::Plain(spaces[i].name@)
                &&& (forall|j: int|
                    0 <= j < spaces.len() ==> (#[trigger] spaces[j]).id@ != space_id@) ==> said
                    == LineModel::Plain(words.unknown_space@)
            }
            &&& target matches JobTarget::Custom { repos: chosen } ==> said == LineModel::Keyed(
                message::with_one("{count} repositories"@, "count"@, text::decimal(chosen@.len())),
            )
        }),
{
    lemma_repo_label(repos, url_key, path_key, 0, i);
    if let JobTarget::Space { space_id } = target {
        lemma_space_label(spaces, space_id@, 0, i);
    }
}

proof fn lemma_repo_label(
    repos: Seq<RepoLabel>,
    url_key: Seq<char>,
    path_key: Seq<char>,
    from: int,
    i: int,
)
    requires
        0 <= from,
    ensures
        from <= i < repos.len() && repos[i].url_key@ == url_key && repos[i].path_key@ == path_key
            && (forall|j: int|
            from <= j < i ==> (#[trigger] repos[j]).url_key@ != url_key || repos[j].path_key@
                != path_key) ==> schedule_texts::repo_label_from(repos, url_key, path_key, from)
            == Some(repos[i].name@),
        (forall|j: int|
            from <= j < repos.len() ==> (#[trigger] repos[j]).url_key@ != url_key
                || repos[j].path_key@ != path_key) ==> schedule_texts::repo_label_from(
            repos,
            url_key,
            path_key,
            from,
        ) is None,
    decreases repos.len() - from,
{
    if from < repos.len() {
        lemma_repo_label(repos, url_key, path_key, from + 1, i);
        assert(repos[from].url_key@ == repos[from].url_key@);
    }
}

proof fn lemma_space_label(spaces: Seq<SpaceLabel>, id: Seq<char>, from: int, i: int)
    requires
        0 <= from,
    ensures
        from <= i < spaces.len() && spaces[i].id@ == id && (forall|j: int|
            from <= j < i ==> (#[trigger] spaces[j]).id@ != id)
            ==> schedule_texts::space_label_from(spaces, id, from) == Some(spaces[i].name@),
        (forall|j: int| from <= j < spaces.len() ==> (#[trigger] spaces[j]).id@ != id)
            ==> schedule_texts::space_label_from(spaces, id, from) is None,
    decreases spaces.len() - from,
{
    if from < spaces.len() {
        lemma_space_label(spaces, id, from + 1, i);
        assert(spaces[from].id@ == spaces[from].id@);
    }
}

/// The line above the list tells the job that runs and its stage; the job whose
/// post-action waits is told only while none runs.
pub proof fn law_running_job_is_told_first(
    running: Option<(String, String)>,
    waiting: Option<String>,
    r: Option<Message>,
)
    requires
        call_ensures(active_status, (&running, &waiting), r),
    ensures
        r is None <==> running is None && waiting is None,
        running matches Some((name, stage)) ==> r is Some && r->0@.args.contains(
            ("name"@, name@),
        ) && r->0@.args.contains(("stage"@, stage@)) && r->0@.key
            == "Running '{name}' - {stage}..."@,
        running is None ==> (waiting matches Some(name) ==> r is Some && r->0@
            == message::with_one(
            "Job '{name}' finished - waiting to run its post-action."@,
            "name"@,
            name@,
        )),
{
    if let Some(m) = r {
        assert(m@.args[0] == m@.args[0] && m@.args[1] == m@.args[1]);
    }
}

/// The heading tells an edit from a new job, and whether the post-action needs
/// success can be said exactly if there is one.
pub proof fn law_heading_and_condition_of_the_editor(
    draft: ScheduleJobDraft,
    title: &'static str,
    applies: bool,
)
    requires
        call_ensures(ScheduleJobDraft::title, (&draft,), title),
        call_ensures(ScheduleJobDraft::success_condition_applies, (&draft,), applies),
    ensures
        draft.editing_id is Some ==> title@ == "Edit scheduled job"@,
        draft.editing_id is None ==> title@ == "New scheduled job"@,
        !applies <==> draft.post_action is DoNothing,
{
}

/// A repository is meant by its own address and its own folder.
pub proof fn law_key_is_address_and_folder(repo: Repository, r: RepoInstanceKey)
    requires
        call_ensures(key_of, (&repo,), r),
    ensures
        r.remote_url@ == repo.address@,
        r.local_path@ == repo.path@,
{
}

/// The English names of the days are those of a week from Monday on.
pub proof fn law_english_days(words: ScheduleWords)
    requires
        call_ensures(english_words, (), words),
    ensures
        words.weekdays@.len() == 7,
        words.weekdays@[0]@ == "Mon"@,
        words.weekdays@[6]@ == "Sun"@,
        words.every_day@ == "every day"@,
        words.no_days@ == "no days"@,
        words.recheck@ == "Recheck"@,
        words.download@ == "Download"@,
{
    let names = text::views(words.weekdays@);
    assert(names.len() == 7);
    assert(names[0] == words.weekdays@[0]@ && names[6] == words.weekdays@[6]@);
}

} // verus!
