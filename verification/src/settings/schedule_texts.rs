//! The texts of scheduled jobs, and the end of an edit.

use vstd::prelude::*;

use crate::message;
use crate::message::{one, Line, LineModel, Message, MessageModel};
use crate::repository;
use crate::settings::scheduling;
use crate::settings::scheduling::{
    upsert_scheduled_job, JobRunOutcome, JobRunResult, JobSchedule, JobTarget, PostAction,
    ScheduleJobDraft, ScheduledJob,
};
use crate::text;
use crate::text::{concat, decimal_text, join, padded_two_text, signed_decimal_text};

verus! {

broadcast use vstd::string::group_string_axioms;

// ---------------------------------------------------------------------------
// Weekdays
// ---------------------------------------------------------------------------

/// Every day of the week.
pub const WEEKDAYS_ALL: u8 = 0b0111_1111;

/// Whether a set of weekdays holds a day, Monday being day 0.
pub open spec fn has_day(weekdays: u8, day: u8) -> bool {
    weekdays & (1u8 << day) != 0
}

/// A set of weekdays with a day in it or not.
pub open spec fn with_day(weekdays: u8, day: u8, on: bool) -> u8 {
    if on {
        weekdays | (1u8 << day)
    } else {
        weekdays & !(1u8 << day)
    }
}

/// Whether a set of weekdays holds a day.
pub fn weekday_on(weekdays: u8, day: u8) -> (r: bool)
    requires
        day < 7,
    ensures
        r == has_day(weekdays, day),
{
    weekdays & (1u8 << day) != 0
}

/// Puts a day into a set of weekdays, or takes it out.
pub fn set_weekday(weekdays: u8, day: u8, on: bool) -> (r: u8)
    requires
        day < 7,
    ensures
        r == with_day(weekdays, day, on),
{
    if on {
        weekdays | (1u8 << day)
    } else {
        weekdays & !(1u8 << day)
    }
}

/// Switching a day changes that day and no other.
pub proof fn law_weekday_switch_is_local(weekdays: u8, day: u8, on: bool, other: u8)
    requires
        day < 7,
        other < 7,
    ensures
        has_day(with_day(weekdays, day, on), other) == if other == day {
            on
        } else {
            has_day(weekdays, other)
        },
{
    assert((weekdays | (1u8 << day)) & (1u8 << other) != 0 <==> (other == day || weekdays & (1u8
        << other) != 0)) by (bit_vector)
        requires
            day < 7,
            other < 7,
    ;
    assert((weekdays & !(1u8 << day)) & (1u8 << other) != 0 <==> (other != day && weekdays & (1u8
        << other) != 0)) by (bit_vector)
        requires
            day < 7,
            other < 7,
    ;
}

/// Switching a day and switching it back leaves the set as it was.
pub proof fn law_weekday_switch_back(weekdays: u8, day: u8)
    requires
        day < 7,
    ensures
        ({
            let was = has_day(weekdays, day);
            with_day(with_day(weekdays, day, !was), day, was) == weekdays
        }),
{
    assert(weekdays & (1u8 << day) != 0 ==> ((weekdays & !(1u8 << day)) | (1u8 << day))
        == weekdays) by (bit_vector)
        requires
            day < 7,
    ;
    assert(weekdays & (1u8 << day) == 0 ==> ((weekdays | (1u8 << day)) & !(1u8 << day))
        == weekdays) by (bit_vector)
        requires
            day < 7,
    ;
}

// ---------------------------------------------------------------------------
// Words
// ---------------------------------------------------------------------------

/// The words that the texts of jobs are made of, in the language of the user.
#[derive(Debug)]
pub struct ScheduleWords {
    /// Monday to Sunday.
    pub weekdays: Vec<String>,
    pub every_day: String,
    pub no_days: String,
    pub missed_job: String,
    pub completed_job: String,
    pub unknown_repository: String,
    pub unknown_space: String,
    pub recheck: String,
    pub download: String,
    pub no_operations: String,
    pub close_foxy: String,
    pub shut_down_pc: String,
    pub succeeded: String,
    pub partly_failed: String,
    pub failed: String,
    pub skipped: String,
    pub missed: String,
}

/// The words in English, by which the others are looked up: the days, then the
/// rest in the order of the fields.
pub fn english_words() -> (r: ScheduleWords)
    ensures
        text::views(r.weekdays@) == seq!["Mon"@, "Tue"@, "Wed"@, "Thu"@, "Fri"@, "Sat"@, "Sun"@],
        r.every_day@ == "every day"@,
        r.no_days@ == "no days"@,
        r.missed_job@ == "One-time job - missed"@,
        r.completed_job@ == "One-time job - completed"@,
        r.unknown_repository@ == "Unknown repository"@,
        r.unknown_space@ == "Unknown space"@,
        r.recheck@ == "Recheck"@,
        r.download@ == "Download"@,
        r.no_operations@ == "No operations"@,
        r.close_foxy@ == "Close Foxy"@,
        r.shut_down_pc@ == "Shut down PC"@,
        r.succeeded@ == "succeeded"@,
        r.partly_failed@ == "partly failed"@,
        r.failed@ == "failed"@,
        r.skipped@ == "skipped"@,
        r.missed@ == "missed"@,
{
    let mut weekdays: Vec<String> = Vec::new();
    weekdays.push("Mon".to_owned());
    weekdays.push("Tue".to_owned());
    weekdays.push("Wed".to_owned());
    weekdays.push("Thu".to_owned());
    weekdays.push("Fri".to_owned());
    weekdays.push("Sat".to_owned());
    weekdays.push("Sun".to_owned());
    assert(text::views(weekdays@) =~= seq![
        "Mon"@,
        "Tue"@,
        "Wed"@,
        "Thu"@,
        "Fri"@,
        "Sat"@,
        "Sun"@,
    ]);
    ScheduleWords {
        weekdays,
        every_day: "every day".to_owned(),
        no_days: "no days".to_owned(),
        missed_job: "One-time job - missed".to_owned(),
        completed_job: "One-time job - completed".to_owned(),
        unknown_repository: "Unknown repository".to_owned(),
        unknown_space: "Unknown space".to_owned(),
        recheck: "Recheck".to_owned(),
        download: "Download".to_owned(),
        no_operations: "No operations".to_owned(),
        close_foxy: "Close Foxy".to_owned(),
        shut_down_pc: "Shut down PC".to_owned(),
        succeeded: "succeeded".to_owned(),
        partly_failed: "partly failed".to_owned(),
        failed: "failed".to_owned(),
        skipped: "skipped".to_owned(),
        missed: "missed".to_owned(),
    }
}

// ---------------------------------------------------------------------------
// Texts
// ---------------------------------------------------------------------------

/// The names of the days of a set, among the first `n`.
pub open spec fn day_names(weekdays: u8, names: Seq<Seq<char>>, n: int) -> Seq<Seq<char>>
    decreases n,
{
    if n <= 0 {
        Seq::empty()
    } else {
        let head = day_names(weekdays, names, n - 1);
        if has_day(weekdays, (n - 1) as u8) {
            head.push(names[n - 1])
        } else {
            head
        }
    }
}

/// The days of a set in words.
pub open spec fn weekdays_shown(weekdays: u8, words: ScheduleWords) -> Seq<char> {
    let names = day_names(weekdays, text::views(words.weekdays@), 7);
    if weekdays == WEEKDAYS_ALL {
        words.every_day@
    } else if names.len() == 0 {
        words.no_days@
    } else {
        text::joined(names, ", "@)
    }
}

/// The days of a set in words.
pub fn scheduling_weekdays_text(weekdays: u8, words: &ScheduleWords) -> (r: String)
    requires
        words.weekdays@.len() == 7,
    ensures
        r@ == weekdays_shown(weekdays, *words),
{
    if weekdays == WEEKDAYS_ALL {
        return words.every_day.clone();
    }
    let ghost all = text::views(words.weekdays@);
    let mut names: Vec<String> = Vec::new();
    let mut i: u8 = 0;
    assert(text::views(names@) =~= Seq::empty());
    while i < 7
        invariant
            words.weekdays@.len() == 7,
            all == text::views(words.weekdays@),
            i <= 7,
            text::views(names@) == day_names(weekdays, all, i as int),
        decreases 7 - i,
    {
        if weekday_on(weekdays, i) {
            let ghost before = text::views(names@);
            names.push(words.weekdays[i as usize].clone());
            assert(text::views(names@) =~= before.push(all[i as int]));
        }
        i = i + 1;
    }
    if names.is_empty() {
        words.no_days.clone()
    } else {
        join(&names, ", ")
    }
}

/// A minute of the day as hours and minutes.
pub open spec fn clock_shown(minutes_of_day: nat) -> Seq<char> {
    text::padded_two(minutes_of_day / 60) + ":"@ + text::padded_two(minutes_of_day % 60)
}

/// When a job runs, in words. `next` is the time of the next run of a job that
/// runs once, if it has one.
pub open spec fn schedule_shown(
    job: ScheduledJob,
    next: Option<Seq<char>>,
    words: ScheduleWords,
) -> LineModel {
    match job.schedule {
        JobSchedule::OnceAt { .. } => match next {
            Some(when) => LineModel::Keyed(
                message::with_one("Once at {when}"@, "when"@, when),
            ),
            None => if job.last_result matches Some(run) && run.outcome is Missed {
                LineModel::Plain(words.missed_job@)
            } else {
                LineModel::Plain(words.completed_job@)
            },
        },
        JobSchedule::Recurring { minutes_of_day, weekdays } => LineModel::Keyed(
            MessageModel {
                key: "{days} at {time}"@,
                args: seq![
                    ("days"@, weekdays_shown(weekdays, words)),
                    ("time"@, clock_shown(minutes_of_day as nat)),
                ],
            },
        ),
    }
}

/// When a job runs, in words.
pub fn scheduling_schedule_text(
    job: &ScheduledJob,
    next: &Option<String>,
    words: &ScheduleWords,
) -> (r: Line)
    requires
        words.weekdays@.len() == 7,
    ensures
        r@ == schedule_shown(*job, repository::opt_view(*next), *words),
{
    match &job.schedule {
        JobSchedule::OnceAt { .. } => match next {
            Some(when) => Line::Keyed(one("Once at {when}", "when", when.clone())),
            None => {
                let missed: bool = match &job.last_result {
                    Some(run) => match run.outcome {
                        JobRunOutcome::Missed => true,
                        _ => false,
                    },
                    None => false,
                };
                if missed {
                    Line::Plain(words.missed_job.clone())
                } else {
                    Line::Plain(words.completed_job.clone())
                }
            },
        },
        JobSchedule::Recurring { minutes_of_day, weekdays } => {
            let minutes: u64 = *minutes_of_day as u64;
            let mut time: String = concat(padded_two_text(minutes / 60).as_str(), ":");
            time.append(padded_two_text(minutes % 60).as_str());
            let m: Message = Message::plain("{days} at {time}");
            let m: Message = m.with("days", scheduling_weekdays_text(*weekdays, words));
            let m: Message = m.with("time", time);
            assert(m@.args =~= seq![
                ("days"@, weekdays_shown(*weekdays, *words)),
                ("time"@, clock_shown(*minutes_of_day as nat)),
            ]);
            Line::Keyed(m)
        },
    }
}

/// What a job does, in words.
pub open spec fn stages_shown(job: ScheduledJob, words: ScheduleWords) -> LineModel {
    let recheck = if job.recheck {
        seq![words.recheck@]
    } else {
        Seq::empty()
    };
    let download = if job.download {
        seq![words.download@]
    } else {
        Seq::empty()
    };
    let stages = if job.recheck || job.download {
        text::joined(recheck + download, " + "@)
    } else {
        words.no_operations@
    };
    let then = |post: Seq<char>|
        LineModel::Keyed(
            MessageModel {
                key: "{stages} then {post}"@,
                args: seq![("stages"@, stages), ("post"@, post)],
            },
        );
    match job.post_action {
        PostAction::DoNothing => LineModel::Plain(stages),
        PostAction::CloseApp => then(words.close_foxy@),
        PostAction::ShutdownPc => then(words.shut_down_pc@),
    }
}

/// What a job does, in words.
pub fn scheduling_stages_text(job: &ScheduledJob, words: &ScheduleWords) -> (r: Line)
    ensures
        r@ == stages_shown(*job, *words),
{
    let mut stages: Vec<String> = Vec::new();
    if job.recheck {
        stages.push(words.recheck.clone());
    }
    if job.download {
        stages.push(words.download.clone());
    }
    proof {
        let recheck = if job.recheck {
            seq![words.recheck@]
        } else {
            Seq::empty()
        };
        let download = if job.download {
            seq![words.download@]
        } else {
            Seq::empty()
        };
        assert(text::views(stages@) =~= recheck + download);
    }
    let text: String = if stages.is_empty() {
        words.no_operations.clone()
    } else {
        join(&stages, " + ")
    };
    let post: Option<String> = match job.post_action {
        PostAction::DoNothing => None,
        PostAction::CloseApp => Some(words.close_foxy.clone()),
        PostAction::ShutdownPc => Some(words.shut_down_pc.clone()),
    };
    match post {
        Some(post) => {
            let ghost said = text@;
            let ghost last = post@;
            let m: Message = Message::plain("{stages} then {post}");
            let m: Message = m.with("stages", text);
            let m: Message = m.with("post", post);
            assert(m@.args =~= seq![("stages"@, said), ("post"@, last)]);
            Line::Keyed(m)
        },
        None => Line::Plain(text),
    }
}

/// How a run ended, in words.
pub open spec fn outcome_word(outcome: JobRunOutcome, words: ScheduleWords) -> Seq<char> {
    match outcome {
        JobRunOutcome::Success => words.succeeded@,
        JobRunOutcome::PartialFailure => words.partly_failed@,
        JobRunOutcome::Failed => words.failed@,
        JobRunOutcome::Skipped => words.skipped@,
        JobRunOutcome::Missed => words.missed@,
    }
}

/// The line on the last run, given its time as text.
pub open spec fn last_run_line(
    when: Seq<char>,
    outcome: JobRunOutcome,
    words: ScheduleWords,
) -> MessageModel {
    MessageModel {
        key: "Last run {when}: {outcome}"@,
        args: seq![("when"@, when), ("outcome"@, outcome_word(outcome, words))],
    }
}

/// The line on the last run, given its time as text.
pub fn last_run_message(when: String, outcome: JobRunOutcome, words: &ScheduleWords) -> (r: Message)
    ensures
        r@ == last_run_line(when@, outcome, *words),
{
    let word: String = match outcome {
        JobRunOutcome::Success => words.succeeded.clone(),
        JobRunOutcome::PartialFailure => words.partly_failed.clone(),
        JobRunOutcome::Failed => words.failed.clone(),
        JobRunOutcome::Skipped => words.skipped.clone(),
        JobRunOutcome::Missed => words.missed.clone(),
    };
    let ghost time = when@;
    let m: Message = Message::plain("Last run {when}: {outcome}");
    let m: Message = m.with("when", when);
    let m: Message = m.with("outcome", word);
    assert(m@.args =~= last_run_line(time, outcome, *words).args);
    m
}

/// Whether chrono has a date for a number of milliseconds since 1970: from the
/// first day of the year -262143 to the last of the year 262142.
pub open spec fn has_date(unix_ms: int) -> bool {
    -8_334_601_228_800_000 <= unix_ms <= 8_210_266_876_799_999
}

/// Whether a year of the Gregorian calendar is a leap year.
pub open spec fn is_leap(year: int) -> bool {
    year % 4 == 0 && (year % 100 != 0 || year % 400 == 0)
}

/// How many days a month has.
pub open spec fn month_days(year: int, month: int) -> int {
    if month == 2 {
        if is_leap(year) {
            29
        } else {
            28
        }
    } else if month == 4 || month == 6 || month == 9 || month == 11 {
        30
    } else {
        31
    }
}

/// How many days of a year lie before a month.
pub open spec fn days_before_month(year: int, month: int) -> int
    decreases month,
{
    if month <= 1 {
        0
    } else {
        days_before_month(year, month - 1) + month_days(year, month - 1)
    }
}

/// The number of a day, where the first of January 1970 has the number zero.
pub open spec fn day_number(year: int, month: int, day: int) -> int {
    let years = year - 1;
    365 * years + years / 4 - years / 100 + years / 400 + days_before_month(year, month) + day
        - 719_163
}

/// The seconds since 1970 that a clock shows at an offset from UTC.
pub open spec fn local_seconds(unix_ms: int, offset_s: int) -> int {
    unix_ms / 1000 + offset_s
}

/// Whether it is this day at a moment, at an offset from UTC.
pub open spec fn is_local_day(
    unix_ms: int,
    offset_s: int,
    year: int,
    month: int,
    day: int,
) -> bool {
    &&& 1 <= month <= 12
    &&& 1 <= day <= month_days(year, month)
    &&& day_number(year, month, day) == local_seconds(unix_ms, offset_s) / 86_400
}

/// A number in at least four digits.
pub open spec fn padded_four(n: nat) -> Seq<char> {
    if n < 100 {
        "00"@ + text::padded_two(n)
    } else if n < 1000 {
        "0"@ + text::decimal(n)
    } else {
        text::decimal(n)
    }
}

/// A year in at least four digits, with a sign if it is not one of the years
/// from 0 to 9999.
pub open spec fn year_shown(year: int) -> Seq<char> {
    if year < 0 {
        "-"@ + padded_four((-year) as nat)
    } else if year <= 9999 {
        padded_four(year as nat)
    } else {
        "+"@ + padded_four(year as nat)
    }
}

/// A day and the time of day at a moment, at an offset from UTC.
pub open spec fn minute_text(
    unix_ms: int,
    offset_s: int,
    year: int,
    month: int,
    day: int,
) -> Seq<char> {
    let minute_of_day = local_seconds(unix_ms, offset_s) % 86_400 / 60;
    year_shown(year) + "-"@ + text::padded_two(month as nat) + "-"@ + text::padded_two(day as nat)
        + " "@ + clock_shown(minute_of_day as nat)
}

/// Whether a text is that of a moment at one of the offsets that a time zone
/// can have, which are less than a day.
pub open spec fn zoned(unix_ms: int, when: Seq<char>) -> bool {
    exists|offset_s: int, year: int, month: int, day: int|
        -86_400 < offset_s < 86_400 && is_local_day(unix_ms, offset_s, year, month, day) && when
            == #[trigger] minute_text(unix_ms, offset_s, year, month, day)
}

/// chrono's `DateTime::from_timestamp_millis`, brought to the local time zone
/// with `with_timezone` and printed with `format`. There is a text exactly for
/// the moments that chrono has a date for. It shows the day and the minute of
/// the moment at some offset of less than a day, in the Gregorian calendar: four
/// digits or more for the year, two for each other part and four signs between
/// them. Which offset it is depends on the time zone of the machine and is not
/// stated.
#[verifier::external_body]
fn local_time(unix_ms: i64) -> (r: Option<String>)
    ensures
        r is Some <==> has_date(unix_ms as int),
        r matches Some(t) ==> t@.len() >= 16 && zoned(unix_ms as int, t@),
{
    chrono::DateTime::from_timestamp_millis(unix_ms).map(
        |t| t.with_timezone(&chrono::Local).format("%Y-%m-%d %H:%M").to_string(),
    )
}

/// The line on the last run. Its time is shown in the local time zone, or not
/// at all if it lies out of the range of dates.
pub fn scheduling_last_result_text(result: &JobRunResult, words: &ScheduleWords) -> (r: Message)
    ensures
        exists|when: Seq<char>| #[trigger]
            last_run_line(when, result.outcome, *words) == r@ && if has_date(
                result.finished_unix_ms as int,
            ) {
                when.len() >= 16 && zoned(result.finished_unix_ms as int, when)
            } else {
                when.len() == 0
            },
{
    let when: String = match local_time(result.finished_unix_ms) {
        Some(t) => t,
        None => String::new(),
    };
    let ghost shown = when@;
    let m: Message = last_run_message(when, result.outcome, words);
    assert(last_run_line(shown, result.outcome, *words) == m@);
    m
}

/// The colour of a line on a run.
#[derive(Debug, Clone, Copy, PartialEq, Eq, Structural)]
pub enum OutcomeColor {
    Success,
    Warn,
    Error,
    Dim,
}

/// The colour of a line on a run.
pub fn scheduling_outcome_color(outcome: JobRunOutcome) -> (r: OutcomeColor)
    ensures
        r == match outcome {
            JobRunOutcome::Success => OutcomeColor::Success,
            JobRunOutcome::PartialFailure => OutcomeColor::Warn,
            JobRunOutcome::Missed => OutcomeColor::Warn,
            JobRunOutcome::Failed => OutcomeColor::Error,
            JobRunOutcome::Skipped => OutcomeColor::Dim,
        },
{
    match outcome {
        JobRunOutcome::Success => OutcomeColor::Success,
        JobRunOutcome::PartialFailure => OutcomeColor::Warn,
        JobRunOutcome::Missed => OutcomeColor::Warn,
        JobRunOutcome::Failed => OutcomeColor::Error,
        JobRunOutcome::Skipped => OutcomeColor::Dim,
    }
}

// ---------------------------------------------------------------------------
// Targets
// ---------------------------------------------------------------------------

/// A repository as jobs find it: its name and the normal forms of its address
/// and its folder.
#[derive(Debug)]
pub struct RepoLabel {
    pub name: String,
    pub url_key: String,
    pub path_key: String,
}

/// A space as jobs find it: its id and the name it shows under.
#[derive(Debug)]
pub struct SpaceLabel {
    pub id: String,
    pub name: String,
}

/// The name of the first repository with the given normal forms, from `i` on.
pub open spec fn repo_label_from(
    repos: Seq<RepoLabel>,
    url_key: Seq<char>,
    path_key: Seq<char>,
    i: int,
) -> Option<Seq<char>>
    decreases repos.len() - i,
{
    if i < 0 || i >= repos.len() {
        None
    } else if repos[i].url_key@ == url_key && repos[i].path_key@ == path_key {
        Some(repos[i].name@)
    } else {
        repo_label_from(repos, url_key, path_key, i + 1)
    }
}

/// The name of the first space with an id, from `i` on.
pub open spec fn space_label_from(spaces: Seq<SpaceLabel>, id: Seq<char>, i: int) -> Option<
    Seq<char>,
>
    decreases spaces.len() - i,
{
    if i < 0 || i >= spaces.len() {
        None
    } else if spaces[i].id@ == id {
        Some(spaces[i].name@)
    } else {
        space_label_from(spaces, id, i + 1)
    }
}

/// The name of the repository with the given normal forms.
pub fn scheduling_repo_label(repos: &Vec<RepoLabel>, url_key: &String, path_key: &String) -> (r:
    Option<String>)
    ensures
        repository::opt_view(r) == repo_label_from(repos@, url_key@, path_key@, 0),
{
    let mut i: usize = 0;
    while i < repos.len()
        invariant
            i <= repos@.len(),
            repo_label_from(repos@, url_key@, path_key@, 0) == repo_label_from(
                repos@,
                url_key@,
                path_key@,
                i as int,
            ),
        decreases repos@.len() - i,
    {
        if repos[i].url_key == *url_key && repos[i].path_key == *path_key {
            return Some(repos[i].name.clone());
        }
        i = i + 1;
    }
    None
}

/// The name of the space with an id.
pub fn scheduling_space_label(spaces: &Vec<SpaceLabel>, id: &String) -> (r: Option<String>)
    ensures
        repository::opt_view(r) == space_label_from(spaces@, id@, 0),
{
    let mut i: usize = 0;
    while i < spaces.len()
        invariant
            i <= spaces@.len(),
            space_label_from(spaces@, id@, 0) == space_label_from(spaces@, id@, i as int),
        decreases spaces@.len() - i,
    {
        if spaces[i].id == *id {
            return Some(spaces[i].name.clone());
        }
        i = i + 1;
    }
    None
}

/// What a job works on, in words. `url_key` and `path_key` are the normal forms
/// of a single repository.
pub open spec fn target_shown(
    target: JobTarget,
    url_key: Seq<char>,
    path_key: Seq<char>,
    repos: Seq<RepoLabel>,
    spaces: Seq<SpaceLabel>,
    words: ScheduleWords,
) -> LineModel {
    match target {
        JobTarget::Repository(_) => LineModel::Plain(
            match repo_label_from(repos, url_key, path_key, 0) {
                Some(name) => name,
                None => words.unknown_repository@,
            },
        ),
        JobTarget::Space { space_id } => LineModel::Plain(
            match space_label_from(spaces, space_id@, 0) {
                Some(name) => name,
                None => words.unknown_space@,
            },
        ),
        JobTarget::Custom { repos } => LineModel::Keyed(
            message::with_one("{count} repositories"@, "count"@, text::decimal(repos@.len())),
        ),
    }
}

/// What a job works on, in words.
pub fn scheduling_target_text(
    target: &JobTarget,
    url_key: &String,
    path_key: &String,
    repos: &Vec<RepoLabel>,
    spaces: &Vec<SpaceLabel>,
    words: &ScheduleWords,
) -> (r: Line)
    ensures
        r@ == target_shown(*target, url_key@, path_key@, repos@, spaces@, *words),
{
    match target {
        JobTarget::Repository(_) => match scheduling_repo_label(repos, url_key, path_key) {
            Some(name) => Line::Plain(name),
            None => Line::Plain(words.unknown_repository.clone()),
        },
        JobTarget::Space { space_id } => match scheduling_space_label(spaces, space_id) {
            Some(name) => Line::Plain(name),
            None => Line::Plain(words.unknown_space.clone()),
        },
        JobTarget::Custom { repos } => Line::Keyed(
            one("{count} repositories", "count", decimal_text(repos.len() as u128)),
        ),
    }
}

// ---------------------------------------------------------------------------
// The end of an edit
// ---------------------------------------------------------------------------

/// The id of a job that is saved at a moment: that of the job being edited, or
/// a new one.
pub open spec fn job_id_at(editing_id: Option<Seq<char>>, now_ms: int) -> Seq<char> {
    match editing_id {
        Some(id) => id,
        None => "job-"@ + text::signed_decimal(now_ms),
    }
}

/// The id of a job that is saved at a moment.
pub fn job_id(editing_id: &Option<String>, now_ms: i64) -> (r: String)
    ensures
        r@ == job_id_at(repository::opt_view(*editing_id), now_ms as int),
{
    match editing_id {
        Some(id) => id.clone(),
        None => concat("job-", signed_decimal_text(now_ms).as_str()),
    }
}

/// chrono's `Local::now` and `DateTime::timestamp_millis`: the present moment
/// in milliseconds since 1970. Nothing is claimed of it.
#[verifier::external_body]
fn now_unix_ms() -> (r: i64) {
    chrono::Local::now().timestamp_millis()
}

/// The id of a job that is saved now. A new one is made of the present moment.
pub fn job_id_now(editing_id: &Option<String>) -> (r: String)
    ensures
        exists|now_ms: i64| #[trigger]
            job_id_at(repository::opt_view(*editing_id), now_ms as int) == r@,
{
    let now: i64 = now_unix_ms();
    let id: String = job_id(editing_id, now);
    assert(job_id_at(repository::opt_view(*editing_id), now as int) == id@);
    id
}

/// What the user did in the editor. Saving comes with what building the job
/// gave: the job, or what is wrong with it.
#[derive(Debug)]
pub enum EditRequest {
    Stay,
    Cancel,
    Save(Result<ScheduledJob, String>),
}

/// Ends an edit, or goes on with it: cancelling closes the editor, a job that
/// could be built is saved and closes it too, and otherwise the editor stays
/// open with the error. Tells whether the list changed.
pub fn finish_edit(
    editor: &mut Option<ScheduleJobDraft>,
    jobs: &mut Vec<ScheduledJob>,
    request: EditRequest,
) -> (changed: bool)
    ensures
        match request {
            EditRequest::Stay => *final(editor) == *old(editor) && final(jobs)@ == old(jobs)@
                && !changed,
            EditRequest::Cancel => *final(editor) is None && final(jobs)@ == old(jobs)@
                && !changed,
            EditRequest::Save(Ok(job)) => *final(editor) is None && final(jobs)@
                == scheduling::upserted(old(jobs)@, job) && changed,
            EditRequest::Save(Err(error)) => {
                &&& final(jobs)@ == old(jobs)@
                &&& !changed
                &&& *final(editor) == match *old(editor) {
                    Some(draft) => Some(ScheduleJobDraft { error: Some(error), ..draft }),
                    None => None,
                }
            },
        },
{
    match request {
        EditRequest::Stay => false,
        EditRequest::Cancel => {
            *editor = None;
            false
        },
        EditRequest::Save(built) => match built {
            Ok(job) => {
                upsert_scheduled_job(jobs, job);
                *editor = None;
                true
            },
            Err(error) => {
                if let Some(mut draft) = editor.take() {
                    draft.error = Some(error);
                    *editor = Some(draft);
                }
                false
            },
        },
    }
}

/// The line above the list: the job that runs with its stage, or else the job
/// whose post-action waits.
pub fn active_status(running: &Option<(String, String)>, waiting: &Option<String>) -> (r: Option<
    Message,
>)
    ensures
        match (*running, *waiting) {
            (Some((name, stage)), _) => r matches Some(m) && m@ == (MessageModel {
                key: "Running '{name}' - {stage}..."@,
                args: seq![("name"@, name@), ("stage"@, stage@)],
            }),
            (None, Some(name)) => r matches Some(m) && m@ == message::with_one(
                "Job '{name}' finished - waiting to run its post-action."@,
                "name"@,
                name@,
            ),
            (None, None) => r is None,
        },
{
    match running {
        Some((name, stage)) => {
            let m: Message = Message::plain("Running '{name}' - {stage}...");
            let m: Message = m.with("name", name.clone());
            let m: Message = m.with("stage", stage.clone());
            assert(m@.args =~= seq![("name"@, name@), ("stage"@, stage@)]);
            Some(m)
        },
        None => match waiting {
            Some(name) => Some(
                one(
                    "Job '{name}' finished - waiting to run its post-action.",
                    "name",
                    name.clone(),
                ),
            ),
            None => None,
        },
    }
}

} // verus!
