//! Scheduled jobs: the list, the editor and the texts.

use foxy_views::message::{Line, Message};
use foxy_views::repository::{Repository, RepositorySpace};
use foxy_views::settings::schedule_texts::{
    active_status, english_words, finish_edit, job_id, job_id_now, scheduling_last_result_text,
    scheduling_outcome_color, scheduling_schedule_text, scheduling_stages_text,
    scheduling_target_text, scheduling_weekdays_text, set_weekday, weekday_on, EditRequest,
    OutcomeColor, RepoLabel, SpaceLabel,
};
use foxy_views::settings::scheduling::{
    apply_job_list_action, custom_contains, prefill_target, upsert_scheduled_job, JobListAction,
    JobListEffect, JobRunOutcome, JobRunResult, JobSchedule, JobTarget, PostAction,
    PrefilledTarget, RepoInstanceKey, ScheduleJobDraft, ScheduleKind, ScheduledJob, TargetKind,
};

fn key(url: &str) -> RepoInstanceKey {
    RepoInstanceKey { remote_url: url.to_string(), local_path: "p".to_string() }
}

fn job(id: &str) -> ScheduledJob {
    ScheduledJob {
        id: id.to_string(),
        name: format!("job {id}"),
        enabled: true,
        schedule: JobSchedule::Recurring { minutes_of_day: 7 * 60 + 5, weekdays: 0b0000_0101 },
        target: JobTarget::Space { space_id: "s".to_string() },
        recheck: true,
        download: true,
        post_action: PostAction::DoNothing,
        post_action_only_on_success: false,
        last_result: None,
    }
}

fn draft() -> ScheduleJobDraft {
    ScheduleJobDraft {
        editing_id: None,
        name: String::new(),
        kind: ScheduleKind::Once,
        year: 2026,
        month: 1,
        day: 1,
        hour: 0,
        minute: 0,
        weekdays: 0,
        target_kind: TargetKind::Custom,
        target_repo: None,
        target_space_id: None,
        target_custom: vec![],
        recheck: true,
        download: false,
        post_action: PostAction::ShutdownPc,
        post_action_only_on_success: true,
        error: None,
    }
}

fn filled(m: &Message) -> String {
    let mut text = m.key.to_string();
    for (name, value) in &m.args {
        text = text.replace(&format!("{{{name}}}"), value);
    }
    text
}

fn shown(line: &Line) -> String {
    match line {
        Line::Plain(text) => text.clone(),
        Line::Keyed(m) => filled(m),
    }
}

#[test]
fn weekdays_in_words() {
    let words = english_words();
    assert_eq!(scheduling_weekdays_text(0b0111_1111, &words), "every day");
    assert_eq!(scheduling_weekdays_text(0, &words), "no days");
    assert_eq!(scheduling_weekdays_text(0b0100_0101, &words), "Mon, Wed, Sun");
}

#[test]
fn switching_a_weekday_back_restores_the_set() {
    let days: u8 = 0b0001_0010;
    assert!(weekday_on(days, 1) && !weekday_on(days, 2));
    let more = set_weekday(days, 2, true);
    assert_eq!(more, 0b0001_0110);
    assert_eq!(set_weekday(more, 2, false), days);
}

#[test]
fn schedules_in_words() {
    let words = english_words();
    let mut j = job("1");
    assert_eq!(shown(&scheduling_schedule_text(&j, &None, &words)), "Mon, Wed at 07:05");
    j.schedule = JobSchedule::OnceAt { unix_ms: 0 };
    let next = Some("2026-01-01 00:00".to_string());
    assert_eq!(shown(&scheduling_schedule_text(&j, &next, &words)), "Once at 2026-01-01 00:00");
    assert_eq!(shown(&scheduling_schedule_text(&j, &None, &words)), "One-time job - completed");
    j.last_result = Some(JobRunResult { finished_unix_ms: 0, outcome: JobRunOutcome::Missed });
    assert_eq!(shown(&scheduling_schedule_text(&j, &None, &words)), "One-time job - missed");
}

#[test]
fn stages_in_words() {
    let words = english_words();
    let mut j = job("1");
    assert_eq!(shown(&scheduling_stages_text(&j, &words)), "Recheck + Download");
    j.recheck = false;
    j.post_action = PostAction::CloseApp;
    assert_eq!(shown(&scheduling_stages_text(&j, &words)), "Download then Close Foxy");
    j.download = false;
    j.post_action = PostAction::ShutdownPc;
    assert_eq!(shown(&scheduling_stages_text(&j, &words)), "No operations then Shut down PC");
}

#[test]
fn the_last_run_has_a_time_where_there_is_a_date() {
    let words = english_words();
    let run = |ms: i64| JobRunResult { finished_unix_ms: ms, outcome: JobRunOutcome::Success };
    let m = scheduling_last_result_text(&run(1_700_000_000_000), &words);
    assert_eq!(m.key, "Last run {when}: {outcome}");
    assert_eq!(m.args[1].1, "succeeded");
    assert_eq!(m.args[0].1.len(), "2023-11-14 00:00".len());
    assert!(m.args[0].1.starts_with("2023-11-1"));
    let when = |ms: i64| scheduling_last_result_text(&run(ms), &words).args[0].1.clone();
    assert!(when(8_210_266_876_799_999).starts_with("+26214"));
    assert_eq!(when(8_210_266_876_800_000), "");
    assert!(when(-8_334_601_228_800_000).starts_with("-26214"));
    assert!(when(-62_000_000_000_000).starts_with("0005-04-"));
    assert_eq!(when(-8_334_601_228_800_001), "");
    assert_eq!(when(i64::MAX), "");
}

#[test]
fn outcomes_have_colours() {
    assert_eq!(scheduling_outcome_color(JobRunOutcome::Success), OutcomeColor::Success);
    assert_eq!(scheduling_outcome_color(JobRunOutcome::Missed), OutcomeColor::Warn);
    assert_eq!(scheduling_outcome_color(JobRunOutcome::PartialFailure), OutcomeColor::Warn);
    assert_eq!(scheduling_outcome_color(JobRunOutcome::Failed), OutcomeColor::Error);
    assert_eq!(scheduling_outcome_color(JobRunOutcome::Skipped), OutcomeColor::Dim);
}

#[test]
fn targets_in_words() {
    let words = english_words();
    let repos = vec![RepoLabel {
        name: "Main".to_string(),
        url_key: "u".to_string(),
        path_key: "p".to_string(),
    }];
    let spaces = vec![SpaceLabel { id: "s".to_string(), name: "Space".to_string() }];
    let text = |target: &JobTarget, url: &str| {
        shown(&scheduling_target_text(
            target,
            &url.to_string(),
            &"p".to_string(),
            &repos,
            &spaces,
            &words,
        ))
    };
    assert_eq!(text(&JobTarget::Repository(key("u")), "u"), "Main");
    assert_eq!(text(&JobTarget::Repository(key("u")), "v"), "Unknown repository");
    assert_eq!(text(&JobTarget::Space { space_id: "s".to_string() }, ""), "Space");
    assert_eq!(text(&JobTarget::Space { space_id: "t".to_string() }, ""), "Unknown space");
    assert_eq!(text(&JobTarget::Custom { repos: vec![key("a"), key("b")] }, ""), "2 repositories");
}

#[test]
fn ids_of_edited_jobs_stay() {
    assert_eq!(job_id(&Some("a".to_string()), 5), "a");
    assert_eq!(job_id(&None, -5), "job--5");
    assert_eq!(job_id_now(&Some("a".to_string())), "a");
    let id = job_id_now(&None);
    assert!(id.starts_with("job-"));
    assert!(id["job-".len()..].parse::<i64>().unwrap() > 1_600_000_000_000);
}

#[test]
fn a_saved_job_replaces_its_namesake_and_keeps_the_switch() {
    let mut jobs = vec![job("1"), job("2")];
    jobs[1].enabled = false;
    let mut edited = job("2");
    edited.name = "new".to_string();
    upsert_scheduled_job(&mut jobs, edited);
    assert_eq!(jobs.len(), 2);
    assert_eq!(jobs[1].name, "new");
    assert!(!jobs[1].enabled);
    upsert_scheduled_job(&mut jobs, job("3"));
    assert_eq!(jobs[2].id, "3");
}

#[test]
fn list_actions_touch_one_job() {
    let mut jobs = vec![job("1"), job("2")];
    let toggle = JobListAction::ToggleEnabled(1);
    assert_eq!(apply_job_list_action(&mut jobs, toggle), JobListEffect::SaveSettings);
    assert!(!jobs[1].enabled && jobs[0].enabled);
    apply_job_list_action(&mut jobs, toggle);
    assert!(jobs[1].enabled);
    assert_eq!(
        apply_job_list_action(&mut jobs, JobListAction::Edit(1)),
        JobListEffect::OpenEditor(1)
    );
    assert_eq!(apply_job_list_action(&mut jobs, JobListAction::Edit(2)), JobListEffect::Nothing);
    assert_eq!(apply_job_list_action(&mut jobs, JobListAction::RunNow(0)), JobListEffect::Run(0));
    assert_eq!(
        apply_job_list_action(&mut jobs, JobListAction::Delete(0)),
        JobListEffect::SaveSettings
    );
    assert_eq!(jobs.len(), 1);
    assert_eq!(jobs[0].id, "2");
    assert_eq!(apply_job_list_action(&mut jobs, JobListAction::Delete(1)), JobListEffect::Nothing);
}

#[test]
fn edits_end_as_asked() {
    let mut jobs = vec![];
    let mut editor = Some(draft());
    assert!(!finish_edit(&mut editor, &mut jobs, EditRequest::Stay));
    assert!(editor.is_some());
    assert!(!finish_edit(&mut editor, &mut jobs, EditRequest::Save(Err("name".to_string()))));
    assert_eq!(editor.as_ref().unwrap().error.as_deref(), Some("name"));
    assert!(finish_edit(&mut editor, &mut jobs, EditRequest::Save(Ok(job("1")))));
    assert!(editor.is_none() && jobs.len() == 1);
    editor = Some(draft());
    assert!(!finish_edit(&mut editor, &mut jobs, EditRequest::Cancel));
    assert!(editor.is_none() && jobs.len() == 1);
}

#[test]
fn new_drafts_aim_at_the_first_space_or_repository() {
    let space = RepositorySpace {
        id: "s".to_string(),
        shared_path: String::new(),
        base_key: String::new(),
        entries: vec![],
    };
    let repo = Repository {
        address: "http://a".to_string(),
        path: "C:/a".to_string(),
        ..Repository::default()
    };
    let mut d = draft();
    assert_eq!(d.title(), "New scheduled job");
    d.prefill(prefill_target(&vec![space], &vec![repo.clone()]));
    assert_eq!(d.target_kind, TargetKind::Space);
    assert_eq!(d.target_space_id.as_deref(), Some("s"));
    d.prefill(prefill_target(&vec![], &vec![repo]));
    assert_eq!(d.target_kind, TargetKind::Repository);
    assert_eq!(d.target_repo.as_ref().unwrap().remote_url, "http://a");
    assert!(matches!(prefill_target(&vec![], &vec![]), PrefilledTarget::Nothing));
    d.editing_id = Some("1".to_string());
    assert_eq!(d.title(), "Edit scheduled job");
}

#[test]
fn shutdown_is_dropped_where_it_is_not_offered() {
    let mut d = draft();
    d.settle_post_action(true);
    assert!(d.success_condition_applies());
    d.settle_post_action(false);
    assert_eq!(d.post_action, PostAction::DoNothing);
    assert!(!d.success_condition_applies());
}

#[test]
fn custom_selection_is_undone() {
    let mut d = draft();
    d.select_custom(key("a"), true);
    d.select_custom(key("b"), true);
    assert!(custom_contains(&d.target_custom, &key("a")));
    d.select_custom(key("a"), false);
    assert!(!custom_contains(&d.target_custom, &key("a")));
    assert_eq!(d.target_custom.len(), 1);
}

#[test]
fn the_running_job_is_named_first() {
    let running = Some(("A".to_string(), "recheck".to_string()));
    let waiting = Some("B".to_string());
    assert_eq!(filled(&active_status(&running, &waiting).unwrap()), "Running 'A' - recheck...");
    assert_eq!(
        filled(&active_status(&None, &waiting).unwrap()),
        "Job 'B' finished - waiting to run its post-action."
    );
    assert!(active_status(&None, &None).is_none());
}
