//! Scheduled jobs: the list, the editor, and their texts.

use vstd::prelude::*;

use crate::repository::{Repository, RepositorySpace};

verus! {

broadcast use vstd::string::group_string_axioms;

// ---------------------------------------------------------------------------
// Types
// ---------------------------------------------------------------------------

/// Which copy of a repository a job means.
#[derive(Debug)]
pub struct RepoInstanceKey {
    pub remote_url: String,
    pub local_path: String,
}

/// Which copy of a repository a key means.
pub open spec fn key_view(k: RepoInstanceKey) -> (Seq<char>, Seq<char>) {
    (k.remote_url@, k.local_path@)
}

/// What the keys of a list mean.
pub open spec fn key_views(v: Seq<RepoInstanceKey>) -> Seq<(Seq<char>, Seq<char>)> {
    Seq::new(v.len(), |i: int| key_view(v[i]))
}

/// When a job runs.
#[derive(Debug)]
pub enum JobSchedule {
    OnceAt { unix_ms: i64 },
    /// On the days of a set, Monday being the lowest bit, at a minute of the day.
    Recurring { minutes_of_day: u16, weekdays: u8 },
}

/// What a job works on.
#[derive(Debug)]
pub enum JobTarget {
    Repository(RepoInstanceKey),
    Space { space_id: String },
    Custom { repos: Vec<RepoInstanceKey> },
}

/// What happens when a job is done.
#[derive(Debug, Clone, Copy, PartialEq, Eq, Structural)]
pub enum PostAction {
    DoNothing,
    CloseApp,
    ShutdownPc,
}

/// How a run of a job ended.
#[derive(Debug, Clone, Copy, PartialEq, Eq, Structural)]
pub enum JobRunOutcome {
    Success,
    PartialFailure,
    Failed,
    Skipped,
    Missed,
}

/// The last run of a job.
#[derive(Debug, Clone, Copy, PartialEq, Eq, Structural)]
pub struct JobRunResult {
    pub finished_unix_ms: i64,
    pub outcome: JobRunOutcome,
}

/// A scheduled job.
#[derive(Debug)]
pub struct ScheduledJob {
    pub id: String,
    pub name: String,
    pub enabled: bool,
    pub schedule: JobSchedule,
    pub target: JobTarget,
    pub recheck: bool,
    pub download: bool,
    pub post_action: PostAction,
    pub post_action_only_on_success: bool,
    pub last_result: Option<JobRunResult>,
}

/// Whether the editor is set to a single run.
#[derive(Debug, Clone, Copy, PartialEq, Eq, Structural)]
pub enum ScheduleKind {
    Once,
    Recurring,
}

/// What the editor is set to work on.
#[derive(Debug, Clone, Copy, PartialEq, Eq, Structural)]
pub enum TargetKind {
    Repository,
    Space,
    Custom,
}

/// A job in the editor.
#[derive(Debug)]
pub struct ScheduleJobDraft {
    pub editing_id: Option<String>,
    pub name: String,
    pub kind: ScheduleKind,
    pub year: i32,
    pub month: u32,
    pub day: u32,
    pub hour: u32,
    pub minute: u32,
    pub weekdays: u8,
    pub target_kind: TargetKind,
    pub target_repo: Option<RepoInstanceKey>,
    pub target_space_id: Option<String>,
    pub target_custom: Vec<RepoInstanceKey>,
    pub recheck: bool,
    pub download: bool,
    pub post_action: PostAction,
    pub post_action_only_on_success: bool,
    pub error: Option<String>,
}

// ---------------------------------------------------------------------------
// The list
// ---------------------------------------------------------------------------

/// An action on the list of jobs.
#[derive(Debug, Clone, Copy, PartialEq, Eq, Structural)]
pub enum JobListAction {
    Edit(usize),
    Delete(usize),
    ToggleEnabled(usize),
    RunNow(usize),
}

/// What an action on the list asks of the caller.
#[derive(Debug, Clone, Copy, PartialEq, Eq, Structural)]
pub enum JobListEffect {
    Nothing,
    OpenEditor(usize),
    SaveSettings,
    Run(usize),
}

/// Carries out an action on the list of jobs. A position behind the end of the
/// list does nothing, except that running is left to the scheduler.
pub fn apply_job_list_action(jobs: &mut Vec<ScheduledJob>, action: JobListAction) -> (r:
    JobListEffect)
    ensures
        match action {
            JobListAction::Edit(i) => final(jobs)@ == old(jobs)@ && r == if i < old(jobs)@.len() {
                JobListEffect::OpenEditor(i)
            } else {
                JobListEffect::Nothing
            },
            JobListAction::Delete(i) => if i < old(jobs)@.len() {
                final(jobs)@ == old(jobs)@.remove(i as int) && r == JobListEffect::SaveSettings
            } else {
                final(jobs)@ == old(jobs)@ && r == JobListEffect::Nothing
            },
            JobListAction::ToggleEnabled(i) => if i < old(jobs)@.len() {
                final(jobs)@ == old(jobs)@.update(i as int, toggled(old(jobs)@[i as int])) && r
                    == JobListEffect::SaveSettings
            } else {
                final(jobs)@ == old(jobs)@ && r == JobListEffect::Nothing
            },
            JobListAction::RunNow(i) => final(jobs)@ == old(jobs)@ && r == JobListEffect::Run(i),
        },
{
    match action {
        JobListAction::Edit(i) => if i < jobs.len() {
            JobListEffect::OpenEditor(i)
        } else {
            JobListEffect::Nothing
        },
        JobListAction::Delete(i) => if i < jobs.len() {
            let _ = jobs.remove(i);
            JobListEffect::SaveSettings
        } else {
            JobListEffect::Nothing
        },
        JobListAction::ToggleEnabled(i) => if i < jobs.len() {
            let on: bool = jobs[i].enabled;
            jobs[i].enabled = !on;
            JobListEffect::SaveSettings
        } else {
            JobListEffect::Nothing
        },
        JobListAction::RunNow(i) => JobListEffect::Run(i),
    }
}

/// A job with its switch turned.
pub open spec fn toggled(job: ScheduledJob) -> ScheduledJob {
    ScheduledJob { enabled: !job.enabled, ..job }
}

/// Turning the switch of a job twice leaves the job as it was.
pub proof fn law_toggle_twice(job: ScheduledJob)
    ensures
        toggled(toggled(job)) == job,
{
}

/// The first job with an id, among the first `n`.
pub open spec fn job_with_id(jobs: Seq<ScheduledJob>, id: Seq<char>, n: int) -> Option<int>
    decreases n,
{
    if n <= 0 {
        None
    } else {
        match job_with_id(jobs, id, n - 1) {
            Some(i) => Some(i),
            None => if jobs[n - 1].id@ == id {
                Some(n - 1)
            } else {
                None
            },
        }
    }
}

/// The list after a job was saved: it takes the place of the job with its id
/// and keeps the switch of that, or comes at the end.
pub open spec fn upserted(jobs: Seq<ScheduledJob>, job: ScheduledJob) -> Seq<ScheduledJob> {
    match job_with_id(jobs, job.id@, jobs.len() as int) {
        Some(i) => jobs.update(i, ScheduledJob { enabled: jobs[i].enabled, ..job }),
        None => jobs.push(job),
    }
}

/// Saves a job.
pub fn upsert_scheduled_job(jobs: &mut Vec<ScheduledJob>, job: ScheduledJob)
    ensures
        final(jobs)@ == upserted(old(jobs)@, job),
{
    let mut entry: ScheduledJob = job;
    let mut i: usize = 0;
    while i < jobs.len()
        invariant
            jobs@ == old(jobs)@,
            entry == job,
            i <= jobs@.len(),
            job_with_id(jobs@, job.id@, i as int) is None,
        decreases jobs@.len() - i,
    {
        if jobs[i].id == entry.id {
            proof {
                assert(job_with_id(jobs@, job.id@, i + 1) == Some(i as int));
                lemma_job_found_early(jobs@, job.id@, i + 1, jobs@.len() as int);
            }
            entry.enabled = jobs[i].enabled;
            jobs.set(i, entry);
            return;
        }
        i = i + 1;
    }
    jobs.push(entry);
}

proof fn lemma_job_found_early(jobs: Seq<ScheduledJob>, id: Seq<char>, n: int, m: int)
    requires
        0 <= n <= m,
        job_with_id(jobs, id, n) is Some,
    ensures
        job_with_id(jobs, id, m) == job_with_id(jobs, id, n),
    decreases m,
{
    if n < m {
        lemma_job_found_early(jobs, id, n, m - 1);
    }
}

/// What a search by id finds has the id, nothing before it has, and nothing is
/// missed.
pub proof fn lemma_job_with_id(jobs: Seq<ScheduledJob>, id: Seq<char>, n: int)
    requires
        0 <= n <= jobs.len(),
    ensures
        match job_with_id(jobs, id, n) {
            Some(i) => 0 <= i < n && jobs[i].id@ == id && (forall|j: int|
                0 <= j < i ==> (#[trigger] jobs[j]).id@ != id),
            None => forall|j: int| 0 <= j < n ==> (#[trigger] jobs[j]).id@ != id,
        },
    decreases n,
{
    if n > 0 {
        lemma_job_with_id(jobs, id, n - 1);
    }
}

/// Whether no two jobs share an id.
pub open spec fn distinct_ids(jobs: Seq<ScheduledJob>) -> bool {
    forall|i: int, j: int|
        0 <= i < j < jobs.len() ==> (#[trigger] jobs[i]).id@ != (#[trigger] jobs[j]).id@
}

/// Saving a job keeps ids distinct, the job is found under its id afterwards,
/// and an edit keeps the switch.
pub proof fn law_saved_job_is_found(jobs: Seq<ScheduledJob>, job: ScheduledJob)
    requires
        distinct_ids(jobs),
    ensures
        distinct_ids(upserted(jobs, job)),
        ({
            let after = upserted(jobs, job);
            let found = job_with_id(after, job.id@, after.len() as int);
            &&& found is Some
            &&& after[found->0] == (ScheduledJob { enabled: after[found->0].enabled, ..job })
            &&& job_with_id(jobs, job.id@, jobs.len() as int) matches Some(i)
                ==> after[found->0].enabled == jobs[i].enabled
        }),
{
    let after = upserted(jobs, job);
    lemma_job_with_id(jobs, job.id@, jobs.len() as int);
    lemma_job_with_id(after, job.id@, after.len() as int);
    match job_with_id(jobs, job.id@, jobs.len() as int) {
        Some(i) => {
            assert(after[i].id@ == job.id@);
            assert forall|j: int| 0 <= j < jobs.len() && j != i implies (#[trigger] after[j]).id@
                != job.id@ by {
                assert(after[j] == jobs[j]);
                if j < i {
                    assert(jobs[j].id@ != jobs[i].id@);
                } else {
                    assert(jobs[i].id@ != jobs[j].id@);
                }
            }
        },
        None => {
            assert(after.last().id@ == job.id@);
        },
    }
}

// ---------------------------------------------------------------------------
// The editor
// ---------------------------------------------------------------------------

/// What a new job is set to work on: the first space, or else the first
/// repository, so that it is valid once a time is chosen.
#[derive(Debug)]
pub enum PrefilledTarget {
    Nothing,
    Space { id: String },
    Repository { key: RepoInstanceKey },
}

/// What a new job is set to work on.
pub fn prefill_target(spaces: &Vec<RepositorySpace>, repositories: &Vec<Repository>) -> (r:
    PrefilledTarget)
    ensures
        match r {
            PrefilledTarget::Space { id } => spaces@.len() > 0 && id@ == spaces@[0].id@,
            PrefilledTarget::Repository { key } => spaces@.len() == 0 && repositories@.len() > 0
                && key_view(key) == (repositories@[0].address@, repositories@[0].path@),
            PrefilledTarget::Nothing => spaces@.len() == 0 && repositories@.len() == 0,
        },
{
    if spaces.len() > 0 {
        PrefilledTarget::Space { id: spaces[0].id.clone() }
    } else if repositories.len() > 0 {
        PrefilledTarget::Repository { key: key_of(&repositories[0]) }
    } else {
        PrefilledTarget::Nothing
    }
}

/// The key of a repository.
pub fn key_of(repo: &Repository) -> (r: RepoInstanceKey)
    ensures
        key_view(r) == (repo.address@, repo.path@),
{
    RepoInstanceKey { remote_url: repo.address.clone(), local_path: repo.path.clone() }
}

impl ScheduleJobDraft {
    /// Sets a new draft to work on what it is prefilled with.
    pub fn prefill(&mut self, target: PrefilledTarget)
        ensures
            match target {
                PrefilledTarget::Nothing => *final(self) == *old(self),
                PrefilledTarget::Space { id } => *final(self) == (ScheduleJobDraft {
                    target_kind: TargetKind::Space,
                    target_space_id: Some(id),
                    ..*old(self)
                }),
                PrefilledTarget::Repository { key } => *final(self) == (ScheduleJobDraft {
                    target_kind: TargetKind::Repository,
                    target_repo: Some(key),
                    ..*old(self)
                }),
            },
    {
        match target {
            PrefilledTarget::Nothing => {},
            PrefilledTarget::Space { id } => {
                self.target_kind = TargetKind::Space;
                self.target_space_id = Some(id);
            },
            PrefilledTarget::Repository { key } => {
                self.target_kind = TargetKind::Repository;
                self.target_repo = Some(key);
            },
        }
    }

    /// The heading of the editor.
    pub fn title(&self) -> (r: &'static str)
        ensures
            r@ == if self.editing_id is Some {
                "Edit scheduled job"@
            } else {
                "New scheduled job"@
            },
    {
        if self.editing_id.is_some() {
            "Edit scheduled job"
        } else {
            "New scheduled job"
        }
    }

    /// Drops a shutdown that this system does not offer.
    pub fn settle_post_action(&mut self, can_shut_down: bool)
        ensures
            *final(self) == (ScheduleJobDraft {
                post_action: if !can_shut_down && old(self).post_action is ShutdownPc {
                    PostAction::DoNothing
                } else {
                    old(self).post_action
                },
                ..*old(self)
            }),
    {
        let shut: bool = match self.post_action {
            PostAction::ShutdownPc => true,
            _ => false,
        };
        if !can_shut_down && shut {
            self.post_action = PostAction::DoNothing;
        }
    }

    /// Whether it can be said that the post-action needs success: only if there
    /// is one.
    pub fn success_condition_applies(&self) -> (r: bool)
        ensures
            r == !(self.post_action is DoNothing),
    {
        match self.post_action {
            PostAction::DoNothing => false,
            _ => true,
        }
    }

    /// Adds a repository to the selection, or takes every copy of it out.
    pub fn select_custom(&mut self, key: RepoInstanceKey, on: bool)
        ensures
            key_views(final(self).target_custom@) == if on {
                key_views(old(self).target_custom@).push(key_view(key))
            } else {
                without_key(key_views(old(self).target_custom@), key_view(key))
            },
            *final(self) == (ScheduleJobDraft {
                target_custom: final(self).target_custom,
                ..*old(self)
            }),
    {
        if on {
            let ghost before = key_views(self.target_custom@);
            self.target_custom.push(key);
            assert(key_views(self.target_custom@) =~= before.push(key_view(key)));
        } else {
            self.target_custom = keys_without(&self.target_custom, &key);
        }
    }
}

/// A selection without a repository.
pub open spec fn without_key(
    keys: Seq<(Seq<char>, Seq<char>)>,
    key: (Seq<char>, Seq<char>),
) -> Seq<(Seq<char>, Seq<char>)> {
    keys.filter(other_than(key))
}

/// Whether a key means another copy.
pub open spec fn other_than(key: (Seq<char>, Seq<char>)) -> spec_fn(
    (Seq<char>, Seq<char>),
) -> bool {
    |k: (Seq<char>, Seq<char>)| k != key
}

/// Whether two keys mean the same copy.
pub fn same_key(a: &RepoInstanceKey, b: &RepoInstanceKey) -> (r: bool)
    ensures
        r == (key_view(*a) == key_view(*b)),
{
    a.remote_url == b.remote_url && a.local_path == b.local_path
}

/// Whether a selection holds a repository.
pub fn custom_contains(keys: &Vec<RepoInstanceKey>, key: &RepoInstanceKey) -> (r: bool)
    ensures
        r == key_views(keys@).contains(key_view(*key)),
{
    let mut i: usize = 0;
    while i < keys.len()
        invariant
            i <= keys@.len(),
            forall|j: int| 0 <= j < i ==> key_view(#[trigger] keys@[j]) != key_view(*key),
        decreases keys@.len() - i,
    {
        if same_key(&keys[i], key) {
            assert(key_views(keys@)[i as int] == key_view(*key));
            return true;
        }
        i = i + 1;
    }
    proof {
        if key_views(keys@).contains(key_view(*key)) {
            let j = choose|j: int| 0 <= j < keys@.len() && key_views(keys@)[j] == key_view(*key);
            assert(key_view(keys@[j]) == key_view(*key));
        }
    }
    false
}

/// A selection without a repository.
fn keys_without(keys: &Vec<RepoInstanceKey>, key: &RepoInstanceKey) -> (r: Vec<RepoInstanceKey>)
    ensures
        key_views(r@) == without_key(key_views(keys@), key_view(*key)),
{
    let ghost all = key_views(keys@);
    let mut out: Vec<RepoInstanceKey> = Vec::new();
    let mut i: usize = 0;
    proof {
        reveal(Seq::filter);
        assert(all.take(0) =~= Seq::empty());
        assert(key_views(out@) =~= without_key(all.take(0), key_view(*key)));
    }
    while i < keys.len()
        invariant
            all == key_views(keys@),
            i <= keys@.len(),
            key_views(out@) == without_key(all.take(i as int), key_view(*key)),
        decreases keys@.len() - i,
    {
        let ghost before = key_views(out@);
        proof {
            reveal(Seq::filter);
            assert(all.take(i + 1).drop_last() =~= all.take(i as int));
            assert(all.take(i + 1).last() == key_view(keys@[i as int]));
        }
        if !same_key(&keys[i], key) {
            out.push(
                RepoInstanceKey {
                    remote_url: keys[i].remote_url.clone(),
                    local_path: keys[i].local_path.clone(),
                },
            );
            assert(key_views(out@) =~= before.push(key_view(keys@[i as int])));
        }
        i = i + 1;
    }
    assert(all.take(all.len() as int) =~= all);
    out
}

/// A repository that was taken out of a selection is not in it.
pub proof fn law_deselected_repository_is_gone(
    keys: Seq<(Seq<char>, Seq<char>)>,
    key: (Seq<char>, Seq<char>),
)
    ensures
        !without_key(keys, key).contains(key),
{
    let keep = other_than(key);
    let kept = without_key(keys, key);
    if kept.contains(key) {
        let i = choose|i: int| 0 <= i < kept.len() && kept[i] == key;
        keys.lemma_filter_pred(keep, i);
    }
}

} // verus!
