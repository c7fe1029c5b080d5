//! The work that the Workshop view hands to the background.

use vstd::prelude::*;

use crate::text;
use crate::text::{concat, decimal_text, join};

verus! {

broadcast use vstd::string::group_string_axioms;

/// One mod of a shared list.
#[derive(Debug)]
pub struct SharedItem {
    pub item_id: String,
    pub name: Option<String>,
    pub load_order: Option<u32>,
    pub version: Option<String>,
    /// Whether the id is one of the Steam Workshop.
    pub resolvable: bool,
}

/// A copy of an optional string.
pub fn clone_text(o: &Option<String>) -> (r: Option<String>)
    ensures
        r == *o,
{
    match o {
        Some(s) => Some(s.clone()),
        None => None,
    }
}

impl Clone for SharedItem {
    fn clone(&self) -> (r: Self)
        ensures
            r == *self,
    {
        SharedItem {
            item_id: self.item_id.clone(),
            name: clone_text(&self.name),
            load_order: self.load_order,
            version: clone_text(&self.version),
            resolvable: self.resolvable,
        }
    }
}

/// Work the Workshop view hands to a background thread. Everything here either
/// touches the network, spawns the Steam helper, or copies whole mod folders,
/// so none of it may run on the frame loop.
#[derive(Debug)]
pub enum WorkshopTask {
    Import { items: Vec<SharedItem>, download: bool, freeze: bool },
    RefreshMetadata,
    Freeze { item_id: String },
    FreezeAll { refresh: bool },
    Remove { item_id: String, delete_data: bool },
    ExportBundle { path: String, include_disabled: bool },
    ImportBundle { path: String, download: bool },
}

/// The note beside the spinner while a task runs.
pub open spec fn busy_text(task: WorkshopTask) -> Seq<char> {
    match task {
        WorkshopTask::Import { .. } => "Importing Workshop mods"@,
        WorkshopTask::RefreshMetadata => "Refreshing Workshop details"@,
        WorkshopTask::Freeze { .. } | WorkshopTask::FreezeAll { .. } =>
            "Freezing mod versions"@,
        WorkshopTask::Remove { .. } => "Removing Workshop mod"@,
        WorkshopTask::ExportBundle { .. } => "Writing share bundle"@,
        WorkshopTask::ImportBundle { .. } => "Reading share bundle"@,
    }
}

impl WorkshopTask {
    /// The note beside the spinner while the task runs.
    pub fn busy_label(&self) -> (r: &'static str)
        ensures
            r@ == busy_text(*self),
    {
        match self {
            WorkshopTask::Import { .. } => "Importing Workshop mods",
            WorkshopTask::RefreshMetadata => "Refreshing Workshop details",
            WorkshopTask::Freeze { .. } => "Freezing mod versions",
            WorkshopTask::FreezeAll { .. } => "Freezing mod versions",
            WorkshopTask::Remove { .. } => "Removing Workshop mod",
            WorkshopTask::ExportBundle { .. } => "Writing share bundle",
            WorkshopTask::ImportBundle { .. } => "Reading share bundle",
        }
    }
}

/// How a task ended.
#[derive(Debug)]
pub struct WorkshopTaskOutcome {
    pub message: Result<String, String>,
}

/// What a task needs to know of the game space.
#[derive(Debug)]
pub struct WorkshopTaskContext {
    pub app_id: u32,
    pub game_id: String,
    pub steam_directory: String,
    pub timeout_seconds: u64,
}

/// How long the Steam helper may take, in seconds. Downloads run in a
/// subprocess, so a generous ceiling only matters when Steam stalls.
pub fn workshop_task_timeout_seconds() -> (r: u64)
    ensures
        r == 600,
{
    600
}

/// A headline with the number of failures behind it and the first three of them.
pub open spec fn summary_text(headline: Seq<char>, failures: Seq<Seq<char>>) -> Seq<char> {
    if failures.len() == 0 {
        headline
    } else {
        let shown = if failures.len() < 3 {
            failures
        } else {
            failures.take(3)
        };
        headline + " ("@ + text::decimal(failures.len()) + " failed: "@ + text::joined(shown, "; "@)
            + ")"@
    }
}

/// A headline with the number of failures behind it and the first three of them.
pub fn summarize(headline: String, failures: &Vec<String>) -> (r: String)
    ensures
        r@ == summary_text(headline@, text::views(failures@)),
{
    if failures.is_empty() {
        return headline;
    }
    let mut shown: Vec<String> = Vec::new();
    let mut i: usize = 0;
    while i < failures.len() && i < 3
        invariant
            i <= failures@.len(),
            i <= 3,
            text::views(shown@) =~= text::views(failures@).take(i as int),
        decreases failures@.len() - i,
    {
        let ghost before = text::views(shown@);
        shown.push(failures[i].clone());
        assert(text::views(shown@) =~= before.push(failures@[i as int]@));
        i = i + 1;
    }
    proof {
        if failures@.len() < 3 {
            assert(text::views(shown@) =~= text::views(failures@));
        }
    }
    let mut out: String = headline;
    out.append(" (");
    out.append(decimal_text(failures.len() as u128).as_str());
    out.append(" failed: ");
    out.append(join(&shown, "; ").as_str());
    out.append(")");
    out
}

/// The entry for one failure.
pub open spec fn failure_text(item_id: Seq<char>, error: Seq<char>) -> Seq<char> {
    item_id + ": "@ + error
}

/// The entry for one failure.
pub fn failure_entry(item_id: &String, error: &String) -> (r: String)
    ensures
        r@ == failure_text(item_id@, error@),
{
    let mut s: String = concat(item_id.as_str(), ": ");
    s.append(error.as_str());
    s
}

/// A summary without failures is the headline, and one with failures begins
/// with it.
pub proof fn law_summary_begins_with_headline(headline: Seq<char>, failures: Seq<Seq<char>>)
    ensures
        text::text_starts_with(summary_text(headline, failures), headline),
        failures.len() == 0 ==> summary_text(headline, failures) == headline,
{
    assert(summary_text(headline, failures).subrange(0, headline.len() as int) =~= headline);
}

} // verus!
