//! What narrows the list of saved benchmarks, and how the choices are labelled.

use vstd::prelude::*;

use crate::message;
use crate::message::{Line, LineModel, Message};
use crate::settings::benchmarks::record;
use crate::settings::benchmarks::record::BenchmarkKind;
use crate::text::same_text;

verus! {

broadcast use vstd::string::group_string_axioms;

/// Which outcomes show.
#[derive(Debug, Clone, Copy, PartialEq, Eq, Structural)]
pub enum BenchmarkOutcomeFilter {
    All,
    Success,
    Failed,
}

/// A repository that records are known of.
#[derive(Debug)]
pub struct KnownRepository {
    pub url: String,
    pub name: String,
}

/// What narrows the list. `None` lets everything through.
#[derive(Debug)]
pub struct BenchmarkFilters {
    pub search: String,
    pub kind: Option<BenchmarkKind>,
    /// The address of a repository.
    pub repository: Option<String>,
    pub outcome: BenchmarkOutcomeFilter,
    pub favourites_only: bool,
    pub show_hidden: bool,
}

/// The label of a choice of outcomes.
pub open spec fn outcome_label(filter: BenchmarkOutcomeFilter) -> Seq<char> {
    match filter {
        BenchmarkOutcomeFilter::All => "All outcomes"@,
        BenchmarkOutcomeFilter::Success => "Success"@,
        BenchmarkOutcomeFilter::Failed => "Failed"@,
    }
}

impl BenchmarkOutcomeFilter {
    /// The label of the choice.
    pub fn label(self) -> (r: &'static str)
        ensures
            r@ == outcome_label(self),
    {
        match self {
            BenchmarkOutcomeFilter::All => "All outcomes",
            BenchmarkOutcomeFilter::Success => "Success",
            BenchmarkOutcomeFilter::Failed => "Failed",
        }
    }
}

/// The label of a choice of kinds.
pub fn kind_filter_label(kind: Option<BenchmarkKind>) -> (r: &'static str)
    ensures
        r@ == match kind {
            Some(kind) => record::kind_label(kind),
            None => "All actions"@,
        },
{
    match kind {
        Some(kind) => kind.label(),
        None => "All actions",
    }
}

/// The name of the first repository with an address, from `i` on.
pub open spec fn name_from(known: Seq<KnownRepository>, url: Seq<char>, i: int) -> Option<Seq<char>>
    decreases known.len() - i,
{
    if i >= known.len() {
        None
    } else if known[i].url@ == url {
        Some(known[i].name@)
    } else {
        name_from(known, url, i + 1)
    }
}

/// The label of a choice of repositories: the name of the chosen one, if it is
/// known.
pub open spec fn repository_label(
    repository: Option<String>,
    known: Seq<KnownRepository>,
) -> LineModel {
    match repository {
        Some(url) => match name_from(known, url@, 0) {
            Some(name) => LineModel::Plain(name),
            None => LineModel::Keyed(message::plain("All repositories"@)),
        },
        None => LineModel::Keyed(message::plain("All repositories"@)),
    }
}

impl BenchmarkFilters {
    /// The label of the chosen repository.
    pub fn repository_label(&self, known: &Vec<KnownRepository>) -> (r: Line)
        ensures
            r@ == repository_label(self.repository, known@),
    {
        if let Some(url) = &self.repository {
            let mut i: usize = 0;
            while i < known.len()
                invariant
                    self.repository == Some(*url),
                    i <= known@.len(),
                    name_from(known@, url@, 0) == name_from(known@, url@, i as int),
                decreases known@.len() - i,
            {
                if same_text(known[i].url.as_str(), url.as_str()) {
                    return Line::Plain(known[i].name.clone());
                }
                i = i + 1;
            }
        }
        Line::Keyed(Message::plain("All repositories"))
    }
}

} // verus!
