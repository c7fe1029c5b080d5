//! What the migration wizard shows.

use vstd::prelude::*;

use crate::swifty::types::{SwiftyDetectedRepo, SwiftyMigrationState};
use crate::text;
use crate::text::blank;

verus! {

/// What the wizard shows below its heading.
#[derive(Debug)]
pub enum MigrationPage {
    /// The scan failed.
    Failed { error: String },
    /// The scan found no repository.
    NothingFound,
    /// The import is done; `space_failed` asks for a note that the repository
    /// space has to be added by hand.
    Done { count: usize, space_failed: bool },
    /// The list to choose from. The two directories are shown only if Swifty
    /// had them, and the import button works only with something selected.
    Choose { found: usize, selected: usize, arma_directory: bool, temp_directory: bool },
}

/// How many repositories of a list are selected.
pub open spec fn selected_count(repos: Seq<SwiftyDetectedRepo>) -> nat
    decreases repos.len(),
{
    if repos.len() == 0 {
        0
    } else {
        selected_count(repos.drop_last()) + if repos.last().selected {
            1nat
        } else {
            0nat
        }
    }
}

/// How many repositories of a list are selected.
pub fn count_selected(repos: &Vec<SwiftyDetectedRepo>) -> (r: usize)
    ensures
        r == selected_count(repos@),
        r <= repos@.len(),
{
    let mut n: usize = 0;
    let mut i: usize = 0;
    assert(repos@.take(0) =~= Seq::empty());
    while i < repos.len()
        invariant
            i <= repos@.len(),
            n <= i,
            n == selected_count(repos@.take(i as int)),
        decreases repos@.len() - i,
    {
        proof {
            assert(repos@.take(i + 1).drop_last() =~= repos@.take(i as int));
            assert(repos@.take(i + 1).last() == repos@[i as int]);
        }
        if repos[i].selected {
            n = n + 1;
        }
        i = i + 1;
    }
    assert(repos@.take(repos@.len() as int) =~= repos@);
    n
}

impl SwiftyMigrationState {
    /// Which page the wizard shows.
    pub fn page(&self) -> (r: MigrationPage)
        ensures
            match r {
                MigrationPage::Failed { error } => self.scan_error matches Some(e) && error@ == e@,
                MigrationPage::NothingFound => self.scan_error is None
                    && self.detected_repos@.len() == 0,
                MigrationPage::Done { count, space_failed } => {
                    &&& self.scan_error is None
                    &&& self.detected_repos@.len() > 0
                    &&& self.import_done
                    &&& count == self.imported_count
                    &&& space_failed == (self.space_import_failed && !text::is_blank(
                        self.detected_space_url@,
                    ))
                },
                MigrationPage::Choose { found, selected, arma_directory, temp_directory } => {
                    &&& self.scan_error is None
                    &&& self.detected_repos@.len() > 0
                    &&& !self.import_done
                    &&& found == self.detected_repos@.len()
                    &&& selected == selected_count(self.detected_repos@)
                    &&& arma_directory == !text::is_blank(self.global_settings.arma_path@)
                    &&& temp_directory == !text::is_blank(self.global_settings.temp_path@)
                },
            },
    {
        if let Some(error) = &self.scan_error {
            return MigrationPage::Failed { error: error.clone() };
        }
        if self.detected_repos.is_empty() {
            return MigrationPage::NothingFound;
        }
        if self.import_done {
            return MigrationPage::Done {
                count: self.imported_count,
                space_failed: self.space_import_failed && !blank(self.detected_space_url.as_str()),
            };
        }
        MigrationPage::Choose {
            found: self.detected_repos.len(),
            selected: count_selected(&self.detected_repos),
            arma_directory: !blank(self.global_settings.arma_path.as_str()),
            temp_directory: !blank(self.global_settings.temp_path.as_str()),
        }
    }

    /// Select or deselect every repository.
    pub fn select_all(&mut self, on: bool)
        ensures
            final(self).detected_repos@ == Seq::new(
                old(self).detected_repos@.len(),
                |i: int| SwiftyDetectedRepo { selected: on, ..old(self).detected_repos@[i] },
            ),
            *final(self) == (SwiftyMigrationState {
                detected_repos: final(self).detected_repos,
                ..*old(self)
            }),
    {
        let n: usize = self.detected_repos.len();
        let ghost start = self.detected_repos@;
        let ghost before = *self;
        let mut i: usize = 0;
        while i < n
            invariant
                n == start.len(),
                i <= n,
                self.detected_repos@.len() == n,
                forall|j: int|
                    0 <= j < i ==> #[trigger] self.detected_repos@[j] == (SwiftyDetectedRepo {
                        selected: on,
                        ..start[j]
                    }),
                forall|j: int| i <= j < n ==> #[trigger] self.detected_repos@[j] == start[j],
                *self == (SwiftyMigrationState { detected_repos: self.detected_repos, ..before }),
            decreases n - i,
        {
            self.detected_repos[i].selected = on;
            i = i + 1;
        }
    }
}

/// After selecting or deselecting every repository, all of them count as
/// selected or none does.
pub proof fn law_select_all_counts(repos: Seq<SwiftyDetectedRepo>, on: bool)
    ensures
        selected_count(
            Seq::new(
                repos.len(),
                |i: int| SwiftyDetectedRepo { selected: on, ..repos[i] },
            ),
        ) == if on {
            repos.len()
        } else {
            0
        },
    decreases repos.len(),
{
    let f = |i: int| SwiftyDetectedRepo { selected: on, ..repos[i] };
    let all = Seq::new(repos.len(), f);
    if repos.len() > 0 {
        let head = repos.drop_last();
        law_select_all_counts(head, on);
        assert(all.drop_last() =~= Seq::new(
            head.len(),
            |i: int| SwiftyDetectedRepo { selected: on, ..head[i] },
        ));
    }
}

} // verus!
