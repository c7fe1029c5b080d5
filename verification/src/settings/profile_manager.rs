//! The management of Arma 3 profiles: renaming, cloning and deleting them.

use vstd::prelude::*;

use crate::message;
use crate::message::{one, Message, MessageModel};
use crate::repository;
use crate::repository::Repository;
use crate::text;
use crate::text::{concat, eq_ignore_ascii_case, same_text, trim, trim_unless_blank};

verus! {

broadcast use vstd::string::group_string_axioms;

/// A profile of the game.
#[derive(Debug)]
pub struct Arma3Profile {
    pub name: String,
    pub path: String,
    pub is_default: bool,
}

impl Clone for Arma3Profile {
    fn clone(&self) -> (r: Self)
        ensures
            r == *self,
    {
        Arma3Profile {
            name: self.name.clone(),
            path: self.path.clone(),
            is_default: self.is_default,
        }
    }
}

/// Which management operation is pending confirmation in the modal.
#[derive(Debug, Clone, Copy, PartialEq, Eq, Structural)]
pub enum Arma3ProfileActionKind {
    Rename,
    Clone,
    Delete,
}

/// A profile management action opened from the settings profile list,
/// carrying the snapshot of the profile it targets and the name input.
#[derive(Debug)]
pub struct Arma3ProfileAction {
    pub kind: Arma3ProfileActionKind,
    pub profile: Arma3Profile,
    pub name_input: String,
}

// ---------------------------------------------------------------------------
// The list
// ---------------------------------------------------------------------------

/// The label of a profile: its name, whether it is the default one and whether
/// it was used last.
pub open spec fn profile_label(
    profile: Arma3Profile,
    active: Option<Seq<char>>,
    default_word: Seq<char>,
    last_used: Seq<char>,
) -> Seq<char> {
    let label = if profile.is_default {
        profile.name@ + " ("@ + default_word + ")"@
    } else {
        profile.name@
    };
    if active == Some(profile.name@) {
        label + " - "@ + last_used
    } else {
        label
    }
}

/// The label of a profile. `default_word` and `last_used` are the translated
/// words.
pub fn profile_label_text(
    profile: &Arma3Profile,
    active: &Option<String>,
    default_word: &str,
    last_used: &str,
) -> (r: String)
    ensures
        r@ == profile_label(*profile, repository::opt_view(*active), default_word@, last_used@),
{
    let mut label: String = profile.name.clone();
    if profile.is_default {
        label.append(" (");
        label.append(default_word);
        label.append(")");
    }
    if let Some(active) = active {
        if same_text(active.as_str(), profile.name.as_str()) {
            label.append(" - ");
            label.append(last_used);
        }
    }
    label
}

/// The name that the window starts with.
pub open spec fn first_name(kind: Arma3ProfileActionKind, profile: Arma3Profile) -> Seq<char> {
    match kind {
        Arma3ProfileActionKind::Rename => profile.name@,
        Arma3ProfileActionKind::Clone => profile.name@ + " 2"@,
        Arma3ProfileActionKind::Delete => Seq::empty(),
    }
}

/// The action that a button of a profile opens. The default profile cannot be
/// deleted.
pub fn open_action(kind: Arma3ProfileActionKind, profile: &Arma3Profile) -> (r: Option<
    Arma3ProfileAction,
>)
    ensures
        r is None <==> (kind == Arma3ProfileActionKind::Delete && profile.is_default),
        r matches Some(a) ==> a.kind == kind && a.profile == *profile && a.name_input@ == first_name(
            kind,
            *profile,
        ),
{
    let name_input: String = match kind {
        Arma3ProfileActionKind::Rename => profile.name.clone(),
        Arma3ProfileActionKind::Clone => concat(profile.name.as_str(), " 2"),
        Arma3ProfileActionKind::Delete => {
            if profile.is_default {
                return None;
            }
            String::new()
        },
    };
    Some(Arma3ProfileAction { kind, profile: profile.clone(), name_input })
}

/// The title of the window of an action, and its button.
pub open spec fn window_words(kind: Arma3ProfileActionKind) -> (Seq<char>, Seq<char>) {
    match kind {
        Arma3ProfileActionKind::Rename => ("Rename Arma 3 profile"@, "Rename"@),
        Arma3ProfileActionKind::Clone => ("Clone Arma 3 profile"@, "Clone"@),
        Arma3ProfileActionKind::Delete => ("Delete Arma 3 profile"@, "Delete profile"@),
    }
}

impl Arma3ProfileActionKind {
    /// The title of the window of an action, and its button.
    pub fn words(self) -> (r: (&'static str, &'static str))
        ensures
            (r.0@, r.1@) == window_words(self),
    {
        match self {
            Arma3ProfileActionKind::Rename => ("Rename Arma 3 profile", "Rename"),
            Arma3ProfileActionKind::Clone => ("Clone Arma 3 profile", "Clone"),
            Arma3ProfileActionKind::Delete => ("Delete Arma 3 profile", "Delete profile"),
        }
    }
}

// ---------------------------------------------------------------------------
// Names
// ---------------------------------------------------------------------------

/// Why a name cannot be that of a profile.
#[derive(Debug, Clone, Copy, PartialEq, Eq, Structural)]
pub enum ProfileNameError {
    Empty,
    TooLong,
    UnsupportedCharacters,
    Reserved,
}

/// Whether a profile has a name, whatever the case of its ASCII letters.
pub open spec fn name_taken(profiles: Seq<Arma3Profile>, name: Seq<char>) -> bool {
    exists|i: int|
        0 <= i < profiles.len() && text::lowered((#[trigger] profiles[i]).name@) == text::lowered(
            name,
        )
}

/// What is wrong with a name that was typed in. `invalid` is what the rules
/// for names say of it, without the white space around it.
pub open spec fn name_error(
    action: Arma3ProfileAction,
    input: Seq<char>,
    profiles: Seq<Arma3Profile>,
    invalid: Option<ProfileNameError>,
) -> Option<Seq<char>> {
    let name = text::trimmed(input);
    if action.kind == Arma3ProfileActionKind::Rename && name == action.profile.name@ {
        Some("Enter a different name."@)
    } else {
        match invalid {
            None => if name_taken(profiles, name) {
                Some("A profile with this name already exists."@)
            } else {
                None
            },
            Some(ProfileNameError::Empty) => Some("Profile name cannot be empty."@),
            Some(ProfileNameError::TooLong) => Some("Profile name is too long."@),
            Some(ProfileNameError::UnsupportedCharacters) => Some(
                "Profile name contains unsupported characters. Allowed: letters, numbers, spaces, - _ [ ]"@,
            ),
            Some(ProfileNameError::Reserved) => Some(
                "This name is reserved by the operating system."@,
            ),
        }
    }
}

/// Whether a profile has a name, whatever the case of its ASCII letters.
fn has_name(profiles: &Vec<Arma3Profile>, name: &str) -> (r: bool)
    ensures
        r == name_taken(profiles@, name@),
{
    let mut i: usize = 0;
    while i < profiles.len()
        invariant
            i <= profiles@.len(),
            forall|j: int|
                0 <= j < i ==> text::lowered((#[trigger] profiles@[j]).name@) != text::lowered(
                    name@,
                ),
        decreases profiles@.len() - i,
    {
        if eq_ignore_ascii_case(profiles[i].name.as_str(), name) {
            assert(text::lowered(profiles@[i as int].name@) == text::lowered(name@));
            return true;
        }
        i = i + 1;
    }
    false
}

/// Validation message for a proposed profile name, or None when valid.
pub fn arma3_profile_name_error(
    action: &Arma3ProfileAction,
    name_input: &str,
    profiles: &Vec<Arma3Profile>,
    invalid: Option<ProfileNameError>,
) -> (r: Option<&'static str>)
    ensures
        match r {
            Some(t) => name_error(*action, name_input@, profiles@, invalid) == Some(t@),
            None => name_error(*action, name_input@, profiles@, invalid) is None,
        },
{
    let name: String = trim(name_input);
    if action.kind == Arma3ProfileActionKind::Rename && same_text(
        name.as_str(),
        action.profile.name.as_str(),
    ) {
        return Some("Enter a different name.");
    }
    match invalid {
        None => if has_name(profiles, name.as_str()) {
            Some("A profile with this name already exists.")
        } else {
            None
        },
        Some(ProfileNameError::Empty) => Some("Profile name cannot be empty."),
        Some(ProfileNameError::TooLong) => Some("Profile name is too long."),
        Some(ProfileNameError::UnsupportedCharacters) => Some(
            "Profile name contains unsupported characters. Allowed: letters, numbers, spaces, - _ [ ]",
        ),
        Some(ProfileNameError::Reserved) => Some("This name is reserved by the operating system."),
    }
}

/// Whether the button of the window works: a deletion needs no name, the
/// others need a good one.
pub fn confirm_enabled(kind: Arma3ProfileActionKind, name_is_wrong: bool) -> (r: bool)
    ensures
        r == (kind == Arma3ProfileActionKind::Delete || !name_is_wrong),
{
    kind == Arma3ProfileActionKind::Delete || !name_is_wrong
}

/// No two profiles get names that differ in the case of ASCII letters alone:
/// a name without a complaint is not that of a profile.
pub proof fn law_accepted_name_is_new(
    action: Arma3ProfileAction,
    input: Seq<char>,
    profiles: Seq<Arma3Profile>,
    invalid: Option<ProfileNameError>,
    i: int,
)
    requires
        name_error(action, input, profiles, invalid) is None,
        0 <= i < profiles.len(),
    ensures
        text::lowered(profiles[i].name@) != text::lowered(text::trimmed(input)),
        invalid is None,
{
}

// ---------------------------------------------------------------------------
// Carrying out
// ---------------------------------------------------------------------------

/// A folder that must never be renamed or deleted as a whole: `base`, or a
/// folder in it.
#[derive(Debug)]
pub struct ProtectedRoot {
    pub base: String,
    pub below: Option<&'static str>,
}

/// What a protected folder is.
pub open spec fn root_model(r: ProtectedRoot) -> (Seq<char>, Option<Seq<char>>) {
    (
        r.base@,
        match r.below {
            Some(t) => Some(t@),
            None => None,
        },
    )
}

/// What protected folders are.
pub open spec fn root_models(v: Seq<ProtectedRoot>) -> Seq<(Seq<char>, Option<Seq<char>>)> {
    Seq::new(v.len(), |i: int| root_model(v[i]))
}

/// The folders that must never be renamed or deleted as a whole: those in
/// which the game keeps its profiles, and the configured one.
pub open spec fn protected_roots(
    documents: Option<Seq<char>>,
    custom: Option<Seq<char>>,
) -> Seq<(Seq<char>, Option<Seq<char>>)> {
    let usual = match documents {
        Some(d) => seq![(d, Some("Arma 3"@)), (d, Some("Arma 3 - Other Profiles"@))],
        None => Seq::empty(),
    };
    let own = match custom {
        Some(c) => seq![(c, Some("Users"@)), (c, None)],
        None => Seq::empty(),
    };
    usual + own
}

/// Directories that must never be renamed or deleted as a whole:
/// the vanilla profile roots and the configured custom profiles root.
/// `documents` is the folder of the user's documents, if there is one.
pub fn arma3_profile_protected_roots(documents: &Option<String>, profiles_directory: &str) -> (r:
    Vec<ProtectedRoot>)
    ensures
        root_models(r@) == protected_roots(
            repository::opt_view(*documents),
            text::unless_blank(profiles_directory@),
        ),
{
    let mut roots: Vec<ProtectedRoot> = Vec::new();
    if let Some(d) = documents {
        roots.push(ProtectedRoot { base: d.clone(), below: Some("Arma 3") });
        roots.push(ProtectedRoot { base: d.clone(), below: Some("Arma 3 - Other Profiles") });
    }
    if let Some(custom) = trim_unless_blank(profiles_directory) {
        roots.push(ProtectedRoot { base: custom.clone(), below: Some("Users") });
        roots.push(ProtectedRoot { base: custom, below: None });
    }
    proof {
        assert(root_models(roots@) =~= protected_roots(
            repository::opt_view(*documents),
            text::unless_blank(profiles_directory@),
        ));
    }
    roots
}

/// Why an operation on a profile failed.
#[derive(Debug)]
pub enum ProfileOpError {
    InvalidName,
    TargetAlreadyExists,
    SourceMissing,
    DefaultProfileProtected,
    UnsafePath,
    /// What the system said.
    Io(String),
}

/// What the user is told of a failure.
pub open spec fn failure_message(e: ProfileOpError) -> MessageModel {
    match e {
        ProfileOpError::InvalidName => message::plain("The entered profile name is not valid."@),
        ProfileOpError::TargetAlreadyExists => message::plain(
            "A profile with this name already exists."@,
        ),
        ProfileOpError::SourceMissing => message::plain("Profile files were not found on disk."@),
        ProfileOpError::DefaultProfileProtected => message::plain(
            "The default Arma 3 profile cannot be deleted."@,
        ),
        ProfileOpError::UnsafePath => message::plain(
            "This profile location cannot be modified safely."@,
        ),
        ProfileOpError::Io(cause) => message::with_one(
            "Profile operation failed: {error}"@,
            "error"@,
            cause@,
        ),
    }
}

/// What the user is told of a failure.
fn failure_text(e: ProfileOpError) -> (r: Message)
    ensures
        r@ == failure_message(e),
{
    match e {
        ProfileOpError::InvalidName => Message::plain("The entered profile name is not valid."),
        ProfileOpError::TargetAlreadyExists => Message::plain(
            "A profile with this name already exists.",
        ),
        ProfileOpError::SourceMissing => Message::plain("Profile files were not found on disk."),
        ProfileOpError::DefaultProfileProtected => Message::plain(
            "The default Arma 3 profile cannot be deleted.",
        ),
        ProfileOpError::UnsafePath => Message::plain(
            "This profile location cannot be modified safely.",
        ),
        ProfileOpError::Io(cause) => one("Profile operation failed: {error}", "error", cause),
    }
}

/// What a confirmed action does next.
#[derive(Debug)]
pub enum ProfileStep {
    /// The game is running: nothing is done, and the user is told why.
    Refused(&'static str),
    /// The files are to be changed, for a new name if the action has one.
    Perform { kind: Arma3ProfileActionKind, new_name: String },
}

/// A confirmed action. While the game is running it is refused.
pub fn begin_arma3_profile_action(action: &Arma3ProfileAction, game_running: bool) -> (r:
    ProfileStep)
    ensures
        match r {
            ProfileStep::Refused(why) => game_running && why@
                == "Arma 3 is currently running. Close the game before managing profiles."@,
            ProfileStep::Perform { kind, new_name } => !game_running && kind == action.kind
                && new_name@ == text::trimmed(action.name_input@),
        },
{
    if game_running {
        ProfileStep::Refused(
            "Arma 3 is currently running. Close the game before managing profiles.",
        )
    } else {
        ProfileStep::Perform { kind: action.kind, new_name: trim(action.name_input.as_str()) }
    }
}

/// A repository once the profile `old_name` is called `new_name`.
pub open spec fn followed(repo: Repository, old_name: Seq<char>, new_name: String) -> Repository {
    if repository::opt_view(repo.arma3_profile) == Some(old_name) {
        Repository { arma3_profile: Some(new_name), ..repo }
    } else {
        repo
    }
}

/// Whether a repository uses a profile.
pub open spec fn uses_profile(repos: Seq<Repository>, name: Seq<char>) -> bool {
    exists|i: int|
        0 <= i < repos.len() && repository::opt_view((#[trigger] repos[i]).arma3_profile) == Some(
            name,
        )
}

/// Lets the repositories follow a renamed profile. The result says whether any
/// of them changed.
pub fn rename_in_repositories(
    repos: &mut Vec<Repository>,
    old_name: &String,
    new_name: &String,
) -> (changed: bool)
    ensures
        final(repos)@ == Seq::new(
            old(repos)@.len(),
            |i: int| followed(old(repos)@[i], old_name@, *new_name),
        ),
        changed == uses_profile(old(repos)@, old_name@),
{
    let ghost before = repos@;
    let mut changed: bool = false;
    let mut i: usize = 0;
    while i < repos.len()
        invariant
            i <= repos@.len(),
            repos@.len() == before.len(),
            forall|j: int|
                0 <= j < i ==> #[trigger] repos@[j] == followed(before[j], old_name@, *new_name),
            forall|j: int| i <= j < repos@.len() ==> #[trigger] repos@[j] == before[j],
            changed == uses_profile(before.take(i as int), old_name@),
        decreases repos@.len() - i,
    {
        let uses: bool = match &repos[i].arma3_profile {
            Some(name) => same_text(name.as_str(), old_name.as_str()),
            None => false,
        };
        proof {
            let now = before.take(i + 1);
            let head = before.take(i as int);
            if uses {
                assert(repository::opt_view(now[i as int].arma3_profile) == Some(old_name@));
            } else if uses_profile(now, old_name@) {
                let j = choose|j: int|
                    0 <= j < now.len() && repository::opt_view((#[trigger] now[j]).arma3_profile)
                        == Some(old_name@);
                assert(head[j] == now[j]);
            }
            if uses_profile(head, old_name@) {
                let j = choose|j: int|
                    0 <= j < head.len() && repository::opt_view((#[trigger] head[j]).arma3_profile)
                        == Some(old_name@);
                assert(now[j] == head[j]);
            }
        }
        if uses {
            repos[i].arma3_profile = Some(new_name.clone());
            changed = true;
        }
        i = i + 1;
    }
    proof {
        assert(before.take(before.len() as int) =~= before);
        assert(repos@ =~= Seq::new(
            before.len(),
            |i: int| followed(before[i], old_name@, *new_name),
        ));
    }
    changed
}

/// What came of an action: what the user is told, whether it went well, and
/// whether the repositories are to be saved.
#[derive(Debug)]
pub struct ProfileActionOutcome {
    pub message: Message,
    pub success: bool,
    pub save_repositories: bool,
}

/// What the user is told of a success. `new_name` is the name of the action,
/// `moved_to` the place of a deleted profile.
pub open spec fn success_message(
    kind: Arma3ProfileActionKind,
    new_name: Seq<char>,
    moved_to: Seq<char>,
) -> MessageModel {
    match kind {
        Arma3ProfileActionKind::Rename => message::with_one(
            "Profile renamed to {name}."@,
            "name"@,
            new_name,
        ),
        Arma3ProfileActionKind::Clone => message::with_one(
            "Profile cloned to {name}."@,
            "name"@,
            new_name,
        ),
        Arma3ProfileActionKind::Delete => message::with_one(
            "Profile deleted. A backup copy was moved to {path}."@,
            "path"@,
            moved_to,
        ),
    }
}

/// The end of an action. `result` is what became of the files: the place that
/// a deleted profile was moved to, or the failure. A renamed profile is
/// renamed in the repositories too.
pub fn finish_arma3_profile_action(
    action: &Arma3ProfileAction,
    new_name: &String,
    repos: &mut Vec<Repository>,
    result: Result<String, ProfileOpError>,
) -> (r: ProfileActionOutcome)
    ensures
        r.success == (result is Ok),
        r.message@ == match result {
            Ok(moved_to) => success_message(action.kind, new_name@, moved_to@),
            Err(e) => failure_message(e),
        },
        ({
            let renamed = result is Ok && action.kind == Arma3ProfileActionKind::Rename;
            &&& r.save_repositories == (renamed && uses_profile(
                old(repos)@,
                action.profile.name@,
            ))
            &&& final(repos)@ == if renamed {
                Seq::new(
                    old(repos)@.len(),
                    |i: int| followed(old(repos)@[i], action.profile.name@, *new_name),
                )
            } else {
                old(repos)@
            }
        }),
{
    match result {
        Ok(moved_to) => match action.kind {
            Arma3ProfileActionKind::Rename => {
                let changed: bool = rename_in_repositories(repos, &action.profile.name, new_name);
                ProfileActionOutcome {
                    message: one("Profile renamed to {name}.", "name", new_name.clone()),
                    success: true,
                    save_repositories: changed,
                }
            },
            Arma3ProfileActionKind::Clone => ProfileActionOutcome {
                message: one("Profile cloned to {name}.", "name", new_name.clone()),
                success: true,
                save_repositories: false,
            },
            Arma3ProfileActionKind::Delete => ProfileActionOutcome {
                message: one("Profile deleted. A backup copy was moved to {path}.", "path", moved_to),
                success: true,
                save_repositories: false,
            },
        },
        Err(e) => ProfileActionOutcome {
            message: failure_text(e),
            success: false,
            save_repositories: false,
        },
    }
}

/// After a renaming no repository uses the old name, and every repository that
/// used it uses the new one.
pub proof fn law_repositories_follow(
    repos: Seq<Repository>,
    old_name: Seq<char>,
    new_name: String,
    i: int,
)
    requires
        0 <= i < repos.len(),
        old_name != new_name@,
    ensures
        ({
            let before = repository::opt_view(repos[i].arma3_profile);
            let after = repository::opt_view(followed(repos[i], old_name, new_name).arma3_profile);
            &&& after != Some(old_name)
            &&& before == Some(old_name) ==> after == Some(new_name@)
            &&& before != Some(old_name) ==> followed(repos[i], old_name, new_name) == repos[i]
        }),
{
}

} // verus!
