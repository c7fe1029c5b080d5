//! What holds of the management of profiles.

use vstd::prelude::*;

use crate::message;
use crate::repository::Repository;
use crate::settings::profile_manager;
use crate::settings::profile_manager::{
    begin_arma3_profile_action, confirm_enabled, finish_arma3_profile_action, open_action,
    Arma3Profile, Arma3ProfileAction, Arma3ProfileActionKind, ProfileActionOutcome,
    ProfileNameError, ProfileOpError, ProfileStep,
};
use crate::text;

verus! {

broadcast use vstd::string::group_string_axioms;

/// The label of a profile begins with its name. It is longer than that exactly
/// if the profile is the default one or the one that was used last, and then it
/// ends in what says so.
pub proof fn law_label_says_what_a_profile_is(
    profile: Arma3Profile,
    active: Option<Seq<char>>,
    default_word: Seq<char>,
    last_used: Seq<char>,
)
    ensures
        ({
            let name = profile.name@;
            let label = profile_manager::profile_label(profile, active, default_word, last_used);
            let is_last = active is Some && active->0 == name;
            &&& name.is_prefix_of(label)
            &&& label == name <==> !profile.is_default && !is_last
            &&& profile.is_default && !is_last ==> label == name + " ("@ + default_word + ")"@
            &&& !profile.is_default && is_last ==> label == name + " - "@ + last_used
            &&& profile.is_default && is_last ==> label == name + " ("@ + default_word + ")"@
                + " - "@ + last_used
        }),
{
    reveal_strlit(" (");
    reveal_strlit(")");
    reveal_strlit(" - ");
    let name = profile.name@;
    let label = profile_manager::profile_label(profile, active, default_word, last_used);
    assert(label.len() > name.len() || label == name);
}

/// Every action can be opened on every profile, but for the deletion of the
/// default one; it is of its kind, on its profile, and begins with a name that
/// the kind calls for.
pub proof fn law_only_the_default_profile_stays(
    kind: Arma3ProfileActionKind,
    profile: Arma3Profile,
    r: Option<Arma3ProfileAction>,
)
    requires
        call_ensures(open_action, (kind, &profile), r),
    ensures
        kind is Delete && profile.is_default ==> r is None,
        !(kind is Delete) || !profile.is_default ==> r is Some && r->0.kind == kind
            && r->0.profile.path@ == profile.path@ && r->0.profile.name@ == profile.name@,
        kind is Rename ==> r->0.name_input@ == profile.name@,
        kind is Clone ==> r->0.name_input@ == profile.name@ + " 2"@,
        kind is Delete && r is Some ==> r->0.name_input@.len() == 0,
{
}

/// A name is refused exactly if the rules for names refuse it, if a profile has
/// it whatever the case of its letters, or if a renaming would change nothing.
pub proof fn law_when_a_name_is_refused(
    action: Arma3ProfileAction,
    input: Seq<char>,
    profiles: Seq<Arma3Profile>,
    invalid: Option<ProfileNameError>,
)
    ensures
        ({
            let error = profile_manager::name_error(action, input, profiles, invalid);
            let name = text::trimmed(input);
            let unchanged = action.kind is Rename && name == action.profile.name@;
            let taken = exists|i: int|
                0 <= i < profiles.len() && text::lowered((#[trigger] profiles[i]).name@)
                    == text::lowered(name);
            &&& error is Some <==> unchanged || invalid is Some || taken
            &&& unchanged ==> error == Some("Enter a different name."@)
            &&& !unchanged && invalid is None && taken ==> error == Some(
                "A profile with this name already exists."@,
            )
            &&& !unchanged && invalid == Some(ProfileNameError::Empty) ==> error == Some(
                "Profile name cannot be empty."@,
            )
            &&& !unchanged && invalid == Some(ProfileNameError::TooLong) ==> error == Some(
                "Profile name is too long."@,
            )
            &&& !unchanged && invalid == Some(ProfileNameError::Reserved) ==> error == Some(
                "This name is reserved by the operating system."@,
            )
            &&& !unchanged && invalid == Some(ProfileNameError::UnsupportedCharacters) ==> error
                == Some(
                "Profile name contains unsupported characters. Allowed: letters, numbers, spaces, - _ [ ]"@,
            )
        }),
{
}

/// White space around a name that was typed in does not matter.
pub proof fn law_white_space_around_a_name_does_not_matter(
    action: Arma3ProfileAction,
    input: Seq<char>,
    other: Seq<char>,
    profiles: Seq<Arma3Profile>,
    invalid: Option<ProfileNameError>,
)
    requires
        text::trimmed(input) == text::trimmed(other),
    ensures
        profile_manager::name_error(action, input, profiles, invalid)
            == profile_manager::name_error(action, other, profiles, invalid),
{
}

/// A deletion can always be confirmed, anything else with a good name only.
pub proof fn law_a_wrong_name_cannot_be_confirmed(
    kind: Arma3ProfileActionKind,
    wrong: bool,
    r: bool,
)
    requires
        call_ensures(confirm_enabled, (kind, wrong), r),
    ensures
        !r <==> wrong && (kind is Rename || kind is Clone),
{
}

/// The protected folders: of a folder with documents the two in which the game
/// keeps profiles; of a configured folder itself and its `Users`; and nothing
/// else.
pub proof fn law_protected_folders(
    documents: Option<Seq<char>>,
    custom: Option<Seq<char>>,
    place: (Seq<char>, Option<Seq<char>>),
)
    ensures
        profile_manager::protected_roots(documents, custom).contains(place) <==> {
            ||| documents is Some && place.0 == documents->0 && (place.1 == Some("Arma 3"@)
                || place.1 == Some("Arma 3 - Other Profiles"@))
            ||| custom is Some && place.0 == custom->0 && (place.1 is None || place.1 == Some(
                "Users"@,
            ))
        },
{
    let roots = profile_manager::protected_roots(documents, custom);
    let n: int = if documents is Some {
        2
    } else {
        0
    };
    if documents is Some {
        assert(roots[0] == (documents->0, Some("Arma 3"@)));
        assert(roots[1] == (documents->0, Some("Arma 3 - Other Profiles"@)));
    }
    if custom is Some {
        assert(roots[n] == (custom->0, Some("Users"@)));
        assert(roots[n + 1] == (custom->0, None::<Seq<char>>));
    }
    if roots.contains(place) {
        let k = choose|k: int| 0 <= k < roots.len() && roots[k] == place;
        assert(k == 0 || k == 1 || k == n || k == n + 1);
    }
}

/// While the game runs nothing is done; otherwise the action is carried out, with
/// the name that was typed in, without the white space around it.
pub proof fn law_nothing_happens_while_the_game_runs(
    action: Arma3ProfileAction,
    game_running: bool,
    r: ProfileStep,
)
    requires
        call_ensures(begin_arma3_profile_action, (&action, game_running), r),
    ensures
        r is Refused <==> game_running,
        !game_running ==> (r matches ProfileStep::Perform { kind, new_name } && kind == action.kind
            && new_name@ == text::trimmed(action.name_input@)),
        r matches ProfileStep::Refused(why) ==> why@
            == "Arma 3 is currently running. Close the game before managing profiles."@,
{
}

/// The end of an action: no repository but one that used a renamed profile
/// changes, and such a one changes in its profile alone. They are saved exactly
/// if one of them changed its profile.
pub proof fn law_end_of_an_action(
    action: Arma3ProfileAction,
    new_name: String,
    repos: &mut Vec<Repository>,
    result: Result<String, ProfileOpError>,
    r: ProfileActionOutcome,
    i: int,
)
    requires
        call_ensures(finish_arma3_profile_action, (&action, &new_name, repos, result), r),
        0 <= i < old(repos)@.len(),
    ensures
        final(repos)@.len() == old(repos)@.len(),
        ({
            let was = old(repos)@[i];
            let now = final(repos)@[i];
            let followed = result is Ok && action.kind is Rename && was.arma3_profile is Some
                && was.arma3_profile->0@ == action.profile.name@;
            &&& !followed ==> now == was
            &&& followed ==> now == (Repository { arma3_profile: Some(new_name), ..was })
                && r.save_repositories
        }),
        result is Err || !(action.kind is Rename) ==> !r.save_repositories,
        r.success <==> result is Ok,
{
    let was = old(repos)@[i];
    if result is Ok && action.kind is Rename {
        assert(final(repos)@[i] == profile_manager::followed(
            was,
            action.profile.name@,
            new_name,
        ));
    }
}

/// What is told of the end of an action: the new name of a profile that was
/// renamed or cloned, the place of one that was deleted, and the cause of a
/// failure.
pub proof fn law_end_of_an_action_is_told(
    action: Arma3ProfileAction,
    new_name: String,
    repos: &mut Vec<Repository>,
    result: Result<String, ProfileOpError>,
    r: ProfileActionOutcome,
)
    requires
        call_ensures(finish_arma3_profile_action, (&action, &new_name, repos, result), r),
    ensures
        result is Ok && action.kind is Rename ==> r.message@ == message::with_one(
            "Profile renamed to {name}."@,
            "name"@,
            new_name@,
        ),
        result is Ok && action.kind is Clone ==> r.message@ == message::with_one(
            "Profile cloned to {name}."@,
            "name"@,
            new_name@,
        ),
        result matches Ok(moved_to) ==> (action.kind is Delete ==> r.message@
            == message::with_one(
            "Profile deleted. A backup copy was moved to {path}."@,
            "path"@,
            moved_to@,
        )),
        result matches Err(ProfileOpError::Io(cause)) ==> r.message@ == message::with_one(
            "Profile operation failed: {error}"@,
            "error"@,
            cause@,
        ),
        result matches Err(ProfileOpError::InvalidName) ==> r.message@ == message::plain(
            "The entered profile name is not valid."@,
        ),
        result matches Err(ProfileOpError::TargetAlreadyExists) ==> r.message@ == message::plain(
            "A profile with this name already exists."@,
        ),
        result matches Err(ProfileOpError::SourceMissing) ==> r.message@ == message::plain(
            "Profile files were not found on disk."@,
        ),
        result matches Err(ProfileOpError::DefaultProfileProtected) ==> r.message@
            == message::plain("The default Arma 3 profile cannot be deleted."@),
        result matches Err(ProfileOpError::UnsafePath) ==> r.message@ == message::plain(
            "This profile location cannot be modified safely."@,
        ),
{
}

} // verus!
