//! What holds of the folders and switches of the settings.

use vstd::prelude::*;

use crate::message;
use crate::settings::application;
use crate::settings::application::{
    browse_starts_check, AppUpdateMode, SettingsPage, UpdateCheckStatus, UpdateSettings, UpdateStatusColor,
};
use crate::settings::game_space;
use crate::settings::game_space::{
    detect_directory, profile_page, shows_on_game_page, validate_directory, DirectoryField,
    GameSpaceSettings, GameToggles, ProfilePage,
};
use crate::settings::paths;
use crate::settings::paths::{
    AppPath, ApplicationPathChangeFlags, PathOutcome, PathSettings,
};
use crate::settings::tools;
use crate::settings::tools::{
    direct_download_status, download_window_stays, override_limit, DirectStatusColor,
    FolderSettings, Removal,
    SettingsFolderRemovalConfirmAction,
};
use crate::message::Message;
use crate::text;
use crate::update::direct_download::DirectDownloadSession;

verus! {

broadcast use vstd::string::group_string_axioms;

// ---------------------------------------------------------------------------
// Lists of folders
// ---------------------------------------------------------------------------

proof fn lemma_position(texts: Seq<Seq<char>>, folder: Seq<char>, i: int)
    requires
        0 <= i,
    ensures
        match tools::position_from(texts, folder, i) {
            Some(p) => i <= p < texts.len() && texts[p] == folder && forall|j: int|
                i <= j < p ==> texts[j] != folder,
            None => forall|j: int| i <= j < texts.len() ==> texts[j] != folder,
        },
    decreases texts.len() - i,
{
    if i < texts.len() {
        lemma_position(texts, folder, i + 1);
    }
}

/// A confirmed removal takes out one entry: the first that is the folder that
/// was asked about. Everything before and behind it stays, and so does the other
/// list. A folder that is not listed changes nothing.
pub proof fn law_confirmed_removal_takes_out_one_folder(
    s: &mut FolderSettings,
    key: String,
    r: Removal,
    p: int,
    j: int,
)
    requires
        call_ensures(FolderSettings::answer_removal, (s, true, &key), r),
    ensures
        final(s).pending_removal is None,
        old(s).pending_removal matches Some(
            SettingsFolderRemovalConfirmAction::AdditionalSearchFolder { folder },
        ) ==> ({
            let was = old(s).additional_folders@;
            let now = final(s).additional_folders@;
            &&& final(s).cleanup_folders == old(s).cleanup_folders
            &&& 0 <= p < was.len() && was[p]@ == folder@ && (forall|k: int|
                0 <= k < p ==> (#[trigger] was[k])@ != folder@) ==> {
                &&& r == Removal::AdditionalFolder
                &&& now.len() == was.len() - 1
                &&& 0 <= j < p ==> now[j] == was[j]
                &&& p < j < was.len() ==> now[j - 1] == was[j]
                &&& !final(s).additional_folder_aliases@.dom().contains(key@)
            }
            &&& (forall|k: int| 0 <= k < was.len() ==> (#[trigger] was[k])@ != folder@) ==> r
                == Removal::Nothing && now == was && final(s).additional_folder_aliases@ == old(
                s).additional_folder_aliases@
        }),
        old(s).pending_removal matches Some(
            SettingsFolderRemovalConfirmAction::CleanupFolder { folder },
        ) ==> ({
            let was = old(s).cleanup_folders@;
            let now = final(s).cleanup_folders@;
            &&& final(s).additional_folders == old(s).additional_folders
            &&& final(s).additional_folder_aliases == old(s).additional_folder_aliases
            &&& 0 <= p < was.len() && was[p].0@ == folder@ && (forall|k: int|
                0 <= k < p ==> (#[trigger] was[k]).0@ != folder@) ==> {
                &&& r == Removal::CleanupFolder
                &&& now.len() == was.len() - 1
                &&& 0 <= j < p ==> now[j] == was[j]
                &&& p < j < was.len() ==> now[j - 1] == was[j]
            }
            &&& (forall|k: int| 0 <= k < was.len() ==> (#[trigger] was[k]).0@ != folder@) ==> r
                == Removal::Nothing && now == was
        }),
{
    let added = old(s).additional_folders@;
    let cleaned = old(s).cleanup_folders@;
    match old(s).pending_removal {
        Some(SettingsFolderRemovalConfirmAction::AdditionalSearchFolder { folder }) => {
            let texts = text::views(added);
            lemma_position(texts, folder@, 0);
            let first = 0 <= p < added.len() && added[p]@ == folder@ && (forall|k: int|
                0 <= k < p ==> (#[trigger] added[k])@ != folder@);
            if first {
                assert(texts[p] == folder@);
                let found = tools::position_from(texts, folder@, 0)->0;
                assert(added[found]@ == folder@);
                assert(found == p);
            }
            if tools::position_from(texts, folder@, 0) is Some {
                let found = tools::position_from(texts, folder@, 0)->0;
                assert(added[found]@ == folder@);
            }
        },
        Some(SettingsFolderRemovalConfirmAction::CleanupFolder { folder }) => {
            let texts = tools::cleanup_views(cleaned);
            lemma_position(texts, folder@, 0);
            let first = 0 <= p < cleaned.len() && cleaned[p].0@ == folder@ && (forall|k: int|
                0 <= k < p ==> (#[trigger] cleaned[k]).0@ != folder@);
            if first {
                assert(texts[p] == folder@);
                let found = tools::position_from(texts, folder@, 0)->0;
                assert(cleaned[found].0@ == folder@);
                assert(found == p);
            }
            if tools::position_from(texts, folder@, 0) is Some {
                let found = tools::position_from(texts, folder@, 0)->0;
                assert(cleaned[found].0@ == folder@);
            }
        },
        None => {},
    }
}

/// A removal that is not confirmed takes out nothing.
pub proof fn law_refused_removal_takes_out_nothing(
    s: &mut FolderSettings,
    key: String,
    r: Removal,
)
    requires
        call_ensures(FolderSettings::answer_removal, (s, false, &key), r),
    ensures
        r == Removal::Nothing,
        final(s).pending_removal is None,
        final(s).additional_folders == old(s).additional_folders,
        final(s).additional_folder_aliases == old(s).additional_folder_aliases,
        final(s).cleanup_folders == old(s).cleanup_folders,
{
}

/// What is asked names the folder and its list.
pub proof fn law_question_names_the_folder(s: FolderSettings, r: Option<Message>)
    requires
        call_ensures(FolderSettings::removal_message, (&s,), r),
    ensures
        r is Some <==> s.pending_removal is Some,
        s.pending_removal matches Some(
            SettingsFolderRemovalConfirmAction::AdditionalSearchFolder { folder },
        ) ==> r->0@ == message::with_one(
            "Remove {path} from additional search folders?"@,
            "path"@,
            folder@,
        ),
        s.pending_removal matches Some(
            SettingsFolderRemovalConfirmAction::CleanupFolder { folder },
        ) ==> r->0@ == message::with_one(
            "Remove {path} from cleanup folders?"@,
            "path"@,
            folder@,
        ),
{
}

/// A folder is added at the end, unless it lies in OneDrive; then nothing
/// changes and the user is told.
pub proof fn law_folder_is_added_at_the_end(
    s: &mut FolderSettings,
    folder: String,
    in_onedrive: bool,
    error: Option<&'static str>,
)
    requires
        call_ensures(FolderSettings::add_folder, (s, folder, in_onedrive), error),
    ensures
        error is Some <==> in_onedrive,
        in_onedrive ==> *final(s) == *old(s),
        !in_onedrive ==> {
            &&& final(s).additional_folders@ == old(s).additional_folders@ + seq![folder]
            &&& final(s).cleanup_folders == old(s).cleanup_folders
            &&& final(s).additional_folder_aliases == old(s).additional_folder_aliases
        },
{
}

/// An alias that was typed is the one that the folder has; an empty one is none.
/// No other folder gets another alias.
pub proof fn law_alias_is_that_of_one_folder(
    aliases: Map<Seq<char>, Seq<char>>,
    key: Seq<char>,
    alias: Seq<char>,
    other: Seq<char>,
)
    requires
        other != key,
    ensures
        ({
            let after = tools::with_alias(aliases, key, alias);
            &&& alias.len() > 0 ==> after.dom().contains(key) && after[key] == alias
            &&& alias.len() == 0 ==> !after.dom().contains(key)
            &&& after.dom().contains(other) <==> aliases.dom().contains(other)
            &&& aliases.dom().contains(other) ==> after[other] == aliases[other]
        }),
{
}

// ---------------------------------------------------------------------------
// Direct downloads
// ---------------------------------------------------------------------------

/// The status of a direct download: how many files of how many while it runs,
/// and otherwise whether it went well. Only a failure is shown as an error.
pub proof fn law_direct_status_tells_progress(
    s: DirectDownloadSession,
    r: (Message, DirectStatusColor),
)
    requires
        call_ensures(direct_download_status, (&s,), r),
    ensures
        s.running ==> r.0@.key == "Direct download in progress: {done}/{total} files"@
            && r.0@.args.contains(("done"@, text::decimal(s.files_done as nat)))
            && r.0@.args.contains(("total"@, text::decimal(s.files_total as nat))),
        !s.running && s.finished_successfully ==> r.0@ == message::plain(
            "Direct download finished"@,
        ),
        !s.running && !s.finished_successfully ==> r.0@ == message::plain(
            "Direct download failed"@,
        ),
        r.1 == DirectStatusColor::Error <==> !s.running && !s.finished_successfully,
        r.1 == DirectStatusColor::Dim <==> s.running && !s.finished_successfully,
{
    if s.running {
        assert(r.0@.args[0] == ("done"@, text::decimal(s.files_done as nat)));
        assert(r.0@.args[1] == ("total"@, text::decimal(s.files_total as nat)));
    }
}

/// A limit above zero is told with its unit; zero and none are no limit.
pub proof fn law_limit_in_words(n: u32, mbps: Seq<char>, unlimited: Seq<char>)
    ensures
        n > 0 ==> tools::inherited_limit(Some(n), mbps, unlimited) == text::decimal(n as nat)
            + " "@ + mbps,
        tools::inherited_limit(Some(0), mbps, unlimited) == unlimited,
        tools::inherited_limit(None, mbps, unlimited) == unlimited,
{
}

// ---------------------------------------------------------------------------
// Game spaces
// ---------------------------------------------------------------------------

/// Every name of a folder stands for the folder of that name.
pub proof fn law_names_of_folders(s: GameSpaceSettings, f: DirectoryField)
    ensures
        game_space::field_of("arma3_directory"@) == Some(f) ==> game_space::folder_of(s, f)
            == s.arma3_directory,
        game_space::field_of("twwh3_directory"@) == Some(f) ==> game_space::folder_of(s, f)
            == s.twwh3_directory,
        game_space::field_of("reforger_directory"@) == Some(f) ==> game_space::folder_of(s, f)
            == s.reforger_directory,
        game_space::field_of("teamspeak3_directory"@) == Some(f) ==> game_space::folder_of(s, f)
            == s.teamspeak3_directory,
        game_space::field_of("arma3_profiles_directory"@) == Some(f) ==> game_space::folder_of(
            s,
            f,
        ) == s.arma3_profiles_directory,
        game_space::field_of("arma3_directory"@) is Some,
        game_space::field_of("twwh3_directory"@) is Some,
        game_space::field_of("reforger_directory"@) is Some,
        game_space::field_of("teamspeak3_directory"@) is Some,
        game_space::field_of("arma3_profiles_directory"@) is Some,
{
    reveal_strlit("arma3_directory");
    reveal_strlit("twwh3_directory");
    reveal_strlit("reforger_directory");
    reveal_strlit("teamspeak3_directory");
    reveal_strlit("arma3_profiles_directory");
    assert("arma3_directory"@[0] != "twwh3_directory"@[0]);
    assert("arma3_directory"@.len() == 15 && "reforger_directory"@.len() == 18);
    assert("teamspeak3_directory"@.len() == 20 && "arma3_profiles_directory"@.len() == 24);
    assert("twwh3_directory"@.len() == 15);
}

/// Every name of a switch stands for the switch of that name.
pub proof fn law_names_of_switches(s: GameToggles, id: Seq<char>)
    ensures
        game_space::toggle_of(id) matches Some(f) ==> {
            let on = game_space::is_on(s, f);
            ||| id == "apply_repo_json_client_parameters"@ && on
                == s.apply_repo_json_client_parameters
            ||| id == "apply_repo_json_dlc_content"@ && on == s.apply_repo_json_dlc_content
            ||| id == "warn_editor_external_addons"@ && on == s.warn_editor_external_addons
            ||| id == "enable_editor_mission_list"@ && on == s.enable_editor_mission_list
            ||| id == "enable_server_list"@ && on == s.enable_server_list
            ||| id == "check_server_addons_before_join"@ && on
                == s.check_server_addons_before_join
            ||| id == "check_ts3_running_before_join"@ && on == s.check_ts3_running_before_join
            ||| id == "check_steam_running_before_launch"@ && on
                == s.check_steam_running_before_launch
        },
        game_space::toggle_of(id) is None ==> {
            &&& id != "apply_repo_json_client_parameters"@
            &&& id != "apply_repo_json_dlc_content"@
            &&& id != "warn_editor_external_addons"@
            &&& id != "enable_editor_mission_list"@
            &&& id != "enable_server_list"@
            &&& id != "check_server_addons_before_join"@
            &&& id != "check_ts3_running_before_join"@
            &&& id != "check_steam_running_before_launch"@
        },
{
}

/// A folder that the user picked is taken, whatever it holds, unless it lies in
/// OneDrive where it must not; of such a one nothing is taken. No other folder
/// and no switch changes.
pub proof fn law_picked_folder_is_taken(
    s: &mut GameSpaceSettings,
    id: &'static str,
    folder: String,
    in_onedrive: bool,
    valid: bool,
    flags: &mut ApplicationPathChangeFlags,
    error: Option<&'static str>,
    g: DirectoryField,
)
    requires
        call_ensures(
            GameSpaceSettings::browse,
            (s, id, folder, in_onedrive, valid, flags),
            error,
        ),
    ensures
        final(s).toggles == old(s).toggles,
        game_space::field_of(id@) != Some(g) ==> game_space::folder_of(*final(s), g)
            == game_space::folder_of(*old(s), g),
        game_space::field_of(id@) == Some(g) ==> {
            &&& in_onedrive && g != DirectoryField::TeamSpeak3 ==> *final(s) == *old(s)
                && *final(flags) == *old(flags) && error is Some
            &&& !in_onedrive || g == DirectoryField::TeamSpeak3 ==> {
                &&& game_space::folder_of(*final(s), g) == folder
                &&& final(flags).settings
                &&& final(flags).addons <==> old(flags).addons || g == DirectoryField::Arma3
                &&& final(flags).profiles <==> old(flags).profiles || g
                    == DirectoryField::Profiles
                &&& error is Some <==> !valid && g != DirectoryField::Profiles
            }
        },
        game_space::field_of(id@) is None ==> *final(s) == *old(s) && *final(flags) == *old(
            flags) && error is None,
{
}

/// A folder that was found is taken as one that was picked; where none was found
/// nothing changes and the user is told.
pub proof fn law_found_folder_is_taken(
    s: &mut GameSpaceSettings,
    id: &'static str,
    found: Option<String>,
    in_onedrive: bool,
    flags: &mut ApplicationPathChangeFlags,
    error: Option<&'static str>,
    g: DirectoryField,
)
    requires
        call_ensures(
            GameSpaceSettings::auto_detect,
            (s, id, found, in_onedrive, flags),
            error,
        ),
    ensures
        final(s).toggles == old(s).toggles,
        game_space::field_of(id@) != Some(g) ==> game_space::folder_of(*final(s), g)
            == game_space::folder_of(*old(s), g),
        found is None ==> *final(s) == *old(s) && *final(flags) == *old(flags) && (error is Some
            <==> game_space::field_of(id@) is Some),
        game_space::field_of(id@) == Some(g) && found is Some ==> {
            &&& in_onedrive && g != DirectoryField::TeamSpeak3 ==> *final(s) == *old(s)
                && *final(flags) == *old(flags) && error is Some
            &&& !in_onedrive || g == DirectoryField::TeamSpeak3 ==> game_space::folder_of(
                *final(s),
                g,
            ) == found->0 && final(flags).settings && error is None
        },
{
}

/// The game tells of its own folder, the search for the client of that of
/// TeamSpeak, and nobody of that of the profiles, which any folder can be.
pub proof fn law_who_tells_of_a_folder(
    id: &'static str,
    game_accepts: bool,
    client_found: bool,
    game_place: Option<String>,
    client_place: Option<String>,
    valid: bool,
    place: Option<String>,
)
    requires
        call_ensures(validate_directory, (id, game_accepts, client_found), valid),
        call_ensures(detect_directory, (id, game_place, client_place), place),
    ensures
        game_space::field_of(id@) matches Some(f) ==> {
            &&& f == DirectoryField::Arma3 || f == DirectoryField::Twwh3 || f
                == DirectoryField::Reforger ==> valid == game_accepts && place == game_place
            &&& f == DirectoryField::TeamSpeak3 ==> valid == client_found && place
                == client_place
            &&& f == DirectoryField::Profiles ==> valid && place is None
        },
        game_space::field_of(id@) is None ==> valid && place is None,
{
}

// ---------------------------------------------------------------------------
// Folders of the application
// ---------------------------------------------------------------------------

/// Every folder of the application is kept under its own name.
pub proof fn law_folders_of_the_application(s: PathSettings, folder: String)
    ensures
        paths::path_of(s, AppPath::Arma3) == s.arma3_directory,
        paths::path_of(s, AppPath::TeamSpeak3) == s.teamspeak3_directory,
        paths::path_of(s, AppPath::Profiles) == s.arma3_profiles_directory,
        paths::path_of(s, AppPath::Steam) == s.steam_directory,
        paths::path_of(s, AppPath::Temp) == s.temp_directory,
        paths::path_of(s, AppPath::Backup) == s.backup_directory,
        paths::with_path(s, AppPath::Arma3, folder).arma3_directory == folder,
        paths::with_path(s, AppPath::TeamSpeak3, folder).teamspeak3_directory == folder,
        paths::with_path(s, AppPath::Profiles, folder).arma3_profiles_directory == folder,
        paths::with_path(s, AppPath::Steam, folder).steam_directory == folder,
        paths::with_path(s, AppPath::Temp, folder).temp_directory == folder,
        paths::with_path(s, AppPath::Backup, folder).backup_directory == folder,
{
}

/// A folder that is typed is taken as it is. What it touches is noted and
/// nothing that was noted is forgotten: the addons for the folders of the game
/// and of Steam, the profiles for theirs, and the backups for theirs.
pub proof fn law_typed_folder_is_taken(
    s: &mut PathSettings,
    p: AppPath,
    folder: String,
    flags: &mut ApplicationPathChangeFlags,
    r: PathOutcome,
    q: AppPath,
)
    requires
        call_ensures(PathSettings::type_path, (s, p, folder, flags), r),
    ensures
        paths::path_of(*final(s), p) == folder,
        q != p ==> paths::path_of(*final(s), q) == paths::path_of(*old(s), q),
        r.error is None,
        r.backups_stale <==> p is Backup,
        final(flags).settings,
        final(flags).addons <==> old(flags).addons || p is Arma3 || p is Steam,
        final(flags).profiles <==> old(flags).profiles || p is Profiles,
{
}

/// A folder that is picked is taken too, unless it lies in OneDrive, where only
/// that of TeamSpeak may lie; then nothing changes and the user is told. Only a
/// folder that should hold a program is complained about, and is taken still.
pub proof fn law_picked_path_is_taken(
    s: &mut PathSettings,
    p: AppPath,
    folder: String,
    in_onedrive: bool,
    holds_program: bool,
    flags: &mut ApplicationPathChangeFlags,
    r: PathOutcome,
    q: AppPath,
)
    requires
        call_ensures(
            PathSettings::browse_path,
            (s, p, folder, in_onedrive, holds_program, flags),
            r,
        ),
    ensures
        in_onedrive && !(p is TeamSpeak3) ==> *final(s) == *old(s) && *final(flags) == *old(
            flags) && r.error is Some && !r.backups_stale,
        !in_onedrive || p is TeamSpeak3 ==> {
            &&& paths::path_of(*final(s), p) == folder
            &&& q != p ==> paths::path_of(*final(s), q) == paths::path_of(*old(s), q)
            &&& r.error is Some <==> !holds_program && (p is Arma3 || p is TeamSpeak3)
            &&& r.backups_stale <==> p is Backup
            &&& final(flags).settings
            &&& final(flags).addons <==> old(flags).addons || p is Arma3 || p is Steam
            &&& final(flags).profiles <==> old(flags).profiles || p is Profiles
        },
{
}

/// A folder that was found is taken, unless it is that of the game and lies in
/// OneDrive; where none was found nothing changes, and either is told.
pub proof fn law_found_path_is_taken(
    s: &mut PathSettings,
    p: AppPath,
    found: Option<String>,
    in_onedrive: bool,
    flags: &mut ApplicationPathChangeFlags,
    r: PathOutcome,
    q: AppPath,
)
    requires
        paths::detectable(p),
        call_ensures(PathSettings::detect_path, (s, p, found, in_onedrive, flags), r),
    ensures
        r.error is Some <==> found is None || (in_onedrive && p is Arma3),
        r.error is Some ==> *final(s) == *old(s) && *final(flags) == *old(flags),
        r.error is None ==> paths::path_of(*final(s), p) == found->0 && (q != p
            ==> paths::path_of(*final(s), q) == paths::path_of(*old(s), q)) && final(
            flags).settings,
{
}

/// What follows a frame: nothing without a change; lists are read again only for
/// the game that is open; nothing is told while the user types.
pub proof fn law_what_follows_a_change(
    flags: ApplicationPathChangeFlags,
    active: bool,
    typing: bool,
)
    ensures
        ({
            let after = paths::after_frame(flags, active, typing);
            &&& after.save == flags.settings
            &&& !flags.settings ==> !after.invalidate_addons && !after.refresh_profiles
                && !after.tell
            &&& !active ==> !after.invalidate_addons && !after.refresh_profiles
            &&& typing ==> !after.tell
            &&& flags.settings && active && flags.addons ==> after.invalidate_addons
            &&& flags.settings && active && flags.profiles ==> after.refresh_profiles
            &&& after.invalidate_addons ==> flags.addons
            &&& after.refresh_profiles ==> flags.profiles
            &&& flags.settings && !typing ==> after.tell
        }),
{
}

// ---------------------------------------------------------------------------
// Tabs and updates
// ---------------------------------------------------------------------------

proof fn lemma_tab_of(name: Seq<char>, i: int)
    requires
        0 <= i <= 8,
    ensures
        ({
            let t = application::tab_of(name, i);
            ||| i <= t < 8 && application::tab_name(t) == name && forall|j: int|
                i <= j < t ==> #[trigger] application::tab_name(j) != name
            ||| t == 0 && forall|j: int|
                i <= j < 8 ==> #[trigger] application::tab_name(j) != name
        }),
    decreases 8 - i,
{
    if i < 8 {
        lemma_tab_of(name, i + 1);
    }
}

/// The tab that is marked has the name of the tab that is open, if any has.
pub proof fn law_marked_tab_has_the_name(name: Seq<char>, i: int)
    requires
        0 <= i < 8,
        application::tab_name(i) == name,
    ensures
        0 <= application::tab_of(name, 0) <= i,
        application::tab_name(application::tab_of(name, 0)) == name,
{
    lemma_tab_of(name, 0);
}

/// A page shows under its own name and under no other.
pub proof fn law_pages_have_their_names(name: Seq<char>)
    ensures
        application::page_of(name) == Some(SettingsPage::Application) ==> name
            == "Application"@,
        application::page_of(name) == Some(SettingsPage::Scheduling) ==> name == "Scheduling"@,
        application::page_of(name) == Some(SettingsPage::BackupManager) ==> name
            == "Backup Manager"@,
        application::page_of(name) == Some(SettingsPage::AdditionalFolders) ==> name
            == "Additional search folders"@,
        application::page_of(name) == Some(SettingsPage::Cleanup) ==> name == "Cleanup"@,
        application::page_of(name) == Some(SettingsPage::DirectDownload) ==> name
            == "Direct download"@,
        application::page_of(name) == Some(SettingsPage::Ts3Plugin) <==> name == "TS3 Plugin"@
            || name == "TS3 Plugins"@,
        application::page_of(name) == Some(SettingsPage::Customization) ==> name
            == "Customization"@,
{
    reveal_strlit("Application");
    reveal_strlit("Scheduling");
    reveal_strlit("Backup Manager");
    reveal_strlit("Additional search folders");
    reveal_strlit("Cleanup");
    reveal_strlit("Direct download");
    reveal_strlit("TS3 Plugin");
    reveal_strlit("TS3 Plugins");
    assert("Scheduling"@[0] != "TS3 Plugin"@[0]);
    assert("Application"@[0] != "TS3 Plugins"@[0]);
}

/// A source that the user chose stays theirs, and so does an address that is not
/// blank; choosing the one does not touch the other.
pub proof fn law_choices_stay_with_the_user(s: &mut UpdateSettings, url: String)
    requires
        call_ensures(UpdateSettings::type_url, (s, url), ()),
    ensures
        final(s).app_update_url == url,
        final(s).app_update_url_user_override <==> text::trimmed(url@).len() > 0,
        final(s).app_update_mode == old(s).app_update_mode,
        final(s).app_update_mode_user_override == old(s).app_update_mode_user_override,
{
}

/// The line on the search for an update tells the newest version or what went
/// wrong, behind its own word; without a search there is no line.
pub proof fn law_search_for_an_update_is_told(s: UpdateCheckStatus)
    ensures
        ({
            let line = application::status_line(s);
            &&& line is None <==> s is Idle || s is Other
            &&& s matches UpdateCheckStatus::Available(latest) ==> (line->0).0
                == "Update available"@ && (line->0).1 == ": v"@ + latest@ && (line->0).2
                == UpdateStatusColor::Accent
            &&& s matches UpdateCheckStatus::Failed(cause) ==> (line->0).0 == "Error"@ && (
            line->0).1 == ": "@ + cause@ && (line->0).2 == UpdateStatusColor::Error
            &&& line is Some ==> ((line->0).3 <==> s is Checking)
            &&& line is Some ==> ((line->0).2 == UpdateStatusColor::Success <==> s is UpToDate)
        }),
{
}

// ---------------------------------------------------------------------------
// Requests, notes and windows
// ---------------------------------------------------------------------------

/// A request keeps the folder and the list it is about, and takes nothing out.
pub proof fn law_request_keeps_the_folder(s: &mut FolderSettings, folder: String)
    requires
        call_ensures(FolderSettings::request_additional_removal, (s, folder), ()),
    ensures
        final(s).pending_removal == Some(
            SettingsFolderRemovalConfirmAction::AdditionalSearchFolder { folder },
        ),
        final(s).additional_folders == old(s).additional_folders,
        final(s).cleanup_folders == old(s).cleanup_folders,
{
}

/// A request for the cleanup list keeps the folder too.
pub proof fn law_request_for_cleanup_keeps_the_folder(s: &mut FolderSettings, folder: String)
    requires
        call_ensures(FolderSettings::request_cleanup_removal, (s, folder), ()),
    ensures
        final(s).pending_removal == Some(
            SettingsFolderRemovalConfirmAction::CleanupFolder { folder },
        ),
        final(s).additional_folders == old(s).additional_folders,
        final(s).cleanup_folders == old(s).cleanup_folders,
{
}

/// A limit that is given instead is never zero, and any other stays.
pub proof fn law_given_limit_is_never_zero(limit: u32, r: u32)
    requires
        call_ensures(override_limit, (limit,), r),
    ensures
        r >= 1,
        limit >= 1 ==> r == limit,
        limit == 0 ==> r == 1,
{
}

/// The window of a direct download stays until it is closed or used.
pub proof fn law_window_stays_until_used(open: bool, cancelled: bool, started: bool, r: bool)
    requires
        call_ensures(download_window_stays, (open, cancelled, started), r),
    ensures
        !r <==> !open || cancelled || started,
{
}

/// Profiles are managed only in the space that is open, of a game that has some.
pub proof fn law_page_on_profiles(known: bool, has_profiles: bool, active: bool, r: ProfilePage)
    requires
        call_ensures(profile_page, (known, has_profiles, active), r),
    ensures
        r is Manage <==> known && has_profiles && active,
        r is OpenFirst <==> known && has_profiles && !active,
        r is NoProfiles <==> known && !has_profiles,
        r is UnknownGame <==> !known,
{
}

/// The page of the game shows every folder but that of the profiles.
pub proof fn law_folders_on_the_game_page(id: &'static str, r: bool)
    requires
        call_ensures(shows_on_game_page, (id,), r),
    ensures
        game_space::field_of(id@) matches Some(f) ==> (r <==> f != DirectoryField::Profiles),
        game_space::field_of(id@) is None ==> !r,
{
}

/// The notes below folders: those of the profiles, of temporary files and of
/// backups have one, and the last tells the folder that is used otherwise.
pub proof fn law_notes_below_folders(p: AppPath, fallback: Seq<char>)
    ensures
        paths::path_note_of(p, fallback) is Some <==> p is Profiles || p is Temp || p is Backup,
        p is Backup ==> paths::path_note_of(p, fallback)->0.args.contains(("path"@, fallback)),
        p is Profiles || p is Temp ==> paths::path_note_of(p, fallback)->0.args.len() == 0,
{
    if p is Backup {
        let args = paths::path_note_of(p, fallback)->0.args;
        assert(args[0] == ("path"@, fallback));
    }
}

/// A source that the user chose is theirs from then on; the address stays.
pub proof fn law_chosen_source_is_kept(s: &mut UpdateSettings, mode: AppUpdateMode)
    requires
        call_ensures(UpdateSettings::choose_mode, (s, mode), ()),
    ensures
        final(s).app_update_mode == mode,
        final(s).app_update_mode_user_override,
        final(s).app_update_url == old(s).app_update_url,
        final(s).app_update_url_user_override == old(s).app_update_url_user_override,
{
}

/// Browsing versions searches first only if nothing was searched for.
pub proof fn law_browsing_searches_once(s: UpdateCheckStatus, r: bool)
    requires
        call_ensures(browse_starts_check, (&s,), r),
    ensures
        r <==> s is Idle,
{
}

} // verus!
