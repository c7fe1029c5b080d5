//! The settings of a game space: its folders and switches, found by the names
//! that the schema of the game gives them.

use vstd::prelude::*;

use crate::settings::paths;
use crate::settings::paths::{onedrive_error, ApplicationPathChangeFlags};
use crate::text;

verus! {

broadcast use vstd::string::group_string_axioms;

/// The switches of a game space.
#[derive(Debug, Clone, Copy, PartialEq, Eq, Structural)]
pub struct GameToggles {
    pub apply_repo_json_client_parameters: bool,
    pub apply_repo_json_dlc_content: bool,
    pub warn_editor_external_addons: bool,
    pub enable_editor_mission_list: bool,
    pub enable_server_list: bool,
    pub check_server_addons_before_join: bool,
    pub check_ts3_running_before_join: bool,
    pub check_steam_running_before_launch: bool,
}

/// The settings of a game space.
#[derive(Debug)]
pub struct GameSpaceSettings {
    pub arma3_directory: String,
    pub twwh3_directory: String,
    pub reforger_directory: String,
    pub teamspeak3_directory: String,
    pub arma3_profiles_directory: String,
    pub toggles: GameToggles,
}

/// The folder of a game space that a name of the schema stands for.
#[derive(Debug, Clone, Copy, PartialEq, Eq, Structural)]
pub enum DirectoryField {
    Arma3,
    Twwh3,
    Reforger,
    TeamSpeak3,
    Profiles,
}

/// What a name stands for.
pub open spec fn field_of(id: Seq<char>) -> Option<DirectoryField> {
    if id == "arma3_directory"@ {
        Some(DirectoryField::Arma3)
    } else if id == "twwh3_directory"@ {
        Some(DirectoryField::Twwh3)
    } else if id == "reforger_directory"@ {
        Some(DirectoryField::Reforger)
    } else if id == "teamspeak3_directory"@ {
        Some(DirectoryField::TeamSpeak3)
    } else if id == "arma3_profiles_directory"@ {
        Some(DirectoryField::Profiles)
    } else {
        None
    }
}

/// What a name stands for.
pub fn directory_field(id: &str) -> (r: Option<DirectoryField>)
    ensures
        r == field_of(id@),
{
    if text::same_text(id, "arma3_directory") {
        Some(DirectoryField::Arma3)
    } else if text::same_text(id, "twwh3_directory") {
        Some(DirectoryField::Twwh3)
    } else if text::same_text(id, "reforger_directory") {
        Some(DirectoryField::Reforger)
    } else if text::same_text(id, "teamspeak3_directory") {
        Some(DirectoryField::TeamSpeak3)
    } else if text::same_text(id, "arma3_profiles_directory") {
        Some(DirectoryField::Profiles)
    } else {
        None
    }
}

/// The folder that a field holds.
pub open spec fn folder_of(s: GameSpaceSettings, f: DirectoryField) -> String {
    match f {
        DirectoryField::Arma3 => s.arma3_directory,
        DirectoryField::Twwh3 => s.twwh3_directory,
        DirectoryField::Reforger => s.reforger_directory,
        DirectoryField::TeamSpeak3 => s.teamspeak3_directory,
        DirectoryField::Profiles => s.arma3_profiles_directory,
    }
}

/// The settings with another folder.
pub open spec fn with_folder(
    s: GameSpaceSettings,
    f: DirectoryField,
    folder: String,
) -> GameSpaceSettings {
    match f {
        DirectoryField::Arma3 => GameSpaceSettings { arma3_directory: folder, ..s },
        DirectoryField::Twwh3 => GameSpaceSettings { twwh3_directory: folder, ..s },
        DirectoryField::Reforger => GameSpaceSettings { reforger_directory: folder, ..s },
        DirectoryField::TeamSpeak3 => GameSpaceSettings { teamspeak3_directory: folder, ..s },
        DirectoryField::Profiles => GameSpaceSettings { arma3_profiles_directory: folder, ..s },
    }
}

/// The folder that a name of the schema stands for, to be read or changed.
/// `None` for a name that stands for nothing.
pub fn directory_field_mut<'a>(
    settings: &'a mut GameSpaceSettings,
    id: &str,
) -> (r: Option<&'a mut String>)
    ensures
        match (field_of(id@), r) {
            (Some(f), Some(folder)) => *folder == folder_of(*old(settings), f) && *final(settings)
                == with_folder(*old(settings), f, *final(folder)),
            (None, None) => *final(settings) == *old(settings),
            _ => false,
        },
{
    match directory_field(id) {
        Some(DirectoryField::Arma3) => Some(&mut settings.arma3_directory),
        Some(DirectoryField::Twwh3) => Some(&mut settings.twwh3_directory),
        Some(DirectoryField::Reforger) => Some(&mut settings.reforger_directory),
        Some(DirectoryField::TeamSpeak3) => Some(&mut settings.teamspeak3_directory),
        Some(DirectoryField::Profiles) => Some(&mut settings.arma3_profiles_directory),
        None => None,
    }
}

/// The switch of a game space that a name of the schema stands for.
#[derive(Debug, Clone, Copy, PartialEq, Eq, Structural)]
pub enum ToggleField {
    ClientParameters,
    DlcContent,
    EditorWarning,
    MissionList,
    ServerList,
    ServerAddonCheck,
    TeamSpeakCheck,
    SteamCheck,
}

/// What a name stands for.
pub open spec fn toggle_of(id: Seq<char>) -> Option<ToggleField> {
    if id == "apply_repo_json_client_parameters"@ {
        Some(ToggleField::ClientParameters)
    } else if id == "apply_repo_json_dlc_content"@ {
        Some(ToggleField::DlcContent)
    } else if id == "warn_editor_external_addons"@ {
        Some(ToggleField::EditorWarning)
    } else if id == "enable_editor_mission_list"@ {
        Some(ToggleField::MissionList)
    } else if id == "enable_server_list"@ {
        Some(ToggleField::ServerList)
    } else if id == "check_server_addons_before_join"@ {
        Some(ToggleField::ServerAddonCheck)
    } else if id == "check_ts3_running_before_join"@ {
        Some(ToggleField::TeamSpeakCheck)
    } else if id == "check_steam_running_before_launch"@ {
        Some(ToggleField::SteamCheck)
    } else {
        None
    }
}

/// What a name stands for.
pub fn toggle_field(id: &str) -> (r: Option<ToggleField>)
    ensures
        r == toggle_of(id@),
{
    if text::same_text(id, "apply_repo_json_client_parameters") {
        Some(ToggleField::ClientParameters)
    } else if text::same_text(id, "apply_repo_json_dlc_content") {
        Some(ToggleField::DlcContent)
    } else if text::same_text(id, "warn_editor_external_addons") {
        Some(ToggleField::EditorWarning)
    } else if text::same_text(id, "enable_editor_mission_list") {
        Some(ToggleField::MissionList)
    } else if text::same_text(id, "enable_server_list") {
        Some(ToggleField::ServerList)
    } else if text::same_text(id, "check_server_addons_before_join") {
        Some(ToggleField::ServerAddonCheck)
    } else if text::same_text(id, "check_ts3_running_before_join") {
        Some(ToggleField::TeamSpeakCheck)
    } else if text::same_text(id, "check_steam_running_before_launch") {
        Some(ToggleField::SteamCheck)
    } else {
        None
    }
}

/// Whether a switch is on.
pub open spec fn is_on(s: GameToggles, f: ToggleField) -> bool {
    match f {
        ToggleField::ClientParameters => s.apply_repo_json_client_parameters,
        ToggleField::DlcContent => s.apply_repo_json_dlc_content,
        ToggleField::EditorWarning => s.warn_editor_external_addons,
        ToggleField::MissionList => s.enable_editor_mission_list,
        ToggleField::ServerList => s.enable_server_list,
        ToggleField::ServerAddonCheck => s.check_server_addons_before_join,
        ToggleField::TeamSpeakCheck => s.check_ts3_running_before_join,
        ToggleField::SteamCheck => s.check_steam_running_before_launch,
    }
}

/// The switches with another state of one of them.
pub open spec fn with_toggle(s: GameToggles, f: ToggleField, on: bool) -> GameToggles {
    match f {
        ToggleField::ClientParameters => GameToggles { apply_repo_json_client_parameters: on, ..s },
        ToggleField::DlcContent => GameToggles { apply_repo_json_dlc_content: on, ..s },
        ToggleField::EditorWarning => GameToggles { warn_editor_external_addons: on, ..s },
        ToggleField::MissionList => GameToggles { enable_editor_mission_list: on, ..s },
        ToggleField::ServerList => GameToggles { enable_server_list: on, ..s },
        ToggleField::ServerAddonCheck => GameToggles { check_server_addons_before_join: on, ..s },
        ToggleField::TeamSpeakCheck => GameToggles { check_ts3_running_before_join: on, ..s },
        ToggleField::SteamCheck => GameToggles { check_steam_running_before_launch: on, ..s },
    }
}

/// The switch that a name of the schema stands for, to be read or changed.
/// `None` for a name that stands for nothing.
pub fn toggle_field_mut<'a>(settings: &'a mut GameSpaceSettings, id: &str) -> (r: Option<&'a mut bool>)
    ensures
        match (toggle_of(id@), r) {
            (Some(f), Some(on)) => *on == is_on(old(settings).toggles, f) && *final(settings) == (
            GameSpaceSettings {
                toggles: with_toggle(old(settings).toggles, f, *final(on)),
                ..*old(settings)
            }),
            (None, None) => *final(settings) == *old(settings),
            _ => false,
        },
{
    match toggle_field(id) {
        Some(ToggleField::ClientParameters) => Some(&mut settings.toggles.apply_repo_json_client_parameters),
        Some(ToggleField::DlcContent) => Some(&mut settings.toggles.apply_repo_json_dlc_content),
        Some(ToggleField::EditorWarning) => Some(&mut settings.toggles.warn_editor_external_addons),
        Some(ToggleField::MissionList) => Some(&mut settings.toggles.enable_editor_mission_list),
        Some(ToggleField::ServerList) => Some(&mut settings.toggles.enable_server_list),
        Some(ToggleField::ServerAddonCheck) => Some(&mut settings.toggles.check_server_addons_before_join),
        Some(ToggleField::TeamSpeakCheck) => Some(&mut settings.toggles.check_ts3_running_before_join),
        Some(ToggleField::SteamCheck) => Some(&mut settings.toggles.check_steam_running_before_launch),
        None => None,
    }
}

// ---------------------------------------------------------------------------
// What is known of a folder
// ---------------------------------------------------------------------------

/// What the settings know of a folder.
#[derive(Debug)]
pub struct DirectoryBinding {
    /// Whether the folder may not lie in OneDrive.
    pub onedrive_check: bool,
    /// Whether a change makes the list of addons stale.
    pub invalidates_addons: bool,
    /// Whether a change makes the list of profiles stale.
    pub refreshes_profiles: bool,
    /// The warning that the folder does not hold what it should.
    pub validate_error: Option<&'static str>,
    pub detect_hover: &'static str,
    pub detect_error: &'static str,
}

/// What a binding says.
pub struct BindingModel {
    pub onedrive_check: bool,
    pub invalidates_addons: bool,
    pub refreshes_profiles: bool,
    pub validate_error: Option<Seq<char>>,
    pub detect_hover: Seq<char>,
    pub detect_error: Seq<char>,
}

impl View for DirectoryBinding {
    type V = BindingModel;

    open spec fn view(&self) -> BindingModel {
        BindingModel {
            onedrive_check: self.onedrive_check,
            invalidates_addons: self.invalidates_addons,
            refreshes_profiles: self.refreshes_profiles,
            validate_error: match self.validate_error {
                Some(t) => Some(t@),
                None => None,
            },
            detect_hover: self.detect_hover@,
            detect_error: self.detect_error@,
        }
    }
}

/// What is known of the folder that a name stands for. Of a name that stands
/// for nothing only that the folder may not lie in OneDrive.
pub open spec fn binding_of(field: Option<DirectoryField>) -> BindingModel {
    match field {
        Some(DirectoryField::Arma3) => BindingModel {
            onedrive_check: true,
            invalidates_addons: true,
            refreshes_profiles: false,
            validate_error: Some(
                "Arma 3 executable was not found in the selected directory. Make sure this is your Arma 3 installation folder."@,
            ),
            detect_hover: "Automatically detect the Arma 3 installation directory using Steam library metadata."@,
            detect_error: "Could not auto-detect Arma 3 directory."@,
        },
        Some(DirectoryField::TeamSpeak3) => BindingModel {
            onedrive_check: false,
            invalidates_addons: false,
            refreshes_profiles: false,
            validate_error: Some(
                "TeamSpeak 3 client was not found in the selected directory. Make sure this is your TeamSpeak 3 installation folder."@,
            ),
            detect_hover: "Automatically detect the TeamSpeak 3 installation directory."@,
            detect_error: "Could not auto-detect TeamSpeak 3 directory."@,
        },
        Some(DirectoryField::Twwh3) => BindingModel {
            onedrive_check: true,
            invalidates_addons: false,
            refreshes_profiles: false,
            validate_error: Some(
                "Warhammer3.exe was not found in the selected directory. Make sure this is your Total War: WARHAMMER III installation folder."@,
            ),
            detect_hover: "Automatically detect the Total War: WARHAMMER III installation directory using Steam library metadata."@,
            detect_error: "Could not auto-detect Total War: WARHAMMER III directory."@,
        },
        Some(DirectoryField::Reforger) => BindingModel {
            onedrive_check: true,
            invalidates_addons: false,
            refreshes_profiles: false,
            validate_error: Some(
                "ArmaReforgerSteam.exe was not found in the selected directory. Make sure this is your Arma Reforger installation folder."@,
            ),
            detect_hover: "Automatically detect the Arma Reforger installation directory using Steam library metadata."@,
            detect_error: "Could not auto-detect Arma Reforger directory."@,
        },
        Some(DirectoryField::Profiles) => BindingModel {
            onedrive_check: true,
            invalidates_addons: false,
            refreshes_profiles: true,
            validate_error: None,
            detect_hover: ""@,
            detect_error: ""@,
        },
        None => BindingModel {
            onedrive_check: true,
            invalidates_addons: false,
            refreshes_profiles: false,
            validate_error: None,
            detect_hover: ""@,
            detect_error: ""@,
        },
    }
}

/// What is known of the folder that a name stands for.
pub fn directory_binding(id: &str) -> (r: DirectoryBinding)
    ensures
        r@ == binding_of(field_of(id@)),
{
    match directory_field(id) {
        Some(DirectoryField::Arma3) => DirectoryBinding {
            onedrive_check: true,
            invalidates_addons: true,
            refreshes_profiles: false,
            validate_error: Some(
                "Arma 3 executable was not found in the selected directory. Make sure this is your Arma 3 installation folder.",
            ),
            detect_hover: "Automatically detect the Arma 3 installation directory using Steam library metadata.",
            detect_error: "Could not auto-detect Arma 3 directory.",
        },
        Some(DirectoryField::TeamSpeak3) => DirectoryBinding {
            onedrive_check: false,
            invalidates_addons: false,
            refreshes_profiles: false,
            validate_error: Some(
                "TeamSpeak 3 client was not found in the selected directory. Make sure this is your TeamSpeak 3 installation folder.",
            ),
            detect_hover: "Automatically detect the TeamSpeak 3 installation directory.",
            detect_error: "Could not auto-detect TeamSpeak 3 directory.",
        },
        Some(DirectoryField::Twwh3) => DirectoryBinding {
            onedrive_check: true,
            invalidates_addons: false,
            refreshes_profiles: false,
            validate_error: Some(
                "Warhammer3.exe was not found in the selected directory. Make sure this is your Total War: WARHAMMER III installation folder.",
            ),
            detect_hover: "Automatically detect the Total War: WARHAMMER III installation directory using Steam library metadata.",
            detect_error: "Could not auto-detect Total War: WARHAMMER III directory.",
        },
        Some(DirectoryField::Reforger) => DirectoryBinding {
            onedrive_check: true,
            invalidates_addons: false,
            refreshes_profiles: false,
            validate_error: Some(
                "ArmaReforgerSteam.exe was not found in the selected directory. Make sure this is your Arma Reforger installation folder.",
            ),
            detect_hover: "Automatically detect the Arma Reforger installation directory using Steam library metadata.",
            detect_error: "Could not auto-detect Arma Reforger directory.",
        },
        Some(DirectoryField::Profiles) => DirectoryBinding {
            onedrive_check: true,
            invalidates_addons: false,
            refreshes_profiles: true,
            validate_error: None,
            detect_hover: "",
            detect_error: "",
        },
        None => DirectoryBinding {
            onedrive_check: true,
            invalidates_addons: false,
            refreshes_profiles: false,
            validate_error: None,
            detect_hover: "",
            detect_error: "",
        },
    }
}

/// Who can tell whether a folder holds what it should, and where it is.
#[derive(Debug, Clone, Copy, PartialEq, Eq, Structural)]
pub enum DirectoryProbe {
    /// The game of the space.
    Game,
    /// The search for the TeamSpeak client.
    TeamSpeak,
    /// Nobody: any folder will do, and none is found.
    Nobody,
}

/// Who can tell of the folder that a name stands for.
pub open spec fn probe_of(field: Option<DirectoryField>) -> DirectoryProbe {
    match field {
        Some(DirectoryField::Arma3) | Some(DirectoryField::Twwh3) | Some(
            DirectoryField::Reforger,
        ) => DirectoryProbe::Game,
        Some(DirectoryField::TeamSpeak3) => DirectoryProbe::TeamSpeak,
        Some(DirectoryField::Profiles) | None => DirectoryProbe::Nobody,
    }
}

/// Who can tell of the folder that a name stands for.
pub fn directory_probe(id: &str) -> (r: DirectoryProbe)
    ensures
        r == probe_of(field_of(id@)),
{
    match directory_field(id) {
        Some(DirectoryField::Arma3)
        | Some(DirectoryField::Twwh3)
        | Some(DirectoryField::Reforger) => DirectoryProbe::Game,
        Some(DirectoryField::TeamSpeak3) => DirectoryProbe::TeamSpeak,
        Some(DirectoryField::Profiles) | None => DirectoryProbe::Nobody,
    }
}

/// Whether a folder is a good one, given what the game and the search for the
/// TeamSpeak client say of it.
pub fn validate_directory(id: &str, game_accepts: bool, client_found: bool) -> (r: bool)
    ensures
        r == match probe_of(field_of(id@)) {
            DirectoryProbe::Game => game_accepts,
            DirectoryProbe::TeamSpeak => client_found,
            DirectoryProbe::Nobody => true,
        },
{
    match directory_probe(id) {
        DirectoryProbe::Game => game_accepts,
        DirectoryProbe::TeamSpeak => client_found,
        DirectoryProbe::Nobody => true,
    }
}

/// Where a folder is, given what the game and the search for the TeamSpeak
/// client found.
pub fn detect_directory(
    id: &str,
    game_found: Option<String>,
    client_found: Option<String>,
) -> (r: Option<String>)
    ensures
        r == match probe_of(field_of(id@)) {
            DirectoryProbe::Game => game_found,
            DirectoryProbe::TeamSpeak => client_found,
            DirectoryProbe::Nobody => None,
        },
{
    match directory_probe(id) {
        DirectoryProbe::Game => game_found,
        DirectoryProbe::TeamSpeak => client_found,
        DirectoryProbe::Nobody => None,
    }
}

// ---------------------------------------------------------------------------
// Changes
// ---------------------------------------------------------------------------

/// What is touched once a folder has changed.
pub open spec fn touched_by(
    flags: ApplicationPathChangeFlags,
    b: BindingModel,
) -> ApplicationPathChangeFlags {
    ApplicationPathChangeFlags {
        settings: true,
        addons: flags.addons || b.invalidates_addons,
        profiles: flags.profiles || b.refreshes_profiles,
    }
}

/// Notes what a change of a folder touches.
pub fn mark_changed(flags: &mut ApplicationPathChangeFlags, binding: &DirectoryBinding)
    ensures
        *final(flags) == touched_by(*old(flags), binding@),
{
    flags.settings = true;
    flags.addons = flags.addons || binding.invalidates_addons;
    flags.profiles = flags.profiles || binding.refreshes_profiles;
}

/// The text that the user is told.
pub open spec fn told(error: Option<&'static str>) -> Option<Seq<char>> {
    match error {
        Some(t) => Some(t@),
        None => None,
    }
}

impl GameSpaceSettings {
    /// The user picked a folder. `valid` says whether it is a good one, see
    /// [`validate_directory`]. The result is what the user is told.
    pub fn browse(
        &mut self,
        id: &str,
        folder: String,
        in_onedrive: bool,
        valid: bool,
        flags: &mut ApplicationPathChangeFlags,
    ) -> (error: Option<&'static str>)
        ensures
            ({
                let field = field_of(id@);
                let b = binding_of(field);
                match field {
                    None => *final(self) == *old(self) && *final(flags) == *old(flags) && told(error)
                        is None,
                    Some(f) => if b.onedrive_check && in_onedrive {
                        &&& *final(self) == *old(self)
                        &&& *final(flags) == *old(flags)
                        &&& told(error) == Some(paths::onedrive_refusal())
                    } else {
                        &&& *final(self) == with_folder(*old(self), f, folder)
                        &&& *final(flags) == touched_by(*old(flags), b)
                        &&& told(error) == if valid {
                            None
                        } else {
                            b.validate_error
                        }
                    },
                }
            }),
    {
        let binding: DirectoryBinding = directory_binding(id);
        if directory_field(id).is_none() {
            return None;
        }
        if binding.onedrive_check && in_onedrive {
            return Some(onedrive_error());
        }
        if let Some(field) = directory_field_mut(self, id) {
            *field = folder;
        }
        mark_changed(flags, &binding);
        if valid {
            None
        } else {
            binding.validate_error
        }
    }

    /// A folder was searched for. `found` is what was found, see
    /// [`detect_directory`]. The result is what the user is told.
    pub fn auto_detect(
        &mut self,
        id: &str,
        found: Option<String>,
        in_onedrive: bool,
        flags: &mut ApplicationPathChangeFlags,
    ) -> (error: Option<&'static str>)
        ensures
            ({
                let field = field_of(id@);
                let b = binding_of(field);
                match (field, found) {
                    (None, _) => *final(self) == *old(self) && *final(flags) == *old(flags)
                        && told(error) is None,
                    (Some(_), None) => *final(self) == *old(self) && *final(flags) == *old(flags)
                        && told(error) == Some(b.detect_error),
                    (Some(f), Some(folder)) => if b.onedrive_check && in_onedrive {
                        &&& *final(self) == *old(self)
                        &&& *final(flags) == *old(flags)
                        &&& told(error) == Some(paths::onedrive_refusal())
                    } else {
                        &&& *final(self) == with_folder(*old(self), f, folder)
                        &&& *final(flags) == touched_by(*old(flags), b)
                        &&& told(error) is None
                    },
                }
            }),
    {
        let binding: DirectoryBinding = directory_binding(id);
        if directory_field(id).is_none() {
            return None;
        }
        match found {
            Some(folder) => {
                if binding.onedrive_check && in_onedrive {
                    return Some(onedrive_error());
                }
                if let Some(field) = directory_field_mut(self, id) {
                    *field = folder;
                }
                mark_changed(flags, &binding);
                None
            },
            None => Some(binding.detect_error),
        }
    }
}

/// The names of a schema that stand for different fields do not touch one
/// another.
pub proof fn law_folders_are_separate(
    s: GameSpaceSettings,
    f: DirectoryField,
    g: DirectoryField,
    folder: String,
)
    ensures
        folder_of(with_folder(s, f, folder), f) == folder,
        f != g ==> folder_of(with_folder(s, f, folder), g) == folder_of(s, g),
        with_folder(s, f, folder).toggles == s.toggles,
{
    match f {
        DirectoryField::Arma3 => {},
        DirectoryField::Twwh3 => {},
        DirectoryField::Reforger => {},
        DirectoryField::TeamSpeak3 => {},
        DirectoryField::Profiles => {},
    }
}

/// Switching one switch leaves the others as they are.
pub proof fn law_toggles_are_separate(s: GameToggles, f: ToggleField, g: ToggleField, on: bool)
    ensures
        is_on(with_toggle(s, f, on), f) == on,
        f != g ==> is_on(with_toggle(s, f, on), g) == is_on(s, g),
{
}

/// What the page on profiles shows.
#[derive(Debug, Clone, Copy, PartialEq, Eq, Structural)]
pub enum ProfilePage {
    /// The game of the space is not known.
    UnknownGame,
    /// The game has no profiles.
    NoProfiles,
    /// The profiles can be managed.
    Manage,
    /// The space must be opened first.
    OpenFirst,
}

/// What the page on profiles shows. `has_profiles` says whether the schema of
/// the game names the folder of the profiles.
pub fn profile_page(game_known: bool, has_profiles: bool, active: bool) -> (r: ProfilePage)
    ensures
        r == if !game_known {
            ProfilePage::UnknownGame
        } else if !has_profiles {
            ProfilePage::NoProfiles
        } else if active {
            ProfilePage::Manage
        } else {
            ProfilePage::OpenFirst
        },
{
    if !game_known {
        ProfilePage::UnknownGame
    } else if !has_profiles {
        ProfilePage::NoProfiles
    } else if active {
        ProfilePage::Manage
    } else {
        ProfilePage::OpenFirst
    }
}

/// Whether the folder of a schema shows on the page of the game: all but that
/// of the profiles, which has a page of its own, if its name stands for one.
pub fn shows_on_game_page(id: &str) -> (r: bool)
    ensures
        r == (field_of(id@) is Some && field_of(id@) != Some(DirectoryField::Profiles)),
{
    match directory_field(id) {
        Some(DirectoryField::Profiles) | None => false,
        Some(_) => true,
    }
}

} // verus!
