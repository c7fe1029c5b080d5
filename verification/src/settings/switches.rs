//! The switches of the general settings that nothing else depends on.

use vstd::prelude::*;

verus! {

broadcast use vstd::string::group_string_axioms;

/// How many switches there are.
pub const SWITCH_COUNT: usize = 14;

/// A switch of the general settings.
#[derive(Debug, Clone, Copy, PartialEq, Eq, Structural)]
pub enum Switch {
    AutoBackup,
    ClientParameters,
    DlcContent,
    EditorWarning,
    MissionList,
    ServerList,
    ServerAddonCheck,
    TeamSpeakCheck,
    SteamCheck,
    RecheckOnLaunch,
    ScanOnLaunch,
    DebugWindows,
    FpsCounter,
    HideImage,
}

/// The switches of the general settings.
#[derive(Debug, Clone, Copy, PartialEq, Eq, Structural)]
pub struct SwitchSettings {
    pub auto_backup_on_update: bool,
    pub apply_repo_json_client_parameters: bool,
    pub apply_repo_json_dlc_content: bool,
    pub warn_editor_external_addons: bool,
    pub enable_editor_mission_list: bool,
    pub enable_server_list: bool,
    pub check_server_addons_before_join: bool,
    pub check_ts3_running_before_join: bool,
    pub check_steam_running_before_launch: bool,
    pub auto_recheck_on_launch: bool,
    pub auto_quick_scan_on_launch: bool,
    pub show_debug_windows: bool,
    pub show_fps_counter: bool,
    pub hide_repository_image: bool,
}

/// Switch `i`, in the order in which they stand.
pub open spec fn switch_row(i: int) -> Switch {
    if i == 0 {
        Switch::AutoBackup
    } else if i == 1 {
        Switch::ClientParameters
    } else if i == 2 {
        Switch::DlcContent
    } else if i == 3 {
        Switch::EditorWarning
    } else if i == 4 {
        Switch::MissionList
    } else if i == 5 {
        Switch::ServerList
    } else if i == 6 {
        Switch::ServerAddonCheck
    } else if i == 7 {
        Switch::TeamSpeakCheck
    } else if i == 8 {
        Switch::SteamCheck
    } else if i == 9 {
        Switch::RecheckOnLaunch
    } else if i == 10 {
        Switch::ScanOnLaunch
    } else if i == 11 {
        Switch::DebugWindows
    } else if i == 12 {
        Switch::FpsCounter
    } else {
        Switch::HideImage
    }
}

/// Switch `i`, in the order in which they stand.
pub fn switch_at(i: usize) -> (r: Switch)
    requires
        i < SWITCH_COUNT,
    ensures
        r == switch_row(i as int),
{
    match i {
        0 => Switch::AutoBackup,
        1 => Switch::ClientParameters,
        2 => Switch::DlcContent,
        3 => Switch::EditorWarning,
        4 => Switch::MissionList,
        5 => Switch::ServerList,
        6 => Switch::ServerAddonCheck,
        7 => Switch::TeamSpeakCheck,
        8 => Switch::SteamCheck,
        9 => Switch::RecheckOnLaunch,
        10 => Switch::ScanOnLaunch,
        11 => Switch::DebugWindows,
        12 => Switch::FpsCounter,
        _ => Switch::HideImage,
    }
}

/// The label of a switch, and what it is said to do.
pub open spec fn switch_words(s: Switch) -> (Seq<char>, Seq<char>) {
    match s {
        Switch::AutoBackup => (
            "Auto backup addons before update"@,
            "Automatically create a backup of each addon before downloading updates so you can restore the previous version if needed."@,
        ),
        Switch::ClientParameters => (
            "Auto apply repo.json launch parameters"@,
            "Automatically apply launch parameters from the repository's repo.json when launching Arma 3."@,
        ),
        Switch::DlcContent => (
            "Auto apply repo.json DLC content"@,
            "Automatically enable DLC content specified by the repository's repo.json when launching Arma 3."@,
        ),
        Switch::EditorWarning => (
            "Warn before launching editor with external addons"@,
            "Show a confirmation before opening Eden Editor when additional/external addons are enabled."@,
        ),
        Switch::MissionList => (
            "Show Editor Missions list"@,
            "Show the Editor Missions section in the repository view. Can be overridden per repository."@,
        ),
        Switch::ServerList => (
            "Show Servers list"@,
            "Show the Servers section in the repository view. Can be overridden per repository."@,
        ),
        Switch::ServerAddonCheck => (
            "Check server addons before joining"@,
            "Before joining a server, query its addon list and offer to enable matching disabled local addons."@,
        ),
        Switch::TeamSpeakCheck => (
            "Check TeamSpeak is running before joining"@,
            "Before joining a server with a repository that ships TeamSpeak plugins, warn if TeamSpeak 3 is not running and offer to launch it."@,
        ),
        Switch::SteamCheck => (
            "Check Steam is running before launching"@,
            "Before launching or joining, warn if Steam is not running (Arma 3 needs Steam) and offer to launch it."@,
        ),
        Switch::RecheckOnLaunch => (
            "Auto recheck repositories on launch"@,
            "Automatically run a remote data recheck for all repositories when the app starts."@,
        ),
        Switch::ScanOnLaunch => (
            "Auto quick scan for changes on launch"@,
            "Automatically run a quick local file scan for all repositories when the app starts."@,
        ),
        Switch::DebugWindows => (
            "Show Debug Windows"@,
            "Show developer debug windows for advanced diagnostics."@,
        ),
        Switch::FpsCounter => (
            "Show FPS counter"@,
            "Display a frames-per-second counter in the bottom-right corner. Keeps the UI repainting continuously while enabled."@,
        ),
        Switch::HideImage => (
            "Hide repository image"@,
            "Hide the banner image shown at the top of the repository and repository space views. Individual repositories can override this in their settings."@,
        ),
    }
}

/// Whether a switch is on.
pub open spec fn on_in(s: SwitchSettings, which: Switch) -> bool {
    match which {
        Switch::AutoBackup => s.auto_backup_on_update,
        Switch::ClientParameters => s.apply_repo_json_client_parameters,
        Switch::DlcContent => s.apply_repo_json_dlc_content,
        Switch::EditorWarning => s.warn_editor_external_addons,
        Switch::MissionList => s.enable_editor_mission_list,
        Switch::ServerList => s.enable_server_list,
        Switch::ServerAddonCheck => s.check_server_addons_before_join,
        Switch::TeamSpeakCheck => s.check_ts3_running_before_join,
        Switch::SteamCheck => s.check_steam_running_before_launch,
        Switch::RecheckOnLaunch => s.auto_recheck_on_launch,
        Switch::ScanOnLaunch => s.auto_quick_scan_on_launch,
        Switch::DebugWindows => s.show_debug_windows,
        Switch::FpsCounter => s.show_fps_counter,
        Switch::HideImage => s.hide_repository_image,
    }
}

/// The switches with one of them on or off.
pub open spec fn switched(s: SwitchSettings, which: Switch, on: bool) -> SwitchSettings {
    match which {
        Switch::AutoBackup => SwitchSettings { auto_backup_on_update: on, ..s },
        Switch::ClientParameters => SwitchSettings { apply_repo_json_client_parameters: on, ..s },
        Switch::DlcContent => SwitchSettings { apply_repo_json_dlc_content: on, ..s },
        Switch::EditorWarning => SwitchSettings { warn_editor_external_addons: on, ..s },
        Switch::MissionList => SwitchSettings { enable_editor_mission_list: on, ..s },
        Switch::ServerList => SwitchSettings { enable_server_list: on, ..s },
        Switch::ServerAddonCheck => SwitchSettings { check_server_addons_before_join: on, ..s },
        Switch::TeamSpeakCheck => SwitchSettings { check_ts3_running_before_join: on, ..s },
        Switch::SteamCheck => SwitchSettings { check_steam_running_before_launch: on, ..s },
        Switch::RecheckOnLaunch => SwitchSettings { auto_recheck_on_launch: on, ..s },
        Switch::ScanOnLaunch => SwitchSettings { auto_quick_scan_on_launch: on, ..s },
        Switch::DebugWindows => SwitchSettings { show_debug_windows: on, ..s },
        Switch::FpsCounter => SwitchSettings { show_fps_counter: on, ..s },
        Switch::HideImage => SwitchSettings { hide_repository_image: on, ..s },
    }
}

impl Switch {
    /// The label of the switch, and what it is said to do.
    pub fn words(self) -> (r: (&'static str, &'static str))
        ensures
            (r.0@, r.1@) == switch_words(self),
    {
        match self {
            Switch::AutoBackup => (
                "Auto backup addons before update",
                "Automatically create a backup of each addon before downloading updates so you can restore the previous version if needed.",
            ),
            Switch::ClientParameters => (
                "Auto apply repo.json launch parameters",
                "Automatically apply launch parameters from the repository's repo.json when launching Arma 3.",
            ),
            Switch::DlcContent => (
                "Auto apply repo.json DLC content",
                "Automatically enable DLC content specified by the repository's repo.json when launching Arma 3.",
            ),
            Switch::EditorWarning => (
                "Warn before launching editor with external addons",
                "Show a confirmation before opening Eden Editor when additional/external addons are enabled.",
            ),
            Switch::MissionList => (
                "Show Editor Missions list",
                "Show the Editor Missions section in the repository view. Can be overridden per repository.",
            ),
            Switch::ServerList => (
                "Show Servers list",
                "Show the Servers section in the repository view. Can be overridden per repository.",
            ),
            Switch::ServerAddonCheck => (
                "Check server addons before joining",
                "Before joining a server, query its addon list and offer to enable matching disabled local addons.",
            ),
            Switch::TeamSpeakCheck => (
                "Check TeamSpeak is running before joining",
                "Before joining a server with a repository that ships TeamSpeak plugins, warn if TeamSpeak 3 is not running and offer to launch it.",
            ),
            Switch::SteamCheck => (
                "Check Steam is running before launching",
                "Before launching or joining, warn if Steam is not running (Arma 3 needs Steam) and offer to launch it.",
            ),
            Switch::RecheckOnLaunch => (
                "Auto recheck repositories on launch",
                "Automatically run a remote data recheck for all repositories when the app starts.",
            ),
            Switch::ScanOnLaunch => (
                "Auto quick scan for changes on launch",
                "Automatically run a quick local file scan for all repositories when the app starts.",
            ),
            Switch::DebugWindows => (
                "Show Debug Windows",
                "Show developer debug windows for advanced diagnostics.",
            ),
            Switch::FpsCounter => (
                "Show FPS counter",
                "Display a frames-per-second counter in the bottom-right corner. Keeps the UI repainting continuously while enabled.",
            ),
            Switch::HideImage => (
                "Hide repository image",
                "Hide the banner image shown at the top of the repository and repository space views. Individual repositories can override this in their settings.",
            ),
        }
    }
}

impl SwitchSettings {
    /// Whether a switch is on.
    pub fn is_on(&self, which: Switch) -> (r: bool)
        ensures
            r == on_in(*self, which),
    {
        match which {
            Switch::AutoBackup => self.auto_backup_on_update,
            Switch::ClientParameters => self.apply_repo_json_client_parameters,
            Switch::DlcContent => self.apply_repo_json_dlc_content,
            Switch::EditorWarning => self.warn_editor_external_addons,
            Switch::MissionList => self.enable_editor_mission_list,
            Switch::ServerList => self.enable_server_list,
            Switch::ServerAddonCheck => self.check_server_addons_before_join,
            Switch::TeamSpeakCheck => self.check_ts3_running_before_join,
            Switch::SteamCheck => self.check_steam_running_before_launch,
            Switch::RecheckOnLaunch => self.auto_recheck_on_launch,
            Switch::ScanOnLaunch => self.auto_quick_scan_on_launch,
            Switch::DebugWindows => self.show_debug_windows,
            Switch::FpsCounter => self.show_fps_counter,
            Switch::HideImage => self.hide_repository_image,
        }
    }

    /// Turns a switch on or off. The result says whether that changes anything.
    pub fn set(&mut self, which: Switch, on: bool) -> (changed: bool)
        ensures
            *final(self) == switched(*old(self), which, on),
            changed == (on_in(*old(self), which) != on),
    {
        let changed: bool = self.is_on(which) != on;
        *self = match which {
            Switch::AutoBackup => SwitchSettings { auto_backup_on_update: on, ..*self },
            Switch::ClientParameters => SwitchSettings { apply_repo_json_client_parameters: on, ..*self },
            Switch::DlcContent => SwitchSettings { apply_repo_json_dlc_content: on, ..*self },
            Switch::EditorWarning => SwitchSettings { warn_editor_external_addons: on, ..*self },
            Switch::MissionList => SwitchSettings { enable_editor_mission_list: on, ..*self },
            Switch::ServerList => SwitchSettings { enable_server_list: on, ..*self },
            Switch::ServerAddonCheck => SwitchSettings { check_server_addons_before_join: on, ..*self },
            Switch::TeamSpeakCheck => SwitchSettings { check_ts3_running_before_join: on, ..*self },
            Switch::SteamCheck => SwitchSettings { check_steam_running_before_launch: on, ..*self },
            Switch::RecheckOnLaunch => SwitchSettings { auto_recheck_on_launch: on, ..*self },
            Switch::ScanOnLaunch => SwitchSettings { auto_quick_scan_on_launch: on, ..*self },
            Switch::DebugWindows => SwitchSettings { show_debug_windows: on, ..*self },
            Switch::FpsCounter => SwitchSettings { show_fps_counter: on, ..*self },
            Switch::HideImage => SwitchSettings { hide_repository_image: on, ..*self },
        };
        changed
    }
}

/// A switch is on or off as it was set, and no other switch moves.
#[verifier::spinoff_prover]
#[verifier::rlimit(60)]
pub proof fn law_switches_are_separate(s: SwitchSettings, p: Switch, q: Switch, on: bool)
    ensures
        on_in(switched(s, p, on), p) == on,
        p != q ==> on_in(switched(s, p, on), q) == on_in(s, q),
{
    match p {
        Switch::AutoBackup => {},
        Switch::ClientParameters => {},
        Switch::DlcContent => {},
        Switch::EditorWarning => {},
        Switch::MissionList => {},
        Switch::ServerList => {},
        Switch::ServerAddonCheck => {},
        Switch::TeamSpeakCheck => {},
        Switch::SteamCheck => {},
        Switch::RecheckOnLaunch => {},
        Switch::ScanOnLaunch => {},
        Switch::DebugWindows => {},
        Switch::FpsCounter => {},
        Switch::HideImage => {},
    }
}

/// Every switch stands in the list.
pub proof fn law_every_switch_has_a_row(s: Switch)
    ensures
        exists|i: int| 0 <= i < SWITCH_COUNT && switch_row(i) == s,
{
    match s {
        Switch::AutoBackup => assert(switch_row(0) == s),
        Switch::ClientParameters => assert(switch_row(1) == s),
        Switch::DlcContent => assert(switch_row(2) == s),
        Switch::EditorWarning => assert(switch_row(3) == s),
        Switch::MissionList => assert(switch_row(4) == s),
        Switch::ServerList => assert(switch_row(5) == s),
        Switch::ServerAddonCheck => assert(switch_row(6) == s),
        Switch::TeamSpeakCheck => assert(switch_row(7) == s),
        Switch::SteamCheck => assert(switch_row(8) == s),
        Switch::RecheckOnLaunch => assert(switch_row(9) == s),
        Switch::ScanOnLaunch => assert(switch_row(10) == s),
        Switch::DebugWindows => assert(switch_row(11) == s),
        Switch::FpsCounter => assert(switch_row(12) == s),
        Switch::HideImage => assert(switch_row(13) == s),
    }
}

} // verus!
