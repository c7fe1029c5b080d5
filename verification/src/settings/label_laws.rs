//! The labels of the settings, in the order in which they stand.

use vstd::prelude::*;

use crate::settings::application;
use crate::settings::game_space;
use crate::settings::game_space::DirectoryField;
use crate::settings::general;
use crate::settings::general::{HashIoProfilePreference, UiRendererPreference};
use crate::settings::paths;
use crate::settings::paths::AppPath;
use crate::settings::profile_manager;
use crate::settings::profile_manager::Arma3ProfileActionKind;
use crate::settings::switches;
use crate::settings::switches::Switch;
use crate::settings::themes;
use crate::settings::themes::ThemeOutcome;

verus! {

broadcast use vstd::string::group_string_axioms;

/// The font sizes stand from the window down to the buttons of an update.
pub proof fn law_font_sizes_in_order()
    ensures
        Seq::new(31, |i: int| themes::font_label_of(i)) == seq![
            "Window control icons"@,
            "Activity log toggle icon"@,
            "Settings page title"@,
            "Settings close icon"@,
            "Help page title"@,
            "Help tab labels"@,
            "Help section title"@,
            "Help body text"@,
            "About H1 heading"@,
            "About H2 heading"@,
            "About H3 heading"@,
            "About body text"@,
            "Add repository button"@,
            "Repository toolbar icons"@,
            "Repository status banners"@,
            "Launch and Join buttons"@,
            "Repository settings title"@,
            "Repository settings close icon"@,
            "Repository settings refresh icon"@,
            "Repository addon path text"@,
            "Update page title"@,
            "Update close icon"@,
            "Update section title"@,
            "Update total size label"@,
            "Update summary heading"@,
            "Update summary body fallback"@,
            "Update mod name"@,
            "Update mod status"@,
            "Update mod progress"@,
            "Update file details"@,
            "Update pause button"@,
        ],
{
}

/// The colours stand from the accent down to the actions.
pub proof fn law_colors_in_order()
    ensures
        Seq::new(16, |i: int| themes::color_label_of(i)) == seq![
            "Primary Accent"@,
            "Widget Background"@,
            "Main Background"@,
            "Card Background"@,
            "Server Offline Background"@,
            "Text Normal"@,
            "Text Gray"@,
            "Text Dim"@,
            "Text Error"@,
            "Log Error"@,
            "Log Warning"@,
            "Log Debug"@,
            "Success"@,
            "Success Muted"@,
            "Action Info"@,
            "Action Destructive"@,
        ],
{
}

/// The tabs of the settings stand in this order.
pub proof fn law_tabs_in_order()
    ensures
        Seq::new(8, |i: int| application::tab_name(i)) == seq![
            "Application"@,
            "Additional search folders"@,
            "Cleanup"@,
            "Direct download"@,
            "Backup Manager"@,
            "Scheduling"@,
            "TS3 Plugin"@,
            "Customization"@,
        ],
{
}

/// The languages stand in this order, each with its own code.
pub proof fn law_languages_in_order()
    ensures
        Seq::new(42, |i: int| general::language_row(i)) == seq![
            ("system"@, "System"@),
            ("ar"@, "Arabic"@),
            ("bg"@, "Bulgarian"@),
            ("bn"@, "Bengali"@),
            ("cs"@, "Czech"@),
            ("de"@, "German"@),
            ("en"@, "English"@),
            ("es"@, "Spanish"@),
            ("fa"@, "Persian"@),
            ("fr"@, "French"@),
            ("he"@, "Hebrew"@),
            ("hi"@, "Hindi"@),
            ("hr"@, "Croatian"@),
            ("hu"@, "Hungarian"@),
            ("id"@, "Indonesian"@),
            ("it"@, "Italian"@),
            ("ja"@, "Japanese"@),
            ("ko"@, "Korean"@),
            ("da"@, "Danish"@),
            ("et"@, "Estonian"@),
            ("fi"@, "Finnish"@),
            ("el"@, "Greek"@),
            ("lt"@, "Lithuanian"@),
            ("lv"@, "Latvian"@),
            ("nb"@, "Norwegian"@),
            ("nl"@, "Dutch"@),
            ("pl"@, "Polish"@),
            ("pt"@, "Portuguese"@),
            ("pt-BR"@, "Brazilian Portuguese"@),
            ("ro"@, "Romanian"@),
            ("ru"@, "Russian"@),
            ("sk"@, "Slovak"@),
            ("sl"@, "Slovenian"@),
            ("sr"@, "Serbian"@),
            ("sv"@, "Swedish"@),
            ("th"@, "Thai"@),
            ("tl"@, "Tagalog"@),
            ("tr"@, "Turkish"@),
            ("uk"@, "Ukrainian"@),
            ("ur"@, "Urdu"@),
            ("vi"@, "Vietnamese"@),
            ("zh"@, "Chinese"@),
        ],
{
}

/// The switches stand in this order, each with its own label.
pub proof fn law_switches_in_order()
    ensures
        Seq::new(14, |i: int| switches::switch_words(switches::switch_row(i)).0) == seq![
            "Auto backup addons before update"@,
            "Auto apply repo.json launch parameters"@,
            "Auto apply repo.json DLC content"@,
            "Warn before launching editor with external addons"@,
            "Show Editor Missions list"@,
            "Show Servers list"@,
            "Check server addons before joining"@,
            "Check TeamSpeak is running before joining"@,
            "Check Steam is running before launching"@,
            "Auto recheck repositories on launch"@,
            "Auto quick scan for changes on launch"@,
            "Show Debug Windows"@,
            "Show FPS counter"@,
            "Hide repository image"@,
        ],
{
}

/// What a switch does is said of the switch that does it.
pub proof fn law_switches_say_what_they_do(s: Switch)
    ensures
        s is AutoBackup ==> switches::switch_words(s).1
            == "Automatically create a backup of each addon before downloading updates so you can restore the previous version if needed."@,
        s is ClientParameters ==> switches::switch_words(s).1
            == "Automatically apply launch parameters from the repository's repo.json when launching Arma 3."@,
        s is DlcContent ==> switches::switch_words(s).1
            == "Automatically enable DLC content specified by the repository's repo.json when launching Arma 3."@,
        s is EditorWarning ==> switches::switch_words(s).1
            == "Show a confirmation before opening Eden Editor when additional/external addons are enabled."@,
        s is MissionList ==> switches::switch_words(s).1
            == "Show the Editor Missions section in the repository view. Can be overridden per repository."@,
        s is ServerList ==> switches::switch_words(s).1
            == "Show the Servers section in the repository view. Can be overridden per repository."@,
        s is ServerAddonCheck ==> switches::switch_words(s).1
            == "Before joining a server, query its addon list and offer to enable matching disabled local addons."@,
        s is TeamSpeakCheck ==> switches::switch_words(s).1
            == "Before joining a server with a repository that ships TeamSpeak plugins, warn if TeamSpeak 3 is not running and offer to launch it."@,
        s is SteamCheck ==> switches::switch_words(s).1
            == "Before launching or joining, warn if Steam is not running (Arma 3 needs Steam) and offer to launch it."@,
        s is RecheckOnLaunch ==> switches::switch_words(s).1
            == "Automatically run a remote data recheck for all repositories when the app starts."@,
        s is ScanOnLaunch ==> switches::switch_words(s).1
            == "Automatically run a quick local file scan for all repositories when the app starts."@,
        s is DebugWindows ==> switches::switch_words(s).1
            == "Show developer debug windows for advanced diagnostics."@,
        s is FpsCounter ==> switches::switch_words(s).1
            == "Display a frames-per-second counter in the bottom-right corner. Keeps the UI repainting continuously while enabled."@,
        s is HideImage ==> switches::switch_words(s).1
            == "Hide the banner image shown at the top of the repository and repository space views. Individual repositories can override this in their settings."@,
{
}

/// Each hashing profile has its own label and says what it is for.
pub proof fn law_hashing_profiles_are_labelled(k: HashIoProfilePreference)
    ensures
        k is Auto ==> general::hash_profile_row(k) == (
            "Auto"@,
            "Benchmark initial hashing work and choose the fastest profile."@,
        ),
        k is Conservative ==> general::hash_profile_row(k) == (
            "Conservative"@,
            "Low concurrency for constrained systems."@,
        ),
        k is Balanced ==> general::hash_profile_row(k) == (
            "Balanced"@,
            "Moderate disk concurrency for mixed systems."@,
        ),
        k is Aggressive ==> general::hash_profile_row(k) == (
            "Aggressive"@,
            "High concurrency for systems that can sustain it."@,
        ),
{
}

/// Each renderer has its own label and says what it is for.
pub proof fn law_renderers_are_labelled(k: UiRendererPreference)
    ensures
        k is Auto ==> general::renderer_row(k) == (
            "Auto (WGPU)"@,
            "Use WGPU by default, but allow Foxy to switch to Glow after a WGPU renderer crash."@,
        ),
        k is Wgpu ==> general::renderer_row(k) == (
            "WGPU"@,
            "Force WGPU. This is usually fastest, but may be less reliable on some graphics drivers."@,
        ),
        k is Glow ==> general::renderer_row(k) == (
            "Glow"@,
            "Force Glow/OpenGL. This is usually more compatible after graphics driver or WGPU crashes."@,
        ),
{
}

/// The window of an action on a profile has the title and the button of that
/// action.
pub proof fn law_windows_on_profiles_are_labelled(k: Arma3ProfileActionKind)
    ensures
        k is Rename ==> profile_manager::window_words(k) == (
            "Rename Arma 3 profile"@,
            "Rename"@,
        ),
        k is Clone ==> profile_manager::window_words(k) == (
            "Clone Arma 3 profile"@,
            "Clone"@,
        ),
        k is Delete ==> profile_manager::window_words(k) == (
            "Delete Arma 3 profile"@,
            "Delete profile"@,
        ),
{
}

/// What is told of a theme is told of what happened to it.
pub proof fn law_what_is_told_of_a_theme(k: ThemeOutcome)
    ensures
        k is NameMissing ==> themes::outcome_words(k) == Some("Enter a theme name first."@),
        k is NameTaken ==> themes::outcome_words(k) == Some("A saved theme with this name already exists."@),
        k is Updated ==> themes::outcome_words(k) == Some("Saved theme updated."@),
        k is Added ==> themes::outcome_words(k) == Some("Custom theme saved."@),
        k is Loaded ==> themes::outcome_words(k) == Some("Saved theme loaded."@),
        k is Deleted ==> themes::outcome_words(k) == Some("Saved theme deleted."@),
{
}

/// What is said of the folder of a game is said of that game.
pub proof fn law_words_on_the_folders_of_games(f: DirectoryField)
    ensures
        f is Arma3 ==> game_space::binding_of(Some(f)).validate_error == Some(
            "Arma 3 executable was not found in the selected directory. Make sure this is your Arma 3 installation folder."@,
        ),
        f is Arma3 ==> game_space::binding_of(Some(f)).detect_hover
            == "Automatically detect the Arma 3 installation directory using Steam library metadata."@,
        f is Arma3 ==> game_space::binding_of(Some(f)).detect_error
            == "Could not auto-detect Arma 3 directory."@,
        f is TeamSpeak3 ==> game_space::binding_of(Some(f)).validate_error == Some(
            "TeamSpeak 3 client was not found in the selected directory. Make sure this is your TeamSpeak 3 installation folder."@,
        ),
        f is TeamSpeak3 ==> game_space::binding_of(Some(f)).detect_hover
            == "Automatically detect the TeamSpeak 3 installation directory."@,
        f is TeamSpeak3 ==> game_space::binding_of(Some(f)).detect_error
            == "Could not auto-detect TeamSpeak 3 directory."@,
        f is Twwh3 ==> game_space::binding_of(Some(f)).validate_error == Some(
            "Warhammer3.exe was not found in the selected directory. Make sure this is your Total War: WARHAMMER III installation folder."@,
        ),
        f is Twwh3 ==> game_space::binding_of(Some(f)).detect_hover
            == "Automatically detect the Total War: WARHAMMER III installation directory using Steam library metadata."@,
        f is Twwh3 ==> game_space::binding_of(Some(f)).detect_error
            == "Could not auto-detect Total War: WARHAMMER III directory."@,
        f is Reforger ==> game_space::binding_of(Some(f)).validate_error == Some(
            "ArmaReforgerSteam.exe was not found in the selected directory. Make sure this is your Arma Reforger installation folder."@,
        ),
        f is Reforger ==> game_space::binding_of(Some(f)).detect_hover
            == "Automatically detect the Arma Reforger installation directory using Steam library metadata."@,
        f is Reforger ==> game_space::binding_of(Some(f)).detect_error
            == "Could not auto-detect Arma Reforger directory."@,
        f is Profiles ==> game_space::binding_of(Some(f)).validate_error is None,
        f is Profiles ==> game_space::binding_of(Some(f)).detect_hover
            == ""@,
        f is Profiles ==> game_space::binding_of(Some(f)).detect_error
            == ""@,
{
}

/// What is said of a folder of the application is said of that folder.
pub proof fn law_words_on_the_folders_of_the_application(p: AppPath)
    ensures
        p is Arma3 ==> paths::not_detected(p) == "Could not auto-detect Arma 3 directory."@,
        p is TeamSpeak3 ==> paths::not_detected(p)
            == "Could not auto-detect TeamSpeak 3 directory."@,
        p is Steam ==> paths::not_detected(p) == "Could not auto-detect Steam directory."@,
        p is Arma3 ==> paths::missing_program(p) == Some(
            "Arma 3 executable was not found in the selected directory. Make sure this is your Arma 3 installation folder."@,
        ),
        p is TeamSpeak3 ==> paths::missing_program(p) == Some(
            "TeamSpeak 3 client was not found in the selected directory. Make sure this is your TeamSpeak 3 installation folder."@,
        ),
        !(p is Arma3 || p is TeamSpeak3) ==> paths::missing_program(p) is None,
        paths::onedrive_refusal()
            == "This path is inside a OneDrive folder. OneDrive sync can cause file access conflicts. Please choose a different location."@,
{
}

} // verus!
