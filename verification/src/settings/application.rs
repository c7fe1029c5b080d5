//! The tabs of the settings, and the settings of the application's own
//! updates.

use vstd::prelude::*;

use crate::text;
use crate::text::{blank, concat, same_text};

verus! {

broadcast use vstd::string::group_string_axioms;

// ---------------------------------------------------------------------------
// Tabs
// ---------------------------------------------------------------------------

/// How many tabs there are.
pub const TAB_COUNT: usize = 8;

/// What a tab shows.
#[derive(Debug, Clone, Copy, PartialEq, Eq, Structural)]
pub enum SettingsPage {
    Application,
    AdditionalFolders,
    Cleanup,
    DirectDownload,
    BackupManager,
    Scheduling,
    Ts3Plugin,
    Customization,
}

/// The name of tab `i`.
pub open spec fn tab_name(i: int) -> Seq<char> {
    if i == 0 {
        "Application"@
    } else if i == 1 {
        "Additional search folders"@
    } else if i == 2 {
        "Cleanup"@
    } else if i == 3 {
        "Direct download"@
    } else if i == 4 {
        "Backup Manager"@
    } else if i == 5 {
        "Scheduling"@
    } else if i == 6 {
        "TS3 Plugin"@
    } else {
        "Customization"@
    }
}

/// The name of tab `i`.
pub fn tab(i: usize) -> (r: &'static str)
    requires
        i < TAB_COUNT,
    ensures
        r@ == tab_name(i as int),
{
    match i {
        0 => "Application",
        1 => "Additional search folders",
        2 => "Cleanup",
        3 => "Direct download",
        4 => "Backup Manager",
        5 => "Scheduling",
        6 => "TS3 Plugin",
        _ => "Customization",
    }
}

/// The first tab from `i` on with a name; the first of all if there is none.
pub open spec fn tab_of(name: Seq<char>, i: int) -> int
    decreases TAB_COUNT - i,
{
    if i >= TAB_COUNT {
        0
    } else if tab_name(i) == name {
        i
    } else {
        tab_of(name, i + 1)
    }
}

/// The tab that is marked while the tab `name` is open. A name that no tab has
/// marks the first one.
pub fn selected_tab(name: &str) -> (r: usize)
    ensures
        r < TAB_COUNT,
        r == tab_of(name@, 0),
{
    let mut i: usize = 0;
    while i < TAB_COUNT
        invariant
            i <= TAB_COUNT,
            tab_of(name@, 0) == tab_of(name@, i as int),
        decreases TAB_COUNT - i,
    {
        if same_text(tab(i), name) {
            return i;
        }
        i = i + 1;
    }
    0
}

/// What shows while the tab `name` is open. The plugin tab answers to its old
/// name too; a name that nothing has shows nothing.
pub open spec fn page_of(name: Seq<char>) -> Option<SettingsPage> {
    if name == "Application"@ {
        Some(SettingsPage::Application)
    } else if name == "Scheduling"@ {
        Some(SettingsPage::Scheduling)
    } else if name == "Backup Manager"@ {
        Some(SettingsPage::BackupManager)
    } else if name == "Additional search folders"@ {
        Some(SettingsPage::AdditionalFolders)
    } else if name == "Cleanup"@ {
        Some(SettingsPage::Cleanup)
    } else if name == "Direct download"@ {
        Some(SettingsPage::DirectDownload)
    } else if name == "TS3 Plugin"@ || name == "TS3 Plugins"@ {
        Some(SettingsPage::Ts3Plugin)
    } else if name == "Customization"@ {
        Some(SettingsPage::Customization)
    } else {
        None
    }
}

/// What shows while the tab `name` is open.
pub fn settings_page(name: &str) -> (r: Option<SettingsPage>)
    ensures
        r == page_of(name@),
{
    if same_text(name, "Application") {
        Some(SettingsPage::Application)
    } else if same_text(name, "Scheduling") {
        Some(SettingsPage::Scheduling)
    } else if same_text(name, "Backup Manager") {
        Some(SettingsPage::BackupManager)
    } else if same_text(name, "Additional search folders") {
        Some(SettingsPage::AdditionalFolders)
    } else if same_text(name, "Cleanup") {
        Some(SettingsPage::Cleanup)
    } else if same_text(name, "Direct download") {
        Some(SettingsPage::DirectDownload)
    } else if same_text(name, "TS3 Plugin") || same_text(name, "TS3 Plugins") {
        Some(SettingsPage::Ts3Plugin)
    } else if same_text(name, "Customization") {
        Some(SettingsPage::Customization)
    } else {
        None
    }
}

/// Every tab shows something.
pub proof fn law_every_tab_has_a_page(i: int)
    requires
        0 <= i < TAB_COUNT,
    ensures
        page_of(tab_name(i)) is Some,
{
}

// ---------------------------------------------------------------------------
// Updates of the application
// ---------------------------------------------------------------------------

/// Where updates come from.
#[derive(Debug, Clone, Copy, PartialEq, Eq, Structural)]
pub enum AppUpdateMode {
    Server,
    GitHub,
}

/// The settings of the application's own updates.
#[derive(Debug)]
pub struct UpdateSettings {
    pub app_update_mode: AppUpdateMode,
    /// Whether the user chose the source, so that nothing else may set it.
    pub app_update_mode_user_override: bool,
    pub app_update_url: String,
    /// Whether the user typed the address, so that nothing else may set it.
    pub app_update_url_user_override: bool,
}

impl UpdateSettings {
    /// The user chose a source.
    pub fn choose_mode(&mut self, mode: AppUpdateMode)
        ensures
            *final(self) == (UpdateSettings {
                app_update_mode: mode,
                app_update_mode_user_override: true,
                ..*old(self)
            }),
    {
        self.app_update_mode = mode;
        self.app_update_mode_user_override = true;
    }

    /// The user typed an address. A blank one leaves the address to be found.
    pub fn type_url(&mut self, url: String)
        ensures
            *final(self) == (UpdateSettings {
                app_update_url: url,
                app_update_url_user_override: !text::is_blank(url@),
                ..*old(self)
            }),
    {
        self.app_update_url_user_override = !blank(url.as_str());
        self.app_update_url = url;
    }
}

/// How far the search for an update is.
#[derive(Debug)]
pub enum UpdateCheckStatus {
    Idle,
    Checking,
    UpToDate,
    /// The newest version.
    Available(String),
    /// What went wrong.
    Failed(String),
    /// An update is on its way.
    Other,
}

/// The colour of the line on the search.
#[derive(Debug, Clone, Copy, PartialEq, Eq, Structural)]
pub enum UpdateStatusColor {
    Plain,
    Success,
    Accent,
    Error,
}

/// The line on the search: a word to be translated, and what follows it.
#[derive(Debug)]
pub struct UpdateStatusLine {
    pub word: &'static str,
    pub tail: String,
    pub color: UpdateStatusColor,
    pub spinner: bool,
}

/// What a line says: word, tail, colour, and whether something turns.
pub open spec fn status_line(s: UpdateCheckStatus) -> Option<
    (Seq<char>, Seq<char>, UpdateStatusColor, bool),
> {
    match s {
        UpdateCheckStatus::Checking => Some(
            ("Checking..."@, Seq::empty(), UpdateStatusColor::Plain, true),
        ),
        UpdateCheckStatus::UpToDate => Some(
            ("Up to date"@, Seq::empty(), UpdateStatusColor::Success, false),
        ),
        UpdateCheckStatus::Available(latest) => Some(
            ("Update available"@, ": v"@ + latest@, UpdateStatusColor::Accent, false),
        ),
        UpdateCheckStatus::Failed(cause) => Some(
            ("Error"@, ": "@ + cause@, UpdateStatusColor::Error, false),
        ),
        UpdateCheckStatus::Idle | UpdateCheckStatus::Other => None,
    }
}

/// The line on the search, if there is one.
pub fn update_status_line(s: &UpdateCheckStatus) -> (r: Option<UpdateStatusLine>)
    ensures
        match r {
            Some(l) => status_line(*s) == Some((l.word@, l.tail@, l.color, l.spinner)),
            None => status_line(*s) is None,
        },
{
    match s {
        UpdateCheckStatus::Checking => Some(
            UpdateStatusLine {
                word: "Checking...",
                tail: String::new(),
                color: UpdateStatusColor::Plain,
                spinner: true,
            },
        ),
        UpdateCheckStatus::UpToDate => Some(
            UpdateStatusLine {
                word: "Up to date",
                tail: String::new(),
                color: UpdateStatusColor::Success,
                spinner: false,
            },
        ),
        UpdateCheckStatus::Available(latest) => Some(
            UpdateStatusLine {
                word: "Update available",
                tail: concat(": v", latest.as_str()),
                color: UpdateStatusColor::Accent,
                spinner: false,
            },
        ),
        UpdateCheckStatus::Failed(cause) => Some(
            UpdateStatusLine {
                word: "Error",
                tail: concat(": ", cause.as_str()),
                color: UpdateStatusColor::Error,
                spinner: false,
            },
        ),
        UpdateCheckStatus::Idle | UpdateCheckStatus::Other => None,
    }
}

/// Whether browsing the versions starts a search first: it does if none was
/// made.
pub fn browse_starts_check(s: &UpdateCheckStatus) -> (r: bool)
    ensures
        r == (*s is Idle),
{
    match s {
        UpdateCheckStatus::Idle => true,
        _ => false,
    }
}

} // verus!
