//! The folders of the application settings: typing, browsing and detecting.

use vstd::prelude::*;

use crate::message;
use crate::message::{one, Message, MessageModel};
use crate::repository;
use crate::text;
use crate::text::trim_unless_blank;

verus! {

broadcast use vstd::string::group_string_axioms;

/// A folder of the application settings.
#[derive(Debug, Clone, Copy, PartialEq, Eq, Structural)]
pub enum AppPath {
    Arma3,
    TeamSpeak3,
    Profiles,
    Steam,
    Temp,
    Backup,
}

/// The folders of the application settings.
#[derive(Debug)]
pub struct PathSettings {
    pub arma3_directory: String,
    pub teamspeak3_directory: String,
    pub arma3_profiles_directory: String,
    pub steam_directory: String,
    pub temp_directory: String,
    pub backup_directory: String,
}

/// What a change of the settings touches.
#[derive(Debug, Clone, Copy, PartialEq, Eq, Structural)]
pub struct ApplicationPathChangeFlags {
    pub settings: bool,
    pub addons: bool,
    pub profiles: bool,
}

/// The folder `p` of the settings.
pub open spec fn path_of(s: PathSettings, p: AppPath) -> String {
    match p {
        AppPath::Arma3 => s.arma3_directory,
        AppPath::TeamSpeak3 => s.teamspeak3_directory,
        AppPath::Profiles => s.arma3_profiles_directory,
        AppPath::Steam => s.steam_directory,
        AppPath::Temp => s.temp_directory,
        AppPath::Backup => s.backup_directory,
    }
}

/// The settings with another folder `p`.
pub open spec fn with_path(s: PathSettings, p: AppPath, folder: String) -> PathSettings {
    match p {
        AppPath::Arma3 => PathSettings { arma3_directory: folder, ..s },
        AppPath::TeamSpeak3 => PathSettings { teamspeak3_directory: folder, ..s },
        AppPath::Profiles => PathSettings { arma3_profiles_directory: folder, ..s },
        AppPath::Steam => PathSettings { steam_directory: folder, ..s },
        AppPath::Temp => PathSettings { temp_directory: folder, ..s },
        AppPath::Backup => PathSettings { backup_directory: folder, ..s },
    }
}

/// What is said under the folder `p`, where something is.
pub open spec fn path_note_of(p: AppPath, default_backup_dir: Seq<char>) -> Option<MessageModel> {
    match p {
        AppPath::Profiles => Some(
            message::plain(
                "Optional. Foxy passes this to Arma 3 as -profiles so profile files are stored outside Documents or OneDrive."@,
            ),
        ),
        AppPath::Temp => Some(
            message::plain(
                "Used as temporary storage for updater cache, metadata, and intermediate files. If empty, Foxy uses the app config directory (for example %APPDATA%\\Foxy on Windows or ~/.config/Foxy on Linux)."@,
            ),
        ),
        AppPath::Backup => Some(
            message::with_one(
                "Backups are stored here as addon folders prefixed with their local content hash. If empty, Foxy uses {path}. Automatic update backups and manual addon restore both use this location."@,
                "path"@,
                default_backup_dir,
            ),
        ),
        _ => None,
    }
}

/// What is said under a folder.
pub fn path_note(p: AppPath, default_backup_dir: String) -> (r: Option<Message>)
    ensures
        r is Some <==> path_note_of(p, default_backup_dir@) is Some,
        r matches Some(m) ==> Some(m@) == path_note_of(p, default_backup_dir@),
{
    match p {
        AppPath::Profiles => Some(
            Message::plain(
                "Optional. Foxy passes this to Arma 3 as -profiles so profile files are stored outside Documents or OneDrive.",
            ),
        ),
        AppPath::Temp => Some(
            Message::plain(
                "Used as temporary storage for updater cache, metadata, and intermediate files. If empty, Foxy uses the app config directory (for example %APPDATA%\\Foxy on Windows or ~/.config/Foxy on Linux).",
            ),
        ),
        AppPath::Backup => Some(
            one(
                "Backups are stored here as addon folders prefixed with their local content hash. If empty, Foxy uses {path}. Automatic update backups and manual addon restore both use this location.",
                "path",
                default_backup_dir,
            ),
        ),
        _ => None,
    }
}

/// Whether a change of the folder makes the list of addons stale.
pub open spec fn moves_addons(p: AppPath) -> bool {
    p == AppPath::Arma3 || p == AppPath::Steam
}

/// What is touched once the folder `p` has changed.
pub open spec fn touched(
    flags: ApplicationPathChangeFlags,
    p: AppPath,
) -> ApplicationPathChangeFlags {
    ApplicationPathChangeFlags {
        settings: true,
        addons: flags.addons || moves_addons(p),
        profiles: flags.profiles || p == AppPath::Profiles,
    }
}

/// Whether a chosen folder may not lie in OneDrive.
pub open spec fn refuses_onedrive(p: AppPath) -> bool {
    p != AppPath::TeamSpeak3
}

/// Whether the folder can be detected.
pub open spec fn detectable(p: AppPath) -> bool {
    p == AppPath::Arma3 || p == AppPath::TeamSpeak3 || p == AppPath::Steam
}

/// Whether a detected folder may not lie in OneDrive.
pub open spec fn refuses_detected_onedrive(p: AppPath) -> bool {
    p == AppPath::Arma3
}

/// The refusal of a folder in OneDrive.
pub open spec fn onedrive_refusal() -> Seq<char> {
    "This path is inside a OneDrive folder. OneDrive sync can cause file access conflicts. Please choose a different location."@
}

/// The warning that the chosen folder does not hold what it should.
pub open spec fn missing_program(p: AppPath) -> Option<Seq<char>> {
    match p {
        AppPath::Arma3 => Some(
            "Arma 3 executable was not found in the selected directory. Make sure this is your Arma 3 installation folder."@,
        ),
        AppPath::TeamSpeak3 => Some(
            "TeamSpeak 3 client was not found in the selected directory. Make sure this is your TeamSpeak 3 installation folder."@,
        ),
        _ => None,
    }
}

/// What is said when a folder is not detected.
pub open spec fn not_detected(p: AppPath) -> Seq<char> {
    match p {
        AppPath::Arma3 => "Could not auto-detect Arma 3 directory."@,
        AppPath::TeamSpeak3 => "Could not auto-detect TeamSpeak 3 directory."@,
        _ => "Could not auto-detect Steam directory."@,
    }
}

/// What came of a change: what the user is told, and whether the list of
/// backups has become stale.
#[derive(Debug)]
pub struct PathOutcome {
    pub error: Option<&'static str>,
    pub backups_stale: bool,
}

/// The text that an outcome tells.
pub open spec fn told(o: PathOutcome) -> Option<Seq<char>> {
    match o.error {
        Some(t) => Some(t@),
        None => None,
    }
}

/// The refusal of a folder in OneDrive.
pub fn onedrive_error() -> (r: &'static str)
    ensures
        r@ == onedrive_refusal(),
{
    "This path is inside a OneDrive folder. OneDrive sync can cause file access conflicts. Please choose a different location."
}

/// Whether the folder can be detected, that is, whether it has a button for
/// it.
pub fn can_detect(p: AppPath) -> (r: bool)
    ensures
        r == detectable(p),
{
    match p {
        AppPath::Arma3 | AppPath::TeamSpeak3 | AppPath::Steam => true,
        _ => false,
    }
}

impl PathSettings {
    /// A folder.
    pub fn folder(&self, p: AppPath) -> (r: &String)
        ensures
            *r == path_of(*self, p),
    {
        match p {
            AppPath::Arma3 => &self.arma3_directory,
            AppPath::TeamSpeak3 => &self.teamspeak3_directory,
            AppPath::Profiles => &self.arma3_profiles_directory,
            AppPath::Steam => &self.steam_directory,
            AppPath::Temp => &self.temp_directory,
            AppPath::Backup => &self.backup_directory,
        }
    }

    /// Sets a folder and notes what that touches.
    fn put(&mut self, p: AppPath, folder: String, flags: &mut ApplicationPathChangeFlags)
        ensures
            *final(self) == with_path(*old(self), p, folder),
            *final(flags) == touched(*old(flags), p),
    {
        flags.settings = true;
        match p {
            AppPath::Arma3 => {
                self.arma3_directory = folder;
                flags.addons = true;
            },
            AppPath::TeamSpeak3 => self.teamspeak3_directory = folder,
            AppPath::Profiles => {
                self.arma3_profiles_directory = folder;
                flags.profiles = true;
            },
            AppPath::Steam => {
                self.steam_directory = folder;
                flags.addons = true;
            },
            AppPath::Temp => self.temp_directory = folder,
            AppPath::Backup => self.backup_directory = folder,
        }
    }

    /// The user typed in a folder.
    pub fn type_path(
        &mut self,
        p: AppPath,
        folder: String,
        flags: &mut ApplicationPathChangeFlags,
    ) -> (r: PathOutcome)
        ensures
            *final(self) == with_path(*old(self), p, folder),
            *final(flags) == touched(*old(flags), p),
            told(r) is None,
            r.backups_stale == (p == AppPath::Backup),
    {
        self.put(p, folder, flags);
        PathOutcome { error: None, backups_stale: p == AppPath::Backup }
    }

    /// The user picked a folder. `in_onedrive` says whether it lies in
    /// OneDrive, `holds_program` whether it holds the program that it should.
    pub fn browse_path(
        &mut self,
        p: AppPath,
        folder: String,
        in_onedrive: bool,
        holds_program: bool,
        flags: &mut ApplicationPathChangeFlags,
    ) -> (r: PathOutcome)
        ensures
            if refuses_onedrive(p) && in_onedrive {
                &&& *final(self) == *old(self)
                &&& *final(flags) == *old(flags)
                &&& told(r) == Some(onedrive_refusal())
                &&& !r.backups_stale
            } else {
                &&& *final(self) == with_path(*old(self), p, folder)
                &&& *final(flags) == touched(*old(flags), p)
                &&& told(r) == if holds_program {
                    None
                } else {
                    missing_program(p)
                }
                &&& r.backups_stale == (p == AppPath::Backup)
            },
    {
        if p != AppPath::TeamSpeak3 && in_onedrive {
            return PathOutcome { error: Some(onedrive_error()), backups_stale: false };
        }
        self.put(p, folder, flags);
        let error: Option<&'static str> = if holds_program {
            None
        } else {
            match p {
                AppPath::Arma3 => Some(
                    "Arma 3 executable was not found in the selected directory. Make sure this is your Arma 3 installation folder.",
                ),
                AppPath::TeamSpeak3 => Some(
                    "TeamSpeak 3 client was not found in the selected directory. Make sure this is your TeamSpeak 3 installation folder.",
                ),
                _ => None,
            }
        };
        PathOutcome { error, backups_stale: p == AppPath::Backup }
    }

    /// A folder was searched for. `found` is what was found.
    pub fn detect_path(
        &mut self,
        p: AppPath,
        found: Option<String>,
        in_onedrive: bool,
        flags: &mut ApplicationPathChangeFlags,
    ) -> (r: PathOutcome)
        requires
            detectable(p),
        ensures
            !r.backups_stale,
            match found {
                Some(folder) => if refuses_detected_onedrive(p) && in_onedrive {
                    &&& *final(self) == *old(self)
                    &&& *final(flags) == *old(flags)
                    &&& told(r) == Some(onedrive_refusal())
                } else {
                    &&& *final(self) == with_path(*old(self), p, folder)
                    &&& *final(flags) == touched(*old(flags), p)
                    &&& told(r) is None
                },
                None => {
                    &&& *final(self) == *old(self)
                    &&& *final(flags) == *old(flags)
                    &&& told(r) == Some(not_detected(p))
                },
            },
    {
        match found {
            Some(folder) => {
                if p == AppPath::Arma3 && in_onedrive {
                    return PathOutcome { error: Some(onedrive_error()), backups_stale: false };
                }
                self.put(p, folder, flags);
                PathOutcome { error: None, backups_stale: false }
            },
            None => {
                let error: &'static str = match p {
                    AppPath::Arma3 => "Could not auto-detect Arma 3 directory.",
                    AppPath::TeamSpeak3 => "Could not auto-detect TeamSpeak 3 directory.",
                    _ => "Could not auto-detect Steam directory.",
                };
                PathOutcome { error: Some(error), backups_stale: false }
            },
        }
    }

    /// The folder in which profiles are searched for, besides the usual ones:
    /// what the user entered, unless it is blank.
    pub fn custom_profiles_dir(&self) -> (r: Option<String>)
        ensures
            repository::opt_view(r) == text::unless_blank(self.arma3_profiles_directory@),
    {
        trim_unless_blank(self.arma3_profiles_directory.as_str())
    }
}

/// The folder that is set is the one that the settings hold afterwards, and no
/// other folder changes.
pub proof fn law_one_folder_changes(s: PathSettings, p: AppPath, q: AppPath, folder: String)
    ensures
        path_of(with_path(s, p, folder), p) == folder,
        p != q ==> path_of(with_path(s, p, folder), q) == path_of(s, q),
{
    match p {
        AppPath::Arma3 => {},
        AppPath::TeamSpeak3 => {},
        AppPath::Profiles => {},
        AppPath::Steam => {},
        AppPath::Temp => {},
        AppPath::Backup => {},
    }
}

/// What follows a frame of the settings.
#[derive(Debug, Clone, Copy, PartialEq, Eq, Structural)]
pub struct AfterChange {
    pub save: bool,
    pub invalidate_addons: bool,
    pub refresh_profiles: bool,
    /// Whether the user is told that the settings were saved. While a text is
    /// being typed nothing is told.
    pub tell: bool,
}

/// What follows a frame of the settings. `active` says whether the settings
/// are those of the game that is open, `typing` whether a text field has the
/// focus.
pub open spec fn after_frame(
    flags: ApplicationPathChangeFlags,
    active: bool,
    typing: bool,
) -> AfterChange {
    AfterChange {
        save: flags.settings,
        invalidate_addons: flags.settings && active && flags.addons,
        refresh_profiles: flags.settings && active && flags.profiles,
        tell: flags.settings && !typing,
    }
}

/// What follows a frame of the settings.
pub fn after_change(
    flags: ApplicationPathChangeFlags,
    active: bool,
    typing: bool,
) -> (r: AfterChange)
    ensures
        r == after_frame(flags, active, typing),
{
    AfterChange {
        save: flags.settings,
        invalidate_addons: flags.settings && active && flags.addons,
        refresh_profiles: flags.settings && active && flags.profiles,
        tell: flags.settings && !typing,
    }
}

} // verus!
