//! The tools of the settings: the additional folders, the cleanup list and
//! direct downloads.

use vstd::prelude::*;

use crate::message;
use crate::message::{one, Message, MessageModel};
use crate::repository;
use crate::settings::game_space;
use crate::settings::paths;
use crate::settings::paths::onedrive_error;
use crate::text;
use crate::text::{concat, decimal_text, trim_unless_blank};
use crate::text_map::TextMap;
use crate::update::direct_download::DirectDownloadSession;

verus! {

broadcast use vstd::string::group_string_axioms;

// ---------------------------------------------------------------------------
// Folders
// ---------------------------------------------------------------------------

/// A folder that is to leave a list, once that is confirmed.
#[derive(Debug)]
pub enum SettingsFolderRemovalConfirmAction {
    AdditionalSearchFolder { folder: String },
    CleanupFolder { folder: String },
}

/// The lists of folders.
#[derive(Debug)]
pub struct FolderSettings {
    pub additional_folders: Vec<String>,
    /// The aliases of the additional folders, under the keys of the folders.
    pub additional_folder_aliases: TextMap,
    pub cleanup_folders: Vec<(String, bool)>,
    pub pending_removal: Option<SettingsFolderRemovalConfirmAction>,
}

/// Which list a removal changed.
#[derive(Debug, Clone, Copy, PartialEq, Eq, Structural)]
pub enum Removal {
    /// Nothing was removed.
    Nothing,
    /// An additional folder: the settings of the game space are to be saved.
    AdditionalFolder,
    /// A folder of the cleanup list: the settings are to be saved.
    CleanupFolder,
}

/// The first folder from `i` on that is `folder`.
pub open spec fn position_from(folders: Seq<Seq<char>>, folder: Seq<char>, i: int) -> Option<int>
    decreases folders.len() - i,
{
    if i >= folders.len() {
        None
    } else if folders[i] == folder {
        Some(i)
    } else {
        position_from(folders, folder, i + 1)
    }
}

/// The texts of a cleanup list.
pub open spec fn cleanup_views(v: Seq<(String, bool)>) -> Seq<Seq<char>> {
    Seq::new(v.len(), |i: int| v[i].0@)
}

/// A list without the first entry whose text is `folder`.
pub open spec fn without_first<T>(v: Seq<T>, texts: Seq<Seq<char>>, folder: Seq<char>) -> Seq<T> {
    match position_from(texts, folder, 0) {
        Some(i) => v.remove(i),
        None => v,
    }
}

/// The position of the first additional folder that is `folder`.
fn find_folder(folders: &Vec<String>, folder: &str) -> (r: Option<usize>)
    ensures
        match r {
            Some(i) => i < folders@.len() && position_from(text::views(folders@), folder@, 0)
                == Some(i as int),
            None => position_from(text::views(folders@), folder@, 0) is None,
        },
{
    let ghost all = text::views(folders@);
    let mut i: usize = 0;
    while i < folders.len()
        invariant
            all == text::views(folders@),
            i <= folders@.len(),
            position_from(all, folder@, 0) == position_from(all, folder@, i as int),
        decreases folders@.len() - i,
    {
        assert(all[i as int] == folders@[i as int]@);
        if text::same_text(folders[i].as_str(), folder) {
            return Some(i);
        }
        i = i + 1;
    }
    None
}

/// The position of the first folder of a cleanup list that is `folder`.
fn find_cleanup(folders: &Vec<(String, bool)>, folder: &str) -> (r: Option<usize>)
    ensures
        match r {
            Some(i) => i < folders@.len() && position_from(cleanup_views(folders@), folder@, 0)
                == Some(i as int),
            None => position_from(cleanup_views(folders@), folder@, 0) is None,
        },
{
    let ghost all = cleanup_views(folders@);
    let mut i: usize = 0;
    while i < folders.len()
        invariant
            all == cleanup_views(folders@),
            i <= folders@.len(),
            position_from(all, folder@, 0) == position_from(all, folder@, i as int),
        decreases folders@.len() - i,
    {
        assert(all[i as int] == folders@[i as int].0@);
        if text::same_text(folders[i].0.as_str(), folder) {
            return Some(i);
        }
        i = i + 1;
    }
    None
}

/// The question before a folder leaves a list.
pub open spec fn removal_question(action: SettingsFolderRemovalConfirmAction) -> MessageModel {
    match action {
        SettingsFolderRemovalConfirmAction::AdditionalSearchFolder { folder } => message::with_one(
            "Remove {path} from additional search folders?"@,
            "path"@,
            folder@,
        ),
        SettingsFolderRemovalConfirmAction::CleanupFolder { folder } => message::with_one(
            "Remove {path} from cleanup folders?"@,
            "path"@,
            folder@,
        ),
    }
}

/// What a confirmed removal leaves. `alias_key` is the key of the folder.
pub open spec fn is_removed(
    before: FolderSettings,
    after: FolderSettings,
    alias_key: Seq<char>,
    removal: Removal,
) -> bool {
    match before.pending_removal {
        Some(SettingsFolderRemovalConfirmAction::AdditionalSearchFolder { folder }) => {
            let texts = text::views(before.additional_folders@);
            let listed = position_from(texts, folder@, 0) is Some;
            &&& after.additional_folders@ == without_first(
                before.additional_folders@,
                texts,
                folder@,
            )
            &&& after.additional_folder_aliases@ == if listed {
                before.additional_folder_aliases@.remove(alias_key)
            } else {
                before.additional_folder_aliases@
            }
            &&& after.cleanup_folders == before.cleanup_folders
            &&& removal == if listed {
                Removal::AdditionalFolder
            } else {
                Removal::Nothing
            }
        },
        Some(SettingsFolderRemovalConfirmAction::CleanupFolder { folder }) => {
            let texts = cleanup_views(before.cleanup_folders@);
            &&& after.cleanup_folders@ == without_first(before.cleanup_folders@, texts, folder@)
            &&& after.additional_folders == before.additional_folders
            &&& after.additional_folder_aliases == before.additional_folder_aliases
            &&& removal == if position_from(texts, folder@, 0) is Some {
                Removal::CleanupFolder
            } else {
                Removal::Nothing
            }
        },
        None => {
            &&& after.additional_folders == before.additional_folders
            &&& after.additional_folder_aliases == before.additional_folder_aliases
            &&& after.cleanup_folders == before.cleanup_folders
            &&& removal == Removal::Nothing
        },
    }
}

/// The aliases once a folder has been given one. An empty alias is none.
pub open spec fn with_alias(
    aliases: Map<Seq<char>, Seq<char>>,
    key: Seq<char>,
    alias: Seq<char>,
) -> Map<Seq<char>, Seq<char>> {
    if alias.len() == 0 {
        aliases.remove(key)
    } else {
        aliases.insert(key, alias)
    }
}

impl FolderSettings {
    /// The user picked a folder to be searched. The result is the refusal, if
    /// the folder is not taken.
    pub fn add_folder(&mut self, folder: String, in_onedrive: bool) -> (error: Option<&'static str>)
        ensures
            if in_onedrive {
                &&& *final(self) == *old(self)
                &&& game_space::told(error) == Some(paths::onedrive_refusal())
            } else {
                &&& final(self).additional_folders@ == old(self).additional_folders@.push(folder)
                &&& *final(self) == (FolderSettings {
                    additional_folders: final(self).additional_folders,
                    ..*old(self)
                })
                &&& error is None
            },
    {
        if in_onedrive {
            return Some(onedrive_error());
        }
        self.additional_folders.push(folder);
        None
    }

    /// The alias that a folder shows: none is an empty one.
    pub fn alias(&self, key: &String) -> (r: String)
        ensures
            r@ == if self.additional_folder_aliases@.dom().contains(key@) {
                self.additional_folder_aliases@[key@]
            } else {
                Seq::<char>::empty()
            },
    {
        match self.additional_folder_aliases.get(key) {
            Some(alias) => alias,
            None => String::new(),
        }
    }

    /// The user typed an alias, here already sanitized. The result says
    /// whether the aliases change.
    pub fn set_alias(&mut self, key: &String, alias: String) -> (changed: bool)
        ensures
            final(self).additional_folder_aliases@ == with_alias(
                old(self).additional_folder_aliases@,
                key@,
                alias@,
            ),
            changed <==> final(self).additional_folder_aliases@ != old(
                self,
            ).additional_folder_aliases@,
            *final(self) == (FolderSettings {
                additional_folder_aliases: final(self).additional_folder_aliases,
                ..*old(self)
            }),
    {
        let ghost before = self.additional_folder_aliases@;
        if alias.as_str().is_empty() {
            let removed: bool = self.additional_folder_aliases.remove(key);
            proof {
                if removed {
                    assert(!before.remove(key@).dom().contains(key@));
                } else {
                    assert(before.remove(key@) =~= before);
                }
            }
            return removed;
        }
        if self.additional_folder_aliases.holds(key, &alias) {
            assert(before.insert(key@, alias@) =~= before);
            return false;
        }
        let ghost said = alias@;
        self.additional_folder_aliases.insert(key.clone(), alias);
        proof {
            assert(before.insert(key@, said).dom().contains(key@));
            assert(before.insert(key@, said)[key@] == said);
        }
        true
    }

    /// Asks before an additional folder leaves its list.
    pub fn request_additional_removal(&mut self, folder: String)
        ensures
            *final(self) == (FolderSettings {
                pending_removal: Some(
                    SettingsFolderRemovalConfirmAction::AdditionalSearchFolder { folder },
                ),
                ..*old(self)
            }),
    {
        self.pending_removal = Some(
            SettingsFolderRemovalConfirmAction::AdditionalSearchFolder { folder },
        );
    }

    /// Asks before a folder leaves the cleanup list.
    pub fn request_cleanup_removal(&mut self, folder: String)
        ensures
            *final(self) == (FolderSettings {
                pending_removal: Some(SettingsFolderRemovalConfirmAction::CleanupFolder { folder }),
                ..*old(self)
            }),
    {
        self.pending_removal = Some(SettingsFolderRemovalConfirmAction::CleanupFolder { folder });
    }

    /// What is asked, if anything is.
    pub fn removal_message(&self) -> (r: Option<Message>)
        ensures
            match (self.pending_removal, r) {
                (Some(action), Some(m)) => m@ == removal_question(action),
                (None, None) => true,
                _ => false,
            },
    {
        match &self.pending_removal {
            Some(SettingsFolderRemovalConfirmAction::AdditionalSearchFolder { folder }) => Some(
                one("Remove {path} from additional search folders?", "path", folder.clone()),
            ),
            Some(SettingsFolderRemovalConfirmAction::CleanupFolder { folder }) => Some(
                one("Remove {path} from cleanup folders?", "path", folder.clone()),
            ),
            None => None,
        }
    }

    /// The answer to the question. With a no nothing leaves its list.
    /// `alias_key` is the key of the folder.
    pub fn answer_removal(&mut self, yes: bool, alias_key: &String) -> (r: Removal)
        ensures
            final(self).pending_removal is None,
            if yes {
                is_removed(*old(self), *final(self), alias_key@, r)
            } else {
                &&& *final(self) == (FolderSettings { pending_removal: None, ..*old(self) })
                &&& r == Removal::Nothing
            },
    {
        let mut action: Option<SettingsFolderRemovalConfirmAction> = None;
        std::mem::swap(&mut action, &mut self.pending_removal);
        if !yes {
            return Removal::Nothing;
        }
        match action {
            Some(SettingsFolderRemovalConfirmAction::AdditionalSearchFolder { folder }) => {
                match find_folder(&self.additional_folders, folder.as_str()) {
                    Some(i) => {
                        let _ = self.additional_folders.remove(i);
                        let _ = self.additional_folder_aliases.remove(alias_key);
                        Removal::AdditionalFolder
                    },
                    None => Removal::Nothing,
                }
            },
            Some(SettingsFolderRemovalConfirmAction::CleanupFolder { folder }) => {
                match find_cleanup(&self.cleanup_folders, folder.as_str()) {
                    Some(i) => {
                        let _ = self.cleanup_folders.remove(i);
                        Removal::CleanupFolder
                    },
                    None => Removal::Nothing,
                }
            },
            None => Removal::Nothing,
        }
    }
}

/// A folder that has just been added at the end and is in no other place
/// leaves the list as it was when it is removed.
pub proof fn law_removal_undoes_adding(folders: Seq<String>, folder: String)
    requires
        forall|i: int| 0 <= i < folders.len() ==> (#[trigger] folders[i])@ != folder@,
    ensures
        without_first(folders.push(folder), text::views(folders.push(folder)), folder@) == folders,
{
    let after = folders.push(folder);
    let texts = text::views(after);
    lemma_skip_others(texts, folder@, 0, folders.len() as int);
    assert(texts[folders.len() as int] == folder@);
    assert(after.remove(folders.len() as int) =~= folders);
}

/// Folders that are not the one searched for are passed over.
proof fn lemma_skip_others(texts: Seq<Seq<char>>, folder: Seq<char>, i: int, n: int)
    requires
        0 <= i <= n < texts.len(),
        forall|j: int| i <= j < n ==> texts[j] != folder,
    ensures
        position_from(texts, folder, i) == position_from(texts, folder, n),
    decreases n - i,
{
    if i < n {
        lemma_skip_others(texts, folder, i + 1, n);
    }
}

// ---------------------------------------------------------------------------
// Direct downloads
// ---------------------------------------------------------------------------

/// The colour of the status of a direct download.
#[derive(Debug, Clone, Copy, PartialEq, Eq, Structural)]
pub enum DirectStatusColor {
    Normal,
    Dim,
    Error,
}

/// The status of a direct download.
pub open spec fn direct_status(s: DirectDownloadSession) -> MessageModel {
    if s.running {
        MessageModel {
            key: "Direct download in progress: {done}/{total} files"@,
            args: seq![
                ("done"@, text::decimal(s.files_done as nat)),
                ("total"@, text::decimal(s.files_total as nat)),
            ],
        }
    } else if s.finished_successfully {
        message::plain("Direct download finished"@)
    } else {
        message::plain("Direct download failed"@)
    }
}

/// The status of a direct download and its colour.
pub fn direct_download_status(s: &DirectDownloadSession) -> (r: (Message, DirectStatusColor))
    ensures
        r.0@ == direct_status(*s),
        r.1 == if s.finished_successfully {
            DirectStatusColor::Normal
        } else if s.running {
            DirectStatusColor::Dim
        } else {
            DirectStatusColor::Error
        },
{
    let color: DirectStatusColor = if s.finished_successfully {
        DirectStatusColor::Normal
    } else if s.running {
        DirectStatusColor::Dim
    } else {
        DirectStatusColor::Error
    };
    let m: Message = if s.running {
        let m: Message = Message::plain("Direct download in progress: {done}/{total} files");
        let m: Message = m.with("done", decimal_text(s.files_done as u128));
        let m: Message = m.with("total", decimal_text(s.files_total as u128));
        assert(m@.args =~= direct_status(*s).args);
        m
    } else if s.finished_successfully {
        Message::plain("Direct download finished")
    } else {
        Message::plain("Direct download failed")
    };
    (m, color)
}

/// The limit that a direct download has from the settings, in words.
pub open spec fn inherited_limit(
    limit: Option<u32>,
    mbps: Seq<char>,
    unlimited: Seq<char>,
) -> Seq<char> {
    match limit {
        Some(n) => if n > 0 {
            text::decimal(n as nat) + " "@ + mbps
        } else {
            unlimited
        },
        None => unlimited,
    }
}

/// The limit that a direct download has from the settings, in words. `mbps`
/// and `unlimited` are the translated words.
pub fn inherited_limit_text(limit: Option<u32>, mbps: &str, unlimited: &str) -> (r: String)
    ensures
        r@ == inherited_limit(limit, mbps@, unlimited@),
{
    if let Some(n) = limit {
        if n > 0 {
            let mut s: String = concat(decimal_text(n as u128).as_str(), " ");
            s.append(mbps);
            return s;
        }
    }
    unlimited.to_owned()
}

/// The limit that a direct download is given instead: at least one.
pub fn override_limit(limit: u32) -> (r: u32)
    ensures
        r == if limit == 0 {
            1
        } else {
            limit
        },
{
    if limit == 0 {
        1
    } else {
        limit
    }
}

/// Whether the window of a direct download stays open: it does, unless it was
/// closed or a download has started. `open` says whether the title bar left it
/// open.
pub fn download_window_stays(open: bool, cancelled: bool, started: bool) -> (r: bool)
    ensures
        r == (open && !cancelled && !started),
{
    open && !cancelled && !started
}

/// The folder that the button for the destination opens: what the user
/// entered, unless it is blank.
pub fn destination_folder(entered: &str) -> (r: Option<String>)
    ensures
        repository::opt_view(r) == text::unless_blank(entered@),
{
    trim_unless_blank(entered)
}

} // verus!
