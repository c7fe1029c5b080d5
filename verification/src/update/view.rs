//! What the repository update view shows and what its controls do.

use vstd::prelude::*;

use crate::figures;
use crate::figures::fmt_bytes;
use crate::foxy::FoxyView;
use crate::message;
use crate::message::{Message, MessageModel};
use crate::repository;
use crate::text;
use crate::text::{blank, concat, decimal_text, same_text, starts_with};
use crate::update::diff;
use crate::update::diff::{changed_parts, ModDiffSummary, UpdateTotals};

verus! {

broadcast use vstd::string::group_string_axioms;

// ---------------------------------------------------------------------------
// The state
// ---------------------------------------------------------------------------

/// What the view knows of a download.
#[derive(Debug)]
pub struct UpdateSession {
    pub modal_open: bool,
    pub current_view: FoxyView,
    pub selected: Option<usize>,
    /// Whether a sync runs that downloads.
    pub download_running: bool,
    /// The repository that a sync works on.
    pub syncing_repository: Option<usize>,
    pub download_finished: bool,
    pub download_finished_repo: Option<usize>,
    /// The label of the stage that a sync has reached.
    pub stage: Option<String>,
    pub paused: bool,
    /// Whether there are figures on the download.
    pub has_summary: bool,
    /// Whether a plugin update waits for an answer.
    pub has_plugin_prompt: bool,
    /// The repository whose update is announced.
    pub update_ready_repo: Option<usize>,
}

/// Whether two optional positions are the same.
fn same_index(a: Option<usize>, b: Option<usize>) -> (r: bool)
    ensures
        r == (a == b),
{
    match (a, b) {
        (Some(x), Some(y)) => x == y,
        (None, None) => true,
        _ => false,
    }
}

/// Whether a stage label says that a download is being undone; `cancelling` and
/// `reverting` are the translated labels.
pub open spec fn undoing(
    stage: Option<Seq<char>>,
    cancelling: Seq<char>,
    reverting: Seq<char>,
) -> bool {
    stage matches Some(label) && (label == "Cancelling..."@ || label == "Reverting changes"@
        || label == cancelling || label == reverting)
}

/// Whether a stage label says that a download is being undone.
pub fn repository_update_cancel_stage(
    stage: &Option<String>,
    cancelling_label: &str,
    reverting_label: &str,
) -> (r: bool)
    ensures
        r == undoing(repository::opt_view(*stage), cancelling_label@, reverting_label@),
{
    match stage {
        Some(label) => same_text(label.as_str(), "Cancelling...") || same_text(
            label.as_str(),
            "Reverting changes",
        ) || same_text(label.as_str(), cancelling_label) || same_text(
            label.as_str(),
            reverting_label,
        ),
        None => false,
    }
}

/// Whether a stage label says that files are being hashed.
pub open spec fn hashing(stage: Option<Seq<char>>) -> bool {
    stage matches Some(label) && (label == "Hashing..."@ || text::text_starts_with(label, "Hash "@))
}

/// Whether a stage label says that files are being hashed.
pub fn in_hash_stage(stage: &Option<String>) -> (r: bool)
    ensures
        r == hashing(repository::opt_view(*stage)),
{
    match stage {
        Some(label) => same_text(label.as_str(), "Hashing...") || starts_with(
            label.as_str(),
            "Hash ",
        ),
        None => false,
    }
}

impl UpdateSession {
    /// Whether the selected repository is being downloaded.
    pub open spec fn is_downloading(self) -> bool {
        self.download_running && self.syncing_repository == self.selected
    }

    /// Whether the download of the selected repository is done.
    pub open spec fn is_finished(self) -> bool {
        self.download_finished && self.selected is Some && self.download_finished_repo
            == self.selected
    }

    /// Whether the selected repository is being downloaded.
    pub fn downloading(&self) -> (r: bool)
        ensures
            r == self.is_downloading(),
    {
        self.download_running && same_index(self.syncing_repository, self.selected)
    }

    /// Whether the download of the selected repository is done.
    pub fn finished_for_selected(&self) -> (r: bool)
        ensures
            r == self.is_finished(),
    {
        self.download_finished && self.selected.is_some() && same_index(
            self.download_finished_repo,
            self.selected,
        )
    }
}

/// What the place of the view shows.
#[derive(Debug, Clone, Copy, PartialEq, Eq, Structural)]
pub enum UpdateScreen {
    Hidden,
    DirectDownload,
    Repository,
}

impl UpdateSession {
    /// What the place of the view shows: nothing while the view is closed, else
    /// the direct download where there is one.
    pub fn screen(&self, direct_download: bool) -> (r: UpdateScreen)
        ensures
            r == if !self.modal_open {
                UpdateScreen::Hidden
            } else if direct_download {
                UpdateScreen::DirectDownload
            } else {
                UpdateScreen::Repository
            },
    {
        if !self.modal_open {
            UpdateScreen::Hidden
        } else if direct_download {
            UpdateScreen::DirectDownload
        } else {
            UpdateScreen::Repository
        }
    }
}

// ---------------------------------------------------------------------------
// Controls
// ---------------------------------------------------------------------------

/// What the bar at the bottom says.
#[derive(Debug, Clone, Copy, PartialEq, Eq, Structural)]
pub enum BarText {
    Finished,
    Paused,
    Progress,
    Start,
}

/// The colours of the bar at the bottom.
#[derive(Debug, Clone, Copy, PartialEq, Eq, Structural)]
pub enum BarColor {
    Success,
    SuccessMuted,
    Widget,
    Accent,
    AccentHover,
}

/// The colour of the text on a bar.
#[derive(Debug, Clone, Copy, PartialEq, Eq, Structural)]
pub enum BarTextColor {
    White,
    Gray,
    Normal,
}

/// How full a bar is.
#[derive(Debug, Clone, Copy, PartialEq, Eq, Structural)]
pub enum BarFill {
    Full,
    /// As far as the download is.
    Progress,
    Empty,
}

/// Which parts of the view show, and which controls work.
#[derive(Debug, Clone, Copy, PartialEq, Eq, Structural)]
pub struct UpdateControls {
    pub can_close: bool,
    pub can_export: bool,
    pub can_start: bool,
    pub can_toggle_pause: bool,
    pub can_cancel: bool,
    pub summary_visible: bool,
    pub plugin_banner_visible: bool,
    pub bar_text: BarText,
    pub bar_background: BarColor,
    pub bar_fill: BarColor,
    /// The colour of the whole bar when it reacts and the pointer is on it.
    pub bar_hover: Option<BarColor>,
    pub bar_share: BarFill,
    pub bar_text_color: BarTextColor,
}

/// Which parts of the view show, and which controls work, with `pending` mods
/// to be updated and a download that is being undone or not.
pub open spec fn controls_of(s: UpdateSession, pending: nat, undoing: bool) -> UpdateControls {
    let downloading = s.is_downloading();
    let finished = s.is_finished();
    let startable = finished || (!downloading && pending > 0 && s.selected is Some);
    let steerable = downloading && !finished && s.selected is Some && !hashing(
        repository::opt_view(s.stage),
    ) && !undoing;
    UpdateControls {
        can_close: !undoing,
        can_export: pending > 0,
        can_start: startable,
        can_toggle_pause: steerable,
        can_cancel: steerable,
        summary_visible: (finished || downloading) && s.has_summary,
        plugin_banner_visible: finished && s.has_plugin_prompt,
        bar_text: if finished {
            BarText::Finished
        } else if !downloading {
            BarText::Start
        } else if s.paused {
            BarText::Paused
        } else {
            BarText::Progress
        },
        bar_background: if finished {
            BarColor::Success
        } else if downloading {
            BarColor::Widget
        } else {
            BarColor::Accent
        },
        bar_fill: if finished {
            BarColor::Success
        } else {
            BarColor::Accent
        },
        bar_hover: if !startable {
            None
        } else if finished {
            Some(BarColor::SuccessMuted)
        } else {
            Some(BarColor::AccentHover)
        },
        bar_share: if s.stage is Some {
            BarFill::Progress
        } else if finished {
            BarFill::Full
        } else {
            BarFill::Empty
        },
        bar_text_color: if downloading && !finished {
            BarTextColor::White
        } else if !startable {
            BarTextColor::Gray
        } else {
            BarTextColor::Normal
        },
    }
}

/// What a click on the bar at the bottom asks for.
#[derive(Debug, Clone, Copy, PartialEq, Eq, Structural)]
pub enum BarClick {
    /// The bar does not react.
    Nothing,
    /// The update is done and seen: forget its figures.
    Acknowledge(usize),
    /// Download the update of this repository.
    StartDownload(usize),
}

impl UpdateSession {
    /// Which parts of the view show, and which controls work.
    pub fn controls(&self, pending: usize, cancelling_label: &str, reverting_label: &str) -> (r:
        UpdateControls)
        ensures
            r == controls_of(
                *self,
                pending as nat,
                undoing(repository::opt_view(self.stage), cancelling_label@, reverting_label@),
            ),
    {
        let undo: bool = repository_update_cancel_stage(
            &self.stage,
            cancelling_label,
            reverting_label,
        );
        let downloading: bool = self.downloading();
        let finished: bool = self.finished_for_selected();
        let startable: bool = finished || (!downloading && pending > 0 && self.selected.is_some());
        let steerable: bool = downloading && !finished && self.selected.is_some() && !in_hash_stage(
            &self.stage,
        ) && !undo;
        UpdateControls {
            can_close: !undo,
            can_export: pending > 0,
            can_start: startable,
            can_toggle_pause: steerable,
            can_cancel: steerable,
            summary_visible: (finished || downloading) && self.has_summary,
            plugin_banner_visible: finished && self.has_plugin_prompt,
            bar_text: if finished {
                BarText::Finished
            } else if !downloading {
                BarText::Start
            } else if self.paused {
                BarText::Paused
            } else {
                BarText::Progress
            },
            bar_background: if finished {
                BarColor::Success
            } else if downloading {
                BarColor::Widget
            } else {
                BarColor::Accent
            },
            bar_fill: if finished {
                BarColor::Success
            } else {
                BarColor::Accent
            },
            bar_hover: if !startable {
                None
            } else if finished {
                Some(BarColor::SuccessMuted)
            } else {
                Some(BarColor::AccentHover)
            },
            bar_share: if self.stage.is_some() {
                BarFill::Progress
            } else if finished {
                BarFill::Full
            } else {
                BarFill::Empty
            },
            bar_text_color: if downloading && !finished {
                BarTextColor::White
            } else if !startable {
                BarTextColor::Gray
            } else {
                BarTextColor::Normal
            },
        }
    }

    /// Closes the view, unless a download is being undone.
    pub fn close(&mut self, cancelling_label: &str, reverting_label: &str)
        ensures
            *final(self) == if undoing(
                repository::opt_view(old(self).stage),
                cancelling_label@,
                reverting_label@,
            ) {
                *old(self)
            } else {
                UpdateSession {
                    modal_open: false,
                    current_view: FoxyView::RepositoryList,
                    ..*old(self)
                }
            },
    {
        if !repository_update_cancel_stage(&self.stage, cancelling_label, reverting_label) {
            self.modal_open = false;
            self.current_view = FoxyView::RepositoryList;
        }
    }

    /// A click on the bar at the bottom: it closes a finished update, or starts
    /// the download of the selected repository.
    pub fn click_bar(&mut self, pending: usize) -> (r: BarClick)
        ensures
            ({
                let s = *old(self);
                let startable = controls_of(s, pending as nat, false).can_start;
                if s.is_finished() {
                    &&& r == BarClick::Acknowledge(s.selected->0)
                    &&& *final(self) == (UpdateSession {
                        download_finished: false,
                        download_finished_repo: None,
                        stage: None,
                        has_summary: false,
                        modal_open: false,
                        current_view: FoxyView::RepositoryList,
                        ..s
                    })
                } else if startable {
                    &&& r == BarClick::StartDownload(s.selected->0)
                    &&& *final(self) == (UpdateSession {
                        update_ready_repo: None,
                        stage: None,
                        download_finished: false,
                        download_finished_repo: None,
                        ..s
                    })
                } else {
                    r == BarClick::Nothing && *final(self) == s
                }
            }),
    {
        if self.finished_for_selected() {
            let repo: usize = match self.download_finished_repo {
                Some(i) => i,
                None => 0,
            };
            self.download_finished = false;
            self.download_finished_repo = None;
            self.stage = None;
            self.has_summary = false;
            self.modal_open = false;
            self.current_view = FoxyView::RepositoryList;
            return BarClick::Acknowledge(repo);
        }
        if self.downloading() || pending == 0 {
            return BarClick::Nothing;
        }
        match self.selected {
            Some(i) => {
                self.update_ready_repo = None;
                self.stage = None;
                self.download_finished = false;
                self.download_finished_repo = None;
                BarClick::StartDownload(i)
            },
            None => BarClick::Nothing,
        }
    }
}

/// The bar reacts exactly when it can start something or close the view, and
/// pause and cancel work only in a running download, where it does not react.
pub proof fn law_bar_and_buttons_exclude_each_other(s: UpdateSession, pending: nat, undoing: bool)
    ensures
        controls_of(s, pending, undoing).can_start ==> !controls_of(s, pending, undoing).can_cancel,
        controls_of(s, pending, undoing).can_cancel ==> s.is_downloading() && !s.is_finished()
            && !undoing,
        controls_of(s, pending, undoing).can_toggle_pause == controls_of(
            s,
            pending,
            undoing,
        ).can_cancel,
        undoing ==> !controls_of(s, pending, undoing).can_close,
{
}

// ---------------------------------------------------------------------------
// Texts
// ---------------------------------------------------------------------------

/// The heading; `title` is the translated name of the view.
pub open spec fn page_title_shown(title: Seq<char>, repo_name: Option<Seq<char>>) -> Seq<char> {
    match repo_name {
        Some(name) if !text::is_blank(name) => title + " - "@ + name,
        _ => title,
    }
}

/// The heading; `title` is the translated name of the view.
pub fn page_title(title: &str, repo_name: &Option<String>) -> (r: String)
    ensures
        r@ == page_title_shown(title@, repository::opt_view(*repo_name)),
{
    match repo_name {
        Some(name) => if blank(name.as_str()) {
            title.to_owned()
        } else {
            let mut s: String = concat(title, " - ");
            s.append(name.as_str());
            s
        },
        None => title.to_owned(),
    }
}

/// How long the download of an update runs, of that time as text. It has none
/// before the start.
pub fn update_elapsed(elapsed: Option<String>) -> (r: String)
    ensures
        r@ == match elapsed {
            Some(time) => time@,
            None => "00:00"@,
        },
{
    match elapsed {
        Some(time) => time,
        None => "00:00".to_owned(),
    }
}

impl UpdateSession {
    /// The label of the stage; `updating` is the translated label for a download
    /// that has not said anything.
    pub fn stage_label(&self, updating: &str) -> (r: String)
        ensures
            r@ == match self.stage {
                Some(label) => label@,
                None => updating@,
            },
    {
        match &self.stage {
            Some(label) => label.clone(),
            None => updating.to_owned(),
        }
    }
}

/// The line with the totals of the update.
pub open spec fn totals_line(t: UpdateTotals) -> MessageModel {
    MessageModel {
        key: "Total update size: {size} - Files: {files} - Parts: {parts}"@,
        args: seq![
            ("size"@, figures::bytes_shown(t.bytes as nat)),
            ("files"@, text::decimal(t.files as nat)),
            ("parts"@, text::decimal(t.parts as nat)),
        ],
    }
}

/// The line with the totals of the update.
pub fn totals_message(t: &UpdateTotals) -> (r: Message)
    ensures
        r@ == totals_line(*t),
{
    let m: Message = Message::plain("Total update size: {size} - Files: {files} - Parts: {parts}");
    let m: Message = m.with("size", fmt_bytes(t.bytes));
    let m: Message = m.with("files", decimal_text(t.files as u128));
    let m: Message = m.with("parts", decimal_text(t.parts as u128));
    assert(m@.args =~= totals_line(*t).args);
    m
}

/// How far the download of one mod is. `done` says whether it is complete, and
/// `percent` is the share as it is printed.
#[derive(Debug)]
pub struct ModProgress {
    pub done: bool,
    pub percent: String,
    pub files_done: u64,
    pub files_total: u64,
    pub bytes_done: u64,
    pub bytes_total: u64,
}

/// The colour of the bar of a mod.
#[derive(Debug, Clone, Copy, PartialEq, Eq, Structural)]
pub enum CardColor {
    Success,
    Accent,
    Error,
}

/// The bar of a mod.
#[derive(Debug)]
pub struct CardBar {
    pub text: Message,
    pub fill: BarFill,
    pub color: CardColor,
    pub text_color: BarTextColor,
}

/// The bar of a mod, as a statement.
pub struct CardModel {
    pub text: MessageModel,
    pub fill: BarFill,
    pub color: CardColor,
    pub text_color: BarTextColor,
}

/// The note on a mod that is up to date again.
pub open spec fn updated_note(bytes: nat) -> MessageModel {
    message::with_one("Updated ({size})"@, "size"@, figures::bytes_shown(bytes))
}

/// The bar of a mod: done when the whole update or the mod itself is; how far
/// it is while downloading; what it needs before that; none for a mod that
/// needs nothing.
pub open spec fn card_bar_of(
    m: ModDiffSummary,
    progress: Option<ModProgress>,
    downloading: bool,
    finished: bool,
) -> Option<CardModel> {
    let mod_done = progress matches Some(p) && p.done;
    if finished {
        Some(
            CardModel {
                text: updated_note(m.total_bytes as nat),
                fill: BarFill::Full,
                color: CardColor::Success,
                text_color: BarTextColor::White,
            },
        )
    } else if downloading {
        if mod_done {
            Some(
                CardModel {
                    text: updated_note(m.total_bytes as nat),
                    fill: BarFill::Progress,
                    color: CardColor::Success,
                    text_color: BarTextColor::White,
                },
            )
        } else {
            Some(
                CardModel {
                    text: match progress {
                        Some(p) => MessageModel {
                            key: "Downloading {done}/{total} files ({done_size} / {total_size}) - {pct}"@,
                            args: seq![
                                ("done"@, text::decimal(p.files_done as nat)),
                                ("total"@, text::decimal(p.files_total as nat)),
                                ("done_size"@, figures::bytes_shown(p.bytes_done as nat)),
                                ("total_size"@, figures::bytes_shown(p.bytes_total as nat)),
                                ("pct"@, p.percent@),
                            ],
                        },
                        None => message::plain("Waiting to download"@),
                    },
                    fill: BarFill::Progress,
                    color: CardColor::Accent,
                    text_color: BarTextColor::White,
                },
            )
        }
    } else if mod_done {
        Some(
            CardModel {
                text: updated_note(m.total_bytes as nat),
                fill: BarFill::Full,
                color: CardColor::Success,
                text_color: BarTextColor::White,
            },
        )
    } else if m.needs_update {
        Some(
            CardModel {
                text: MessageModel {
                    key: "Needs update - {files} files, {parts} parts ({size})"@,
                    args: seq![
                        ("files"@, text::decimal(m.files@.len())),
                        ("parts"@, text::decimal(diff::parts_of(m.files@))),
                        ("size"@, figures::bytes_shown(m.total_bytes as nat)),
                    ],
                },
                fill: BarFill::Empty,
                color: CardColor::Error,
                text_color: BarTextColor::Normal,
            },
        )
    } else {
        None
    }
}

/// What a bar says.
pub open spec fn card_view(c: Option<CardBar>) -> Option<CardModel> {
    match c {
        Some(b) => Some(CardModel { text: b.text@, fill: b.fill, color: b.color, text_color: b.text_color }),
        None => None,
    }
}

/// The note on a mod that is up to date again.
fn updated_message(bytes: u64) -> (r: Message)
    ensures
        r@ == updated_note(bytes as nat),
{
    let m: Message = Message::plain("Updated ({size})").with("size", fmt_bytes(bytes));
    assert(m@.args =~= updated_note(bytes as nat).args);
    m
}

/// The bar of a mod.
pub fn card_bar(
    m: &ModDiffSummary,
    progress: &Option<ModProgress>,
    downloading: bool,
    finished: bool,
) -> (r: Option<CardBar>)
    requires
        diff::parts_of(m.files@) <= usize::MAX,
    ensures
        card_view(r) == card_bar_of(*m, *progress, downloading, finished),
{
    let mod_done: bool = match progress {
        Some(p) => p.done,
        None => false,
    };
    if finished {
        return Some(
            CardBar {
                text: updated_message(m.total_bytes),
                fill: BarFill::Full,
                color: CardColor::Success,
                text_color: BarTextColor::White,
            },
        );
    }
    if downloading {
        if mod_done {
            return Some(
                CardBar {
                    text: updated_message(m.total_bytes),
                    fill: BarFill::Progress,
                    color: CardColor::Success,
                    text_color: BarTextColor::White,
                },
            );
        }
        let text: Message = match progress {
            Some(p) => {
                let t: Message = Message::plain(
                    "Downloading {done}/{total} files ({done_size} / {total_size}) - {pct}",
                );
                let t: Message = t.with("done", decimal_text(p.files_done as u128));
                let t: Message = t.with("total", decimal_text(p.files_total as u128));
                let t: Message = t.with("done_size", fmt_bytes(p.bytes_done));
                let t: Message = t.with("total_size", fmt_bytes(p.bytes_total));
                let t: Message = t.with("pct", p.percent.clone());
                assert(t@.args =~= seq![
                    ("done"@, text::decimal(p.files_done as nat)),
                    ("total"@, text::decimal(p.files_total as nat)),
                    ("done_size"@, figures::bytes_shown(p.bytes_done as nat)),
                    ("total_size"@, figures::bytes_shown(p.bytes_total as nat)),
                    ("pct"@, p.percent@),
                ]);
                t
            },
            None => Message::plain("Waiting to download"),
        };
        return Some(
            CardBar {
                text,
                fill: BarFill::Progress,
                color: CardColor::Accent,
                text_color: BarTextColor::White,
            },
        );
    }
    if mod_done {
        return Some(
            CardBar {
                text: updated_message(m.total_bytes),
                fill: BarFill::Full,
                color: CardColor::Success,
                text_color: BarTextColor::White,
            },
        );
    }
    if m.needs_update {
        let parts: usize = match changed_parts(&m.files) {
            Some(n) => n,
            None => 0,
        };
        let t: Message = Message::plain("Needs update - {files} files, {parts} parts ({size})");
        let t: Message = t.with("files", decimal_text(m.files.len() as u128));
        let t: Message = t.with("parts", decimal_text(parts as u128));
        let t: Message = t.with("size", fmt_bytes(m.total_bytes));
        assert(t@.args =~= seq![
            ("files"@, text::decimal(m.files@.len())),
            ("parts"@, text::decimal(diff::parts_of(m.files@))),
            ("size"@, figures::bytes_shown(m.total_bytes as nat)),
        ]);
        return Some(
            CardBar {
                text: t,
                fill: BarFill::Empty,
                color: CardColor::Error,
                text_color: BarTextColor::Normal,
            },
        );
    }
    None
}

} // verus!
