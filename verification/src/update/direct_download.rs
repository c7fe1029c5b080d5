//! The view of a direct download.

use vstd::prelude::*;

use crate::figures;
use crate::figures::fmt_bytes;
use crate::message;
use crate::message::{one, Line, LineModel, Message, MessageModel};
use crate::repository;
use crate::text;
use crate::text::decimal_text;

verus! {

broadcast use vstd::string::group_string_axioms;

/// A direct download.
#[derive(Debug)]
pub struct DirectDownloadSession {
    pub source_url: String,
    pub destination_folder: String,
    pub target_label: String,
    pub files_done: u64,
    pub files_total: u64,
    pub downloaded_bytes: u64,
    pub total_bytes: u64,
    pub running: bool,
    pub finished_successfully: bool,
    pub error_message: Option<String>,
}

/// What the button at the bottom says.
#[derive(Debug, Clone, Copy, PartialEq, Eq, Structural)]
pub enum DirectButton {
    /// How far the download is.
    Progress,
    Finished,
    Failed,
}

/// What stands for the share that is done when the download has not said.
#[derive(Debug, Clone, Copy, PartialEq, Eq, Structural)]
pub enum AssumedShare {
    Nothing,
    All,
}

/// Whether the two flags of the view are up.
#[derive(Debug, Clone, Copy, PartialEq, Eq, Structural)]
pub struct DirectViewFlags {
    pub modal_open: bool,
    pub direct_view: bool,
}

/// Both flags down.
pub open spec fn closed() -> DirectViewFlags {
    DirectViewFlags { modal_open: false, direct_view: false }
}

/// The lines under the heading.
pub open spec fn detail_lines(s: DirectDownloadSession) -> Seq<MessageModel> {
    let lines = seq![
        message::with_one("Source: {url}"@, "url"@, s.source_url@),
        message::with_one("Destination: {path}"@, "path"@, s.destination_folder@),
        message::with_one("Target: {name}"@, "name"@, s.target_label@),
        MessageModel {
            key: "Files: {done}/{total}"@,
            args: seq![
                ("done"@, text::decimal(s.files_done as nat)),
                ("total"@, text::decimal(s.files_total as nat)),
            ],
        },
        message::with_one(
            "Downloaded: {size}"@,
            "size"@,
            figures::bytes_shown(s.downloaded_bytes as nat),
        ),
    ];
    if s.total_bytes > 0 {
        lines.push(
            message::with_one(
                "Total size: {size}"@,
                "size"@,
                figures::bytes_shown(s.total_bytes as nat),
            ),
        )
    } else {
        lines
    }
}

/// The label of the stage: what the download last said, or that it prepares.
pub open spec fn stage_of(stage: Option<Seq<char>>, preparing: Seq<char>) -> Seq<char> {
    match stage {
        Some(label) => label,
        None => preparing,
    }
}

impl DirectDownloadSession {
    /// The lines under the heading. The total size shows only once it is known.
    pub fn details(&self) -> (r: Vec<Message>)
        ensures
            message::message_models(r@) == detail_lines(*self),
    {
        let files: Message = Message::plain("Files: {done}/{total}");
        let files: Message = files.with("done", decimal_text(self.files_done as u128));
        let files: Message = files.with("total", decimal_text(self.files_total as u128));
        assert(files@.args =~= seq![
            ("done"@, text::decimal(self.files_done as nat)),
            ("total"@, text::decimal(self.files_total as nat)),
        ]);
        let mut out: Vec<Message> = Vec::new();
        out.push(one("Source: {url}", "url", self.source_url.clone()));
        out.push(one("Destination: {path}", "path", self.destination_folder.clone()));
        out.push(one("Target: {name}", "name", self.target_label.clone()));
        out.push(files);
        out.push(one("Downloaded: {size}", "size", fmt_bytes(self.downloaded_bytes)));
        if self.total_bytes > 0 {
            out.push(one("Total size: {size}", "size", fmt_bytes(self.total_bytes)));
        }
        assert(message::message_models(out@) =~= detail_lines(*self));
        out
    }

    /// The line above the progress bar: the label of the stage, in a running
    /// download as what is being downloaded. `preparing` is the translated label
    /// for a download that has not said anything.
    pub fn stage_line(&self, stage: &Option<String>, preparing: &str) -> (r: Line)
        ensures
            ({
                let label = stage_of(repository::opt_view(*stage), preparing@);
                r@ == if self.running {
                    LineModel::Keyed(message::with_one("Downloading {name}"@, "name"@, label))
                } else {
                    LineModel::Plain(label)
                }
            }),
    {
        let label: String = match stage {
            Some(l) => l.clone(),
            None => preparing.to_owned(),
        };
        if self.running {
            Line::Keyed(one("Downloading {name}", "name", label))
        } else {
            Line::Plain(label)
        }
    }

    /// What the button at the bottom says.
    pub fn button(&self) -> (r: DirectButton)
        ensures
            r == if self.running {
                DirectButton::Progress
            } else if self.finished_successfully {
                DirectButton::Finished
            } else {
                DirectButton::Failed
            },
    {
        if self.running {
            DirectButton::Progress
        } else if self.finished_successfully {
            DirectButton::Finished
        } else {
            DirectButton::Failed
        }
    }

    /// What stands for the share that is done when the download has not said.
    pub fn assumed_share(&self) -> (r: AssumedShare)
        ensures
            r == if self.running {
                AssumedShare::Nothing
            } else {
                AssumedShare::All
            },
    {
        if self.running {
            AssumedShare::Nothing
        } else {
            AssumedShare::All
        }
    }

    /// A click on the button at the bottom closes the view, but not while the
    /// download runs.
    pub fn click_button(&self, flags: DirectViewFlags) -> (r: DirectViewFlags)
        ensures
            r == if self.running {
                flags
            } else {
                closed()
            },
    {
        if self.running {
            flags
        } else {
            DirectViewFlags { modal_open: false, direct_view: false }
        }
    }
}

/// The text of the button at the bottom; a running download has one of its own.
pub fn button_key(button: DirectButton) -> (r: Option<&'static str>)
    ensures
        match button {
            DirectButton::Progress => r is None,
            DirectButton::Finished => r matches Some(k) && k@
                == "Download finished - click to close"@,
            DirectButton::Failed => r matches Some(k) && k@ == "Download failed - click to close"@,
        },
{
    match button {
        DirectButton::Progress => None,
        DirectButton::Finished => Some("Download finished - click to close"),
        DirectButton::Failed => Some("Download failed - click to close"),
    }
}

/// Whether the view stays: without a download there is nothing to show, and
/// both flags go down.
pub fn open_direct_view(
    session: &Option<DirectDownloadSession>,
    flags: DirectViewFlags,
) -> (r: DirectViewFlags)
    ensures
        r == if *session is Some {
            flags
        } else {
            closed()
        },
{
    if session.is_some() {
        flags
    } else {
        DirectViewFlags { modal_open: false, direct_view: false }
    }
}

/// The line on how a running download goes.
pub open spec fn pace_line(
    stage: Seq<char>,
    percent: Seq<char>,
    speed: Seq<char>,
    elapsed: Seq<char>,
    remaining: Seq<char>,
) -> MessageModel {
    MessageModel {
        key: "{stage} {percent}% - {speed} - {elapsed} elapsed / {remaining} remaining"@,
        args: seq![
            ("stage"@, stage),
            ("percent"@, percent),
            ("speed"@, speed),
            ("elapsed"@, elapsed),
            ("remaining"@, remaining),
        ],
    }
}

/// The line on how a running download goes, of texts: its stage, the share that
/// is done in percent, the speed, and the times.
pub fn pace_message(
    stage: String,
    percent: String,
    speed: String,
    elapsed: String,
    remaining: String,
) -> (r: Message)
    ensures
        r@ == pace_line(stage@, percent@, speed@, elapsed@, remaining@),
{
    let ghost line = pace_line(stage@, percent@, speed@, elapsed@, remaining@);
    let m: Message = Message::plain(
        "{stage} {percent}% - {speed} - {elapsed} elapsed / {remaining} remaining",
    );
    let m: Message = m.with("stage", stage);
    let m: Message = m.with("percent", percent);
    let m: Message = m.with("speed", speed);
    let m: Message = m.with("elapsed", elapsed);
    let m: Message = m.with("remaining", remaining);
    assert(m@.args =~= line.args);
    m
}

/// How long a direct download runs, of that time as text. It has none before
/// the start.
pub fn direct_elapsed(elapsed: Option<String>) -> (r: String)
    ensures
        r@ == match elapsed {
            Some(time) => time@,
            None => "0s"@,
        },
{
    match elapsed {
        Some(time) => time,
        None => "0s".to_owned(),
    }
}

/// The text of the pause button, and whether it stands out.
pub fn pause_button(paused: bool) -> (r: (&'static str, bool))
    ensures
        r.0@ == if paused {
            "Resume download"@
        } else {
            "Pause download"@
        },
        r.1 == paused,
{
    if paused {
        ("Resume download", true)
    } else {
        ("Pause download", false)
    }
}

} // verus!
