//! What the library has to tell the user: one notice is one line of text.

use crate::command::{DeviceType, SwitchCommand};
use vstd::prelude::*;
use vstd::string::StringExecFns;

verus! {

/// Why no request can be made of a device for a command.
#[derive(Clone, Debug, PartialEq, Eq)]
pub enum CommandError {
    /// The product type of the device names no family. Holds the message
    /// that says so.
    InvalidDeviceType(String),
    /// The family of the device does not accept the command.
    Incompatible { command: SwitchCommand, family: DeviceType },
}

/// What a `CommandError` stands for.
pub enum CommandErrorView {
    InvalidDeviceType(Seq<char>),
    Incompatible { command: SwitchCommand, family: DeviceType },
}

impl View for CommandError {
    type V = CommandErrorView;

    open spec fn view(&self) -> CommandErrorView {
        match self {
            CommandError::InvalidDeviceType(m) => CommandErrorView::InvalidDeviceType(m@),
            CommandError::Incompatible { command, family } => CommandErrorView::Incompatible {
                command: *command,
                family: *family,
            },
        }
    }
}

/// One line for the user.
#[derive(Clone, Debug, PartialEq, Eq)]
pub enum Notice {
    /// A device reported its state.
    Status { device: String, state: SwitchCommand },
    /// A device took a command.
    Done { device: String, command: SwitchCommand },
    /// A device is asked once more.
    Retrying { device: String },
    /// A device is given up.
    Failed { device: String },
    /// The device did not answer in time.
    NotResponding,
    /// The connection was reset for the last time: the vendor's own
    /// application probably holds the device.
    CloseApp,
    /// The transport failed for the last time, with this message.
    Transport { message: String },
    /// The device answered, but not with a state that is known.
    InvalidResponse,
    /// The device answered with a text that cannot be read.
    Unsupported,
    /// No request could be made.
    Refused(CommandError),
}

/// What a `Notice` stands for.
pub enum NoticeView {
    Status { device: Seq<char>, state: SwitchCommand },
    Done { device: Seq<char>, command: SwitchCommand },
    Retrying { device: Seq<char> },
    Failed { device: Seq<char> },
    NotResponding,
    CloseApp,
    Transport { message: Seq<char> },
    InvalidResponse,
    Unsupported,
    Refused(CommandErrorView),
}

impl View for Notice {
    type V = NoticeView;

    open spec fn view(&self) -> NoticeView {
        match self {
            Notice::Status { device, state } => NoticeView::Status {
                device: device@,
                state: *state,
            },
            Notice::Done { device, command } => NoticeView::Done {
                device: device@,
                command: *command,
            },
            Notice::Retrying { device } => NoticeView::Retrying { device: device@ },
            Notice::Failed { device } => NoticeView::Failed { device: device@ },
            Notice::NotResponding => NoticeView::NotResponding,
            Notice::CloseApp => NoticeView::CloseApp,
            Notice::Transport { message } => NoticeView::Transport { message: message@ },
            Notice::InvalidResponse => NoticeView::InvalidResponse,
            Notice::Unsupported => NoticeView::Unsupported,
            Notice::Refused(e) => NoticeView::Refused(e@),
        }
    }
}

impl DeepView for Notice {
    type V = NoticeView;

    open spec fn deep_view(&self) -> NoticeView {
        self@
    }
}

/// A line in three parts: the text before the command word that the line
/// carries, that command, and the text after it. A line that carries no
/// command is all lead.
#[derive(Clone, Debug, PartialEq, Eq)]
pub struct Parts {
    pub lead: String,
    pub word: Option<SwitchCommand>,
    pub tail: String,
}

/// What `Parts` stand for.
pub struct PartsView {
    pub lead: Seq<char>,
    pub word: Option<SwitchCommand>,
    pub tail: Seq<char>,
}

impl View for Parts {
    type V = PartsView;

    open spec fn view(&self) -> PartsView {
        PartsView { lead: self.lead@, word: self.word, tail: self.tail@ }
    }
}

impl PartsView {
    /// The whole line.
    pub open spec fn text(self) -> Seq<char> {
        match self.word {
            Some(command) => self.lead + command.label_spec() + self.tail,
            None => self.lead + self.tail,
        }
    }
}

impl Parts {
    /// The whole line: the lead, the word of the command if there is one,
    /// and the tail.
    pub fn text(&self) -> (line: String)
        ensures
            line@ == self@.text(),
    {
        let mut line = self.lead.clone();
        match self.word {
            Some(command) => {
                line.append(command.label());
            },
            None => {},
        }
        line.append(self.tail.as_str());
        line
    }
}

impl CommandErrorView {
    /// The line for the error, in parts.
    pub open spec fn parts(self) -> PartsView {
        match self {
            CommandErrorView::InvalidDeviceType(message) => PartsView {
                lead: message,
                word: None,
                tail: Seq::empty(),
            },
            CommandErrorView::Incompatible { command, family } => PartsView {
                lead: "Invalid command `"@,
                word: Some(command),
                tail: "` for device type `"@ + family.label_spec() + "`"@,
            },
        }
    }
}

impl NoticeView {
    /// The line for the notice, in parts.
    pub open spec fn parts(self) -> PartsView {
        match self {
            NoticeView::Status { device, state } => PartsView {
                lead: device + " status: "@,
                word: Some(state),
                tail: Seq::empty(),
            },
            NoticeView::Done { device, command } => PartsView {
                lead: device + " -> "@,
                word: Some(command),
                tail: Seq::empty(),
            },
            NoticeView::Retrying { device } => PartsView {
                lead: "Retrying ("@ + device + ")..."@,
                word: None,
                tail: Seq::empty(),
            },
            NoticeView::Failed { device } => PartsView {
                lead: "Failed to execute command on "@ + device,
                word: None,
                tail: Seq::empty(),
            },
            NoticeView::NotResponding => PartsView {
                lead: "Timeout Error: device not responding"@,
                word: None,
                tail: Seq::empty(),
            },
            NoticeView::CloseApp => PartsView {
                lead: "Connection Error: Close Smart Life App"@,
                word: None,
                tail: Seq::empty(),
            },
            NoticeView::Transport { message } => PartsView {
                lead: "Error: "@ + message,
                word: None,
                tail: Seq::empty(),
            },
            NoticeView::InvalidResponse => PartsView {
                lead: "Error: Invalid response"@,
                word: None,
                tail: Seq::empty(),
            },
            NoticeView::Unsupported => PartsView {
                lead: "Version 3.4 of the Tuya API is not supported"@,
                word: None,
                tail: Seq::empty(),
            },
            NoticeView::Refused(e) => e.parts(),
        }
    }

    /// The line for the notice.
    pub open spec fn text(self) -> Seq<char> {
        self.parts().text()
    }
}

/// A line that is all lead.
fn plain(lead: String) -> (p: Parts)
    ensures
        p@ == (PartsView { lead: lead@, word: None, tail: Seq::empty() }),
{
    Parts { lead, word: None, tail: String::new() }
}

/// The text `before`, then `after`.
fn join2(before: &str, after: &str) -> (s: String)
    ensures
        s@ == before@ + after@,
{
    let mut s = String::from_str(before);
    s.append(after);
    s
}

/// The text `before`, then `middle`, then `after`.
fn join3(before: &str, middle: &str, after: &str) -> (s: String)
    ensures
        s@ == before@ + middle@ + after@,
{
    let mut s = String::from_str(before);
    s.append(middle);
    s.append(after);
    s
}

impl CommandError {
    /// The line for the error, in parts.
    pub fn parts(&self) -> (p: Parts)
        ensures
            p@ == self@.parts(),
    {
        match self {
            CommandError::InvalidDeviceType(message) => plain(message.clone()),
            CommandError::Incompatible { command, family } => Parts {
                lead: String::from_str("Invalid command `"),
                word: Some(*command),
                tail: join3("` for device type `", family.label(), "`"),
            },
        }
    }

    /// The line for the error.
    pub fn message(&self) -> (line: String)
        ensures
            line@ == self@.parts().text(),
    {
        self.parts().text()
    }
}

impl Notice {
    /// The line for the notice, in parts, so that the command word can be
    /// set off from the rest.
    pub fn parts(&self) -> (p: Parts)
        ensures
            p@ == self@.parts(),
    {
        match self {
            Notice::Status { device, state } => Parts {
                lead: join2(device.as_str(), " status: "),
                word: Some(*state),
                tail: String::new(),
            },
            Notice::Done { device, command } => Parts {
                lead: join2(device.as_str(), " -> "),
                word: Some(*command),
                tail: String::new(),
            },
            Notice::Retrying { device } => plain(join3("Retrying (", device.as_str(), ")...")),
            Notice::Failed { device } => plain(
                join2("Failed to execute command on ", device.as_str()),
            ),
            Notice::NotResponding => plain(
                String::from_str("Timeout Error: device not responding"),
            ),
            Notice::CloseApp => plain(String::from_str("Connection Error: Close Smart Life App")),
            Notice::Transport { message } => plain(join2("Error: ", message.as_str())),
            Notice::InvalidResponse => plain(String::from_str("Error: Invalid response")),
            Notice::Unsupported => plain(
                String::from_str("Version 3.4 of the Tuya API is not supported"),
            ),
            Notice::Refused(e) => e.parts(),
        }
    }

    /// The line for the notice.
    pub fn text(&self) -> (line: String)
        ensures
            line@ == self@.text(),
    {
        self.parts().text()
    }
}

} // verus!
