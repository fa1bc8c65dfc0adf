//! The closed sets of commands and device families, and which command a
//! family accepts.

use crate::text::{lowercase, text_eq};
use vstd::prelude::*;
use vstd::string::StringExecFns;

verus! {

/// What a user can ask of a device.
#[derive(Clone, Copy, Debug, PartialEq, Eq, Structural)]
pub enum SwitchCommand {
    /// Turn a switch on.
    On,
    /// Turn a switch off.
    Off,
    /// Open a blind.
    Open,
    /// Close a blind.
    Close,
    /// Stop a moving blind.
    Stop,
    /// Ask a device for its state.
    Status,
}

/// The product category of a device: it decides the commands the device
/// accepts and how they are encoded.
#[derive(Clone, Copy, Debug, PartialEq, Eq, Structural)]
pub enum DeviceType {
    Switch,
    Blind,
    Blind2,
}

/// The compatibility matrix: a switch takes `On`, `Off` and `Status`, both
/// kinds of blind take `Open`, `Close`, `Stop` and `Status`.
pub open spec fn compatible(device: DeviceType, command: SwitchCommand) -> bool {
    match device {
        DeviceType::Switch => command is On || command is Off || command is Status,
        DeviceType::Blind | DeviceType::Blind2 => command is Open || command is Close
            || command is Stop || command is Status,
    }
}

/// Whether `device` accepts `command`.
pub fn validate_device_command(device: &DeviceType, command: &SwitchCommand) -> (ok: bool)
    ensures
        ok == compatible(*device, *command),
{
    match device {
        DeviceType::Switch => matches!(
            command,
            SwitchCommand::On | SwitchCommand::Off | SwitchCommand::Status
        ),
        DeviceType::Blind | DeviceType::Blind2 => matches!(
            command,
            SwitchCommand::Open | SwitchCommand::Close | SwitchCommand::Stop
                | SwitchCommand::Status
        ),
    }
}

/// The command that a lowercase word names.
pub open spec fn command_word(word: Seq<char>) -> Option<SwitchCommand> {
    if word == "on"@ {
        Some(SwitchCommand::On)
    } else if word == "off"@ {
        Some(SwitchCommand::Off)
    } else if word == "open"@ {
        Some(SwitchCommand::Open)
    } else if word == "close"@ {
        Some(SwitchCommand::Close)
    } else if word == "stop"@ {
        Some(SwitchCommand::Stop)
    } else if word == "status"@ {
        Some(SwitchCommand::Status)
    } else {
        None
    }
}

/// The command that a text names, whatever its case.
pub open spec fn command_named(text: Seq<char>) -> Option<SwitchCommand> {
    command_word(lowercase(text))
}

/// The family that a lowercase product type names.
pub open spec fn family_word(word: Seq<char>) -> Option<DeviceType> {
    if word == "smart socket"@ {
        Some(DeviceType::Switch)
    } else if word == "curtain switch"@ {
        Some(DeviceType::Blind)
    } else if word == "curtain switch 2"@ {
        Some(DeviceType::Blind2)
    } else {
        None
    }
}

/// The family that a product type names, whatever its case.
pub open spec fn family_of(product: Seq<char>) -> Option<DeviceType> {
    family_word(lowercase(product))
}

impl SwitchCommand {
    /// The word shown for the command.
    pub open spec fn label_spec(self) -> Seq<char> {
        match self {
            SwitchCommand::On => "On"@,
            SwitchCommand::Off => "Off"@,
            SwitchCommand::Open => "Open"@,
            SwitchCommand::Close => "Close"@,
            SwitchCommand::Stop => "Stop"@,
            SwitchCommand::Status => "Status"@,
        }
    }

    /// The word shown for the command.
    pub fn label(&self) -> (word: &'static str)
        ensures
            word@ == self.label_spec(),
    {
        match self {
            SwitchCommand::On => "On",
            SwitchCommand::Off => "Off",
            SwitchCommand::Open => "Open",
            SwitchCommand::Close => "Close",
            SwitchCommand::Stop => "Stop",
            SwitchCommand::Status => "Status",
        }
    }

    /// The command that `word` names, letter for letter: `on`, `off`,
    /// `open`, `close`, `stop` or `status`.
    pub fn from_word(word: &str) -> (r: Option<SwitchCommand>)
        ensures
            r == command_word(word@),
    {
        if text_eq(word, "on") {
            Some(SwitchCommand::On)
        } else if text_eq(word, "off") {
            Some(SwitchCommand::Off)
        } else if text_eq(word, "open") {
            Some(SwitchCommand::Open)
        } else if text_eq(word, "close") {
            Some(SwitchCommand::Close)
        } else if text_eq(word, "stop") {
            Some(SwitchCommand::Stop)
        } else if text_eq(word, "status") {
            Some(SwitchCommand::Status)
        } else {
            None
        }
    }

    /// Reads a command from the text that names it, whatever its case. A
    /// text that names none is refused with a message that repeats it.
    pub fn from_str(s: &str) -> (r: Result<SwitchCommand, String>)
        ensures
            match command_named(s@) {
                Some(c) => r == Ok::<SwitchCommand, String>(c),
                None => r matches Err(m) && m@ == "Invalid command: "@ + s@,
            },
    {
        match SwitchCommand::from_word(s.to_lowercase().as_str()) {
            Some(command) => Ok(command),
            None => {
                let mut message = String::from_str("Invalid command: ");
                message.append(s);
                Err(message)
            },
        }
    }

    /// Whether the command sets nothing in motion that needs pacing.
    pub open spec fn unpaced(self) -> bool {
        self is Status || self is Stop
    }
}

impl DeviceType {
    /// The word shown for the family. Both kinds of blind show as `Blind`.
    pub open spec fn label_spec(self) -> Seq<char> {
        match self {
            DeviceType::Switch => "Switch"@,
            DeviceType::Blind => "Blind"@,
            DeviceType::Blind2 => "Blind"@,
        }
    }

    /// The word shown for the family.
    pub fn label(&self) -> (word: &'static str)
        ensures
            word@ == self.label_spec(),
    {
        match self {
            DeviceType::Switch => "Switch",
            DeviceType::Blind => "Blind",
            DeviceType::Blind2 => "Blind",
        }
    }

    /// The family that `word` names, letter for letter: `smart socket`,
    /// `curtain switch` or `curtain switch 2`.
    pub fn from_word(word: &str) -> (r: Option<DeviceType>)
        ensures
            r == family_word(word@),
    {
        if text_eq(word, "smart socket") {
            Some(DeviceType::Switch)
        } else if text_eq(word, "curtain switch") {
            Some(DeviceType::Blind)
        } else if text_eq(word, "curtain switch 2") {
            Some(DeviceType::Blind2)
        } else {
            None
        }
    }

    /// The family that a product type names, whatever its case, if it
    /// names one.
    pub fn from_product(product: &str) -> (r: Option<DeviceType>)
        ensures
            r == family_of(product@),
    {
        DeviceType::from_word(product.to_lowercase().as_str())
    }
}

} // verus!
