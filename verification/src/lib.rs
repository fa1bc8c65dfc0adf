//! Control of networked switches and motorised blinds: the command
//! vocabulary, the payload codec, the per-device executor with its bounded
//! retries, the resolver of device and group names, and the batch scheduler.
//!
//! The library never touches the network, the clock or the terminal. Whoever
//! drives it performs the requests it asks for and hands the replies back.

pub mod codec;
pub mod command;
pub mod executor;
pub mod notice;
pub mod registry;
pub mod resolver;
pub mod scheduler;
pub mod text;

pub use crate::codec::{parse_message, DataPoint, DecodeError, DpsValue, RawResponse};
pub use crate::command::{validate_device_command, DeviceType, SwitchCommand};
pub use crate::executor::{
    handle_tuya_err, Execution, Handled, Operation, Request, Retry, TransportError,
    TransportReply, TuyaResult,
};
pub use crate::notice::{CommandError, Notice, Parts};
pub use crate::registry::{Device, Group, Tuya};
pub use crate::resolver::{resolve, Resolution, ResolveError};
pub use crate::scheduler::{Next, Run, Step};
