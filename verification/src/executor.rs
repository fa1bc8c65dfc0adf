//! One command against one device: the request to make, and what the reply
//! to it means.

use crate::codec::{
    decode_spec, encode, encode_spec, parse_message, DataPoint, DataPointView, RawResponse,
    RawResponseView,
};
use crate::command::{compatible, validate_device_command, DeviceType, SwitchCommand};
use crate::notice::{CommandError, CommandErrorView, Notice, NoticeView};
use crate::registry::Device;
use vstd::prelude::*;
use vstd::string::StringExecFns;

verus! {

/// How often one command is tried on one device.
pub const ATTEMPTS: i32 = 3;

/// Why the transport could not deliver a request or its reply.
#[derive(Clone, Debug, PartialEq, Eq)]
pub enum TransportError {
    /// The device did not answer in time.
    Timeout,
    /// The connection was reset.
    ConnectionReset,
    /// Anything else, with the transport's own words.
    Other(String),
}

/// What a `TransportError` stands for.
pub enum TransportErrorView {
    Timeout,
    ConnectionReset,
    Other(Seq<char>),
}

impl View for TransportError {
    type V = TransportErrorView;

    open spec fn view(&self) -> TransportErrorView {
        match self {
            TransportError::Timeout => TransportErrorView::Timeout,
            TransportError::ConnectionReset => TransportErrorView::ConnectionReset,
            TransportError::Other(m) => TransportErrorView::Other(m@),
        }
    }
}

/// What came back for a request.
#[derive(Clone, Debug, PartialEq, Eq)]
pub enum TransportReply {
    /// The request was delivered and nothing is known of an answer.
    Accepted,
    /// The request was delivered and the device answered.
    Response(RawResponse),
    /// The request was not delivered, or its answer was lost.
    Failed(TransportError),
}

/// What a `TransportReply` stands for.
pub enum TransportReplyView {
    Accepted,
    Response(RawResponseView),
    Failed(TransportErrorView),
}

impl View for TransportReply {
    type V = TransportReplyView;

    open spec fn view(&self) -> TransportReplyView {
        match self {
            TransportReply::Accepted => TransportReplyView::Accepted,
            TransportReply::Response(r) => TransportReplyView::Response(r@),
            TransportReply::Failed(e) => TransportReplyView::Failed(e@),
        }
    }
}

/// How one attempt ended.
#[derive(Clone, Copy, Debug, PartialEq, Eq, Structural)]
pub enum TuyaResult {
    /// The attempt failed in a way that another attempt may mend.
    Retry,
    /// The attempt failed for good.
    Failure,
    /// The device reported this state.
    Success(SwitchCommand),
    /// The device took the command.
    EmptySuccess,
}

/// Whether a failed attempt is worth another.
#[derive(Clone, Copy, Debug, PartialEq, Eq, Structural)]
pub enum Retry {
    Retry,
    NoRetry,
}

/// The two things that can be asked of a device.
#[derive(Clone, Copy, Debug, PartialEq, Eq, Structural)]
pub enum Operation {
    /// Ask for the state.
    Query,
    /// Change the state.
    Control,
}

/// A request, ready for the transport.
#[derive(Clone, Debug, PartialEq, Eq)]
pub struct Request {
    pub operation: Operation,
    /// The revision of the protocol to speak.
    pub version: String,
    /// The address of the device.
    pub ip: String,
    /// The key of the device.
    pub key: String,
    /// The protocol id of the device.
    pub dev_id: String,
    /// The gateway id: the shared secret.
    pub gw_id: String,
    /// When the request was made, in seconds.
    pub t: u32,
    /// What to set; none when the state is asked for.
    pub dps: Option<DataPoint>,
}

/// What a `Request` stands for.
pub struct RequestView {
    pub operation: Operation,
    pub version: Seq<char>,
    pub ip: Seq<char>,
    pub key: Seq<char>,
    pub dev_id: Seq<char>,
    pub gw_id: Seq<char>,
    pub t: u32,
    pub dps: Option<DataPointView>,
}

impl View for Request {
    type V = RequestView;

    open spec fn view(&self) -> RequestView {
        RequestView {
            operation: self.operation,
            version: self.version@,
            ip: self.ip@,
            key: self.key@,
            dev_id: self.dev_id@,
            gw_id: self.gw_id@,
            t: self.t,
            dps: self.dps.deep_view(),
        }
    }
}

/// What is made of a transport error: whether to try again, and what to
/// tell the user.
#[derive(Clone, Debug, PartialEq, Eq)]
pub struct Handled {
    pub retry: Retry,
    pub hint: Option<Notice>,
}

/// What `Handled` stands for.
pub struct HandledView {
    pub retry: Retry,
    pub hint: Option<NoticeView>,
}

impl View for Handled {
    type V = HandledView;

    open spec fn view(&self) -> HandledView {
        HandledView { retry: self.retry, hint: self.hint.deep_view() }
    }
}

/// How one attempt ended, and what there is to tell the user about it.
#[derive(Clone, Debug, PartialEq, Eq)]
pub struct Execution {
    pub result: TuyaResult,
    pub hint: Option<Notice>,
}

/// What an `Execution` stands for.
pub struct ExecutionView {
    pub result: TuyaResult,
    pub hint: Option<NoticeView>,
}

impl View for Execution {
    type V = ExecutionView;

    open spec fn view(&self) -> ExecutionView {
        ExecutionView { result: self.result, hint: self.hint.deep_view() }
    }
}

/// The operation that carries a command: the state is asked for with a query,
/// everything else is a control.
pub open spec fn operation_of(command: SwitchCommand) -> Operation {
    if command is Status {
        Operation::Query
    } else {
        Operation::Control
    }
}

/// Why no request can be made of `device` for `command`, if none can: its
/// product type names no family, or the family does not accept the command.
pub open spec fn refusal(device: Device, command: SwitchCommand) -> Option<CommandErrorView> {
    match device.family() {
        None => Some(
            CommandErrorView::InvalidDeviceType("Invalid device type: "@ + device.product_name@),
        ),
        Some(family) => if compatible(family, command) {
            None
        } else {
            Some(CommandErrorView::Incompatible { command, family })
        },
    }
}

/// The request that carries `command` to `device`, made at time `now` with
/// the shared secret `secret`, or why there is none.
pub open spec fn request_spec(
    device: Device,
    command: SwitchCommand,
    secret: Seq<char>,
    now: u32,
) -> Result<RequestView, CommandErrorView> {
    match refusal(device, command) {
        Some(e) => Err(e),
        None => Ok(
            RequestView {
                operation: operation_of(command),
                version: "ver3.3"@,
                ip: device.ip@,
                key: device.key@,
                dev_id: device.id@,
                gw_id: secret,
                t: now,
                dps: encode_spec(device.family()->0, command),
            },
        ),
    }
}

/// What is made of a transport error when `retries` attempts are left, the
/// failed one included. A timeout ends the attempts. Everything else is
/// worth another attempt, and is explained when the failed attempt was the
/// last.
pub open spec fn handle_spec(err: TransportErrorView, retries: i32) -> HandledView {
    match err {
        TransportErrorView::Timeout => HandledView {
            retry: Retry::NoRetry,
            hint: Some(NoticeView::NotResponding),
        },
        TransportErrorView::ConnectionReset => HandledView {
            retry: Retry::Retry,
            hint: if retries == 1 {
                Some(NoticeView::CloseApp)
            } else {
                None
            },
        },
        TransportErrorView::Other(message) => HandledView {
            retry: Retry::Retry,
            hint: if retries == 1 {
                Some(NoticeView::Transport { message })
            } else {
                None
            },
        },
    }
}

/// How the attempt of `command` on `device` ended, given the reply to its
/// request and the attempts that were left.
pub open spec fn execute_spec(
    device: Device,
    command: SwitchCommand,
    reply: TransportReplyView,
    retries: i32,
) -> ExecutionView {
    match refusal(device, command) {
        Some(e) => ExecutionView { result: TuyaResult::Failure, hint: Some(NoticeView::Refused(e)) },
        None => match reply {
            TransportReplyView::Failed(err) => {
                let handled = handle_spec(err, retries);
                ExecutionView {
                    result: if handled.retry is Retry {
                        TuyaResult::Retry
                    } else {
                        TuyaResult::Failure
                    },
                    hint: handled.hint,
                }
            },
            TransportReplyView::Accepted => if command is Status {
                ExecutionView {
                    result: TuyaResult::Failure,
                    hint: Some(NoticeView::InvalidResponse),
                }
            } else {
                ExecutionView { result: TuyaResult::EmptySuccess, hint: None }
            },
            TransportReplyView::Response(response) => if command is Status {
                match decode_spec(response) {
                    Ok(Some(state)) => ExecutionView {
                        result: TuyaResult::Success(state),
                        hint: None,
                    },
                    Ok(None) => ExecutionView {
                        result: TuyaResult::Failure,
                        hint: Some(NoticeView::InvalidResponse),
                    },
                    Err(_) => ExecutionView {
                        result: TuyaResult::Failure,
                        hint: Some(NoticeView::Unsupported),
                    },
                }
            } else {
                ExecutionView { result: TuyaResult::EmptySuccess, hint: None }
            },
        },
    }
}

impl Request {
    /// The same request, made at time `now`. A request that waits before
    /// it is sent is stamped again when it leaves.
    pub fn stamped(self, now: u32) -> (r: Request)
        ensures
            r@ == (RequestView { t: now, ..self@ }),
    {
        let mut r = self;
        r.t = now;
        r
    }
}

/// Decides what to make of a transport error when `retries` attempts are
/// left, the failed one included.
pub fn handle_tuya_err(err: &TransportError, retries: i32) -> (handled: Handled)
    ensures
        handled@ == handle_spec(err@, retries),
{
    match err {
        TransportError::Timeout => Handled {
            retry: Retry::NoRetry,
            hint: Some(Notice::NotResponding),
        },
        TransportError::ConnectionReset => Handled {
            retry: Retry::Retry,
            hint: if retries == 1 {
                Some(Notice::CloseApp)
            } else {
                None
            },
        },
        TransportError::Other(message) => Handled {
            retry: Retry::Retry,
            hint: if retries == 1 {
                Some(Notice::Transport { message: message.clone() })
            } else {
                None
            },
        },
    }
}

impl Device {
    /// Checks that the device can be given `command`: that its product type
    /// names a family, and that the family accepts the command.
    pub fn family_for(&self, command: &SwitchCommand) -> (r: Result<DeviceType, CommandError>)
        ensures
            match refusal(*self, *command) {
                Some(e) => r matches Err(err) && err@ == e,
                None => r matches Ok(family) && self.family() == Some(family),
            },
    {
        match DeviceType::from_device(self) {
            Err(message) => Err(CommandError::InvalidDeviceType(message)),
            Ok(family) => {
                if validate_device_command(&family, command) {
                    Ok(family)
                } else {
                    Err(CommandError::Incompatible { command: *command, family })
                }
            },
        }
    }

    /// Makes the request that carries `command` to the device: a query for
    /// `Status`, a control with the encoded data point for everything else,
    /// stamped with the time `now` and with the shared secret as gateway.
    /// There is no request for a device of unknown family, nor for a
    /// command that the family does not accept.
    pub fn request(&self, command: &SwitchCommand, acces_token: &str, now: u32) -> (r: Result<
        Request,
        CommandError,
    >)
        ensures
            match request_spec(*self, *command, acces_token@, now) {
                Ok(request) => r matches Ok(made) && made@ == request,
                Err(e) => r matches Err(err) && err@ == e,
            },
    {
        match self.family_for(command) {
            Err(e) => Err(e),
            Ok(family) => {
                let operation = match command {
                    SwitchCommand::Status => Operation::Query,
                    _ => Operation::Control,
                };
                Ok(
                    Request {
                        operation,
                        version: String::from_str("ver3.3"),
                        ip: self.ip.clone(),
                        key: self.key.clone(),
                        dev_id: self.id.clone(),
                        gw_id: String::from_str(acces_token),
                        t: now,
                        dps: encode(family, *command),
                    },
                )
            },
        }
    }

    /// Says how the attempt of `command` on the device ended, from the
    /// reply to its request and the attempts that were left, the one made
    /// included.
    ///
    /// A control that was delivered has succeeded. A query has succeeded when the
    /// answer decodes to a state; an answer without a known state, or one
    /// that cannot be read, fails for good. A transport error is judged by
    /// `handle_tuya_err`. A device that cannot be given the command at all
    /// fails for good, whatever the reply.
    pub fn execute_command(
        &self,
        command: &SwitchCommand,
        reply: &TransportReply,
        retries: i32,
    ) -> (done: Execution)
        ensures
            done@ == execute_spec(*self, *command, reply@, retries),
    {
        match self.family_for(command) {
            Err(e) => {
                return Execution { result: TuyaResult::Failure, hint: Some(Notice::Refused(e)) };
            },
            Ok(_) => {},
        }
        let asked = matches!(command, SwitchCommand::Status);
        match reply {
            TransportReply::Failed(err) => {
                let handled = handle_tuya_err(err, retries);
                let result = match handled.retry {
                    Retry::Retry => TuyaResult::Retry,
                    Retry::NoRetry => TuyaResult::Failure,
                };
                Execution { result, hint: handled.hint }
            },
            TransportReply::Accepted => {
                if asked {
                    Execution { result: TuyaResult::Failure, hint: Some(Notice::InvalidResponse) }
                } else {
                    Execution { result: TuyaResult::EmptySuccess, hint: None }
                }
            },
            TransportReply::Response(response) => {
                if asked {
                    match parse_message(response) {
                        Ok(Some(state)) => Execution {
                            result: TuyaResult::Success(state),
                            hint: None,
                        },
                        Ok(None) => Execution {
                            result: TuyaResult::Failure,
                            hint: Some(Notice::InvalidResponse),
                        },
                        Err(_) => Execution {
                            result: TuyaResult::Failure,
                            hint: Some(Notice::Unsupported),
                        },
                    }
                } else {
                    Execution { result: TuyaResult::EmptySuccess, hint: None }
                }
            },
        }
    }
}

/// Whether a device can be given a command depends on its family alone:
/// two devices of one family accept the same commands, whatever else
/// tells them apart.
pub proof fn lemma_family_decides(a: Device, b: Device, command: SwitchCommand)
    requires
        a.family() == b.family(),
    ensures
        refusal(a, command) is None <==> refusal(b, command) is None,
        refusal(a, command) is None <==> (a.family() matches Some(family) && compatible(
            family,
            command,
        )),
{
}

} // verus!
