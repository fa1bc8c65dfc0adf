//! A command over a list of devices: one device after the other, each with
//! its own attempts, with a wait after each batch.
//!
//! The scheduler is a state machine. It never sends anything itself: each
//! step says what to tell the user, how long to wait, and which request to
//! make next. Whoever drives it makes the request and hands the reply to
//! the next step.

use crate::command::SwitchCommand;
use crate::executor::{
    execute_spec, refusal, request_spec, Request, RequestView, TransportErrorView, TransportReply,
    TransportReplyView, TuyaResult, ATTEMPTS,
};
use crate::notice::{Notice, NoticeView};
use crate::registry::{Device, Tuya};
use crate::resolver::{referents, resolve, resolve_spec, Resolution, ResolutionView, ResolveError};
use vstd::prelude::*;
use vstd::string::StringExecFns;

verus! {

/// What is to be done after a step.
#[derive(Clone, Debug, PartialEq, Eq)]
pub enum Next {
    /// Make this request and hand its reply to the next step.
    Send(Request),
    /// Nothing is left to do: leave with this status.
    Exit(i32),
}

/// What `Next` stands for.
pub enum NextView {
    Send(RequestView),
    Exit(i32),
}

impl View for Next {
    type V = NextView;

    open spec fn view(&self) -> NextView {
        match self {
            Next::Send(request) => NextView::Send(request@),
            Next::Exit(status) => NextView::Exit(*status),
        }
    }
}

/// What one step asks for, in this order: tell the user the notices, wait
/// for the pause if there is one, then do what is next. A request carries
/// the time of the step; after a pause it is stamped again before it is
/// sent.
#[derive(Clone, Debug, PartialEq, Eq)]
pub struct Step {
    pub notices: Vec<Notice>,
    /// Milliseconds to wait.
    pub pause: Option<u64>,
    pub next: Next,
}

/// What a `Step` stands for.
pub struct StepView {
    pub notices: Seq<NoticeView>,
    pub pause: Option<u64>,
    pub next: NextView,
}

impl View for Step {
    type V = StepView;

    open spec fn view(&self) -> StepView {
        StepView { notices: self.notices.deep_view(), pause: self.pause, next: self.next@ }
    }
}

/// A command on its way over a list of devices.
#[derive(Clone, Debug, PartialEq, Eq)]
pub struct Run<'a> {
    /// The devices, in the order in which they are driven.
    pub devices: Vec<&'a Device>,
    pub command: SwitchCommand,
    /// The shared secret that each request carries.
    pub secret: String,
    /// Milliseconds to wait after each batch.
    pub delay: u64,
    /// Devices per batch.
    pub batch: u64,
    /// The position of the device whose reply is awaited.
    pub index: usize,
    /// The attempts left for that device, the one under way included.
    pub retries: i32,
    /// The exit status, once nothing is left to do.
    pub finished: Option<i32>,
}

/// What a `Run` stands for.
pub struct RunView {
    pub devices: Seq<Device>,
    pub command: SwitchCommand,
    pub secret: Seq<char>,
    pub delay: u64,
    pub batch: u64,
    pub index: nat,
    pub retries: i32,
    pub finished: Option<i32>,
}

impl<'a> View for Run<'a> {
    type V = RunView;

    open spec fn view(&self) -> RunView {
        RunView {
            devices: referents(self.devices@),
            command: self.command,
            secret: self.secret@,
            delay: self.delay,
            batch: self.batch,
            index: self.index as nat,
            retries: self.retries,
            finished: self.finished,
        }
    }
}

/// Whether to wait after the device at position `index` of `count` devices:
/// after every `batch`-th device, but not after the last one, and never for
/// a command that needs no pacing. With a batch size of zero no device ends
/// a batch.
pub open spec fn pause_due(index: nat, count: nat, batch: u64, command: SwitchCommand) -> bool {
    &&& batch > 0
    &&& (index + 1) % (batch as nat) == 0
    &&& !command.unpaced()
    &&& index + 1 != count
}

impl RunView {
    /// Whether the run awaits the reply of one of its devices.
    pub open spec fn live(self) -> bool {
        self.finished is None && self.index < self.devices.len()
    }

    /// The device whose reply is awaited.
    pub open spec fn current(self) -> Device {
        self.devices[self.index as int]
    }

    /// The exit status of a run that is not live.
    pub open spec fn status(self) -> i32 {
        match self.finished {
            Some(status) => status,
            None => 0,
        }
    }

    /// The run as it turns to the device at `index` with `retries`
    /// attempts: the request for that device is next. Where no request can
    /// be made of the device, the user is told why and the run ends with
    /// status 1.
    pub open spec fn attempt(self, index: nat, retries: i32, now: u32) -> (RunView, StepView) {
        match request_spec(self.devices[index as int], self.command, self.secret, now) {
            Ok(request) => (
                RunView { index, retries, finished: None, ..self },
                StepView { notices: Seq::empty(), pause: None, next: NextView::Send(request) },
            ),
            Err(e) => (
                RunView { index, retries, finished: Some(1), ..self },
                StepView {
                    notices: seq![NoticeView::Refused(e)],
                    pause: None,
                    next: NextView::Exit(1),
                },
            ),
        }
    }

    /// The line that closes the attempts on the current device.
    pub open spec fn verdict(self, result: TuyaResult) -> NoticeView {
        match result {
            TuyaResult::Success(state) => NoticeView::Status { device: self.current().name@, state },
            TuyaResult::EmptySuccess => NoticeView::Done {
                device: self.current().name@,
                command: self.command,
            },
            _ => NoticeView::Failed { device: self.current().name@ },
        }
    }

    /// The wait after the current device.
    pub open spec fn pause(self) -> Option<u64> {
        if pause_due(self.index, self.devices.len(), self.batch, self.command) {
            Some(self.delay)
        } else {
            None
        }
    }

    /// The run as it leaves the current device behind: the next device is
    /// turned to with fresh attempts, or the run ends with status 0.
    pub open spec fn advance(self, now: u32) -> (RunView, StepView) {
        if self.index + 1 == self.devices.len() {
            (
                RunView { finished: Some(0), ..self },
                StepView { notices: Seq::empty(), pause: None, next: NextView::Exit(0) },
            )
        } else {
            self.attempt(self.index + 1, ATTEMPTS, now)
        }
    }

    /// One step: what the reply to the request under way makes of the run.
    ///
    /// The user is told what the attempt has to say for itself, and of
    /// every failure that is worth another attempt that the device is
    /// tried again. Such a failure, with more than one attempt left, costs
    /// one attempt and has the same device asked again. Every other outcome
    /// closes the device with a line for the user: the last attempt, when
    /// it fails, closes it as failed. The run then goes on to the next
    /// device, after the wait that pacing asks for. A run that is not live
    /// stays as it is.
    pub open spec fn step(self, reply: TransportReplyView, now: u32) -> (RunView, StepView) {
        if !self.live() {
            (
                self,
                StepView {
                    notices: Seq::empty(),
                    pause: None,
                    next: NextView::Exit(self.status()),
                },
            )
        } else {
            let done = execute_spec(self.current(), self.command, reply, self.retries);
            let hints = match done.hint {
                Some(hint) => seq![hint],
                None => Seq::empty(),
            };
            let told = if done.result is Retry {
                hints.push(NoticeView::Retrying { device: self.current().name@ })
            } else {
                hints
            };
            if done.result is Retry && self.retries > 1 {
                let (run, step) = self.attempt(self.index, (self.retries - 1) as i32, now);
                (run, StepView { notices: told + step.notices, pause: None, next: step.next })
            } else {
                let (run, step) = self.advance(now);
                (
                    run,
                    StepView {
                        notices: told.push(self.verdict(done.result)) + step.notices,
                        pause: self.pause(),
                        next: step.next,
                    },
                )
            }
        }
    }
}

/// The run over the devices of `resolution`, as it starts: the first device
/// is turned to with fresh attempts. A run over no device ends at once,
/// with status 0.
pub open spec fn start_spec(
    resolution: ResolutionView,
    command: SwitchCommand,
    secret: Seq<char>,
    now: u32,
) -> (RunView, StepView) {
    let run = RunView {
        devices: resolution.devices,
        command,
        secret,
        delay: resolution.delay,
        batch: resolution.batch,
        index: 0,
        retries: ATTEMPTS,
        finished: None,
    };
    if resolution.devices.len() == 0 {
        (
            RunView { finished: Some(0), ..run },
            StepView { notices: Seq::empty(), pause: None, next: NextView::Exit(0) },
        )
    } else {
        run.attempt(0, ATTEMPTS, now)
    }
}

/// Whether to wait after the device at position `index` of `count` devices.
pub fn pause_after(index: usize, count: usize, batch: u64, command: &SwitchCommand) -> (due: bool)
    ensures
        due == pause_due(index as nat, count as nat, batch, *command),
{
    if batch == 0 {
        return false;
    }
    let paced = !matches!(command, SwitchCommand::Status | SwitchCommand::Stop);
    let position = index as u128 + 1;
    position % (batch as u128) == 0 && paced && position != count as u128
}

/// Adds a notice to those of a step.
fn tell(notices: &mut Vec<Notice>, notice: Notice)
    ensures
        final(notices).deep_view() == old(notices).deep_view().push(notice@),
{
    let ghost before = notices.deep_view();
    notices.push(notice);
    assert(notices.deep_view() =~= before.push(notice@));
}

impl<'a> Run<'a> {
    /// Turns to the device at `index` with `retries` attempts.
    fn attempt(self, index: usize, retries: i32, now: u32) -> (r: (Run<'a>, Step))
        requires
            index < self.devices.len(),
        ensures
            (r.0@, r.1@) == self@.attempt(index as nat, retries, now),
    {
        let mut run = self;
        run.index = index;
        run.retries = retries;
        let mut notices: Vec<Notice> = Vec::new();
        assert(notices.deep_view() == Seq::<NoticeView>::empty());
        match run.devices[index].request(&run.command, run.secret.as_str(), now) {
            Ok(request) => {
                run.finished = None;
                (run, Step { notices, pause: None, next: Next::Send(request) })
            },
            Err(e) => {
                run.finished = Some(1);
                tell(&mut notices, Notice::Refused(e));
                (run, Step { notices, pause: None, next: Next::Exit(1) })
            },
        }
    }

    /// Starts the run of `command` over the devices of `resolution`, at
    /// time `now` and with the shared secret `secret`.
    pub fn start(resolution: Resolution<'a>, command: SwitchCommand, secret: &str, now: u32) -> (r:
        (Run<'a>, Step))
        ensures
            (r.0@, r.1@) == start_spec(resolution@, command, secret@, now),
    {
        let run = Run {
            devices: resolution.devices,
            command,
            secret: String::from_str(secret),
            delay: resolution.delay,
            batch: resolution.batch,
            index: 0,
            retries: ATTEMPTS,
            finished: None,
        };
        if run.devices.len() == 0 {
            let mut run = run;
            run.finished = Some(0);
            let notices: Vec<Notice> = Vec::new();
            assert(notices.deep_view() == Seq::<NoticeView>::empty());
            (run, Step { notices, pause: None, next: Next::Exit(0) })
        } else {
            run.attempt(0, ATTEMPTS, now)
        }
    }

    /// Resolves `name` in `registry` and starts the run of `command` over
    /// the devices that it stands for, with the registry's secret. Where
    /// the name does not resolve there is no run, and so no request.
    pub fn open(registry: &'a Tuya, name: &str, command: SwitchCommand, now: u32) -> (r: Result<
        (Run<'a>, Step),
        ResolveError,
    >)
        ensures
            match resolve_spec(*registry, name@) {
                Ok(resolution) => r matches Ok(begun) && (begun.0@, begun.1@) == start_spec(
                    resolution,
                    command,
                    registry.api_secret@,
                    now,
                ),
                Err(e) => r matches Err(err) && err@ == e,
            },
    {
        match resolve(registry, name) {
            Ok(resolution) => Ok(Run::start(resolution, command, registry.api_secret.as_str(), now)),
            Err(e) => Err(e),
        }
    }

    /// Takes the reply to the request under way, at time `now`, and says
    /// what follows.
    pub fn step(self, reply: &TransportReply, now: u32) -> (r: (Run<'a>, Step))
        ensures
            (r.0@, r.1@) == self@.step(reply@, now),
    {
        if self.finished.is_some() || self.index >= self.devices.len() {
            let status = match self.finished {
                Some(status) => status,
                None => 0,
            };
            let notices: Vec<Notice> = Vec::new();
            assert(notices.deep_view() == Seq::<NoticeView>::empty());
            return (self, Step { notices, pause: None, next: Next::Exit(status) });
        }
        let ghost before = self@;
        let device = self.devices[self.index];
        let done = device.execute_command(&self.command, reply, self.retries);
        let mut notices: Vec<Notice> = Vec::new();
        assert(notices.deep_view() == Seq::<NoticeView>::empty());
        match done.hint {
            Some(hint) => {
                tell(&mut notices, hint);
            },
            None => {},
        }
        let retry = matches!(done.result, TuyaResult::Retry);
        if retry {
            tell(&mut notices, Notice::Retrying { device: device.name.clone() });
        }
        if retry && self.retries > 1 {
            let index = self.index;
            let retries = self.retries - 1;
            let (run, turn) = self.attempt(index, retries, now);
            let mut told = notices;
            let mut more = turn.notices;
            let ghost first = told.deep_view();
            let ghost second = more.deep_view();
            told.append(&mut more);
            assert(told.deep_view() =~= first + second);
            (run, Step { notices: told, pause: None, next: turn.next })
        } else {
            let verdict = match done.result {
                TuyaResult::Success(state) => Notice::Status { device: device.name.clone(), state },
                TuyaResult::EmptySuccess => Notice::Done {
                    device: device.name.clone(),
                    command: self.command,
                },
                _ => Notice::Failed { device: device.name.clone() },
            };
            tell(&mut notices, verdict);
            let pause = if pause_after(self.index, self.devices.len(), self.batch, &self.command) {
                Some(self.delay)
            } else {
                None
            };
            if self.index + 1 == self.devices.len() {
                let mut run = self;
                run.finished = Some(0);
                assert(notices.deep_view() + Seq::<NoticeView>::empty() =~= notices.deep_view());
                (run, Step { notices, pause, next: Next::Exit(0) })
            } else {
                let index = self.index + 1;
                let (run, turn) = self.attempt(index, ATTEMPTS, now);
                let mut told = notices;
                let mut more = turn.notices;
                let ghost first = told.deep_view();
                let ghost second = more.deep_view();
                told.append(&mut more);
                assert(told.deep_view() =~= first + second);
                (run, Step { notices: told, pause, next: turn.next })
            }
        }
    }
}

/// A command that asks for the state or stops a blind is never paced:
/// whatever the batch size, no device of the run is followed by a wait.
pub proof fn lemma_status_and_stop_never_wait(
    index: nat,
    count: nat,
    batch: u64,
    command: SwitchCommand,
)
    requires
        command is Status || command is Stop,
    ensures
        !pause_due(index, count, batch, command),
{
}

/// No step of a run of `Status` or `Stop` asks for a wait, whatever the
/// state of the run, the reply and the batch size.
pub proof fn lemma_unpaced_run_never_waits(run: RunView, reply: TransportReplyView, now: u32)
    requires
        run.command is Status || run.command is Stop,
    ensures
        run.step(reply, now).1.pause is None,
{
}

/// The last device of a run is never followed by a wait.
pub proof fn lemma_no_wait_after_last(run: RunView, reply: TransportReplyView, now: u32)
    requires
        run.live(),
        run.index + 1 == run.devices.len(),
    ensures
        run.step(reply, now).1.pause is None,
{
}

/// Every attempt that fails in a way worth another tells the user of the
/// retry, whatever the error and however many attempts are left. On the
/// last attempt the device is then closed as failed, and the run goes on to
/// the next device.
pub proof fn lemma_retry_is_always_told(run: RunView, reply: TransportReplyView, now: u32)
    requires
        run.live(),
        execute_spec(run.current(), run.command, reply, run.retries).result is Retry,
    ensures
        ({
            let done = execute_spec(run.current(), run.command, reply, run.retries);
            let hints = match done.hint {
                Some(hint) => seq![hint],
                None => Seq::empty(),
            };
            let retrying = NoticeView::Retrying { device: run.current().name@ };
            let failed = NoticeView::Failed { device: run.current().name@ };
            let (after, step) = run.step(reply, now);
            if run.retries > 1 {
                let (again, turn) = run.attempt(run.index, (run.retries - 1) as i32, now);
                &&& after == again
                &&& step.notices == hints.push(retrying) + turn.notices
                &&& step.pause is None
                &&& step.next == turn.next
            } else {
                let (onward, turn) = run.advance(now);
                &&& after == onward
                &&& step.notices == hints.push(retrying).push(failed) + turn.notices
                &&& step.pause == run.pause()
                &&& step.next == turn.next
            }
        }),
{
}

/// A reset connection, with more than one attempt left, costs exactly one
/// attempt: the run stays with the device, the user is told of the retry,
/// and the request for the same device and command is made again, without
/// a wait.
pub proof fn lemma_reset_costs_one_attempt(run: RunView, now: u32)
    requires
        run.live(),
        refusal(run.current(), run.command) is None,
        run.retries > 1,
    ensures
        ({
            let reply = TransportReplyView::Failed(TransportErrorView::ConnectionReset);
            let (after, step) = run.step(reply, now);
            &&& after == RunView { retries: (run.retries - 1) as i32, ..run }
            &&& step.notices == seq![NoticeView::Retrying { device: run.current().name@ }]
            &&& step.pause is None
            &&& request_spec(run.current(), run.command, run.secret, now) matches Ok(request)
                && step.next == NextView::Send(request)
        }),
{
    let reply = TransportReplyView::Failed(TransportErrorView::ConnectionReset);
    let (after, step) = run.step(reply, now);
    assert(step.notices =~= seq![NoticeView::Retrying { device: run.current().name@ }]);
}

/// Two requests for the same device and command differ in nothing but
/// their time: an attempt that is made again carries the same payload.
pub proof fn lemma_request_repeats(
    device: Device,
    command: SwitchCommand,
    secret: Seq<char>,
    first: u32,
    second: u32,
)
    requires
        refusal(device, command) is None,
    ensures
        request_spec(device, command, secret, first) matches Ok(a) && request_spec(
            device,
            command,
            secret,
            second,
        ) matches Ok(b) && b == (RequestView { t: second, ..a }),
{
}

/// A reset connection on the last attempt closes the device: the user is
/// told to close the vendor's application, of the retry as after every
/// reset, and that the device failed, and the run goes on to the next
/// device.
pub proof fn lemma_last_reset_gives_up(run: RunView, now: u32)
    requires
        run.live(),
        refusal(run.current(), run.command) is None,
        run.retries == 1,
    ensures
        ({
            let reply = TransportReplyView::Failed(TransportErrorView::ConnectionReset);
            let (after, step) = run.step(reply, now);
            let (onward, turn) = run.advance(now);
            &&& after == onward
            &&& step.notices == seq![
                NoticeView::CloseApp,
                NoticeView::Retrying { device: run.current().name@ },
                NoticeView::Failed { device: run.current().name@ },
            ] + turn.notices
            &&& step.next == turn.next
        }),
{
    let reply = TransportReplyView::Failed(TransportErrorView::ConnectionReset);
    let (after, step) = run.step(reply, now);
    let (onward, turn) = run.advance(now);
    assert(step.notices =~= seq![
        NoticeView::CloseApp,
        NoticeView::Retrying { device: run.current().name@ },
        NoticeView::Failed { device: run.current().name@ },
    ] + turn.notices);
}

/// A device with fresh attempts is asked three times at most: when the
/// connection is reset each time, every reset costs one attempt and tells
/// the user of the retry, the first two have the same device asked again,
/// and the third closes it as failed and lets the run go on.
pub proof fn lemma_three_resets_give_up(run: RunView, first: u32, second: u32, third: u32)
    requires
        run.live(),
        refusal(run.current(), run.command) is None,
        run.retries == ATTEMPTS,
    ensures
        ({
            let reply = TransportReplyView::Failed(TransportErrorView::ConnectionReset);
            let (run1, step1) = run.step(reply, first);
            let (run2, step2) = run1.step(reply, second);
            let (run3, step3) = run2.step(reply, third);
            let retrying = NoticeView::Retrying { device: run.current().name@ };
            &&& step1.next is Send && run1.live() && run1.index == run.index && run1.retries == 2
            &&& step2.next is Send && run2.live() && run2.index == run.index && run2.retries == 1
            &&& step1.notices == seq![retrying] && step2.notices == seq![retrying]
            &&& step3.notices.len() >= 3 && step3.notices[0] == NoticeView::CloseApp
                && step3.notices[1] == retrying && step3.notices[2] == (NoticeView::Failed {
                device: run.current().name@,
            })
            &&& !(run3.live() && run3.index == run.index)
        }),
{
    let reply = TransportReplyView::Failed(TransportErrorView::ConnectionReset);
    lemma_reset_costs_one_attempt(run, first);
    let (run1, step1) = run.step(reply, first);
    lemma_reset_costs_one_attempt(run1, second);
    let (run2, step2) = run1.step(reply, second);
    lemma_last_reset_gives_up(run2, third);
}

/// A timeout closes the device at once, whatever attempts were left: the
/// user is told that the device does not respond and that it failed, no
/// request is made of the device again, and the run goes on to the next
/// device.
pub proof fn lemma_timeout_gives_up_at_once(run: RunView, now: u32)
    requires
        run.live(),
        refusal(run.current(), run.command) is None,
    ensures
        ({
            let reply = TransportReplyView::Failed(TransportErrorView::Timeout);
            let (after, step) = run.step(reply, now);
            let (onward, turn) = run.advance(now);
            &&& after == onward
            &&& step.notices == seq![
                NoticeView::NotResponding,
                NoticeView::Failed { device: run.current().name@ },
            ] + turn.notices
            &&& step.next == turn.next
            &&& !(after.live() && after.index == run.index)
        }),
{
    let reply = TransportReplyView::Failed(TransportErrorView::Timeout);
    let (after, step) = run.step(reply, now);
    let (onward, turn) = run.advance(now);
    assert(step.notices =~= seq![
        NoticeView::NotResponding,
        NoticeView::Failed { device: run.current().name@ },
    ] + turn.notices);
}

} // verus!
