use vstd::prelude::*;

use crate::constants::{
    HID_FEATURE, HID_SET_REPORT, REPORT_ID, SET_REPORT_REQUEST_TYPE, TRANSFER_TIMEOUT_MS,
};
use crate::message::Message;

verus! {

/// A failure reported by the USB stack.
#[derive(Debug, Clone, Copy, PartialEq, Eq, Structural)]
pub enum UsbError {
    Io,
    InvalidParam,
    Access,
    NoDevice,
    NotFound,
    Busy,
    Timeout,
    Overflow,
    Pipe,
    Interrupted,
    NoMem,
    NotSupported,
    BadDescriptor,
    Other,
}

/// Why a command could not be delivered.
#[derive(Debug, Clone, Copy, PartialEq, Eq, Structural)]
pub enum BlinkError {
    /// No matching device is present, or the device exposes no interface.
    NotFound,
    /// The USB stack failed.
    Transport(UsbError),
}

/// A HID "Set Report" control transfer.
#[derive(Debug, Clone, Copy, PartialEq, Eq)]
pub struct ControlRequest {
    pub request_type: u8,
    pub request: u8,
    pub value: u16,
    pub index: u16,
    pub data: [u8; 8],
    pub timeout_ms: u64,
}

/// Where a session stands. Each phase waits for the answer to one action.
#[derive(Debug, Clone, Copy, PartialEq, Eq, Structural)]
pub enum Phase {
    Opening,
    ReadingConfig,
    QueryingDriver,
    Detaching,
    Claiming,
    Writing,
    Releasing,
    Reattaching,
    Closing,
    Done,
}

/// What the session asks the USB stack to do next.
#[derive(Debug, Clone, Copy, PartialEq, Eq)]
pub enum Action {
    /// Open a handle on the device.
    Open,
    /// Read the active configuration and report its first interface.
    ReadFirstInterface,
    /// Ask whether a kernel driver is bound to the interface.
    QueryKernelDriver(u8),
    DetachKernelDriver(u8),
    ClaimInterface(u8),
    WriteControl(ControlRequest),
    ReleaseInterface(u8),
    AttachKernelDriver(u8),
    /// Close the handle.
    Close,
    /// The session is over, with this result.
    Finish(Result<usize, BlinkError>),
}

/// The answer of the USB stack to the last action.
#[derive(Debug, Clone, Copy, PartialEq, Eq, Structural)]
pub enum Event {
    /// The action succeeded and has nothing to report.
    Done,
    /// The transfer wrote this many bytes.
    Wrote(usize),
    /// Whether a kernel driver is bound to the interface.
    DriverActive(bool),
    /// The number of the first interface, `None` when there is none.
    FirstInterface(Option<u8>),
    /// The action failed.
    Failed(UsbError),
}

/// One delivery of a command buffer to one device: open, find the interface,
/// detach a bound kernel driver, claim, transfer, release, reattach, close.
///
/// The three `must_` flags are what the session still owes the device: each
/// is raised when the step it undoes succeeds, and lowered only when the
/// undoing action is handed out.
#[derive(Debug, Clone, Copy, PartialEq, Eq)]
pub struct Session {
    pub phase: Phase,
    pub buffer: [u8; 8],
    pub interface: u8,
    pub must_release: bool,
    pub must_reattach: bool,
    pub must_close: bool,
    pub outcome: Result<usize, BlinkError>,
}

/// The USB failure that an event stands for: an answer that does not fit
/// the action asked for counts as `Other`.
pub open spec fn failure_of(e: Event) -> UsbError {
    match e {
        Event::Failed(u) => u,
        _ => UsbError::Other,
    }
}

/// The control transfer that carries `buffer` to `interface`.
pub open spec fn set_report(buffer: [u8; 8], interface: u8) -> ControlRequest {
    ControlRequest {
        request_type: SET_REPORT_REQUEST_TYPE,
        request: HID_SET_REPORT,
        value: HID_FEATURE | REPORT_ID as u16,
        index: interface as u16,
        data: buffer,
        timeout_ms: TRANSFER_TIMEOUT_MS,
    }
}

/// Hands out the next undo that is still owed, in the order release,
/// reattach, close; with nothing owed the session is over.
pub open spec fn wind_down(s: Session) -> (Session, Action) {
    if s.must_release {
        (Session { phase: Phase::Releasing, must_release: false, ..s }, Action::ReleaseInterface(s.interface))
    } else if s.must_reattach {
        (Session { phase: Phase::Reattaching, must_reattach: false, ..s }, Action::AttachKernelDriver(s.interface))
    } else if s.must_close {
        (Session { phase: Phase::Closing, must_close: false, ..s }, Action::Close)
    } else {
        (Session { phase: Phase::Done, ..s }, Action::Finish(s.outcome))
    }
}

/// Fails the session with `err` and starts to unwind it.
pub open spec fn fail_with(s: Session, err: BlinkError) -> (Session, Action) {
    wind_down(Session { outcome: Err(err), ..s })
}

/// Records a failed undo step: the first failure is the one reported.
pub open spec fn note_undo(s: Session, e: Event) -> Session {
    if e is Done || s.outcome is Err {
        s
    } else {
        Session { outcome: Err(BlinkError::Transport(failure_of(e))), ..s }
    }
}

/// The state and action that follow the answer `e` to the pending action.
pub open spec fn next(s: Session, e: Event) -> (Session, Action) {
    match s.phase {
        Phase::Opening => if e is Done {
            (Session { phase: Phase::ReadingConfig, must_close: true, ..s }, Action::ReadFirstInterface)
        } else {
            fail_with(s, BlinkError::Transport(failure_of(e)))
        },
        Phase::ReadingConfig => match e {
            Event::FirstInterface(Some(n)) => (
                Session { phase: Phase::QueryingDriver, interface: n, ..s },
                Action::QueryKernelDriver(n),
            ),
            Event::FirstInterface(None) => fail_with(s, BlinkError::NotFound),
            _ => fail_with(s, BlinkError::Transport(failure_of(e))),
        },
        Phase::QueryingDriver => if e == Event::DriverActive(true) {
            (Session { phase: Phase::Detaching, ..s }, Action::DetachKernelDriver(s.interface))
        } else {
            (Session { phase: Phase::Claiming, ..s }, Action::ClaimInterface(s.interface))
        },
        Phase::Detaching => if e is Done {
            (
                Session { phase: Phase::Claiming, must_reattach: true, ..s },
                Action::ClaimInterface(s.interface),
            )
        } else {
            fail_with(s, BlinkError::Transport(failure_of(e)))
        },
        Phase::Claiming => if e is Done {
            (
                Session { phase: Phase::Writing, must_release: true, ..s },
                Action::WriteControl(set_report(s.buffer, s.interface)),
            )
        } else {
            fail_with(s, BlinkError::Transport(failure_of(e)))
        },
        Phase::Writing => match e {
            Event::Wrote(k) => wind_down(Session { outcome: Ok(k), ..s }),
            _ => fail_with(s, BlinkError::Transport(failure_of(e))),
        },
        Phase::Releasing | Phase::Reattaching | Phase::Closing => wind_down(note_undo(s, e)),
        Phase::Done => (s, Action::Finish(s.outcome)),
    }
}

/// How many answers a session can still take before it is over.
pub open spec fn steps_left(p: Phase) -> nat {
    match p {
        Phase::Opening => 9,
        Phase::ReadingConfig => 8,
        Phase::QueryingDriver => 7,
        Phase::Detaching => 6,
        Phase::Claiming => 5,
        Phase::Writing => 4,
        Phase::Releasing => 3,
        Phase::Reattaching => 2,
        Phase::Closing => 1,
        Phase::Done => 0,
    }
}

/// The debts agree with the phase: undos are handed out in the order
/// release, reattach, close, so once one of them is under way the earlier
/// ones are paid, and a session that is over owes the device nothing.
pub open spec fn consistent(s: Session) -> bool {
    &&& s.phase is Releasing ==> !s.must_release
    &&& s.phase is Reattaching ==> !s.must_release && !s.must_reattach
    &&& (s.phase is Closing || s.phase is Done) ==> !s.must_release && !s.must_reattach
        && !s.must_close
}

/// The session after it has been handed `events`, one after the other.
pub open spec fn run(s: Session, events: Seq<Event>) -> Session
    decreases events.len(),
{
    if events.len() == 0 {
        s
    } else {
        run(next(s, events[0]).0, events.drop_first())
    }
}

/// Relies on rusb::request_type, which ORs the direction bits (`Out`: 0x00),
/// the type bits (`Class`: 0x20) and the recipient bits (`Interface`: 0x01).
#[verifier::external_body]
fn set_report_request_type() -> (r: u8)
    ensures
        r == SET_REPORT_REQUEST_TYPE,
{
    rusb::request_type(rusb::Direction::Out, rusb::RequestType::Class, rusb::Recipient::Interface)
}

impl Session {
    /// Starts the delivery of `message`; the first action is always `Open`.
    pub fn begin(message: &Message) -> (r: (Session, Action))
        ensures
            r.0.phase == Phase::Opening,
            r.0.buffer@ == message.spec_buffer(),
            !r.0.must_release && !r.0.must_reattach && !r.0.must_close,
            r.0.outcome == Ok::<usize, BlinkError>(0),
            consistent(r.0),
            r.1 == Action::Open,
    {
        let s = Session {
            phase: Phase::Opening,
            buffer: message.buffer(),
            interface: 0,
            must_release: false,
            must_reattach: false,
            must_close: false,
            outcome: Ok(0),
        };
        (s, Action::Open)
    }

    fn wind_down(&mut self) -> (a: Action)
        ensures
            (*final(self), a) == wind_down(*old(self)),
    {
        if self.must_release {
            self.phase = Phase::Releasing;
            self.must_release = false;
            Action::ReleaseInterface(self.interface)
        } else if self.must_reattach {
            self.phase = Phase::Reattaching;
            self.must_reattach = false;
            Action::AttachKernelDriver(self.interface)
        } else if self.must_close {
            self.phase = Phase::Closing;
            self.must_close = false;
            Action::Close
        } else {
            self.phase = Phase::Done;
            Action::Finish(self.outcome)
        }
    }

    fn fail_with(&mut self, err: BlinkError) -> (a: Action)
        ensures
            (*final(self), a) == fail_with(*old(self), err),
    {
        self.outcome = Err(err);
        self.wind_down()
    }

    /// Takes the answer to the pending action and returns the next action.
    pub fn step(&mut self, e: Event) -> (a: Action)
        ensures
            (*final(self), a) == next(*old(self), e),
    {
        let failure = match e {
            Event::Failed(u) => u,
            _ => UsbError::Other,
        };
        match self.phase {
            Phase::Opening => {
                if let Event::Done = e {
                    self.phase = Phase::ReadingConfig;
                    self.must_close = true;
                    Action::ReadFirstInterface
                } else {
                    self.fail_with(BlinkError::Transport(failure))
                }
            },
            Phase::ReadingConfig => match e {
                Event::FirstInterface(Some(n)) => {
                    self.phase = Phase::QueryingDriver;
                    self.interface = n;
                    Action::QueryKernelDriver(n)
                },
                Event::FirstInterface(None) => self.fail_with(BlinkError::NotFound),
                _ => self.fail_with(BlinkError::Transport(failure)),
            },
            Phase::QueryingDriver => {
                if let Event::DriverActive(true) = e {
                    self.phase = Phase::Detaching;
                    Action::DetachKernelDriver(self.interface)
                } else {
                    self.phase = Phase::Claiming;
                    Action::ClaimInterface(self.interface)
                }
            },
            Phase::Detaching => {
                if let Event::Done = e {
                    self.phase = Phase::Claiming;
                    self.must_reattach = true;
                    Action::ClaimInterface(self.interface)
                } else {
                    self.fail_with(BlinkError::Transport(failure))
                }
            },
            Phase::Claiming => {
                if let Event::Done = e {
                    self.phase = Phase::Writing;
                    self.must_release = true;
                    Action::WriteControl(
                        ControlRequest {
                            request_type: set_report_request_type(),
                            request: HID_SET_REPORT,
                            value: HID_FEATURE | REPORT_ID as u16,
                            index: self.interface as u16,
                            data: self.buffer,
                            timeout_ms: TRANSFER_TIMEOUT_MS,
                        },
                    )
                } else {
                    self.fail_with(BlinkError::Transport(failure))
                }
            },
            Phase::Writing => match e {
                Event::Wrote(k) => {
                    self.outcome = Ok(k);
                    self.wind_down()
                },
                _ => self.fail_with(BlinkError::Transport(failure)),
            },
            Phase::Releasing | Phase::Reattaching | Phase::Closing => {
                let ok = if let Event::Done = e { true } else { false };
                if !ok && self.outcome.is_ok() {
                    self.outcome = Err(BlinkError::Transport(failure));
                }
                self.wind_down()
            },
            Phase::Done => Action::Finish(self.outcome),
        }
    }
}

/// Each answer keeps a session consistent and moves an unfinished one
/// strictly closer to its end; a session that is over stays as it is.
pub proof fn lemma_step_progress(s: Session, e: Event)
    requires
        consistent(s),
    ensures
        consistent(next(s, e).0),
        s.phase !is Done ==> steps_left(next(s, e).0.phase) < steps_left(s.phase),
        s.phase is Done ==> next(s, e).0 == s,
{
}

/// Whatever the USB stack answers, a session reaches its end within
/// `steps_left` answers, and by then it has released the interface it
/// claimed, reattached the kernel driver it detached, and closed the handle
/// it opened: on the success path and on every failure path alike.
pub proof fn lemma_session_always_closes(s: Session, events: Seq<Event>)
    requires
        consistent(s),
        events.len() >= steps_left(s.phase),
    ensures
        run(s, events).phase is Done,
        !run(s, events).must_release,
        !run(s, events).must_reattach,
        !run(s, events).must_close,
    decreases events.len(),
{
    if events.len() > 0 {
        lemma_step_progress(s, events[0]);
        lemma_session_always_closes(next(s, events[0]).0, events.drop_first());
    }
}

/// A debt to the device is only ever cleared by handing out the action that
/// pays it: releasing the interface, reattaching the driver, closing the
/// handle.
pub proof fn lemma_debts_paid_by_actions(s: Session, e: Event)
    ensures
        s.must_release && !next(s, e).0.must_release ==> next(s, e).1 == Action::ReleaseInterface(
            s.interface,
        ),
        s.must_reattach && !next(s, e).0.must_reattach ==> next(s, e).1
            == Action::AttachKernelDriver(s.interface),
        s.must_close && !next(s, e).0.must_close ==> next(s, e).1 == Action::Close,
        next(s, e).0.interface != s.interface ==> s.phase is ReadingConfig,
{
}

/// A debt arises only when the step it undoes has succeeded: the handle was
/// opened, the kernel driver detached, or the interface claimed.
pub proof fn lemma_debts_arise_from_success(s: Session, e: Event)
    ensures
        !s.must_close && next(s, e).0.must_close ==> s.phase is Opening && e is Done,
        !s.must_reattach && next(s, e).0.must_reattach ==> s.phase is Detaching && e is Done,
        !s.must_release && next(s, e).0.must_release ==> s.phase is Claiming && e is Done,
{
}

} // verus!
