//! The rules of one host session: what each host request and each kernel
//! message does to the session, and what is answered.

use vstd::prelude::*;
use crate::cache::{after_get, after_put, after_release, on_loan, words_of, Cache, Line};
use crate::error::{
    error_of,
    io_error,
    invalid_data,
    protocol_error,
    unexpected,
    ErrorKind,
    SessionError,
};
use crate::proto::{Call, HostReply, HostRequest, KernelAction, KernelMessage, Outcome, RpcAnswer};
use crate::watchdog::{after_clear, after_set, expired_at, full, lowest_free, WatchdogSet};

verus! {

/// State that outlives every session: the timeline position that the last
/// kernel saved, and the cache.
pub struct Congress {
    pub now: u64,
    pub cache: Cache,
}

impl Congress {
    /// The state at boot: time zero and an empty cache.
    pub fn new() -> (congress: Congress)
        ensures
            congress.now == 0,
            congress.cache.wf(),
            congress.cache@ == Map::<Seq<u8>, Line>::empty(),
    {
        Congress { now: 0, cache: Cache::new() }
    }
}

/// Where the kernel CPU stands, as the session knows it.
#[derive(Clone, Copy, Debug, PartialEq, Eq, Structural)]
pub enum KernelState {
    /// No kernel is loaded.
    Absent,
    /// A kernel is loaded and has not been started.
    Loaded,
    /// The kernel runs.
    Running,
    /// The kernel waits for the host's answer to a remote call.
    RpcWait,
}

impl KernelState {
    /// A kernel is on the CPU and has been started.
    pub open spec fn is_running(self) -> bool {
        self == KernelState::Running || self == KernelState::RpcWait
    }
}

/// The state of one connection.
#[derive(Clone, Copy, Debug, PartialEq, Eq)]
pub struct Session {
    pub kernel_state: KernelState,
    pub watchdog_set: WatchdogSet,
}

impl Session {
    /// The state of a fresh connection: no kernel, no watchdog armed.
    pub fn new() -> (session: Session)
        ensures
            session.kernel_state == KernelState::Absent,
            session.watchdog_set@ == Seq::new(16, |i: int| None::<int>),
    {
        Session { kernel_state: KernelState::Absent, watchdog_set: WatchdogSet::new() }
    }

    /// Whether a kernel has been started and has not finished.
    pub fn running(&self) -> (running: bool)
        ensures
            running == self.kernel_state.is_running(),
    {
        match self.kernel_state {
            KernelState::Absent | KernelState::Loaded => false,
            KernelState::Running | KernelState::RpcWait => true,
        }
    }
}

/// The fourteen bytes that a host opens a connection with: `ARTIQ coredev`
/// and a line feed.
pub open spec fn magic() -> Seq<u8> {
    seq![65u8, 82u8, 84u8, 73u8, 81u8, 32u8, 99u8, 111u8, 114u8, 101u8, 100u8, 101u8, 118u8, 10u8]
}

/// Accepts the opening bytes of a connection if they are the magic, and
/// refuses anything else as invalid data.
pub fn check_magic(opening: &[u8]) -> (result: Result<(), SessionError>)
    ensures
        result is Ok <==> opening@ == magic(),
        result is Err ==> result->Err_0 == error_of(ErrorKind::InvalidData, "unrecognized magic"),
{
    let expected: [u8; 14] = [65, 82, 84, 73, 81, 32, 99, 111, 114, 101, 100, 101, 118, 10];
    assert(expected@ =~= magic());
    if opening.len() != 14 {
        return Err(invalid_data("unrecognized magic"));
    }
    let mut i: usize = 0;
    while i < 14
        invariant
            i <= 14,
            opening@.len() == 14,
            expected@ == magic(),
            forall|j: int| 0 <= j < i ==> opening@[j] == expected@[j],
        decreases 14 - i,
    {
        if opening[i] != expected[i] {
            return Err(invalid_data("unrecognized magic"));
        }
        i += 1;
    }
    assert(opening@ =~= magic());
    Ok(())
}

/// What a host request leads to at once.
#[derive(Debug, PartialEq, Eq)]
pub enum HostStep {
    /// The reply is known: write it.
    Reply(HostReply),
    /// The board has work to do before the reply is known.
    Call(Call),
    /// The kernel CPU is addressed; nothing is written to the host.
    Kernel(KernelAction),
}

/// What the request leads to in the given state; `None` where the request
/// breaks the protocol.
pub open spec fn host_step(state: KernelState, request: HostRequest) -> Option<HostStep> {
    match request {
        HostRequest::Ident => Some(HostStep::Call(Call::Ident)),
        HostRequest::Log => Some(HostStep::Call(Call::ExtractLog)),
        HostRequest::LogClear => Some(HostStep::Call(Call::ClearLog)),
        HostRequest::FlashRead { key } => Some(HostStep::Call(Call::FlashRead { key })),
        HostRequest::FlashWrite { key, value } => Some(
            HostStep::Call(Call::FlashWrite { key, value }),
        ),
        HostRequest::FlashRemove { key } => Some(HostStep::Call(Call::FlashRemove { key })),
        HostRequest::FlashErase => Some(HostStep::Call(Call::FlashErase)),
        HostRequest::SwitchClock(clk) => if state.is_running() {
            Some(HostStep::Reply(HostReply::ClockSwitchFailed))
        } else {
            Some(HostStep::Call(Call::SwitchClock(clk)))
        },
        HostRequest::LoadLibrary(library) => if state.is_running() {
            Some(HostStep::Reply(HostReply::LoadFailed))
        } else {
            Some(HostStep::Call(Call::LoadKernel(library)))
        },
        HostRequest::RunKernel => if state == KernelState::Loaded {
            Some(HostStep::Kernel(KernelAction::Acknowledge))
        } else {
            Some(HostStep::Reply(HostReply::KernelStartupFailed))
        },
        HostRequest::RpcReply(data) => if state.is_running() {
            Some(HostStep::Kernel(KernelAction::Forward(RpcAnswer::Reply(data))))
        } else {
            None
        },
        HostRequest::RpcException(data) => if state.is_running() {
            Some(HostStep::Kernel(KernelAction::Forward(RpcAnswer::Exception(data))))
        } else {
            None
        },
    }
}

/// The kernel state after the request was taken in the given state.
pub open spec fn state_after_request(state: KernelState, request: HostRequest) -> KernelState {
    match request {
        HostRequest::RunKernel => if state == KernelState::Loaded {
            KernelState::Running
        } else {
            state
        },
        HostRequest::RpcReply(_) | HostRequest::RpcException(_) => if state.is_running() {
            KernelState::Running
        } else {
            state
        },
        _ => state,
    }
}

/// Takes one host request. Requests that the state forbids are answered with
/// their failure reply and change nothing; an answer to a remote call that no
/// started kernel can take is a protocol error. Starting a kernel and
/// answering its remote call put the kernel in the running state.
pub fn comm_handle(session: &mut Session, request: HostRequest) -> (result: Result<
    HostStep,
    SessionError,
>)
    ensures
        final(session).watchdog_set == old(session).watchdog_set,
        final(session).kernel_state == state_after_request(old(session).kernel_state, request),
        match host_step(old(session).kernel_state, request) {
            Some(step) => result == Ok::<HostStep, SessionError>(step),
            None => result == Err::<HostStep, SessionError>(protocol_error()),
        },
{
    match request {
        HostRequest::Ident => Ok(HostStep::Call(Call::Ident)),
        HostRequest::Log => Ok(HostStep::Call(Call::ExtractLog)),
        HostRequest::LogClear => Ok(HostStep::Call(Call::ClearLog)),
        HostRequest::FlashRead { key } => Ok(HostStep::Call(Call::FlashRead { key })),
        HostRequest::FlashWrite { key, value } => Ok(
            HostStep::Call(Call::FlashWrite { key, value }),
        ),
        HostRequest::FlashRemove { key } => Ok(HostStep::Call(Call::FlashRemove { key })),
        HostRequest::FlashErase => Ok(HostStep::Call(Call::FlashErase)),
        HostRequest::SwitchClock(clk) => {
            if session.running() {
                Ok(HostStep::Reply(HostReply::ClockSwitchFailed))
            } else {
                Ok(HostStep::Call(Call::SwitchClock(clk)))
            }
        },
        HostRequest::LoadLibrary(library) => {
            if session.running() {
                Ok(HostStep::Reply(HostReply::LoadFailed))
            } else {
                Ok(HostStep::Call(Call::LoadKernel(library)))
            }
        },
        HostRequest::RunKernel => {
            match session.kernel_state {
                KernelState::Loaded => {
                    session.kernel_state = KernelState::Running;
                    Ok(HostStep::Kernel(KernelAction::Acknowledge))
                },
                _ => Ok(HostStep::Reply(HostReply::KernelStartupFailed)),
            }
        },
        HostRequest::RpcReply(data) => {
            if session.running() {
                session.kernel_state = KernelState::Running;
                Ok(HostStep::Kernel(KernelAction::Forward(RpcAnswer::Reply(data))))
            } else {
                Err(unexpected())
            }
        },
        HostRequest::RpcException(data) => {
            if session.running() {
                session.kernel_state = KernelState::Running;
                Ok(HostStep::Kernel(KernelAction::Forward(RpcAnswer::Exception(data))))
            } else {
                Err(unexpected())
            }
        },
    }
}

/// The kernel state after the board reported `outcome` in the given state.
/// Only a library that the kernel CPU took, while no kernel was running,
/// changes it.
pub open spec fn state_after_outcome(state: KernelState, outcome: Outcome) -> KernelState {
    match outcome {
        Outcome::KernelReplied(KernelMessage::LoadReply { error: None }) => if state.is_running() {
            state
        } else {
            KernelState::Loaded
        },
        _ => state,
    }
}

/// `result` is what the host is told after the board reported `outcome` in
/// the given state.
pub open spec fn replied(
    state: KernelState,
    outcome: Outcome,
    result: Result<HostReply, SessionError>,
) -> bool {
    match outcome {
        Outcome::Ident(ident) => result == Ok::<HostReply, SessionError>(HostReply::Ident(ident)),
        Outcome::Log(text) => result == Ok::<HostReply, SessionError>(HostReply::Log(text)),
        Outcome::LogCleared => result matches Ok(HostReply::Log(text)) && text@ == Seq::<
            char,
        >::empty(),
        Outcome::FlashValue(value) => result == Ok::<HostReply, SessionError>(
            HostReply::FlashRead(value),
        ),
        Outcome::FlashWritten(stored) => result == Ok::<HostReply, SessionError>(
            if stored {
                HostReply::FlashOk
            } else {
                HostReply::FlashError
            },
        ),
        Outcome::FlashRemoved => result == Ok::<HostReply, SessionError>(HostReply::FlashOk),
        Outcome::FlashErased => result == Ok::<HostReply, SessionError>(HostReply::FlashOk),
        Outcome::ClockSwitched(switched) => result == Ok::<HostReply, SessionError>(
            if switched {
                HostReply::ClockSwitchCompleted
            } else {
                HostReply::ClockSwitchFailed
            },
        ),
        Outcome::KernelReplied(KernelMessage::LoadReply { error }) => if state.is_running() {
            result == Err::<HostReply, SessionError>(protocol_error())
        } else if error is None {
            result == Ok::<HostReply, SessionError>(HostReply::LoadCompleted)
        } else {
            result == Ok::<HostReply, SessionError>(HostReply::LoadFailed)
        },
        Outcome::KernelReplied(_) => result == Err::<HostReply, SessionError>(protocol_error()),
    }
}

/// Turns what the board did for a host request into the reply. A library
/// that the kernel CPU took puts the session in the loaded state; any answer
/// of the kernel CPU but one to the library is a protocol error.
pub fn comm_reply(session: &mut Session, outcome: Outcome) -> (result: Result<
    HostReply,
    SessionError,
>)
    ensures
        final(session).watchdog_set == old(session).watchdog_set,
        final(session).kernel_state == state_after_outcome(old(session).kernel_state, outcome),
        replied(old(session).kernel_state, outcome, result),
{
    match outcome {
        Outcome::Ident(ident) => Ok(HostReply::Ident(ident)),
        Outcome::Log(text) => Ok(HostReply::Log(text)),
        Outcome::LogCleared => Ok(HostReply::Log(String::new())),
        Outcome::FlashValue(value) => Ok(HostReply::FlashRead(value)),
        Outcome::FlashWritten(stored) => {
            if stored {
                Ok(HostReply::FlashOk)
            } else {
                Ok(HostReply::FlashError)
            }
        },
        Outcome::FlashRemoved => Ok(HostReply::FlashOk),
        Outcome::FlashErased => Ok(HostReply::FlashOk),
        Outcome::ClockSwitched(switched) => {
            if switched {
                Ok(HostReply::ClockSwitchCompleted)
            } else {
                Ok(HostReply::ClockSwitchFailed)
            }
        },
        Outcome::KernelReplied(KernelMessage::LoadReply { error }) => {
            if session.running() {
                Err(unexpected())
            } else {
                match error {
                    None => {
                        session.kernel_state = KernelState::Loaded;
                        Ok(HostReply::LoadCompleted)
                    },
                    Some(_) => Ok(HostReply::LoadFailed),
                }
            }
        },
        Outcome::KernelReplied(_) => Err(unexpected()),
    }
}

/// How the session takes a kernel message in a given state.
#[derive(Clone, Copy, Debug, PartialEq, Eq)]
pub enum Standing {
    /// The message is left where it is: the session stands by.
    StandBy,
    /// The message has no place in this state: a protocol error.
    Refused,
    /// The message is acted on.
    Heard,
}

/// How `request` is taken in `state`: a late answer to a library is left
/// alone once the kernel is loaded, as is a repeated wait for the host while
/// one is awaited; anything else is heard only while the kernel runs.
pub open spec fn standing(state: KernelState, request: KernelMessage) -> Standing {
    if (request is LoadReply && state == KernelState::Loaded) || (request is RpcRecvRequest
        && state == KernelState::RpcWait) {
        Standing::StandBy
    } else if state == KernelState::Running {
        Standing::Heard
    } else {
        Standing::Refused
    }
}

/// The kernel state after `request` was taken in `state`: a kernel that asks
/// for the answer to its remote call waits for it.
pub open spec fn state_after_message(state: KernelState, request: KernelMessage) -> KernelState {
    if standing(state, request) == Standing::Heard && request is RpcRecvRequest {
        KernelState::RpcWait
    } else {
        state
    }
}

/// The watchdog slots after `request` was taken in `state` at `now_ms`.
pub open spec fn slots_after_message(
    state: KernelState,
    slots: Seq<Option<int>>,
    request: KernelMessage,
    now_ms: int,
) -> Seq<Option<int>> {
    if standing(state, request) == Standing::Heard {
        match request {
            KernelMessage::WatchdogSetRequest { ms } => after_set(slots, now_ms, ms as int),
            KernelMessage::WatchdogClear { id } => after_clear(slots, id as int),
            _ => slots,
        }
    } else {
        slots
    }
}

/// The saved timeline position after `request` was taken in `state`.
pub open spec fn now_after_message(state: KernelState, saved: u64, request: KernelMessage) -> u64 {
    if standing(state, request) == Standing::Heard && request is NowSave {
        request->NowSave_0
    } else {
        saved
    }
}

/// The cache after `request` was taken in `state`. A put, taken or refused,
/// ends the kernel's view of its key.
pub open spec fn lines_after_message(
    state: KernelState,
    lines: Map<Seq<u8>, Line>,
    request: KernelMessage,
) -> Map<Seq<u8>, Line> {
    if standing(state, request) == Standing::Heard {
        match request {
            KernelMessage::CacheGetRequest { key } => after_get(lines, key@),
            KernelMessage::CachePutRequest { key, value } => after_release(
                after_put(lines, key@, value@),
                key@,
            ),
            _ => lines,
        }
    } else {
        lines
    }
}

/// `result` is the session's answer to `request`, taken at `now_ms` in
/// `state`, with `saved` as the saved timeline position, `lines` in the cache
/// and `slots` as the watchdogs. `Ok(None)` leaves the mailbox as it is.
pub open spec fn answered(
    state: KernelState,
    saved: u64,
    lines: Map<Seq<u8>, Line>,
    slots: Seq<Option<int>>,
    request: KernelMessage,
    result: Result<Option<KernelAction>, SessionError>,
) -> bool {
    match standing(state, request) {
        Standing::StandBy => result == Ok::<Option<KernelAction>, SessionError>(None),
        Standing::Refused => result == Err::<Option<KernelAction>, SessionError>(protocol_error()),
        Standing::Heard => match request {
            KernelMessage::Log(text) => result == Ok::<Option<KernelAction>, SessionError>(
                Some(KernelAction::Log(text)),
            ),
            KernelMessage::NowInitRequest => result == Ok::<Option<KernelAction>, SessionError>(
                Some(KernelAction::Send(KernelMessage::NowInitReply(saved))),
            ),
            KernelMessage::NowSave(_) => result == Ok::<Option<KernelAction>, SessionError>(
                Some(KernelAction::Acknowledge),
            ),
            KernelMessage::WatchdogSetRequest { ms } => if full(slots) {
                result == Err::<Option<KernelAction>, SessionError>(
                    error_of(ErrorKind::Other, "out of watchdogs"),
                )
            } else {
                result == Ok::<Option<KernelAction>, SessionError>(
                    Some(
                        KernelAction::Send(
                            KernelMessage::WatchdogSetReply { id: lowest_free(slots) as usize },
                        ),
                    ),
                )
            },
            KernelMessage::WatchdogClear { id } => result == Ok::<
                Option<KernelAction>,
                SessionError,
            >(Some(KernelAction::Acknowledge)),
            KernelMessage::CacheGetRequest { key } => {
                result matches Ok(Some(KernelAction::Send(KernelMessage::CacheGetReply { value })))
                    && value@ == words_of(lines, key@)
            },
            KernelMessage::CachePutRequest { key, value } => result == Ok::<
                Option<KernelAction>,
                SessionError,
            >(
                Some(
                    KernelAction::Send(
                        KernelMessage::CachePutReply { succeeded: !on_loan(lines, key@) },
                    ),
                ),
            ),
            KernelMessage::RpcRecvRequest { .. } => result == Ok::<
                Option<KernelAction>,
                SessionError,
            >(None),
            _ => result == Err::<Option<KernelAction>, SessionError>(protocol_error()),
        },
    }
}

/// Takes one message of the kernel CPU at `now_ms`. See `standing` for which
/// messages are heard; of those, each is answered as `answered` says, the
/// clock, the watchdogs and the cache follow the message, and a message that
/// only the session sends is a protocol error.
pub fn kern_handle(
    congress: &mut Congress,
    session: &mut Session,
    request: KernelMessage,
    now_ms: u64,
) -> (result: Result<Option<KernelAction>, SessionError>)
    requires
        old(congress).cache.wf(),
    ensures
        final(congress).cache.wf(),
        final(session).kernel_state == state_after_message(old(session).kernel_state, request),
        final(session).watchdog_set@ == slots_after_message(
            old(session).kernel_state,
            old(session).watchdog_set@,
            request,
            now_ms as int,
        ),
        final(congress).now == now_after_message(
            old(session).kernel_state,
            old(congress).now,
            request,
        ),
        final(congress).cache@ == lines_after_message(
            old(session).kernel_state,
            old(congress).cache@,
            request,
        ),
        answered(
            old(session).kernel_state,
            old(congress).now,
            old(congress).cache@,
            old(session).watchdog_set@,
            request,
            result,
        ),
{
    let standing_by = match (&request, session.kernel_state) {
        (KernelMessage::LoadReply { .. }, KernelState::Loaded) => true,
        (KernelMessage::RpcRecvRequest { .. }, KernelState::RpcWait) => true,
        _ => false,
    };
    if standing_by {
        return Ok(None);
    }
    match session.kernel_state {
        KernelState::Running => {},
        _ => {
            return Err(unexpected());
        },
    }
    match request {
        KernelMessage::Log(text) => Ok(Some(KernelAction::Log(text))),
        KernelMessage::NowInitRequest => Ok(
            Some(KernelAction::Send(KernelMessage::NowInitReply(congress.now))),
        ),
        KernelMessage::NowSave(now) => {
            congress.now = now;
            Ok(Some(KernelAction::Acknowledge))
        },
        KernelMessage::WatchdogSetRequest { ms } => {
            match session.watchdog_set.set_ms(now_ms, ms) {
                Ok(id) => Ok(Some(KernelAction::Send(KernelMessage::WatchdogSetReply { id }))),
                Err(_) => Err(io_error("out of watchdogs")),
            }
        },
        KernelMessage::WatchdogClear { id } => {
            session.watchdog_set.clear(id);
            Ok(Some(KernelAction::Acknowledge))
        },
        KernelMessage::CacheGetRequest { key } => {
            let value = congress.cache.get(key.as_slice());
            Ok(Some(KernelAction::Send(KernelMessage::CacheGetReply { value })))
        },
        KernelMessage::CachePutRequest { key, value } => {
            let succeeded = congress.cache.put(key.as_slice(), value.as_slice()).is_ok();
            congress.cache.release(key.as_slice());
            Ok(Some(KernelAction::Send(KernelMessage::CachePutReply { succeeded })))
        },
        KernelMessage::RpcRecvRequest { .. } => {
            session.kernel_state = KernelState::RpcWait;
            Ok(None)
        },
        _ => Err(unexpected()),
    }
}

/// How a session is ended from the device's side: the last reply to the host
/// and the error that the session returns.
#[derive(Debug, PartialEq, Eq)]
pub struct Ending {
    pub reply: HostReply,
    pub error: SessionError,
}

/// Why a running kernel's session must end at `now`, if it must: an expired
/// watchdog first, then a lost RTIO clock.
pub open spec fn verdict(
    state: KernelState,
    slots: Seq<Option<int>>,
    now: int,
    clock_ok: bool,
) -> Option<Ending> {
    if state != KernelState::Running {
        None
    } else if expired_at(slots, now) {
        Some(
            Ending {
                reply: HostReply::WatchdogExpired,
                error: error_of(ErrorKind::Other, "watchdog expired"),
            },
        )
    } else if !clock_ok {
        Some(
            Ending {
                reply: HostReply::ClockFailure,
                error: error_of(ErrorKind::Other, "RTIO clock failure"),
            },
        )
    } else {
        None
    }
}

/// Checks, at the end of a pass, whether a running kernel has let a watchdog
/// expire or has lost its clock.
pub fn supervise(session: &Session, now_ms: u64, clock_ok: bool) -> (ending: Option<Ending>)
    ensures
        ending == verdict(session.kernel_state, session.watchdog_set@, now_ms as int, clock_ok),
{
    match session.kernel_state {
        KernelState::Running => {
            if session.watchdog_set.expired(now_ms) {
                Some(Ending { reply: HostReply::WatchdogExpired, error: io_error("watchdog expired") })
            } else if !clock_ok {
                Some(Ending { reply: HostReply::ClockFailure, error: io_error("RTIO clock failure") })
            } else {
                None
            }
        },
        _ => None,
    }
}

} // verus!
