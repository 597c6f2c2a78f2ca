//! What holds of every session, whatever the host and the kernel send.

use vstd::prelude::*;
use crate::cache::{lemma_put_then_get, on_loan, Line};
use crate::error::{error_of, ErrorKind, SessionError};
use crate::handler::{handled, released, Action, Event, Link, Stage};
use crate::proto::{HostReply, HostRequest, KernelAction, KernelMessage, Outcome};
use crate::session::{
    answered,
    host_step,
    lines_after_message,
    magic,
    state_after_request,
    Congress,
    HostStep,
    KernelState,
};
use crate::watchdog::{armed, expired_at, lemma_lowest_free};

verus! {

/// The kernel state may go from `from` to `to`: a kernel is loaded, a loaded
/// kernel is started, a running kernel waits for the host, a waiting kernel
/// runs again.
pub open spec fn edge(from: KernelState, to: KernelState) -> bool {
    ||| from == KernelState::Absent && to == KernelState::Loaded
    ||| from == KernelState::Loaded && to == KernelState::Running
    ||| from == KernelState::Running && to == KernelState::RpcWait
    ||| from == KernelState::RpcWait && to == KernelState::Running
}

/// The request cannot be served in the given state.
pub open spec fn incompatible(state: KernelState, request: HostRequest) -> bool {
    match request {
        HostRequest::SwitchClock(_) => state.is_running(),
        HostRequest::LoadLibrary(_) => state.is_running(),
        HostRequest::RunKernel => state != KernelState::Loaded,
        HostRequest::RpcReply(_) => !state.is_running(),
        HostRequest::RpcException(_) => !state.is_running(),
        _ => false,
    }
}

/// A connection that opens with anything but the magic is closed as invalid
/// data at once, and no byte more is asked of it.
pub proof fn lemma_magic_gate(
    before: Link,
    congress: Congress,
    opening: Vec<u8>,
    after: Link,
    congress_after: Congress,
    action: Action,
)
    requires
        before.stage == Stage::Magic,
        opening@ != magic(),
        handled(before, congress, Event::Opening(opening), after, congress_after, action),
    ensures
        action == Action::Close(error_of(ErrorKind::InvalidData, "unrecognized magic")),
        after.stage == Stage::Closed(error_of(ErrorKind::InvalidData, "unrecognized magic")),
        congress_after == congress,
{
}

/// A session that has ended stays ended: whatever is handed to it, it asks
/// only to be closed, and neither it nor the lasting state changes.
pub proof fn lemma_closed_stays_closed(
    before: Link,
    congress: Congress,
    event: Event,
    after: Link,
    congress_after: Congress,
    action: Action,
)
    requires
        before.stage is Closed,
        handled(before, congress, event, after, congress_after, action),
    ensures
        action == Action::Close(before.stage->Closed_0),
        after == before,
        congress_after == congress,
{
}

/// Every step of a session that goes on leaves the kernel state as it was or
/// moves it along one edge, and each edge has its one cause: the kernel CPU
/// took a library, the host asked to run the kernel, the kernel asked for the
/// answer to a remote call, the host answered it. The step that ends a
/// session stops the kernel.
pub proof fn lemma_state_transitions(
    before: Link,
    congress: Congress,
    event: Event,
    after: Link,
    congress_after: Congress,
    action: Action,
)
    requires
        handled(before, congress, event, after, congress_after, action),
    ensures
        after.stage is Closed || after.session.kernel_state == before.session.kernel_state || edge(
            before.session.kernel_state,
            after.session.kernel_state,
        ),
        after.stage is Closed && !(before.stage is Closed) ==> released(after.session),
        after.session.kernel_state != before.session.kernel_state && !(after.stage is Closed)
            ==> match after.session.kernel_state {
            KernelState::Absent => false,
            KernelState::Loaded => {
                &&& before.stage is Calling
                &&& event == Event::Outcome(
                    Outcome::KernelReplied(KernelMessage::LoadReply { error: None }),
                )
                &&& action == Action::Write(HostReply::LoadCompleted)
            },
            KernelState::Running => if before.session.kernel_state == KernelState::Loaded {
                &&& before.stage == Stage::Request
                &&& event == Event::Request(HostRequest::RunKernel)
                &&& action == Action::Kernel(KernelAction::Acknowledge)
            } else {
                &&& before.stage == Stage::Request
                &&& event is Request
                &&& (event->Request_0 is RpcReply || event->Request_0 is RpcException)
            },
            KernelState::RpcWait => {
                &&& before.stage == Stage::Message
                &&& event is Message
                &&& event->message is RpcRecvRequest
            },
        },
{
}

/// A request that the state forbids changes nothing: switching the clock or
/// loading a library while a kernel runs, and running a kernel that is not
/// loaded, are answered with their failure reply; an answer to a remote call
/// that no started kernel can take is a protocol error.
pub proof fn lemma_refused_request(state: KernelState, request: HostRequest)
    requires
        incompatible(state, request),
    ensures
        state_after_request(state, request) == state,
        match request {
            HostRequest::SwitchClock(_) => host_step(state, request) == Some(
                HostStep::Reply(HostReply::ClockSwitchFailed),
            ),
            HostRequest::LoadLibrary(_) => host_step(state, request) == Some(
                HostStep::Reply(HostReply::LoadFailed),
            ),
            HostRequest::RunKernel => host_step(state, request) == Some(
                HostStep::Reply(HostReply::KernelStartupFailed),
            ),
            _ => host_step(state, request) is None,
        },
{
}

/// A request that the state allows is never answered with a failure reply of
/// the session's own making.
pub proof fn lemma_served_request(state: KernelState, request: HostRequest)
    requires
        !incompatible(state, request),
    ensures
        host_step(state, request) is Some,
        !(host_step(state, request)->0 is Reply),
{
}

/// An armed watchdog keeps its deadline through every step of a session that
/// goes on, but the one in which the running kernel clears it.
pub proof fn lemma_watchdog_kept(
    before: Link,
    congress: Congress,
    event: Event,
    after: Link,
    congress_after: Congress,
    action: Action,
    id: int,
)
    requires
        handled(before, congress, event, after, congress_after, action),
        armed(before.session.watchdog_set@, id),
        !(after.stage is Closed),
        !(before.stage == Stage::Message && before.session.kernel_state == KernelState::Running
            && event is Message && event->message == (KernelMessage::WatchdogClear {
            id: id as usize,
        })),
    ensures
        armed(after.session.watchdog_set@, id),
        after.session.watchdog_set@[id] == before.session.watchdog_set@[id],
{
    lemma_lowest_free(before.session.watchdog_set@);
}

/// While a kernel runs, a watchdog whose deadline has passed ends the session
/// at the next check: the host is told that a watchdog expired, and once that
/// is written the session is closed with that error.
pub proof fn lemma_expired_watchdog_ends_session(
    before: Link,
    congress: Congress,
    now_ms: u64,
    clock_ok: bool,
    id: int,
    after: Link,
    congress_after: Congress,
    action: Action,
    last: Link,
    congress_last: Congress,
    last_action: Action,
)
    requires
        before.stage == Stage::Watch,
        before.session.kernel_state == KernelState::Running,
        armed(before.session.watchdog_set@, id),
        before.session.watchdog_set@[id]->0 <= now_ms,
        handled(before, congress, Event::Health { now_ms, clock_ok }, after, congress_after, action),
        handled(after, congress_after, Event::Done, last, congress_last, last_action),
    ensures
        action == Action::Write(HostReply::WatchdogExpired),
        last_action == Action::Close(error_of(ErrorKind::Other, "watchdog expired")),
        last.stage == Stage::Closed(error_of(ErrorKind::Other, "watchdog expired")),
{
    assert(expired_at(before.session.watchdog_set@, now_ms as int));
}

/// A pass never yields with a kernel running before the watchdogs were
/// checked: in the running state, the mailbox step and the step after an
/// answer to the kernel lead to the check.
pub proof fn lemma_running_pass_is_supervised(
    before: Link,
    congress: Congress,
    event: Event,
    after: Link,
    congress_after: Congress,
    action: Action,
)
    requires
        handled(before, congress, event, after, congress_after, action),
        after.stage == Stage::Yield,
    ensures
        before.stage == Stage::Watch || after.session.kernel_state != KernelState::Running,
{
}

/// What a kernel stored under a key that was not on loan is exactly what its
/// next read of that key is sent.
pub proof fn lemma_cache_round_trip(
    saved: u64,
    lines: Map<Seq<u8>, Line>,
    slots: Seq<Option<int>>,
    key: Vec<u8>,
    value: Vec<u32>,
    put: Result<Option<KernelAction>, SessionError>,
    get: Result<Option<KernelAction>, SessionError>,
)
    requires
        !on_loan(lines, key@),
        answered(
            KernelState::Running,
            saved,
            lines,
            slots,
            KernelMessage::CachePutRequest { key, value },
            put,
        ),
        answered(
            KernelState::Running,
            saved,
            lines_after_message(
                KernelState::Running,
                lines,
                KernelMessage::CachePutRequest { key, value },
            ),
            slots,
            KernelMessage::CacheGetRequest { key },
            get,
        ),
    ensures
        put == Ok::<Option<KernelAction>, SessionError>(
            Some(KernelAction::Send(KernelMessage::CachePutReply { succeeded: true })),
        ),
        get matches Ok(Some(KernelAction::Send(KernelMessage::CacheGetReply { value: read })))
            && read@ == value@,
{
    lemma_put_then_get(lines, key@, value@);
}

/// The lasting state belongs to no session: a step changes it only when a
/// running kernel saves its time or uses the cache. Opening a connection,
/// serving the host, and ending a session, however it ends, leave the saved
/// time and the cache as they were.
pub proof fn lemma_congress_survives(
    before: Link,
    congress: Congress,
    event: Event,
    after: Link,
    congress_after: Congress,
    action: Action,
)
    requires
        handled(before, congress, event, after, congress_after, action),
    ensures
        congress_after.now != congress.now ==> before.stage == Stage::Message
            && before.session.kernel_state == KernelState::Running && event is Message
            && event->message is NowSave,
        congress_after.cache@ != congress.cache@ ==> before.stage == Stage::Message
            && before.session.kernel_state == KernelState::Running && event is Message && (
        event->message is CacheGetRequest || event->message is CachePutRequest),
        after.stage is Closed ==> congress_after.now == congress.now && congress_after.cache@
            == congress.cache@,
{
}

} // verus!
