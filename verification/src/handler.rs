//! One connection as a state machine. The driver performs the action that is
//! out and hands back what came of it as an event; `handle` takes the event,
//! moves the session on and says what to do next. The order of a pass is the
//! host first, then the mailbox, then the watchdogs and the clock of a running
//! kernel, then a yield to the other tasks.

use vstd::prelude::*;
use crate::error::{protocol_error, unexpected, ErrorKind, SessionError};
use crate::proto::{Call, CallKind, HostReply, HostRequest, KernelAction, KernelMessage, Outcome};
use crate::session::{
    answered,
    check_magic,
    comm_handle,
    comm_reply,
    host_step,
    kern_handle,
    lines_after_message,
    magic,
    now_after_message,
    replied,
    slots_after_message,
    state_after_message,
    state_after_outcome,
    state_after_request,
    supervise,
    verdict,
    Congress,
    HostStep,
    KernelState,
    Session,
};
use crate::error::error_of;

verus! {

/// The TCP port on which sessions are accepted.
pub const SESSION_PORT: u16 = 1381;

/// Which action of the connection is out.
#[derive(Clone, Copy, Debug, PartialEq, Eq)]
pub enum Stage {
    /// The opening bytes are being read.
    Magic,
    /// The stream is asked whether a request can be read.
    Host,
    /// A request is being read.
    Request,
    /// The board works on a call of the given kind.
    Calling(CallKind),
    /// The answer to a host request is being written or handed to the kernel.
    Served,
    /// The mailbox is asked whether it holds a message.
    Mailbox,
    /// A message is being taken from the mailbox.
    Message,
    /// The answer to a kernel message is being carried out.
    Answered,
    /// The clock is being read and the RTIO clock checked.
    Watch,
    /// The last reply is being written; the session then ends with the error.
    Closing(SessionError),
    /// The task has yielded.
    Yield,
    /// The session has ended with the error.
    Closed(SessionError),
}

/// One connection: where its pass stands, and the session.
#[derive(Clone, Copy, Debug, PartialEq, Eq)]
pub struct Link {
    pub stage: Stage,
    pub session: Session,
}

/// What came of the action that was out.
#[derive(Debug, PartialEq, Eq)]
pub enum Event {
    /// The opening bytes of the connection.
    Opening(Vec<u8>),
    /// Whether a request can be read without waiting.
    Readable(bool),
    /// The request that was read.
    Request(HostRequest),
    /// What the board did for the call.
    Outcome(Outcome),
    /// Whether the mailbox holds a message.
    Pending(bool),
    /// The message in the mailbox, and the time in milliseconds at which it was taken.
    Message { message: KernelMessage, now_ms: u64 },
    /// The time in milliseconds, and whether the RTIO clock is locked.
    Health { now_ms: u64, clock_ok: bool },
    /// The action is done and has nothing to report.
    Done,
    /// The action failed.
    Failed(SessionError),
}

/// What the driver is to do next.
#[derive(Debug, PartialEq, Eq)]
pub enum Action {
    /// Read exactly fourteen bytes from the stream.
    ReadOpening,
    /// Ask the stream whether a byte can be read without waiting.
    PollStream,
    /// Read one request from the stream.
    ReadRequest,
    /// Have the board do this.
    Call(Call),
    /// Write this reply to the stream.
    Write(HostReply),
    /// Do this towards the kernel CPU.
    Kernel(KernelAction),
    /// Ask whether the mailbox holds a message.
    PollMailbox,
    /// Take the message from the mailbox.
    Receive,
    /// Read the clock and check the RTIO clock.
    Supervise,
    /// Yield to the other tasks.
    Relinquish,
    /// Stop the kernel CPU and drop the connection; the session ended with this error.
    Close(SessionError),
}

/// The stage and the action that end a pass in the given kernel state: a
/// running kernel is supervised before the task yields.
pub open spec fn pass_end(state: KernelState) -> (Stage, Action) {
    if state == KernelState::Running {
        (Stage::Watch, Action::Supervise)
    } else {
        (Stage::Yield, Action::Relinquish)
    }
}

/// Nothing of a session is left in `session`: no kernel, no watchdog.
pub open spec fn released(session: Session) -> bool {
    &&& session.kernel_state == KernelState::Absent
    &&& session.watchdog_set@ == Seq::new(16, |i: int| None::<int>)
}

/// The step ends the session with `error`: the driver is told to stop the
/// kernel CPU and to close, the watchdogs are released, and the lasting state
/// is as it was.
pub open spec fn closed_with(
    before: Link,
    congress: Congress,
    after: Link,
    congress_after: Congress,
    action: Action,
    error: SessionError,
) -> bool {
    &&& released(after.session)
    &&& after.stage == Stage::Closed(error)
    &&& congress_after == congress
    &&& action == Action::Close(error)
}

/// The step goes on to `stage` with `action` and changes nothing else.
pub open spec fn moved_to(
    before: Link,
    congress: Congress,
    after: Link,
    congress_after: Congress,
    action: Action,
    stage: Stage,
    next: Action,
) -> bool {
    &&& after.session == before.session
    &&& after.stage == stage
    &&& congress_after == congress
    &&& action == next
}

/// The step from `before` and `congress` on `event` leads to `after` and
/// `congress_after` and asks for `action`.
pub open spec fn handled(
    before: Link,
    congress: Congress,
    event: Event,
    after: Link,
    congress_after: Congress,
    action: Action,
) -> bool {
    if before.stage is Closed {
        &&& after == before
        &&& congress_after == congress
        &&& action == Action::Close(before.stage->Closed_0)
    } else if event is Failed {
        closed_with(before, congress, after, congress_after, action, event->Failed_0)
    } else {
        match (before.stage, event) {
            (Stage::Magic, Event::Opening(bytes)) => if bytes@ == magic() {
                moved_to(
                    before,
                    congress,
                    after,
                    congress_after,
                    action,
                    Stage::Host,
                    Action::PollStream,
                )
            } else {
                closed_with(
                    before,
                    congress,
                    after,
                    congress_after,
                    action,
                    error_of(ErrorKind::InvalidData, "unrecognized magic"),
                )
            },
            (Stage::Host, Event::Readable(readable)) => if readable {
                moved_to(
                    before,
                    congress,
                    after,
                    congress_after,
                    action,
                    Stage::Request,
                    Action::ReadRequest,
                )
            } else {
                moved_to(
                    before,
                    congress,
                    after,
                    congress_after,
                    action,
                    Stage::Mailbox,
                    Action::PollMailbox,
                )
            },
            (Stage::Request, Event::Request(request)) => match host_step(
                before.session.kernel_state,
                request,
            ) {
                None => closed_with(
                    before,
                    congress,
                    after,
                    congress_after,
                    action,
                    protocol_error(),
                ),
                Some(step) => {
                    &&& congress_after == congress
                    &&& after.session.watchdog_set == before.session.watchdog_set
                    &&& after.session.kernel_state == state_after_request(
                        before.session.kernel_state,
                        request,
                    )
                    &&& match step {
                        HostStep::Reply(reply) => after.stage == Stage::Served && action
                            == Action::Write(reply),
                        HostStep::Call(call) => after.stage == Stage::Calling(call.kind())
                            && action == Action::Call(call),
                        HostStep::Kernel(towards) => after.stage == Stage::Served && action
                            == Action::Kernel(towards),
                    }
                },
            },
            (Stage::Calling(kind), Event::Outcome(outcome)) => if outcome.kind() == kind {
                match action {
                    Action::Write(reply) => {
                        &&& congress_after == congress
                        &&& after.session.watchdog_set == before.session.watchdog_set
                        &&& after.session.kernel_state == state_after_outcome(
                            before.session.kernel_state,
                            outcome,
                        )
                        &&& after.stage == Stage::Served
                        &&& replied(before.session.kernel_state, outcome, Ok(reply))
                    },
                    Action::Close(error) => {
                        &&& closed_with(before, congress, after, congress_after, action, error)
                        &&& replied(before.session.kernel_state, outcome, Err(error))
                    },
                    _ => false,
                }
            } else {
                closed_with(before, congress, after, congress_after, action, protocol_error())
            },
            (Stage::Served, Event::Done) => moved_to(
                before,
                congress,
                after,
                congress_after,
                action,
                Stage::Mailbox,
                Action::PollMailbox,
            ),
            (Stage::Mailbox, Event::Pending(pending)) => if pending {
                moved_to(
                    before,
                    congress,
                    after,
                    congress_after,
                    action,
                    Stage::Message,
                    Action::Receive,
                )
            } else {
                moved_to(
                    before,
                    congress,
                    after,
                    congress_after,
                    action,
                    pass_end(before.session.kernel_state).0,
                    pass_end(before.session.kernel_state).1,
                )
            },
            (Stage::Message, Event::Message { message, now_ms }) => {
                &&& if action is Close {
                    released(after.session)
                } else {
                    &&& after.session.kernel_state == state_after_message(
                        before.session.kernel_state,
                        message,
                    )
                    &&& after.session.watchdog_set@ == slots_after_message(
                        before.session.kernel_state,
                        before.session.watchdog_set@,
                        message,
                        now_ms as int,
                    )
                }
                &&& congress_after.now == now_after_message(
                    before.session.kernel_state,
                    congress.now,
                    message,
                )
                &&& congress_after.cache@ == lines_after_message(
                    before.session.kernel_state,
                    congress.cache@,
                    message,
                )
                &&& match action {
                    Action::Kernel(towards) => after.stage == Stage::Answered && answered(
                        before.session.kernel_state,
                        congress.now,
                        congress.cache@,
                        before.session.watchdog_set@,
                        message,
                        Ok(Some(towards)),
                    ),
                    Action::Close(error) => after.stage == Stage::Closed(error) && answered(
                        before.session.kernel_state,
                        congress.now,
                        congress.cache@,
                        before.session.watchdog_set@,
                        message,
                        Err(error),
                    ),
                    _ => (after.stage, action) == pass_end(after.session.kernel_state) && answered(
                        before.session.kernel_state,
                        congress.now,
                        congress.cache@,
                        before.session.watchdog_set@,
                        message,
                        Ok(None),
                    ),
                }
            },
            (Stage::Answered, Event::Done) => moved_to(
                before,
                congress,
                after,
                congress_after,
                action,
                pass_end(before.session.kernel_state).0,
                pass_end(before.session.kernel_state).1,
            ),
            (Stage::Watch, Event::Health { now_ms, clock_ok }) => match verdict(
                before.session.kernel_state,
                before.session.watchdog_set@,
                now_ms as int,
                clock_ok,
            ) {
                Some(ending) => moved_to(
                    before,
                    congress,
                    after,
                    congress_after,
                    action,
                    Stage::Closing(ending.error),
                    Action::Write(ending.reply),
                ),
                None => moved_to(
                    before,
                    congress,
                    after,
                    congress_after,
                    action,
                    Stage::Yield,
                    Action::Relinquish,
                ),
            },
            (Stage::Closing(error), Event::Done) => closed_with(
                before,
                congress,
                after,
                congress_after,
                action,
                error,
            ),
            (Stage::Yield, Event::Done) => moved_to(
                before,
                congress,
                after,
                congress_after,
                action,
                Stage::Host,
                Action::PollStream,
            ),
            _ => closed_with(before, congress, after, congress_after, action, protocol_error()),
        }
    }
}

impl Link {
    /// A connection that was just accepted, and the first thing to do on it:
    /// read the opening bytes.
    pub fn open() -> (opened: (Link, Action))
        ensures
            opened.0.stage == Stage::Magic,
            opened.0.session.kernel_state == KernelState::Absent,
            opened.0.session.watchdog_set@ == Seq::new(16, |i: int| None::<int>),
            opened.1 == Action::ReadOpening,
    {
        (Link { stage: Stage::Magic, session: Session::new() }, Action::ReadOpening)
    }

    /// Ends the session with `error` and lets go of what it held.
    fn close(&mut self, error: SessionError) -> (action: Action)
        ensures
            released(final(self).session),
            final(self).stage == Stage::Closed(error),
            action == Action::Close(error),
    {
        self.session = Session::new();
        self.stage = Stage::Closed(error);
        Action::Close(error)
    }

    /// Ends the pass: supervises a running kernel, yields otherwise.
    fn end_pass(&mut self) -> (action: Action)
        ensures
            final(self).session == old(self).session,
            (final(self).stage, action) == pass_end(old(self).session.kernel_state),
    {
        match self.session.kernel_state {
            KernelState::Running => {
                self.stage = Stage::Watch;
                Action::Supervise
            },
            _ => {
                self.stage = Stage::Yield;
                Action::Relinquish
            },
        }
    }
}

/// Takes what came of the last action and says what to do next. An event
/// that does not answer the action that is out ends the session as a protocol
/// error; a failed action ends it with its error. A session that ends lets go
/// of its kernel and its watchdogs, and from then on asks for nothing but to
/// be closed.
pub fn handle(link: &mut Link, congress: &mut Congress, event: Event) -> (action: Action)
    requires
        old(congress).cache.wf(),
    ensures
        final(congress).cache.wf(),
        handled(*old(link), *old(congress), event, *final(link), *final(congress), action),
{
    let stage = link.stage;
    if let Stage::Closed(error) = stage {
        return Action::Close(error);
    }
    if let Event::Failed(error) = event {
        return link.close(error);
    }
    match (stage, event) {
        (Stage::Magic, Event::Opening(bytes)) => {
            match check_magic(bytes.as_slice()) {
                Ok(_) => {
                    link.stage = Stage::Host;
                    Action::PollStream
                },
                Err(error) => link.close(error),
            }
        },
        (Stage::Host, Event::Readable(readable)) => {
            if readable {
                link.stage = Stage::Request;
                Action::ReadRequest
            } else {
                link.stage = Stage::Mailbox;
                Action::PollMailbox
            }
        },
        (Stage::Request, Event::Request(request)) => {
            let mut session = link.session;
            let step = comm_handle(&mut session, request);
            link.session = session;
            match step {
                Ok(HostStep::Reply(reply)) => {
                    link.stage = Stage::Served;
                    Action::Write(reply)
                },
                Ok(HostStep::Call(call)) => {
                    link.stage = Stage::Calling(call.kind());
                    Action::Call(call)
                },
                Ok(HostStep::Kernel(towards)) => {
                    link.stage = Stage::Served;
                    Action::Kernel(towards)
                },
                Err(error) => link.close(error),
            }
        },
        (Stage::Calling(kind), Event::Outcome(outcome)) => {
            if outcome.kind() == kind {
                let mut session = link.session;
                let reply = comm_reply(&mut session, outcome);
                link.session = session;
                match reply {
                    Ok(reply) => {
                        link.stage = Stage::Served;
                        Action::Write(reply)
                    },
                    Err(error) => link.close(error),
                }
            } else {
                link.close(unexpected())
            }
        },
        (Stage::Served, Event::Done) => {
            link.stage = Stage::Mailbox;
            Action::PollMailbox
        },
        (Stage::Mailbox, Event::Pending(pending)) => {
            if pending {
                link.stage = Stage::Message;
                Action::Receive
            } else {
                link.end_pass()
            }
        },
        (Stage::Message, Event::Message { message, now_ms }) => {
            let mut session = link.session;
            let answer = kern_handle(congress, &mut session, message, now_ms);
            link.session = session;
            match answer {
                Ok(Some(towards)) => {
                    link.stage = Stage::Answered;
                    Action::Kernel(towards)
                },
                Ok(None) => link.end_pass(),
                Err(error) => link.close(error),
            }
        },
        (Stage::Answered, Event::Done) => link.end_pass(),
        (Stage::Watch, Event::Health { now_ms, clock_ok }) => {
            match supervise(&link.session, now_ms, clock_ok) {
                Some(ending) => {
                    link.stage = Stage::Closing(ending.error);
                    Action::Write(ending.reply)
                },
                None => {
                    link.stage = Stage::Yield;
                    Action::Relinquish
                },
            }
        },
        (Stage::Closing(error), Event::Done) => link.close(error),
        (Stage::Yield, Event::Done) => {
            link.stage = Stage::Host;
            Action::PollStream
        },
        _ => link.close(unexpected()),
    }
}

/// How the listener takes leave of a session.
#[derive(Clone, Copy, Debug, PartialEq, Eq)]
pub enum Farewell {
    /// The peer closed the connection: worth a note in the log.
    ConnectionClosed,
    /// The session was aborted by the error: logged as an error.
    Aborted(SessionError),
}

/// What the listener logs for the result of a session before it accepts the
/// next connection; nothing for a session that ended without an error.
pub open spec fn farewell_of(result: Result<(), SessionError>) -> Option<Farewell> {
    match result {
        Ok(_) => None,
        Err(error) => if error.kind == ErrorKind::UnexpectedEof {
            Some(Farewell::ConnectionClosed)
        } else {
            Some(Farewell::Aborted(error))
        },
    }
}

/// Tells an orderly end of a session, by the peer closing, from an abort.
pub fn handler(result: Result<(), SessionError>) -> (farewell: Option<Farewell>)
    ensures
        farewell == farewell_of(result),
{
    match result {
        Ok(_) => None,
        Err(error) => {
            match error.kind {
                ErrorKind::UnexpectedEof => Some(Farewell::ConnectionClosed),
                _ => Some(Farewell::Aborted(error)),
            }
        },
    }
}

} // verus!
