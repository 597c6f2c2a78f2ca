use runtime::error::{ErrorKind, SessionError};
use runtime::handler::{handle, handler, Action, Event, Farewell, Link, Stage, SESSION_PORT};
use runtime::proto::{
    Call, CallKind, HostReply, HostRequest, KernelAction, KernelMessage, Outcome, RpcAnswer,
};
use runtime::session::{Congress, KernelState};

const MAGIC: &[u8] = b"ARTIQ coredev\n";

fn error(kind: ErrorKind, message: &'static str) -> SessionError {
    SessionError { kind, message }
}

/// A link whose magic was accepted and which is asked whether the stream is readable.
fn opened(congress: &mut Congress) -> Link {
    let (mut link, first) = Link::open();
    assert_eq!(first, Action::ReadOpening);
    assert_eq!(handle(&mut link, congress, Event::Opening(MAGIC.to_vec())), Action::PollStream);
    link
}

/// Hands one request to a link that polls the stream and returns the action for it.
fn request(link: &mut Link, congress: &mut Congress, request: HostRequest) -> Action {
    assert_eq!(link.stage, Stage::Host);
    assert_eq!(handle(link, congress, Event::Readable(true)), Action::ReadRequest);
    handle(link, congress, Event::Request(request))
}

/// Finishes a pass in which the mailbox is empty, for a kernel that does not run.
fn idle_rest_of_pass(link: &mut Link, congress: &mut Congress) {
    assert_eq!(handle(link, congress, Event::Done), Action::PollMailbox);
    assert_eq!(handle(link, congress, Event::Pending(false)), Action::Relinquish);
    assert_eq!(handle(link, congress, Event::Done), Action::PollStream);
}

/// Brings a link to a running kernel, at the point where the stream is polled.
fn running(congress: &mut Congress) -> Link {
    let mut link = opened(congress);
    assert_eq!(
        request(&mut link, congress, HostRequest::LoadLibrary(vec![1, 2, 3])),
        Action::Call(Call::LoadKernel(vec![1, 2, 3]))
    );
    assert_eq!(
        handle(
            &mut link,
            congress,
            Event::Outcome(Outcome::KernelReplied(KernelMessage::LoadReply { error: None }))
        ),
        Action::Write(HostReply::LoadCompleted)
    );
    idle_rest_of_pass(&mut link, congress);
    assert_eq!(link.session.kernel_state, KernelState::Loaded);
    assert_eq!(
        request(&mut link, congress, HostRequest::RunKernel),
        Action::Kernel(KernelAction::Acknowledge)
    );
    assert_eq!(link.session.kernel_state, KernelState::Running);
    assert_eq!(handle(&mut link, congress, Event::Done), Action::PollMailbox);
    assert_eq!(handle(&mut link, congress, Event::Pending(false)), Action::Supervise);
    assert_eq!(
        handle(&mut link, congress, Event::Health { now_ms: 0, clock_ok: true }),
        Action::Relinquish
    );
    assert_eq!(handle(&mut link, congress, Event::Done), Action::PollStream);
    link
}

#[test]
fn sessions_are_served_on_port_1381() {
    assert_eq!(SESSION_PORT, 1381);
}

#[test]
fn ident_is_answered_and_the_connection_stays_open() {
    let mut congress = Congress::new();
    let mut link = opened(&mut congress);
    assert_eq!(request(&mut link, &mut congress, HostRequest::Ident), Action::Call(Call::Ident));
    assert_eq!(link.stage, Stage::Calling(CallKind::Ident));
    assert_eq!(
        handle(&mut link, &mut congress, Event::Outcome(Outcome::Ident("kasli;v1.1".to_string()))),
        Action::Write(HostReply::Ident("kasli;v1.1".to_string()))
    );
    idle_rest_of_pass(&mut link, &mut congress);
    assert_eq!(link.stage, Stage::Host);
}

#[test]
fn flash_read_returns_what_was_written() {
    let mut congress = Congress::new();
    let mut link = opened(&mut congress);
    let mut store: Vec<(String, Vec<u8>)> = Vec::new();
    let value = b"02:00:00:00:00:AA".to_vec();

    let action = request(
        &mut link,
        &mut congress,
        HostRequest::FlashWrite { key: "mac".to_string(), value: value.clone() },
    );
    match action {
        Action::Call(Call::FlashWrite { key, value }) => store.push((key, value)),
        other => panic!("unexpected action {:?}", other),
    }
    assert_eq!(
        handle(&mut link, &mut congress, Event::Outcome(Outcome::FlashWritten(true))),
        Action::Write(HostReply::FlashOk)
    );
    idle_rest_of_pass(&mut link, &mut congress);

    let action = request(&mut link, &mut congress, HostRequest::FlashRead { key: "mac".to_string() });
    let read = match action {
        Action::Call(Call::FlashRead { key }) => {
            store.iter().find(|(k, _)| *k == key).map(|(_, v)| v.clone()).unwrap_or_default()
        }
        other => panic!("unexpected action {:?}", other),
    };
    assert_eq!(
        handle(&mut link, &mut congress, Event::Outcome(Outcome::FlashValue(read))),
        Action::Write(HostReply::FlashRead(value))
    );
}

#[test]
fn flash_write_failure_is_reported() {
    let mut congress = Congress::new();
    let mut link = opened(&mut congress);
    request(&mut link, &mut congress, HostRequest::FlashWrite { key: "k".to_string(), value: vec![] });
    assert_eq!(
        handle(&mut link, &mut congress, Event::Outcome(Outcome::FlashWritten(false))),
        Action::Write(HostReply::FlashError)
    );
}

#[test]
fn loaded_kernel_runs_and_then_guards_the_clock() {
    let mut congress = Congress::new();
    let mut link = running(&mut congress);
    assert_eq!(link.session.kernel_state, KernelState::Running);
    assert_eq!(
        request(&mut link, &mut congress, HostRequest::SwitchClock(1)),
        Action::Write(HostReply::ClockSwitchFailed)
    );
}

#[test]
fn switch_clock_while_running_fails_and_keeps_the_state() {
    let mut congress = Congress::new();
    let mut link = running(&mut congress);
    assert_eq!(
        request(&mut link, &mut congress, HostRequest::SwitchClock(0)),
        Action::Write(HostReply::ClockSwitchFailed)
    );
    assert_eq!(link.session.kernel_state, KernelState::Running);
    assert_eq!(link.stage, Stage::Served);
}

#[test]
fn uncleared_watchdog_ends_the_session_and_the_next_is_served() {
    let mut congress = Congress::new();
    let mut link = running(&mut congress);
    assert_eq!(handle(&mut link, &mut congress, Event::Readable(false)), Action::PollMailbox);
    assert_eq!(handle(&mut link, &mut congress, Event::Pending(true)), Action::Receive);
    assert_eq!(
        handle(
            &mut link,
            &mut congress,
            Event::Message { message: KernelMessage::WatchdogSetRequest { ms: 10 }, now_ms: 1000 }
        ),
        Action::Kernel(KernelAction::Send(KernelMessage::WatchdogSetReply { id: 0 }))
    );
    assert_eq!(handle(&mut link, &mut congress, Event::Done), Action::Supervise);
    assert_eq!(
        handle(&mut link, &mut congress, Event::Health { now_ms: 1009, clock_ok: true }),
        Action::Relinquish
    );
    assert_eq!(handle(&mut link, &mut congress, Event::Done), Action::PollStream);
    assert_eq!(handle(&mut link, &mut congress, Event::Readable(false)), Action::PollMailbox);
    assert_eq!(handle(&mut link, &mut congress, Event::Pending(false)), Action::Supervise);
    assert_eq!(
        handle(&mut link, &mut congress, Event::Health { now_ms: 1010, clock_ok: true }),
        Action::Write(HostReply::WatchdogExpired)
    );
    let expired = error(ErrorKind::Other, "watchdog expired");
    assert_eq!(handle(&mut link, &mut congress, Event::Done), Action::Close(expired));
    assert_eq!(handler(Err(expired)), Some(Farewell::Aborted(expired)));

    let next = opened(&mut congress);
    assert_eq!(next.stage, Stage::Host);
    assert_eq!(next.session.kernel_state, KernelState::Absent);
    assert!(!next.session.watchdog_set.expired(u64::MAX));
}

#[test]
fn clock_failure_ends_a_running_session() {
    let mut congress = Congress::new();
    let mut link = running(&mut congress);
    assert_eq!(handle(&mut link, &mut congress, Event::Readable(false)), Action::PollMailbox);
    assert_eq!(handle(&mut link, &mut congress, Event::Pending(false)), Action::Supervise);
    assert_eq!(
        handle(&mut link, &mut congress, Event::Health { now_ms: 5, clock_ok: false }),
        Action::Write(HostReply::ClockFailure)
    );
    assert_eq!(
        handle(&mut link, &mut congress, Event::Done),
        Action::Close(error(ErrorKind::Other, "RTIO clock failure"))
    );
}

#[test]
fn bad_magic_closes_and_the_next_connection_is_served() {
    let mut congress = Congress::new();
    let (mut link, _) = Link::open();
    let refused = error(ErrorKind::InvalidData, "unrecognized magic");
    assert_eq!(
        handle(&mut link, &mut congress, Event::Opening(b"HTTP/1.1 GET\r\n".to_vec())),
        Action::Close(refused)
    );
    assert_eq!(link.stage, Stage::Closed(refused));
    assert_eq!(handle(&mut link, &mut congress, Event::Readable(true)), Action::Close(refused));
    assert_eq!(handle(&mut link, &mut congress, Event::Request(HostRequest::Ident)), Action::Close(refused));
    assert_eq!(handler(Err(refused)), Some(Farewell::Aborted(refused)));

    let mut next = opened(&mut congress);
    assert_eq!(request(&mut next, &mut congress, HostRequest::Ident), Action::Call(Call::Ident));
}

#[test]
fn peer_closing_is_an_orderly_end() {
    let mut congress = Congress::new();
    let mut link = opened(&mut congress);
    assert_eq!(handle(&mut link, &mut congress, Event::Readable(true)), Action::ReadRequest);
    let eof = error(ErrorKind::UnexpectedEof, "failed to fill whole buffer");
    assert_eq!(handle(&mut link, &mut congress, Event::Failed(eof)), Action::Close(eof));
    assert_eq!(handler(Err(eof)), Some(Farewell::ConnectionClosed));
    assert_eq!(handler(Ok(())), None);
}

#[test]
fn truncated_frame_ends_the_session_as_invalid_data() {
    let mut congress = Congress::new();
    let mut link = opened(&mut congress);
    assert_eq!(handle(&mut link, &mut congress, Event::Readable(true)), Action::ReadRequest);
    let bad = error(ErrorKind::InvalidData, "unknown request tag");
    assert_eq!(handle(&mut link, &mut congress, Event::Failed(bad)), Action::Close(bad));
    assert_eq!(handler(Err(bad)), Some(Farewell::Aborted(bad)));
}

#[test]
fn event_that_answers_nothing_is_a_protocol_error() {
    let mut congress = Congress::new();
    let mut link = opened(&mut congress);
    let protocol = error(ErrorKind::InvalidData, "protocol error");
    assert_eq!(handle(&mut link, &mut congress, Event::Done), Action::Close(protocol));
    assert_eq!(link.stage, Stage::Closed(protocol));
}

#[test]
fn outcome_of_another_call_is_a_protocol_error() {
    let mut congress = Congress::new();
    let mut link = opened(&mut congress);
    assert_eq!(request(&mut link, &mut congress, HostRequest::FlashErase), Action::Call(Call::FlashErase));
    assert_eq!(
        handle(
            &mut link,
            &mut congress,
            Event::Outcome(Outcome::KernelReplied(KernelMessage::LoadReply { error: None }))
        ),
        Action::Close(error(ErrorKind::InvalidData, "protocol error"))
    );
    assert_eq!(link.session.kernel_state, KernelState::Absent);
}

#[test]
fn unsolicited_rpc_reply_closes_the_session() {
    let mut congress = Congress::new();
    let mut link = opened(&mut congress);
    assert_eq!(
        request(&mut link, &mut congress, HostRequest::RpcReply(vec![1])),
        Action::Close(error(ErrorKind::InvalidData, "protocol error"))
    );
}

#[test]
fn kernel_rpc_round_trip() {
    let mut congress = Congress::new();
    let mut link = running(&mut congress);
    assert_eq!(handle(&mut link, &mut congress, Event::Readable(false)), Action::PollMailbox);
    assert_eq!(handle(&mut link, &mut congress, Event::Pending(true)), Action::Receive);
    assert_eq!(
        handle(
            &mut link,
            &mut congress,
            Event::Message { message: KernelMessage::RpcRecvRequest { slot: 64 }, now_ms: 0 }
        ),
        Action::Relinquish
    );
    assert_eq!(link.session.kernel_state, KernelState::RpcWait);
    assert_eq!(handle(&mut link, &mut congress, Event::Done), Action::PollStream);

    assert_eq!(handle(&mut link, &mut congress, Event::Readable(false)), Action::PollMailbox);
    assert_eq!(handle(&mut link, &mut congress, Event::Pending(true)), Action::Receive);
    assert_eq!(
        handle(
            &mut link,
            &mut congress,
            Event::Message { message: KernelMessage::RpcRecvRequest { slot: 64 }, now_ms: 0 }
        ),
        Action::Relinquish
    );
    assert_eq!(link.session.kernel_state, KernelState::RpcWait);
    assert_eq!(handle(&mut link, &mut congress, Event::Done), Action::PollStream);

    assert_eq!(
        request(&mut link, &mut congress, HostRequest::RpcReply(vec![42])),
        Action::Kernel(KernelAction::Forward(RpcAnswer::Reply(vec![42])))
    );
    assert_eq!(link.session.kernel_state, KernelState::Running);
}

#[test]
fn kernel_message_without_kernel_closes_the_session() {
    let mut congress = Congress::new();
    let mut link = opened(&mut congress);
    assert_eq!(handle(&mut link, &mut congress, Event::Readable(false)), Action::PollMailbox);
    assert_eq!(handle(&mut link, &mut congress, Event::Pending(true)), Action::Receive);
    assert_eq!(
        handle(
            &mut link,
            &mut congress,
            Event::Message { message: KernelMessage::NowInitRequest, now_ms: 0 }
        ),
        Action::Close(error(ErrorKind::InvalidData, "protocol error"))
    );
}

#[test]
fn congress_survives_sessions() {
    let mut congress = Congress::new();
    let mut link = running(&mut congress);
    assert_eq!(handle(&mut link, &mut congress, Event::Readable(false)), Action::PollMailbox);
    assert_eq!(handle(&mut link, &mut congress, Event::Pending(true)), Action::Receive);
    assert_eq!(
        handle(&mut link, &mut congress, Event::Message { message: KernelMessage::NowSave(777), now_ms: 0 }),
        Action::Kernel(KernelAction::Acknowledge)
    );
    assert_eq!(handle(&mut link, &mut congress, Event::Done), Action::Supervise);
    assert_eq!(
        handle(&mut link, &mut congress, Event::Health { now_ms: 0, clock_ok: true }),
        Action::Relinquish
    );
    assert_eq!(handle(&mut link, &mut congress, Event::Done), Action::PollStream);
    assert_eq!(handle(&mut link, &mut congress, Event::Readable(false)), Action::PollMailbox);
    assert_eq!(handle(&mut link, &mut congress, Event::Pending(true)), Action::Receive);
    assert_eq!(
        handle(
            &mut link,
            &mut congress,
            Event::Message {
                message: KernelMessage::CachePutRequest { key: b"k".to_vec(), value: vec![5, 6] },
                now_ms: 0
            }
        ),
        Action::Kernel(KernelAction::Send(KernelMessage::CachePutReply { succeeded: true }))
    );
    let eof = error(ErrorKind::UnexpectedEof, "eof");
    assert_eq!(handle(&mut link, &mut congress, Event::Failed(eof)), Action::Close(eof));

    let mut next = running(&mut congress);
    assert_eq!(congress.now, 777);
    assert_eq!(handle(&mut next, &mut congress, Event::Readable(false)), Action::PollMailbox);
    assert_eq!(handle(&mut next, &mut congress, Event::Pending(true)), Action::Receive);
    assert_eq!(
        handle(&mut next, &mut congress, Event::Message { message: KernelMessage::NowInitRequest, now_ms: 0 }),
        Action::Kernel(KernelAction::Send(KernelMessage::NowInitReply(777)))
    );
    assert_eq!(handle(&mut next, &mut congress, Event::Done), Action::Supervise);
    assert_eq!(
        handle(&mut next, &mut congress, Event::Health { now_ms: 0, clock_ok: true }),
        Action::Relinquish
    );
    assert_eq!(handle(&mut next, &mut congress, Event::Done), Action::PollStream);
    assert_eq!(handle(&mut next, &mut congress, Event::Readable(false)), Action::PollMailbox);
    assert_eq!(handle(&mut next, &mut congress, Event::Pending(true)), Action::Receive);
    assert_eq!(
        handle(
            &mut next,
            &mut congress,
            Event::Message { message: KernelMessage::CacheGetRequest { key: b"k".to_vec() }, now_ms: 0 }
        ),
        Action::Kernel(KernelAction::Send(KernelMessage::CacheGetReply { value: vec![5, 6] }))
    );
}

#[test]
fn pass_without_running_kernel_is_not_supervised() {
    let mut congress = Congress::new();
    let mut link = opened(&mut congress);
    assert_eq!(handle(&mut link, &mut congress, Event::Readable(false)), Action::PollMailbox);
    assert_eq!(handle(&mut link, &mut congress, Event::Pending(false)), Action::Relinquish);
    assert_eq!(handle(&mut link, &mut congress, Event::Done), Action::PollStream);
}

#[test]
fn failed_load_is_reported_and_the_session_goes_on() {
    let mut congress = Congress::new();
    let mut link = opened(&mut congress);
    request(&mut link, &mut congress, HostRequest::LoadLibrary(vec![]));
    assert_eq!(
        handle(
            &mut link,
            &mut congress,
            Event::Outcome(Outcome::KernelReplied(KernelMessage::LoadReply {
                error: Some("truncated".to_string())
            }))
        ),
        Action::Write(HostReply::LoadFailed)
    );
    assert_eq!(link.session.kernel_state, KernelState::Absent);
    idle_rest_of_pass(&mut link, &mut congress);
}

#[test]
fn ending_a_session_releases_kernel_and_watchdogs() {
    let mut congress = Congress::new();
    let mut link = running(&mut congress);
    assert_eq!(handle(&mut link, &mut congress, Event::Readable(false)), Action::PollMailbox);
    assert_eq!(handle(&mut link, &mut congress, Event::Pending(true)), Action::Receive);
    assert_eq!(
        handle(
            &mut link,
            &mut congress,
            Event::Message { message: KernelMessage::WatchdogSetRequest { ms: 0 }, now_ms: 0 }
        ),
        Action::Kernel(KernelAction::Send(KernelMessage::WatchdogSetReply { id: 0 }))
    );
    assert!(link.session.watchdog_set.expired(0));
    let eof = error(ErrorKind::UnexpectedEof, "eof");
    assert_eq!(handle(&mut link, &mut congress, Event::Failed(eof)), Action::Close(eof));
    assert_eq!(link.session.kernel_state, KernelState::Absent);
    assert!(!link.session.watchdog_set.expired(u64::MAX));
    assert_eq!(handle(&mut link, &mut congress, Event::Done), Action::Close(eof));
}
