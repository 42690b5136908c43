use transcript_relay::session::Session;
use transcript_relay::session::SessionAction;
use transcript_relay::session::SessionEvent;
use transcript_relay::session::SessionStatus;
use transcript_relay::session::SubmitError;
use transcript_relay::session::step;
use transcript_relay::transcript::handle_text_frame;

fn active_session() -> Session {
    let mut s = Session::new(4);
    assert_eq!(s.on_event(SessionEvent::StartRequested), SessionAction::BeginConnect);
    assert_eq!(s.on_event(SessionEvent::ConnectSucceeded), SessionAction::StartTasks);
    assert_eq!(s.status(), SessionStatus::Active);
    s
}

#[test]
fn lifecycle_reaches_active_then_ends() {
    let mut s = active_session();
    assert_eq!(s.on_event(SessionEvent::ForwarderStopped), SessionAction::CancelListener);
    assert_eq!(s.status(), SessionStatus::Ended);
}

#[test]
fn listener_stop_cancels_forwarder() {
    let mut s = active_session();
    assert_eq!(s.on_event(SessionEvent::ListenerStopped), SessionAction::CancelForwarder);
    assert_eq!(s.status(), SessionStatus::Ended);
}

#[test]
fn connect_failure_never_starts_tasks() {
    let mut s = Session::new(4);
    let mut actions = Vec::new();
    actions.push(s.on_event(SessionEvent::StartRequested));
    actions.push(s.on_event(SessionEvent::ConnectFailed));
    assert_eq!(s.status(), SessionStatus::Ended);
    assert_eq!(actions, vec![SessionAction::BeginConnect, SessionAction::ReportConnectError]);
    assert!(!actions.contains(&SessionAction::StartTasks));
    assert_eq!(s.submit_chunk(vec![1u8]), Err(SubmitError::NotActive));
}

#[test]
fn ended_is_terminal_until_reset() {
    let mut s = Session::new(4);
    s.on_event(SessionEvent::StartRequested);
    s.on_event(SessionEvent::ConnectFailed);
    assert_eq!(s.on_event(SessionEvent::ForwarderStopped), SessionAction::Ignore);
    assert_eq!(s.on_event(SessionEvent::StartRequested), SessionAction::RejectStart);
    assert_eq!(s.status(), SessionStatus::Ended);
    s.reset();
    assert_eq!(s.status(), SessionStatus::Idle);
    assert_eq!(s.on_event(SessionEvent::StartRequested), SessionAction::BeginConnect);
}

#[test]
fn start_is_rejected_while_running() {
    let mut s = active_session();
    assert_eq!(s.on_event(SessionEvent::StartRequested), SessionAction::RejectStart);
    assert_eq!(s.status(), SessionStatus::Active);
}

#[test]
fn submitted_chunks_come_back_in_order() {
    let mut s = active_session();
    s.submit_chunk(vec![1u8]).unwrap();
    s.submit_chunk(vec![2u8, 2]).unwrap();
    assert_eq!(s.next_chunk(), Some(vec![1u8]));
    assert_eq!(s.next_chunk(), Some(vec![2u8, 2]));
    assert_eq!(s.next_chunk(), None);
}

#[test]
fn submission_beyond_capacity_fails_fast() {
    let mut s = active_session();
    for i in 0..4u8 {
        s.submit_chunk(vec![i]).unwrap();
    }
    assert_eq!(s.submit_chunk(vec![9u8]), Err(SubmitError::QueueFull));
    assert_eq!(s.next_chunk(), Some(vec![0u8]));
    s.submit_chunk(vec![9u8]).unwrap();
}

#[test]
fn submit_needs_an_active_session() {
    let mut s = Session::new(4);
    assert_eq!(s.submit_chunk(vec![1u8]), Err(SubmitError::NotActive));
    s.on_event(SessionEvent::StartRequested);
    assert_eq!(s.submit_chunk(vec![1u8]), Err(SubmitError::NotActive));
}

#[test]
fn teardown_discards_unforwarded_chunks() {
    let mut s = active_session();
    s.submit_chunk(vec![1u8]).unwrap();
    s.on_event(SessionEvent::ListenerStopped);
    assert_eq!(s.next_chunk(), None);
    assert_eq!(s.submit_chunk(vec![2u8]), Err(SubmitError::NotActive));
}

#[test]
fn malformed_frame_leaves_session_active() {
    let mut s = active_session();
    assert!(handle_text_frame("garbage that is not json").is_none());
    assert_eq!(s.status(), SessionStatus::Active);
    s.submit_chunk(vec![1u8]).unwrap();
}

#[test]
fn step_covers_stale_events() {
    assert_eq!(
        step(SessionStatus::Idle, SessionEvent::ForwarderStopped),
        (SessionStatus::Idle, SessionAction::Ignore)
    );
    assert_eq!(
        step(SessionStatus::Connecting, SessionEvent::ListenerStopped),
        (SessionStatus::Connecting, SessionAction::Ignore)
    );
    assert_eq!(
        step(SessionStatus::Active, SessionEvent::ConnectSucceeded),
        (SessionStatus::Active, SessionAction::Ignore)
    );
    assert_eq!(
        step(SessionStatus::Ended, SessionEvent::ConnectFailed),
        (SessionStatus::Ended, SessionAction::Ignore)
    );
}
