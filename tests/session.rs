use lxp_bridge::serial::Serial;
use lxp_bridge::session::backoff;
use lxp_bridge::session::Session;
use lxp_bridge::session::SessionAction;
use lxp_bridge::session::SessionEvent;
use lxp_bridge::session::SessionState;

fn datalog() -> Serial {
    Serial::new(b"2222222222").unwrap()
}

#[test]
fn session_lifecycle() {
    let s = Session::new();
    let (s, a) = s.step(SessionEvent::Start);
    assert_eq!(a, SessionAction::Connect);
    assert_eq!(s.state, SessionState::AwaitingHeartbeat);
    let (s, a) = s.step(SessionEvent::Frame { heartbeat: false, datalog: datalog(), now: 5 });
    assert_eq!(a, SessionAction::Discard);
    assert_eq!(s.state, SessionState::AwaitingHeartbeat);
    let (s, a) = s.step(SessionEvent::Frame { heartbeat: true, datalog: datalog(), now: 10 });
    assert_eq!(a, SessionAction::Process);
    assert_eq!(s.state, SessionState::Connected { datalog: datalog(), last_frame: 10 });
    let (s, a) = s.step(SessionEvent::Rejected);
    assert_eq!(a, SessionAction::Discard);
    let (s, a) = s.step(SessionEvent::Tick { now: 129 });
    assert_eq!(a, SessionAction::Nothing);
    let (s, a) = s.step(SessionEvent::Tick { now: 130 });
    assert_eq!(a, SessionAction::Close { backoff_secs: 1 });
    assert_eq!(s.state, SessionState::Reconnecting);
    assert_eq!(s.failures, 1);
    let (s, _) = s.step(SessionEvent::BackoffElapsed);
    assert_eq!(s.state, SessionState::Disconnected);
    let (s, _) = s.step(SessionEvent::Start);
    let (_, a) = s.step(SessionEvent::SocketError);
    assert_eq!(a, SessionAction::Close { backoff_secs: 2 });
}

#[test]
fn backoff_is_capped() {
    assert_eq!(backoff(0), 1);
    assert_eq!(backoff(5), 32);
    assert_eq!(backoff(6), 60);
    assert_eq!(backoff(1000), 60);
}
