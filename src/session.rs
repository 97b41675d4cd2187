use vstd::prelude::*;

use crate::serial::Serial;

verus! {

/// Seconds without an inbound frame after which a connected session reconnects.
pub const IDLE_SECS: u64 = 120;

/// The longest wait between two connection attempts, in seconds.
pub const MAX_BACKOFF_SECS: u64 = 60;

/// Where the connection to one inverter stands.
#[derive(Clone, Copy, Debug, PartialEq, Eq)]
pub enum SessionState {
    Disconnected,
    AwaitingHeartbeat,
    Connected { datalog: Serial, last_frame: u64 },
    Reconnecting,
}

/// What happened on the connection.
#[derive(Clone, Copy, Debug, PartialEq, Eq)]
pub enum SessionEvent {
    /// The session is to run.
    Start,
    /// A frame was parsed; `heartbeat` tells whether it was one.
    Frame { heartbeat: bool, datalog: Serial, now: u64 },
    /// A frame failed to parse.
    Rejected,
    /// The clock, with no frame.
    Tick { now: u64 },
    /// The socket failed.
    SocketError,
    /// The backoff wait is over.
    BackoffElapsed,
}

/// What the loop around the session is to do next.
#[derive(Clone, Copy, Debug, PartialEq, Eq, Structural)]
pub enum SessionAction {
    Nothing,
    Connect,
    /// Hand the frame to the decoders.
    Process,
    /// Drop the frame; the session goes on.
    Discard,
    /// Close the socket and wait this many seconds.
    Close { backoff_secs: u64 },
}

/// One inverter session: its state and how many connection attempts failed in a row.
#[derive(Clone, Copy, Debug, PartialEq, Eq)]
pub struct Session {
    pub state: SessionState,
    pub failures: u32,
}

/// The wait after `failures` failed attempts: 1, 2, 4, ... seconds, at most 60.
pub open spec fn spec_backoff(failures: u32) -> u64 {
    if failures == 0 {
        1
    } else if failures == 1 {
        2
    } else if failures == 2 {
        4
    } else if failures == 3 {
        8
    } else if failures == 4 {
        16
    } else if failures == 5 {
        32
    } else {
        MAX_BACKOFF_SECS
    }
}

pub fn backoff(failures: u32) -> (r: u64)
    ensures
        r == spec_backoff(failures),
        1 <= r <= MAX_BACKOFF_SECS,
{
    if failures < 6 {
        let mut r: u64 = 1;
        let mut i: u32 = 0;
        while i < failures
            invariant
                failures < 6,
                0 <= i <= failures,
                r == spec_backoff(i),
            decreases failures - i,
        {
            r = r * 2;
            i = i + 1;
        }
        r
    } else {
        MAX_BACKOFF_SECS
    }
}

/// Gives up the connection: close, count the failure, wait.
pub open spec fn give_up(s: Session) -> (Session, SessionAction) {
    let failures = if s.failures < u32::MAX { (s.failures + 1) as u32 } else { s.failures };
    (
        Session { state: SessionState::Reconnecting, failures },
        SessionAction::Close { backoff_secs: spec_backoff(s.failures) },
    )
}

/// The next session and action: a start connects; the first frame must be a heartbeat,
/// which names the datalog and connects the session; a connected session processes
/// every frame; a rejected frame is discarded; silence for `IDLE_SECS` or a socket
/// error closes and waits; once the wait is over the session is disconnected.
pub open spec fn spec_step(s: Session, e: SessionEvent) -> (Session, SessionAction) {
    match (s.state, e) {
        (SessionState::Disconnected, SessionEvent::Start) => (
            Session { state: SessionState::AwaitingHeartbeat, failures: s.failures },
            SessionAction::Connect,
        ),
        (SessionState::Disconnected, _) => (s, SessionAction::Nothing),
        (SessionState::Reconnecting, SessionEvent::BackoffElapsed) => (
            Session { state: SessionState::Disconnected, failures: s.failures },
            SessionAction::Nothing,
        ),
        (SessionState::Reconnecting, _) => (s, SessionAction::Nothing),
        (_, SessionEvent::SocketError) => give_up(s),
        (_, SessionEvent::Rejected) => (s, SessionAction::Discard),
        (SessionState::AwaitingHeartbeat, SessionEvent::Frame { heartbeat, datalog, now }) => {
            if heartbeat {
                (
                    Session { state: SessionState::Connected { datalog, last_frame: now }, failures: 0 },
                    SessionAction::Process,
                )
            } else {
                (s, SessionAction::Discard)
            }
        },
        (SessionState::Connected { datalog, last_frame: _ }, SessionEvent::Frame { heartbeat: _, datalog: _, now }) => (
            Session { state: SessionState::Connected { datalog, last_frame: now }, failures: s.failures },
            SessionAction::Process,
        ),
        (SessionState::Connected { datalog: _, last_frame }, SessionEvent::Tick { now }) => {
            if now >= last_frame && now - last_frame >= IDLE_SECS {
                give_up(s)
            } else {
                (s, SessionAction::Nothing)
            }
        },
        (_, _) => (s, SessionAction::Nothing),
    }
}

impl Session {
    /// A session that has not started.
    pub fn new() -> (r: Session)
        ensures
            r.state == SessionState::Disconnected,
            r.failures == 0,
    {
        Session { state: SessionState::Disconnected, failures: 0 }
    }

    fn give_up(&self) -> (r: (Session, SessionAction))
        ensures
            r == give_up(*self),
    {
        let failures = if self.failures < u32::MAX { self.failures + 1 } else { self.failures };
        (
            Session { state: SessionState::Reconnecting, failures },
            SessionAction::Close { backoff_secs: backoff(self.failures) },
        )
    }

    /// The next session and what to do; see `spec_step`.
    pub fn step(&self, e: SessionEvent) -> (r: (Session, SessionAction))
        ensures
            r == spec_step(*self, e),
    {
        match (self.state, e) {
            (SessionState::Disconnected, SessionEvent::Start) => (
                Session { state: SessionState::AwaitingHeartbeat, failures: self.failures },
                SessionAction::Connect,
            ),
            (SessionState::Disconnected, _) => (*self, SessionAction::Nothing),
            (SessionState::Reconnecting, SessionEvent::BackoffElapsed) => (
                Session { state: SessionState::Disconnected, failures: self.failures },
                SessionAction::Nothing,
            ),
            (SessionState::Reconnecting, _) => (*self, SessionAction::Nothing),
            (_, SessionEvent::SocketError) => self.give_up(),
            (_, SessionEvent::Rejected) => (*self, SessionAction::Discard),
            (SessionState::AwaitingHeartbeat, SessionEvent::Frame { heartbeat, datalog, now }) => {
                if heartbeat {
                    (
                        Session {
                            state: SessionState::Connected { datalog, last_frame: now },
                            failures: 0,
                        },
                        SessionAction::Process,
                    )
                } else {
                    (*self, SessionAction::Discard)
                }
            },
            (
                SessionState::Connected { datalog, last_frame: _ },
                SessionEvent::Frame { heartbeat: _, datalog: _, now },
            ) => (
                Session {
                    state: SessionState::Connected { datalog, last_frame: now },
                    failures: self.failures,
                },
                SessionAction::Process,
            ),
            (SessionState::Connected { datalog: _, last_frame }, SessionEvent::Tick { now }) => {
                if now >= last_frame && now - last_frame >= IDLE_SECS {
                    self.give_up()
                } else {
                    (*self, SessionAction::Nothing)
                }
            },
            (_, _) => (*self, SessionAction::Nothing),
        }
    }
}

/// A rejected frame never ends a session: state and failure count stay as they were.
pub proof fn lemma_rejected_frame_kept(s: Session)
    ensures
        spec_step(s, SessionEvent::Rejected).0 == s,
{
}

/// Every wait between attempts is at most `MAX_BACKOFF_SECS`.
pub proof fn lemma_backoff_capped(s: Session, e: SessionEvent)
    ensures
        spec_step(s, e).1 matches SessionAction::Close { backoff_secs } ==> 1 <= backoff_secs
            <= MAX_BACKOFF_SECS,
{
}

} // verus!
