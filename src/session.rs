use crate::error::ProxyError;
use vstd::prelude::*;

verus! {

/// The largest value the slow-link counter can hold; it saturates there.
pub const SLOWLINK_MAX: u16 = 65535;

/// Where a session stands in its lifecycle.
#[derive(Clone, Copy, Debug, PartialEq, Eq, Structural)]
pub enum SessionState {
    Created,
    MediaSetup,
    Active,
    HangingUp,
    /// Terminal: no further transition is permitted.
    Destroyed,
}

/// The state of one negotiated connection, identified by the host's handle.
#[derive(Clone, Copy, Debug, PartialEq, Eq, Structural)]
pub struct ProxySession {
    pub handle: u64,
    pub has_audio: bool,
    pub has_data: bool,
    pub bitrate: u32,
    pub slowlink_count: u16,
    pub hanging_up: bool,
    pub destroyed: bool,
    pub state: SessionState,
}

/// Something the host reports about one session.
#[derive(Clone, Copy, Debug, PartialEq, Eq, Structural)]
pub enum SessionEvent {
    /// WebRTC media became available.
    SetupMedia,
    /// A packet of the session was relayed.
    Packet,
    /// The media of the session is being hung up.
    HangupMedia,
    /// The host reported congestion on the session.
    SlowLink,
    /// The session is torn down.
    Destroy,
}

/// A session as it is when first registered: every counter zero, every flag false.
pub open spec fn fresh_session(handle: u64) -> ProxySession {
    ProxySession {
        handle,
        has_audio: false,
        has_data: false,
        bitrate: 0,
        slowlink_count: 0,
        hanging_up: false,
        destroyed: false,
        state: SessionState::Created,
    }
}

/// The slow-link counter after one more slow-link report.
pub open spec fn bump_slowlink(n: u16) -> u16 {
    if n < SLOWLINK_MAX {
        (n + 1) as u16
    } else {
        n
    }
}

/// What one event does to a session. A destroyed session never changes again.
pub open spec fn session_step(s: ProxySession, e: SessionEvent) -> ProxySession {
    if s.destroyed {
        s
    } else {
        match e {
            SessionEvent::SetupMedia => {
                if s.state == SessionState::Created || s.state == SessionState::HangingUp {
                    ProxySession { state: SessionState::MediaSetup, hanging_up: false, ..s }
                } else {
                    s
                }
            },
            SessionEvent::Packet => {
                if s.state == SessionState::MediaSetup {
                    ProxySession { state: SessionState::Active, ..s }
                } else {
                    s
                }
            },
            SessionEvent::HangupMedia => {
                if s.state == SessionState::Active {
                    ProxySession { state: SessionState::HangingUp, hanging_up: true, ..s }
                } else {
                    s
                }
            },
            SessionEvent::SlowLink => ProxySession {
                slowlink_count: bump_slowlink(s.slowlink_count),
                ..s
            },
            SessionEvent::Destroy => ProxySession {
                state: SessionState::Destroyed,
                destroyed: true,
                ..s
            },
        }
    }
}

/// The session after a whole sequence of events, applied in order.
pub open spec fn run_events(s: ProxySession, evs: Seq<SessionEvent>) -> ProxySession
    decreases evs.len(),
{
    if evs.len() == 0 {
        s
    } else {
        run_events(session_step(s, evs[0]), evs.drop_first())
    }
}

/// How many slow-link reports a sequence of events holds.
pub open spec fn count_slowlinks(evs: Seq<SessionEvent>) -> nat
    decreases evs.len(),
{
    if evs.len() == 0 {
        0
    } else {
        count_slowlinks(evs.drop_first()) + if evs[0] == SessionEvent::SlowLink {
            1nat
        } else {
            0nat
        }
    }
}

/// Whether a sequence of events holds a destroy.
pub open spec fn has_destroy(evs: Seq<SessionEvent>) -> bool {
    exists|i: int| 0 <= i < evs.len() && evs[i] == SessionEvent::Destroy
}

impl ProxySession {
    /// The flags agree with the lifecycle state.
    pub open spec fn wf(&self) -> bool {
        &&& self.destroyed == (self.state == SessionState::Destroyed)
        &&& !self.destroyed ==> self.hanging_up == (self.state == SessionState::HangingUp)
    }

    /// A fresh session for the given handle.
    pub fn new(handle: u64) -> (r: ProxySession)
        ensures
            r == fresh_session(handle),
            r.wf(),
    {
        ProxySession {
            handle,
            has_audio: false,
            has_data: false,
            bitrate: 0,
            slowlink_count: 0,
            hanging_up: false,
            destroyed: false,
            state: SessionState::Created,
        }
    }

    /// Applies one event. A destroyed session is left as it is and the event
    /// fails with `SessionDestroyed`.
    pub fn apply(&mut self, e: SessionEvent) -> (r: Result<(), ProxyError>)
        requires
            old(self).wf(),
        ensures
            *final(self) == session_step(*old(self), e),
            final(self).wf(),
            r == (if old(self).destroyed {
                Err::<(), ProxyError>(ProxyError::SessionDestroyed)
            } else {
                Ok(())
            }),
    {
        if self.destroyed {
            return Err(ProxyError::SessionDestroyed);
        }
        match e {
            SessionEvent::SetupMedia => {
                if self.state == SessionState::Created || self.state == SessionState::HangingUp {
                    self.state = SessionState::MediaSetup;
                    self.hanging_up = false;
                }
            },
            SessionEvent::Packet => {
                if self.state == SessionState::MediaSetup {
                    self.state = SessionState::Active;
                }
            },
            SessionEvent::HangupMedia => {
                if self.state == SessionState::Active {
                    self.state = SessionState::HangingUp;
                    self.hanging_up = true;
                }
            },
            SessionEvent::SlowLink => {
                if self.slowlink_count < SLOWLINK_MAX {
                    self.slowlink_count = self.slowlink_count + 1;
                }
            },
            SessionEvent::Destroy => {
                self.state = SessionState::Destroyed;
                self.destroyed = true;
            },
        }
        Ok(())
    }
}

/// The slow-link counter of a live session grows by exactly one for each
/// slow-link report, saturating at its maximum, and no other event that does
/// not destroy the session touches it.
pub proof fn lemma_slowlink_count(s: ProxySession, evs: Seq<SessionEvent>)
    requires
        !s.destroyed,
        !has_destroy(evs),
    ensures
        run_events(s, evs).slowlink_count == if s.slowlink_count + count_slowlinks(evs)
            <= SLOWLINK_MAX {
            s.slowlink_count + count_slowlinks(evs)
        } else {
            SLOWLINK_MAX as int
        },
        !run_events(s, evs).destroyed,
    decreases evs.len(),
{
    if evs.len() > 0 {
        let rest = evs.drop_first();
        assert forall|i: int| 0 <= i < rest.len() implies rest[i] != SessionEvent::Destroy by {
            assert(rest[i] == evs[i + 1]);
        }
        assert(evs[0] != SessionEvent::Destroy);
        lemma_slowlink_count(session_step(s, evs[0]), rest);
    }
}

/// The slow-link counter never decreases, whatever the events.
pub proof fn lemma_slowlink_monotonic(s: ProxySession, evs: Seq<SessionEvent>)
    ensures
        run_events(s, evs).slowlink_count >= s.slowlink_count,
    decreases evs.len(),
{
    if evs.len() > 0 {
        lemma_slowlink_monotonic(session_step(s, evs[0]), evs.drop_first());
    }
}

} // verus!
