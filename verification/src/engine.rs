//! The engine's mutable state: last observed session, publish timestamp,
//! idle-debounce timer, and whether a push subscription is open.

use vstd::prelude::*;
use crate::models::Session;

verus! {

/// Milliseconds a "no session" report must persist before the tracked
/// session is really considered gone.
pub const IDLE_GRACE_MS: u64 = 3000;

/// Drift (in milliseconds) between the expected and the observed playback
/// offset beyond which a seek is assumed.
pub const DRIFT_THRESHOLD_MS: u64 = 3000;

/// All state the engine mutates between ticks. Time never comes from a
/// clock in here: every operation takes the current instant as an argument,
/// in milliseconds of a monotonic clock.
pub struct EngineState {
    /// The session last published, if any.
    pub last_session: Option<Session>,
    /// When `last_session` was stored, on the caller's clock.
    pub last_published_at: Option<u64>,
    /// When "no session" was first observed while a session was tracked.
    pub idle_since: Option<u64>,
    /// Whether the driver holds an open push-notification channel.
    pub subscription_open: bool,
}

impl EngineState {
    /// A session and its publish instant are recorded together, and the
    /// idle timer only runs while a session is tracked.
    pub open spec fn wf(&self) -> bool {
        &&& self.last_session is Some <==> self.last_published_at is Some
        &&& self.idle_since is Some ==> self.last_session is Some
    }

    /// The state of a freshly started engine: nothing tracked, no channel.
    pub open spec fn empty() -> EngineState {
        EngineState {
            last_session: None,
            last_published_at: None,
            idle_since: None,
            subscription_open: false,
        }
    }

    pub fn new() -> (r: EngineState)
        ensures
            r == EngineState::empty(),
            r.wf(),
    {
        EngineState {
            last_session: None,
            last_published_at: None,
            idle_since: None,
            subscription_open: false,
        }
    }

    /// Forgets everything: called when the target changes, the user
    /// disconnects, or the remote reports de-authentication. The driver
    /// must drop its push channel and clear the remote display alongside.
    pub fn reset(&mut self)
        ensures
            *final(self) == EngineState::empty(),
            final(self).wf(),
    {
        self.last_session = None;
        self.last_published_at = None;
        self.idle_since = None;
        self.subscription_open = false;
    }

    pub fn get_last_session(&self) -> (r: Option<&Session>)
        ensures
            r is Some <==> self.last_session is Some,
            r matches Some(s) ==> *s == self.last_session->0,
    {
        self.last_session.as_ref()
    }
}

} // verus!
