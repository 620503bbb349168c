//! Session change tracking: structural comparison, seek detection via
//! drift, and the debounced idle timer.

use vstd::prelude::*;
use crate::engine::{EngineState, DRIFT_THRESHOLD_MS, IDLE_GRACE_MS};
use crate::models::{PlayerState, Session};

verus! {

/// What a call to [`EngineState::record`] concluded.
#[derive(Clone, Copy, Debug, PartialEq, Eq, Structural)]
pub enum ChangeOutcome {
    /// A session materially different from the tracked one was stored;
    /// the presence display must be updated.
    Changed,
    /// The observation matches the tracked session; nothing to publish.
    Unchanged,
    /// "No session" was observed while one is tracked, but the grace
    /// period has not elapsed yet; the tracked session is kept.
    IdlePending,
    /// The grace period elapsed: the tracked session was dropped and the
    /// presence display must be cleared. Emitted exactly once per idle.
    IdleCleared,
    /// Nothing was observed and nothing was tracked.
    StillEmpty,
}

/// Structural identity of two sessions, the part of a session whose change
/// always warrants a fresh publish: title, player state and media kind.
/// Offsets are deliberately left out; they are judged by drift instead.
pub open spec fn same_identity(a: Session, b: Session) -> bool {
    &&& a.media_title@ == b.media_title@
    &&& a.player_state == b.player_state
    &&& a.media_type == b.media_type
}

/// Where playback should be now if it simply kept running since the last
/// publish: the stored offset plus the wall-clock time that passed.
pub open spec fn expected_offset(last_offset: u64, published_at: u64, now: u64) -> int {
    last_offset + now - published_at
}

/// Absolute difference between the observed offset and the expected one.
pub open spec fn drift_magnitude(observed: u64, expected: int) -> int {
    if observed >= expected {
        observed - expected
    } else {
        expected - observed
    }
}

/// A seek: the observed offset strays from the expected one by more than
/// the threshold tolerates.
pub open spec fn seek_detected(
    last_offset: u64,
    published_at: u64,
    observed_offset: u64,
    now: u64,
) -> bool {
    drift_magnitude(observed_offset, expected_offset(last_offset, published_at, now))
        > DRIFT_THRESHOLD_MS
}

/// Whether an observed session differs enough from the tracked state to
/// warrant publishing: no session tracked yet, a different identity, or a
/// seek while playing.
pub open spec fn observation_changed(state: EngineState, obs: Session, now: u64) -> bool {
    match state.last_session {
        None => true,
        Some(last) => {
            ||| !same_identity(last, obs)
            ||| ({
                &&& obs.player_state is Playing
                &&& state.last_published_at matches Some(p)
                &&& seek_detected(last.view_offset, p, obs.view_offset, now)
            })
        },
    }
}

/// The tracker's transition function: the state after `record`, paired
/// with the outcome it reports.
pub open spec fn record_step(
    state: EngineState,
    observed: Option<Session>,
    now: u64,
) -> (EngineState, ChangeOutcome) {
    match observed {
        Some(obs) => {
            if observation_changed(state, obs, now) {
                (
                    EngineState {
                        last_session: Some(obs),
                        last_published_at: Some(now),
                        idle_since: None,
                        subscription_open: state.subscription_open,
                    },
                    ChangeOutcome::Changed,
                )
            } else {
                (
                    EngineState {
                        last_session: state.last_session,
                        last_published_at: state.last_published_at,
                        idle_since: None,
                        subscription_open: state.subscription_open,
                    },
                    ChangeOutcome::Unchanged,
                )
            }
        },
        None => {
            if state.last_session is None {
                (state, ChangeOutcome::StillEmpty)
            } else {
                match state.idle_since {
                    None => (
                        EngineState {
                            last_session: state.last_session,
                            last_published_at: state.last_published_at,
                            idle_since: Some(now),
                            subscription_open: state.subscription_open,
                        },
                        ChangeOutcome::IdlePending,
                    ),
                    Some(t0) => {
                        if now >= t0 + IDLE_GRACE_MS {
                            (
                                EngineState {
                                    last_session: None,
                                    last_published_at: None,
                                    idle_since: None,
                                    subscription_open: state.subscription_open,
                                },
                                ChangeOutcome::IdleCleared,
                            )
                        } else {
                            (state, ChangeOutcome::IdlePending)
                        }
                    },
                }
            }
        },
    }
}

/// Structural identity, decided at run time.
fn same_identity_check(a: &Session, b: &Session) -> (r: bool)
    ensures
        r == same_identity(*a, *b),
{
    a.media_title == b.media_title && a.player_state == b.player_state
        && a.media_type == b.media_type
}

/// Seek detection, decided at run time. The arithmetic is done in `i128`
/// so that no combination of counters can overflow.
fn seek_check(last_offset: u64, published_at: u64, observed_offset: u64, now: u64) -> (r: bool)
    ensures
        r == seek_detected(last_offset, published_at, observed_offset, now),
{
    let expected: i128 = last_offset as i128 + now as i128 - published_at as i128;
    let obs: i128 = observed_offset as i128;
    let diff: i128 = if obs >= expected {
        obs - expected
    } else {
        expected - obs
    };
    diff > DRIFT_THRESHOLD_MS as i128
}

impl EngineState {
    /// Feeds one observation into the tracker.
    ///
    /// `record(Some(s))` stores `s` (and the instant `now_ms`) and reports
    /// `Changed` when `s` differs structurally from the tracked session or
    /// playback jumped by more than the drift threshold; otherwise it
    /// leaves the stored session and timestamp as they are and reports
    /// `Unchanged`. Either way the idle timer stops.
    ///
    /// `record(None)` while a session is tracked starts (or continues) the
    /// idle grace timer and only after [`IDLE_GRACE_MS`] drops the tracked
    /// session, reporting `IdleCleared` exactly once.
    pub fn record(&mut self, observed: Option<Session>, now_ms: u64) -> (r: ChangeOutcome)
        requires
            old(self).wf(),
        ensures
            final(self).wf(),
            *final(self) == record_step(*old(self), observed, now_ms).0,
            r == record_step(*old(self), observed, now_ms).1,
    {
        match observed {
            Some(obs) => {
                let changed: bool = match &self.last_session {
                    None => true,
                    Some(last) => {
                        if !same_identity_check(last, &obs) {
                            true
                        } else if obs.player_state == PlayerState::Playing {
                            match self.last_published_at {
                                Some(p) => seek_check(last.view_offset, p, obs.view_offset, now_ms),
                                None => false,
                            }
                        } else {
                            false
                        }
                    },
                };
                proof {
                    assert(changed == observation_changed(*old(self), obs, now_ms));
                }
                self.idle_since = None;
                if changed {
                    self.last_session = Some(obs);
                    self.last_published_at = Some(now_ms);
                    ChangeOutcome::Changed
                } else {
                    ChangeOutcome::Unchanged
                }
            },
            None => {
                if self.last_session.is_none() {
                    ChangeOutcome::StillEmpty
                } else {
                    match self.idle_since {
                        None => {
                            self.idle_since = Some(now_ms);
                            ChangeOutcome::IdlePending
                        },
                        Some(t0) => {
                            if now_ms >= t0 && now_ms - t0 >= IDLE_GRACE_MS {
                                self.last_session = None;
                                self.last_published_at = None;
                                self.idle_since = None;
                                ChangeOutcome::IdleCleared
                            } else {
                                ChangeOutcome::IdlePending
                            }
                        },
                    }
                }
            },
        }
    }
}

} // verus!
