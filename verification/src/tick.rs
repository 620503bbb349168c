//! One tick of the engine, split at its suspension points: `begin_tick`
//! decides whether to fetch, the driver performs the fetch (and any push
//! channel work), and `apply_fetch` digests the result.

use vstd::prelude::*;
use vstd::string::StringExecFns;
use crate::engine::EngineState;
use crate::models::{AppConfig, AppResult, Session};
use crate::status::{active_session, normalize_session, session_status, status_text};
use crate::strategy::{decide_step, FetchDecision, PushDirective, PushFeed};
use crate::tracker::{record_step, ChangeOutcome};

verus! {

/// Whether credentials are present. Their absence is a legitimate steady
/// state, not an error.
pub open spec fn authenticated(c: AppConfig) -> bool {
    c.auth_token is Some && c.username is Some
}

/// Whether a server to monitor has been selected.
pub open spec fn server_chosen(c: AppConfig) -> bool {
    c.server_address is Some && c.server_port is Some
}

/// The ownership flag of the selected server; shared when unknown.
pub open spec fn owned_flag(c: AppConfig) -> bool {
    match c.is_owned {
        Some(b) => b,
        None => false,
    }
}

/// The status reported when no fetch happens this tick: the last known
/// formatted status, unchanged.
pub open spec fn cached_status_text(state: EngineState) -> Seq<char> {
    match state.last_session {
        Some(s) => status_text(s),
        None => "Monitoring (Idle)"@,
    }
}

/// How a tick proceeds after the strategy decision.
pub enum TickStart {
    /// Monitoring cannot run (no credentials, or no server selected):
    /// the driver clears the remote display best-effort and shows the
    /// status. Engine state is untouched.
    Blocked { status: String },
    /// No fetch this tick; the driver shows the cached status.
    Cached { status: String },
    /// The driver must follow `directive` on its push channel (reporting
    /// an open attempt through [`EngineState::record_open_result`]),
    /// fetch fresh state, and hand the result to
    /// [`EngineState::apply_fetch`].
    FetchNeeded { directive: PushDirective },
}

/// What a digested fetch asks of the driver.
pub enum TickOutcome {
    /// A material change: publish a payload built from `session`, then
    /// show the status.
    Publish { session: Session, status: String },
    /// Nothing to publish; show the status.
    NoPublish { status: String },
    /// The session ended for good: clear the remote display best-effort,
    /// then show the status.
    ClearPresence { status: String },
}

impl EngineState {
    /// Starts a tick: short-circuits when monitoring cannot run, else
    /// asks the strategy whether to fetch. On `SkipFetch` the cached
    /// status is returned as-is — an observation, not a mutation.
    pub fn begin_tick(&mut self, config: &AppConfig, feed: PushFeed) -> (r: TickStart)
        requires
            old(self).wf(),
        ensures
            final(self).wf(),
            !authenticated(*config) ==> (r matches TickStart::Blocked { status }
                && status@ == "Not authenticated"@ && *final(self) == *old(self)),
            authenticated(*config) && !server_chosen(*config) ==> (r matches TickStart::Blocked {
                status } && status@ == "No server selected"@ && *final(self) == *old(self)),
            authenticated(*config) && server_chosen(*config) ==> ({
                let step = decide_step(*old(self), owned_flag(*config), feed);
                &&& *final(self) == step.0
                &&& step.1 == FetchDecision::FetchNow
                    ==> r == (TickStart::FetchNeeded { directive: step.2 })
                &&& step.1 == FetchDecision::SkipFetch
                    ==> (r matches TickStart::Cached { status }
                        && status@ == cached_status_text(step.0))
            }),
    {
        if !config.is_authenticated() {
            return TickStart::Blocked { status: String::from_str("Not authenticated") };
        }
        if config.server_address.is_none() || config.server_port.is_none() {
            return TickStart::Blocked { status: String::from_str("No server selected") };
        }
        let owned = match config.is_owned {
            Some(b) => b,
            None => false,
        };
        let (decision, directive) = self.decide(owned, feed);
        match decision {
            FetchDecision::FetchNow => TickStart::FetchNeeded { directive },
            FetchDecision::SkipFetch => {
                let status = match &self.last_session {
                    Some(s) => session_status(s),
                    None => String::from_str("Monitoring (Idle)"),
                };
                TickStart::Cached { status }
            },
        }
    }

    /// Digests a fetch result. A failed fetch is handed back untouched
    /// and leaves the engine exactly as it was; a successful one is
    /// normalized (idle counts as absent) and recorded, and the outcome
    /// tells the driver whether to publish or clear.
    pub fn apply_fetch(&mut self, fetched: AppResult<Option<Session>>, now_ms: u64) -> (r:
        AppResult<TickOutcome>)
        requires
            old(self).wf(),
        ensures
            final(self).wf(),
            fetched matches Err(e) ==> ({
                &&& *final(self) == *old(self)
                &&& r matches Err(e2) && e2 == e
            }),
            fetched matches Ok(obs) ==> ({
                let norm = active_session(obs);
                let step = record_step(*old(self), norm, now_ms);
                &&& *final(self) == step.0
                &&& r is Ok
                &&& step.1 == ChangeOutcome::Changed ==> (r->Ok_0 matches TickOutcome::Publish {
                    session, status } && session == norm->0 && status@ == status_text(norm->0))
                &&& step.1 == ChangeOutcome::Unchanged ==> (r->Ok_0 matches TickOutcome::NoPublish {
                    status } && status@ == status_text(norm->0))
                &&& step.1 == ChangeOutcome::IdlePending ==> (r->Ok_0 matches TickOutcome::NoPublish {
                    status } && status@ == "Waiting for idle debounce..."@)
                &&& step.1 == ChangeOutcome::IdleCleared ==> (r->Ok_0 matches TickOutcome::ClearPresence {
                    status } && status@ == "No active session"@)
                &&& step.1 == ChangeOutcome::StillEmpty ==> (r->Ok_0 matches TickOutcome::NoPublish {
                    status } && status@ == "No active session"@)
            }),
    {
        match fetched {
            Err(e) => Err(e),
            Ok(obs) => {
                let norm = normalize_session(obs);
                match norm {
                    Some(s) => {
                        let copy = s.duplicate();
                        let outcome = self.record(Some(s), now_ms);
                        match outcome {
                            ChangeOutcome::Changed => {
                                let status = session_status(&copy);
                                Ok(TickOutcome::Publish { session: copy, status })
                            },
                            _ => {
                                let status = session_status(&copy);
                                Ok(TickOutcome::NoPublish { status })
                            },
                        }
                    },
                    None => {
                        let outcome = self.record(None, now_ms);
                        match outcome {
                            ChangeOutcome::IdlePending => Ok(TickOutcome::NoPublish {
                                status: String::from_str("Waiting for idle debounce..."),
                            }),
                            ChangeOutcome::IdleCleared => Ok(TickOutcome::ClearPresence {
                                status: String::from_str("No active session"),
                            }),
                            _ => Ok(TickOutcome::NoPublish {
                                status: String::from_str("No active session"),
                            }),
                        }
                    },
                }
            },
        }
    }
}

} // verus!
