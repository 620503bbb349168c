//! Classifying fetch results and rendering the human-readable status the
//! driver displays.

use vstd::prelude::*;
use vstd::string::StringExecFns;
use crate::models::{PlayerState, Session};

verus! {

/// A session whose player reports `Idle` counts as no session at all: it
/// must never be published as an active presence.
pub open spec fn active_session(observed: Option<Session>) -> Option<Session> {
    match observed {
        Some(s) => if s.player_state is Idle {
            None
        } else {
            Some(s)
        },
        None => None,
    }
}

/// Drops an idle session from a fetch result.
pub fn normalize_session(observed: Option<Session>) -> (r: Option<Session>)
    ensures
        r == active_session(observed),
{
    match observed {
        Some(s) => {
            if s.player_state == PlayerState::Idle {
                None
            } else {
                Some(s)
            }
        },
        None => None,
    }
}

/// The status line for a tracked session: its title behind a prefix for
/// the player state.
pub open spec fn status_text(s: Session) -> Seq<char> {
    match s.player_state {
        PlayerState::Paused => "Paused: "@ + s.media_title@,
        PlayerState::Buffering => "Buffering: "@ + s.media_title@,
        _ => "Playing: "@ + s.media_title@,
    }
}

/// Renders [`status_text`].
pub fn session_status(s: &Session) -> (r: String)
    ensures
        r@ == status_text(*s),
{
    let prefix: &str = match s.player_state {
        PlayerState::Paused => "Paused: ",
        PlayerState::Buffering => "Buffering: ",
        _ => "Playing: ",
    };
    String::from_str(prefix).concat(s.media_title.as_str())
}

} // verus!
