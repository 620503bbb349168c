//! Presence output: mapping a session to the rich-presence payload, and
//! the lifecycle of the RPC link to the chat client (connect, cooldown,
//! bounded retries with backoff, forced reconnect after a failed publish).

use vstd::prelude::*;
use vstd::string::StringExecFns;
use crate::digits::{dec_digits, fmt_u64};
use crate::models::{AppError, MediaType, PlayerState, Session};

verus! {

/// How the chat client should label the activity.
#[derive(Clone, Copy, Debug, PartialEq, Eq, Structural)]
pub enum ActivityKind {
    Watching,
    Listening,
}

/// Which line of the payload the chat client displays as the headline.
#[derive(Clone, Copy, Debug, PartialEq, Eq, Structural)]
pub enum StatusDisplay {
    Name,
    State,
    Details,
}

/// Protocol-independent description of one rich-presence update. The
/// driver translates this one-for-one into the chat client's wire type.
#[derive(Clone, Debug)]
pub struct PresencePayload {
    pub details: String,
    pub state: String,
    pub activity_kind: ActivityKind,
    pub status_display: StatusDisplay,
    pub large_image_url: Option<String>,
    pub large_text: Option<String>,
    pub small_image: Option<String>,
    pub small_text: Option<String>,
    /// Start and end of playback in seconds of wall-clock time; present
    /// exactly while playing, so the client can render a live countdown.
    pub timestamps: Option<(u64, u64)>,
}

/// The view of an optional string: its characters, or empty when absent.
pub open spec fn opt_view(s: Option<String>) -> Seq<char> {
    match s {
        Some(v) => v@,
        None => Seq::empty(),
    }
}

/// Details line for an episode: "S<season>·E<episode> — <title>" when both
/// indices are known, the bare title otherwise.
pub open spec fn episode_details_text(s: Session) -> Seq<char> {
    if s.media_parent_index is Some && s.media_index is Some {
        "S"@ + dec_digits(s.media_parent_index->0 as nat) + "·E"@
            + dec_digits(s.media_index->0 as nat) + " — "@ + s.media_title@
    } else {
        s.media_title@
    }
}

/// Details line for media of no specific kind: grandparent and parent
/// titles, separated when both contribute text.
pub open spec fn generic_details_text(s: Session) -> Seq<char> {
    let gp = opt_view(s.media_grandparent_title);
    match s.media_parent_title {
        Some(p) => if gp.len() > 0 {
            gp + " - "@ + p@
        } else {
            gp + p@
        },
        None => gp,
    }
}

/// The payload's details line.
pub open spec fn details_text(s: Session) -> Seq<char> {
    match s.media_type {
        MediaType::Episode => episode_details_text(s),
        MediaType::Movie => s.media_title@,
        MediaType::Track => s.media_title@,
        _ => generic_details_text(s),
    }
}

/// The payload's state line: series or artist name for episodes and
/// tracks, empty for movies, the title for anything else.
pub open spec fn state_text(s: Session) -> Seq<char> {
    match s.media_type {
        MediaType::Episode => opt_view(s.media_grandparent_title),
        MediaType::Movie => Seq::empty(),
        MediaType::Track => opt_view(s.media_grandparent_title),
        _ => s.media_title@,
    }
}

pub open spec fn kind_of(s: Session) -> ActivityKind {
    if s.media_type is Track {
        ActivityKind::Listening
    } else {
        ActivityKind::Watching
    }
}

pub open spec fn display_of(s: Session) -> StatusDisplay {
    match s.media_type {
        MediaType::Episode => StatusDisplay::State,
        MediaType::Movie => StatusDisplay::Details,
        MediaType::Track => StatusDisplay::State,
        _ => StatusDisplay::Name,
    }
}

/// The artwork URL shown large, if the session carries a non-empty one.
pub open spec fn thumb_url(s: Session) -> Option<Seq<char>> {
    match s.thumbnail {
        Some(t) => if t@.len() > 0 {
            Some(t@)
        } else {
            None
        },
        None => None,
    }
}

/// Start-of-playback timestamp: now minus the elapsed seconds, floored.
pub open spec fn start_stamp(now_secs: u64, view_offset: u64) -> int {
    if now_secs >= view_offset / 1000 {
        now_secs - view_offset / 1000
    } else {
        0
    }
}

/// End-of-playback timestamp: now plus the remaining seconds, capped.
pub open spec fn end_stamp(now_secs: u64, view_offset: u64, duration: u64) -> int {
    let remaining = (if duration >= view_offset {
        (duration - view_offset) as int
    } else {
        0
    }) / 1000;
    if now_secs + remaining <= u64::MAX {
        now_secs + remaining
    } else {
        u64::MAX as int
    }
}

/// Builds the display payload for `s`, as of `now_secs` (wall-clock
/// seconds), mirroring each field of the session into the protocol shape.
pub fn build_payload(s: &Session, now_secs: u64) -> (r: PresencePayload)
    ensures
        r.details@ == details_text(*s),
        r.state@ == state_text(*s),
        r.activity_kind == kind_of(*s),
        r.status_display == display_of(*s),
        r.large_image_url matches Some(u) ==> (thumb_url(*s) matches Some(t) && u@ == t),
        thumb_url(*s) matches Some(t) ==> (r.large_image_url matches Some(u) && u@ == t),
        r.large_text matches Some(x) ==> (thumb_url(*s) is Some && x@ == s.media_title@),
        thumb_url(*s) is Some ==> r.large_text is Some,
        s.player_state is Paused ==> opt_view(r.small_image) == "pause-circle"@
            && opt_view(r.small_text) == "Paused"@,
        s.player_state is Buffering ==> opt_view(r.small_image) == "sand-clock"@
            && opt_view(r.small_text) == "Buffering"@,
        s.player_state is Idle ==> opt_view(r.small_image) == "sleep-mode"@
            && opt_view(r.small_text) == "Idle"@,
        s.player_state is Playing ==> r.small_image is None && r.small_text is None,
        s.player_state is Playing ==> (r.timestamps matches Some(ts)
            && ts.0 == start_stamp(now_secs, s.view_offset)
            && ts.1 == end_stamp(now_secs, s.view_offset, s.duration)),
        !(s.player_state is Playing) ==> r.timestamps is None,
{
    let details: String = match s.media_type {
        MediaType::Episode => {
            match (s.media_parent_index, s.media_index) {
                (Some(p), Some(i)) => {
                    let season = fmt_u64(p as u64);
                    let episode = fmt_u64(i as u64);
                    let mut d = String::from_str("S");
                    d.append(season.as_str());
                    d.append("·E");
                    d.append(episode.as_str());
                    d.append(" — ");
                    d.append(s.media_title.as_str());
                    proof {
                        assert(d@ =~= episode_details_text(*s));
                    }
                    d
                },
                _ => s.media_title.clone(),
            }
        },
        MediaType::Movie => s.media_title.clone(),
        MediaType::Track => s.media_title.clone(),
        _ => {
            let mut d = String::new();
            if let Some(gp) = &s.media_grandparent_title {
                d.append(gp.as_str());
            }
            if let Some(p) = &s.media_parent_title {
                if !d.as_str().is_empty() {
                    d.append(" - ");
                }
                d.append(p.as_str());
            }
            proof {
                assert(d@ =~= generic_details_text(*s));
            }
            d
        },
    };

    let state: String = match s.media_type {
        MediaType::Episode => clone_or_empty(&s.media_grandparent_title),
        MediaType::Movie => String::new(),
        MediaType::Track => clone_or_empty(&s.media_grandparent_title),
        _ => s.media_title.clone(),
    };

    let activity_kind = if s.media_type == MediaType::Track {
        ActivityKind::Listening
    } else {
        ActivityKind::Watching
    };

    let status_display = match s.media_type {
        MediaType::Episode => StatusDisplay::State,
        MediaType::Movie => StatusDisplay::Details,
        MediaType::Track => StatusDisplay::State,
        _ => StatusDisplay::Name,
    };

    let (large_image_url, large_text): (Option<String>, Option<String>) = match &s.thumbnail {
        Some(t) => {
            if !t.as_str().is_empty() {
                (Some(t.clone()), Some(s.media_title.clone()))
            } else {
                (None, None)
            }
        },
        None => (None, None),
    };

    let (small_image, small_text): (Option<String>, Option<String>) = match s.player_state {
        PlayerState::Paused => (
            Some(String::from_str("pause-circle")),
            Some(String::from_str("Paused")),
        ),
        PlayerState::Buffering => (
            Some(String::from_str("sand-clock")),
            Some(String::from_str("Buffering")),
        ),
        PlayerState::Idle => (
            Some(String::from_str("sleep-mode")),
            Some(String::from_str("Idle")),
        ),
        PlayerState::Playing => (None, None),
    };

    let timestamps: Option<(u64, u64)> = if s.player_state == PlayerState::Playing {
        let elapsed = s.view_offset / 1000;
        let remaining_ms = if s.duration >= s.view_offset {
            s.duration - s.view_offset
        } else {
            0
        };
        let remaining = remaining_ms / 1000;
        let start = if now_secs >= elapsed {
            now_secs - elapsed
        } else {
            0
        };
        let end = if now_secs <= u64::MAX - remaining {
            now_secs + remaining
        } else {
            u64::MAX
        };
        Some((start, end))
    } else {
        None
    };

    PresencePayload {
        details,
        state,
        activity_kind,
        status_display,
        large_image_url,
        large_text,
        small_image,
        small_text,
        timestamps,
    }
}

/// Copy of an optional string, empty when absent.
fn clone_or_empty(s: &Option<String>) -> (r: String)
    ensures
        r@ == opt_view(*s),
{
    match s {
        Some(v) => v.clone(),
        None => String::new(),
    }
}

/// Retries per connection-establishment sequence.
pub const MAX_CONNECT_ATTEMPTS: u32 = 3;

/// Linear backoff step between attempts within one sequence.
pub const CONNECT_BACKOFF_STEP_MS: u64 = 500;

/// Minimum pause between fresh establishment sequences, so a chat client
/// that is simply not running is not hammered. A forced reconnect after a
/// failed publish bypasses it.
pub const CONNECT_COOLDOWN_MS: u64 = 2000;

/// What to do after a publish attempt failed on a live link.
#[derive(Clone, Copy, Debug, PartialEq, Eq, Structural)]
pub enum PublishRecovery {
    /// Tear the link down and rebuild it (bypassing the cooldown), then
    /// retry the same publish once.
    ForceReconnect,
    /// Already retried once: surface the error for this tick.
    Surface,
}

/// Lifecycle state of the RPC link to the chat client. The link itself
/// lives with the driver; this records connectedness and the instant of
/// the last establishment sequence, and decides retries and cooldowns.
///
/// Clearing the display is best-effort by policy: the driver may attempt
/// one forced reconnect after a failed clear, but never surfaces a clear
/// failure to its caller.
pub struct ConnectionManager {
    pub connected: bool,
    pub last_attempt_ms: Option<u64>,
}

impl ConnectionManager {
    /// A fresh establishment sequence is blocked while the cooldown since
    /// the previous one is still running.
    pub open spec fn cooldown_blocked(self, now: u64) -> bool {
        match self.last_attempt_ms {
            Some(t) => t <= now < t + CONNECT_COOLDOWN_MS,
            None => false,
        }
    }

    pub fn new() -> (r: ConnectionManager)
        ensures
            !r.connected,
            r.last_attempt_ms is None,
    {
        ConnectionManager { connected: false, last_attempt_ms: None }
    }

    pub fn is_connected(&self) -> (r: bool)
        ensures
            r == self.connected,
    {
        self.connected
    }

    /// Gate for one establishment sequence. Unless `forced`, the cooldown
    /// must have passed; on success the attempt instant is recorded and
    /// the driver may run up to [`MAX_CONNECT_ATTEMPTS`] attempts, spaced
    /// by [`Self::retry_backoff_after`].
    pub fn start_attempts(&mut self, now_ms: u64, forced: bool) -> (r: Result<(), AppError>)
        ensures
            r is Ok <==> (forced || !old(self).cooldown_blocked(now_ms)),
            r is Ok ==> *final(self) == (ConnectionManager {
                connected: old(self).connected,
                last_attempt_ms: Some(now_ms),
            }),
            r matches Err(e) ==> ({
                &&& *final(self) == *old(self)
                &&& e matches AppError::DiscordRpc(m)
                &&& m@ == "Too soon to reconnect, waiting for cooldown"@
            }),
    {
        if !forced {
            if let Some(t) = self.last_attempt_ms {
                if now_ms >= t && now_ms - t < CONNECT_COOLDOWN_MS {
                    return Err(AppError::DiscordRpc(
                        String::from_str("Too soon to reconnect, waiting for cooldown"),
                    ));
                }
            }
        }
        self.last_attempt_ms = Some(now_ms);
        Ok(())
    }

    /// After attempt number `attempt` (1-based) failed: the backoff to
    /// sleep before the next attempt, or `None` when the sequence is
    /// exhausted and the failure is to be reported.
    pub fn retry_backoff_after(attempt: u32) -> (r: Option<u64>)
        requires
            1 <= attempt <= MAX_CONNECT_ATTEMPTS,
        ensures
            attempt < MAX_CONNECT_ATTEMPTS ==> (r matches Some(d)
                && d == CONNECT_BACKOFF_STEP_MS * attempt),
            attempt == MAX_CONNECT_ATTEMPTS ==> r is None,
    {
        if attempt < MAX_CONNECT_ATTEMPTS {
            Some(CONNECT_BACKOFF_STEP_MS * attempt as u64)
        } else {
            None
        }
    }

    /// The link came up.
    pub fn note_connected(&mut self)
        ensures
            *final(self) == (ConnectionManager {
                connected: true,
                last_attempt_ms: old(self).last_attempt_ms,
            }),
    {
        self.connected = true;
    }

    /// The link was torn down (or found dead).
    pub fn note_dropped(&mut self)
        ensures
            *final(self) == (ConnectionManager {
                connected: false,
                last_attempt_ms: old(self).last_attempt_ms,
            }),
    {
        self.connected = false;
    }

    /// Recovery policy after a failed publish on a live link: exactly one
    /// forced reconnect and retry, then surface.
    pub fn publish_failure_step(already_retried: bool) -> (r: PublishRecovery)
        ensures
            r == if already_retried {
                PublishRecovery::Surface
            } else {
                PublishRecovery::ForceReconnect
            },
    {
        if already_retried {
            PublishRecovery::Surface
        } else {
            PublishRecovery::ForceReconnect
        }
    }
}

} // verus!
