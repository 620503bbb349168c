//! Polling-versus-push strategy: whether this tick should fetch fresh
//! state, and what the driver should do with its push channel.

use vstd::prelude::*;
use crate::engine::EngineState;

verus! {

/// Whether fresh playback state should be fetched this tick.
#[derive(Clone, Copy, Debug, PartialEq, Eq, Structural)]
pub enum FetchDecision {
    FetchNow,
    SkipFetch,
}

/// What the driver must do with its push-notification channel after a
/// call to [`EngineState::decide`].
#[derive(Clone, Copy, Debug, PartialEq, Eq, Structural)]
pub enum PushDirective {
    /// Keep the channel (or the absence of one) as it is.
    Retain,
    /// Attempt to open a channel, then report back through
    /// [`EngineState::record_open_result`].
    OpenChannel,
    /// Discard the channel; it reported itself closed.
    DropChannel,
}

/// What the driver observed on its push channel since the last tick,
/// gathered by draining the channel without blocking.
#[derive(Clone, Copy, Debug, PartialEq, Eq, Structural)]
pub enum PushFeed {
    /// No channel was open, so there was nothing to drain.
    NoEvents,
    /// The open channel was drained: whether at least one signal was
    /// buffered, and whether the channel reported itself closed.
    Drained { signal: bool, closed: bool },
}

/// The strategy's transition function: next state, fetch decision, and
/// channel directive.
///
/// Owned targets are always polled. Shared targets prefer push signals:
/// with no channel open, one is to be opened and a fetch done either way;
/// with a channel open, a buffered signal or a closed channel forces a
/// fetch (a closed channel is also dropped, so the next tick reopens it),
/// and silence skips the fetch. A cold start (no tracked session) always
/// fetches.
pub open spec fn decide_step(
    state: EngineState,
    owned: bool,
    feed: PushFeed,
) -> (EngineState, FetchDecision, PushDirective) {
    if owned {
        (state, FetchDecision::FetchNow, PushDirective::Retain)
    } else if !state.subscription_open {
        (state, FetchDecision::FetchNow, PushDirective::OpenChannel)
    } else {
        match feed {
            PushFeed::Drained { signal, closed } => {
                if closed {
                    (
                        EngineState {
                            last_session: state.last_session,
                            last_published_at: state.last_published_at,
                            idle_since: state.idle_since,
                            subscription_open: false,
                        },
                        FetchDecision::FetchNow,
                        PushDirective::DropChannel,
                    )
                } else if signal || state.last_session is None {
                    (state, FetchDecision::FetchNow, PushDirective::Retain)
                } else {
                    (state, FetchDecision::SkipFetch, PushDirective::Retain)
                }
            },
            PushFeed::NoEvents => {
                if state.last_session is None {
                    (state, FetchDecision::FetchNow, PushDirective::Retain)
                } else {
                    (state, FetchDecision::SkipFetch, PushDirective::Retain)
                }
            },
        }
    }
}

impl EngineState {
    /// Decides whether to fetch this tick and how to treat the push
    /// channel. Of the target only its ownership flag matters here, so
    /// that is all this takes. Beyond matching [`decide_step`], the
    /// contract pins the headline policies: owned targets always fetch;
    /// a healthy, silent channel with a tracked session skips; a closed
    /// channel is dropped and still fetched; a missing channel on a
    /// shared target is opened.
    pub fn decide(&mut self, owned: bool, feed: PushFeed) -> (r: (FetchDecision, PushDirective))
        requires
            old(self).wf(),
        ensures
            final(self).wf(),
            (*final(self), r.0, r.1) == decide_step(*old(self), owned, feed),
            owned ==> r.0 == FetchDecision::FetchNow,
            old(self).last_session is None ==> r.0 == FetchDecision::FetchNow,
            (!owned && old(self).subscription_open
                && feed == (PushFeed::Drained { signal: false, closed: false })
                && old(self).last_session is Some) ==> r.0 == FetchDecision::SkipFetch,
            (!owned && old(self).subscription_open
                && feed matches PushFeed::Drained { closed: true, .. }) ==> ({
                &&& r.0 == FetchDecision::FetchNow
                &&& r.1 == PushDirective::DropChannel
                &&& !final(self).subscription_open
            }),
            (!owned && !old(self).subscription_open) ==> r.1 == PushDirective::OpenChannel,
    {
        if owned {
            (FetchDecision::FetchNow, PushDirective::Retain)
        } else if !self.subscription_open {
            (FetchDecision::FetchNow, PushDirective::OpenChannel)
        } else {
            match feed {
                PushFeed::Drained { signal, closed } => {
                    if closed {
                        self.subscription_open = false;
                        (FetchDecision::FetchNow, PushDirective::DropChannel)
                    } else if signal || self.last_session.is_none() {
                        (FetchDecision::FetchNow, PushDirective::Retain)
                    } else {
                        (FetchDecision::SkipFetch, PushDirective::Retain)
                    }
                },
                PushFeed::NoEvents => {
                    if self.last_session.is_none() {
                        (FetchDecision::FetchNow, PushDirective::Retain)
                    } else {
                        (FetchDecision::SkipFetch, PushDirective::Retain)
                    }
                },
            }
        }
    }

    /// Records whether the driver's attempt to open a push channel (asked
    /// for by [`PushDirective::OpenChannel`]) succeeded.
    pub fn record_open_result(&mut self, opened: bool)
        requires
            old(self).wf(),
        ensures
            final(self).wf(),
            *final(self) == (EngineState {
                last_session: old(self).last_session,
                last_published_at: old(self).last_published_at,
                idle_since: old(self).idle_since,
                subscription_open: opened,
            }),
    {
        self.subscription_open = opened;
    }
}

} // verus!
