//! Engine-wide laws: properties of the tracker and the strategy that
//! hold for every state and observation, proved from the transition
//! functions the executable methods are specified against.

use vstd::prelude::*;
use crate::engine::{EngineState, DRIFT_THRESHOLD_MS, IDLE_GRACE_MS};
use crate::models::Session;
use crate::strategy::{decide_step, FetchDecision, PushDirective, PushFeed};
use crate::tracker::{
    drift_magnitude, expected_offset, observation_changed, record_step, same_identity,
    ChangeOutcome,
};

verus! {

/// An observation that repeats the tracked session faithfully: same
/// identity, and an offset within the drift tolerance of advancing
/// exactly with the wall clock since the last publish. (An offset that
/// advanced exactly has drift zero and is the plainest instance.)
pub open spec fn consistent_repeat(last: Session, published_at: u64, obs: Session, now: u64) -> bool {
    &&& same_identity(last, obs)
    &&& drift_magnitude(
        obs.view_offset,
        expected_offset(last.view_offset, published_at, now),
    ) <= DRIFT_THRESHOLD_MS
}

/// The outcome of each `record` in a run of observations, threading the
/// state through.
pub open spec fn record_outcomes(s: EngineState, obs: Seq<(Session, u64)>) -> Seq<ChangeOutcome>
    decreases obs.len(),
{
    if obs.len() == 0 {
        Seq::empty()
    } else {
        let step = record_step(s, Some(obs[0].0), obs[0].1);
        seq![step.1] + record_outcomes(step.0, obs.drop_first())
    }
}

/// A run of observations yields one outcome each.
pub proof fn lemma_record_outcomes_len(s: EngineState, obs: Seq<(Session, u64)>)
    ensures
        record_outcomes(s, obs).len() == obs.len(),
    decreases obs.len(),
{
    if obs.len() > 0 {
        lemma_record_outcomes_len(record_step(s, Some(obs[0].0), obs[0].1).0, obs.drop_first());
    }
}

/// A faithfully repeating observation is never reported as a change, and
/// leaves the tracked session and its publish instant untouched.
pub proof fn lemma_consistent_repeat_unchanged(
    s: EngineState,
    last: Session,
    published_at: u64,
    obs: Session,
    now: u64,
)
    requires
        s.wf(),
        s.last_session == Some(last),
        s.last_published_at == Some(published_at),
        consistent_repeat(last, published_at, obs, now),
    ensures
        !observation_changed(s, obs, now),
        record_step(s, Some(obs), now).1 == ChangeOutcome::Unchanged,
        record_step(s, Some(obs), now).0.last_session == Some(last),
        record_step(s, Some(obs), now).0.last_published_at == Some(published_at),
        record_step(s, Some(obs), now).0.idle_since is None,
        record_step(s, Some(obs), now).0.wf(),
{
}

/// For any run of faithfully repeating observations, `record` reports
/// "unchanged" every single time.
pub proof fn lemma_identical_run_unchanged(
    s: EngineState,
    last: Session,
    published_at: u64,
    obs: Seq<(Session, u64)>,
)
    requires
        s.wf(),
        s.last_session == Some(last),
        s.last_published_at == Some(published_at),
        forall|k: int| 0 <= k < obs.len() ==> consistent_repeat(
            last,
            published_at,
            (#[trigger] obs[k]).0,
            obs[k].1,
        ),
    ensures
        forall|k: int| 0 <= k < obs.len() ==> #[trigger] record_outcomes(s, obs)[k]
            == ChangeOutcome::Unchanged,
    decreases obs.len(),
{
    if obs.len() > 0 {
        lemma_consistent_repeat_unchanged(s, last, published_at, obs[0].0, obs[0].1);
        let s1 = record_step(s, Some(obs[0].0), obs[0].1).0;
        assert forall|k: int| 0 <= k < obs.drop_first().len() implies consistent_repeat(
            last,
            published_at,
            (#[trigger] obs.drop_first()[k]).0,
            obs.drop_first()[k].1,
        ) by {
            assert(obs.drop_first()[k] == obs[k + 1]);
        }
        lemma_identical_run_unchanged(s1, last, published_at, obs.drop_first());
        lemma_record_outcomes_len(s, obs);
        lemma_record_outcomes_len(s1, obs.drop_first());
        assert forall|k: int| 0 <= k < obs.len() implies #[trigger] record_outcomes(s, obs)[k]
            == ChangeOutcome::Unchanged by {
            if k > 0 {
                assert(record_outcomes(s, obs)[k] == record_outcomes(s1, obs.drop_first())[k - 1]);
            }
        }
    }
}

/// A seek beyond the drift threshold is always classified as changed; a
/// small jitter within it never is. In particular, with identity and
/// state unchanged, a jump of +10000 ms is a change and a jump of
/// +1000 ms is not.
pub proof fn lemma_seek_classification(
    s: EngineState,
    last: Session,
    published_at: u64,
    obs: Session,
    now: u64,
)
    requires
        s.wf(),
        s.last_session == Some(last),
        s.last_published_at == Some(published_at),
        same_identity(last, obs),
        obs.player_state is Playing,
        now >= published_at,
    ensures
        obs.view_offset == last.view_offset + (now - published_at) + 10000 ==> record_step(
            s,
            Some(obs),
            now,
        ).1 == ChangeOutcome::Changed,
        obs.view_offset == last.view_offset + (now - published_at) + 1000 ==> record_step(
            s,
            Some(obs),
            now,
        ).1 == ChangeOutcome::Unchanged,
{
    assert(10000 > DRIFT_THRESHOLD_MS);
    assert(1000 <= DRIFT_THRESHOLD_MS);
}

/// Repeated "no session" reports inside the grace window keep the
/// tracked session and only warn that idleness is pending; the first
/// report at or past the window clears it, and exactly once — a further
/// report finds nothing tracked.
pub proof fn lemma_idle_debounce(
    s: EngineState,
    t1: u64,
    t2: u64,
    t3: u64,
    t4: u64,
    t5: u64,
)
    requires
        s.wf(),
        s.last_session is Some,
        s.idle_since is None,
        t1 <= t2 <= t3 <= t4 <= t5,
        t3 < t1 + IDLE_GRACE_MS,
        t4 >= t1 + IDLE_GRACE_MS,
    ensures
        ({
            let step1 = record_step(s, None, t1);
            let step2 = record_step(step1.0, None, t2);
            let step3 = record_step(step2.0, None, t3);
            let step4 = record_step(step3.0, None, t4);
            let step5 = record_step(step4.0, None, t5);
            &&& step1.1 == ChangeOutcome::IdlePending
            &&& step2.1 == ChangeOutcome::IdlePending
            &&& step3.1 == ChangeOutcome::IdlePending
            &&& step3.0.last_session == s.last_session
            &&& step4.1 == ChangeOutcome::IdleCleared
            &&& step4.0.last_session is None
            &&& step5.1 == ChangeOutcome::StillEmpty
        }),
{
}

/// For an owned target, the strategy always fetches, touches neither the
/// engine state nor the push channel.
pub proof fn lemma_owned_always_fetches(s: EngineState, feed: PushFeed)
    requires
        s.wf(),
    ensures
        decide_step(s, true, feed) == (s, FetchDecision::FetchNow, PushDirective::Retain),
{
}

/// For a shared target with a healthy open channel, no buffered signal
/// and a tracked session, the strategy skips the fetch.
pub proof fn lemma_quiet_channel_skips(s: EngineState)
    requires
        s.wf(),
        s.subscription_open,
        s.last_session is Some,
    ensures
        decide_step(s, false, PushFeed::Drained { signal: false, closed: false }) == (
            s,
            FetchDecision::SkipFetch,
            PushDirective::Retain,
        ),
{
}

/// A channel that reports itself closed is dropped and a fetch forced,
/// and the next tick's decision attempts to reopen the channel.
pub proof fn lemma_closed_channel_reopens(s: EngineState, signal: bool, next_feed: PushFeed)
    requires
        s.wf(),
        s.subscription_open,
    ensures
        ({
            let step = decide_step(s, false, PushFeed::Drained { signal, closed: true });
            &&& step.1 == FetchDecision::FetchNow
            &&& step.2 == PushDirective::DropChannel
            &&& !step.0.subscription_open
            &&& decide_step(step.0, false, next_feed).2 == PushDirective::OpenChannel
        }),
{
}

} // verus!
