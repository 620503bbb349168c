use plex_discord_rpc::engine::EngineState;
use plex_discord_rpc::models::{
    AppConfig, AppError, MediaType, PlayerState, Session,
};
use plex_discord_rpc::strategy::{FetchDecision, PushDirective, PushFeed};
use plex_discord_rpc::tick::{TickOutcome, TickStart};
use plex_discord_rpc::tracker::ChangeOutcome;

fn episode(title: &str, season: u32, index: u32, offset: u64) -> Session {
    Session {
        media_title: title.to_string(),
        media_index: Some(index),
        media_parent_title: Some(format!("Season {}", season)),
        media_parent_index: Some(season),
        media_grandparent_title: Some("The Show".to_string()),
        player_state: PlayerState::Playing,
        media_type: MediaType::Episode,
        duration: 90_000,
        view_offset: offset,
        thumbnail: None,
    }
}

fn ready_config(owned: bool) -> AppConfig {
    AppConfig {
        auth_token: Some("tok".to_string()),
        username: Some("user".to_string()),
        client_id: "cid".to_string(),
        server_address: Some("192.168.1.50".to_string()),
        server_port: Some(32400),
        server_name: Some("Home".to_string()),
        is_owned: Some(owned),
    }
}

#[test]
fn fresh_owned_fetch_publishes() {
    let mut engine = EngineState::new();
    let config = ready_config(true);

    let start = engine.begin_tick(&config, PushFeed::NoEvents);
    match start {
        TickStart::FetchNeeded { directive } => {
            assert!(matches!(directive, PushDirective::Retain));
        }
        _ => panic!("an owned target must fetch"),
    }

    let fetched = Ok(Some(episode("Episode 3", 1, 3, 0)));
    match engine.apply_fetch(fetched, 1_000).unwrap() {
        TickOutcome::Publish { session, status } => {
            assert_eq!(status, "Playing: Episode 3");
            assert_eq!(session.media_title, "Episode 3");
        }
        _ => panic!("the first observation must publish"),
    }
    assert!(engine.get_last_session().is_some());
}

#[test]
fn consistent_refetch_is_unchanged() {
    let mut engine = EngineState::new();
    engine.record(Some(episode("Episode 3", 1, 3, 0)), 1_000);

    // One second later the offset advanced by exactly one second.
    match engine
        .apply_fetch(Ok(Some(episode("Episode 3", 1, 3, 1_000))), 2_000)
        .unwrap()
    {
        TickOutcome::NoPublish { status } => {
            assert_eq!(status, "Playing: Episode 3");
        }
        _ => panic!("a consistent refetch must not publish"),
    }
}

#[test]
fn large_seek_is_changed_small_jitter_is_not() {
    let mut engine = EngineState::new();
    engine.record(Some(episode("Episode 3", 1, 3, 0)), 1_000);

    // +1000 ms beyond the expected offset: inside the threshold.
    let o = engine.record(Some(episode("Episode 3", 1, 3, 2_000)), 2_000);
    assert_eq!(o, ChangeOutcome::Unchanged);

    // +10000 ms beyond the expected offset: a seek.
    let o = engine.record(Some(episode("Episode 3", 1, 3, 11_000)), 2_000);
    assert_eq!(o, ChangeOutcome::Changed);
}

#[test]
fn idle_debounce_holds_then_clears_once() {
    let mut engine = EngineState::new();
    engine.record(Some(episode("Episode 3", 1, 3, 0)), 10_000);

    assert_eq!(engine.record(None, 10_500), ChangeOutcome::IdlePending);
    assert_eq!(engine.record(None, 11_500), ChangeOutcome::IdlePending);
    assert_eq!(engine.record(None, 12_400), ChangeOutcome::IdlePending);
    assert!(engine.get_last_session().is_some());

    // 3000 ms past the first gap: cleared, exactly once.
    assert_eq!(engine.record(None, 13_500), ChangeOutcome::IdleCleared);
    assert!(engine.get_last_session().is_none());
    assert_eq!(engine.record(None, 14_000), ChangeOutcome::StillEmpty);
}

#[test]
fn session_returning_within_grace_cancels_idle() {
    let mut engine = EngineState::new();
    engine.record(Some(episode("Episode 3", 1, 3, 0)), 10_000);
    assert_eq!(engine.record(None, 11_000), ChangeOutcome::IdlePending);
    // The same session shows up again before the grace period ends.
    let o = engine.record(Some(episode("Episode 3", 1, 3, 2_000)), 12_000);
    assert_eq!(o, ChangeOutcome::Unchanged);
    // A later gap starts the timer afresh.
    assert_eq!(engine.record(None, 14_500), ChangeOutcome::IdlePending);
}

#[test]
fn owned_target_always_fetches() {
    let feeds = [
        PushFeed::NoEvents,
        PushFeed::Drained { signal: false, closed: false },
        PushFeed::Drained { signal: true, closed: false },
        PushFeed::Drained { signal: false, closed: true },
    ];
    for feed in feeds {
        let mut engine = EngineState::new();
        engine.record(Some(episode("Episode 3", 1, 3, 0)), 1_000);
        engine.record_open_result(true);
        let (decision, _) = engine.decide(true, feed);
        assert_eq!(decision, FetchDecision::FetchNow);
    }
}

#[test]
fn quiet_open_channel_skips_fetch() {
    let mut engine = EngineState::new();
    engine.record(Some(episode("Episode 3", 1, 3, 0)), 1_000);
    engine.record_open_result(true);
    let (decision, directive) =
        engine.decide(false, PushFeed::Drained { signal: false, closed: false });
    assert_eq!(decision, FetchDecision::SkipFetch);
    assert_eq!(directive, PushDirective::Retain);
}

#[test]
fn buffered_signal_forces_fetch() {
    let mut engine = EngineState::new();
    engine.record(Some(episode("Episode 3", 1, 3, 0)), 1_000);
    engine.record_open_result(true);
    let (decision, directive) =
        engine.decide(false, PushFeed::Drained { signal: true, closed: false });
    assert_eq!(decision, FetchDecision::FetchNow);
    assert_eq!(directive, PushDirective::Retain);
}

#[test]
fn closed_channel_drops_and_reopens_next_tick() {
    let mut engine = EngineState::new();
    engine.record(Some(episode("Episode 3", 1, 3, 0)), 1_000);
    engine.record_open_result(true);

    let (decision, directive) =
        engine.decide(false, PushFeed::Drained { signal: false, closed: true });
    assert_eq!(decision, FetchDecision::FetchNow);
    assert_eq!(directive, PushDirective::DropChannel);

    // The channel is gone, so the next tick must ask to reopen it.
    let (decision, directive) = engine.decide(false, PushFeed::NoEvents);
    assert_eq!(decision, FetchDecision::FetchNow);
    assert_eq!(directive, PushDirective::OpenChannel);
}

#[test]
fn shared_cold_start_fetches() {
    let mut engine = EngineState::new();
    engine.record_open_result(true);
    let (decision, _) =
        engine.decide(false, PushFeed::Drained { signal: false, closed: false });
    assert_eq!(decision, FetchDecision::FetchNow);
}

#[test]
fn fetch_error_leaves_state_and_cached_status() {
    let mut engine = EngineState::new();
    engine.record(Some(episode("Episode 3", 1, 3, 0)), 1_000);
    engine.record_open_result(true);

    let err = engine.apply_fetch(
        Err(AppError::Network("connection refused".to_string())),
        2_000,
    );
    match err {
        Err(AppError::Network(msg)) => assert_eq!(msg, "connection refused"),
        _ => panic!("the fetch error must come back as it was"),
    }
    // The tracked session survived; a quiet tick still shows it.
    let config = ready_config(false);
    match engine.begin_tick(&config, PushFeed::Drained { signal: false, closed: false }) {
        TickStart::Cached { status } => assert_eq!(status, "Playing: Episode 3"),
        _ => panic!("a quiet tick must serve the cached status"),
    }
}

#[test]
fn idle_fetch_clears_after_grace() {
    let mut engine = EngineState::new();
    engine.record(Some(episode("Episode 3", 1, 3, 0)), 1_000);

    match engine.apply_fetch(Ok(None), 2_000).unwrap() {
        TickOutcome::NoPublish { status } => {
            assert_eq!(status, "Waiting for idle debounce...");
        }
        _ => panic!("the first gap only starts the timer"),
    }
    match engine.apply_fetch(Ok(None), 5_100).unwrap() {
        TickOutcome::ClearPresence { status } => {
            assert_eq!(status, "No active session");
        }
        _ => panic!("after the grace period the display must clear"),
    }
    match engine.apply_fetch(Ok(None), 6_000).unwrap() {
        TickOutcome::NoPublish { status } => {
            assert_eq!(status, "No active session");
        }
        _ => panic!("nothing tracked, nothing to clear"),
    }
}

#[test]
fn idle_player_state_counts_as_no_session() {
    let mut engine = EngineState::new();
    engine.record(Some(episode("Episode 3", 1, 3, 0)), 1_000);

    let mut idle = episode("Episode 3", 1, 3, 0);
    idle.player_state = PlayerState::Idle;
    match engine.apply_fetch(Ok(Some(idle)), 2_000).unwrap() {
        TickOutcome::NoPublish { status } => {
            assert_eq!(status, "Waiting for idle debounce...");
        }
        _ => panic!("an idle session must be treated as absent"),
    }
}

#[test]
fn blocked_without_credentials() {
    let mut engine = EngineState::new();
    let mut config = ready_config(true);
    config.auth_token = None;
    match engine.begin_tick(&config, PushFeed::NoEvents) {
        TickStart::Blocked { status } => assert_eq!(status, "Not authenticated"),
        _ => panic!("missing credentials must short-circuit the tick"),
    }
}

#[test]
fn blocked_without_server() {
    let mut engine = EngineState::new();
    let mut config = ready_config(true);
    config.server_address = None;
    match engine.begin_tick(&config, PushFeed::NoEvents) {
        TickStart::Blocked { status } => assert_eq!(status, "No server selected"),
        _ => panic!("a missing server must short-circuit the tick"),
    }
}

#[test]
fn paused_session_status_and_change() {
    let mut engine = EngineState::new();
    engine.record(Some(episode("Episode 3", 1, 3, 0)), 1_000);

    let mut paused = episode("Episode 3", 1, 3, 1_000);
    paused.player_state = PlayerState::Paused;
    match engine.apply_fetch(Ok(Some(paused)), 2_000).unwrap() {
        TickOutcome::Publish { status, .. } => {
            assert_eq!(status, "Paused: Episode 3");
        }
        _ => panic!("a state change must publish"),
    }
}

#[test]
fn shared_target_full_tick_flow() {
    let mut engine = EngineState::new();
    let config = ready_config(false);

    // First tick: no channel yet, so the engine asks to open one and to
    // fetch either way.
    match engine.begin_tick(&config, PushFeed::NoEvents) {
        TickStart::FetchNeeded { directive } => {
            assert_eq!(directive, PushDirective::OpenChannel);
        }
        _ => panic!("a cold shared tick must fetch"),
    }
    engine.record_open_result(true);
    match engine
        .apply_fetch(Ok(Some(episode("Episode 3", 1, 3, 0))), 1_000)
        .unwrap()
    {
        TickOutcome::Publish { status, .. } => assert_eq!(status, "Playing: Episode 3"),
        _ => panic!("the seeded observation must publish"),
    }

    // Second tick: the channel is open and quiet, so nothing is fetched
    // and the cached status is served.
    match engine.begin_tick(&config, PushFeed::Drained { signal: false, closed: false }) {
        TickStart::Cached { status } => assert_eq!(status, "Playing: Episode 3"),
        _ => panic!("a quiet channel must skip the fetch"),
    }

    // Third tick: a buffered signal forces a fetch again.
    match engine.begin_tick(&config, PushFeed::Drained { signal: true, closed: false }) {
        TickStart::FetchNeeded { directive } => {
            assert_eq!(directive, PushDirective::Retain);
        }
        _ => panic!("a buffered signal must force a fetch"),
    }
}

#[test]
fn reset_forgets_everything() {
    let mut engine = EngineState::new();
    engine.record(Some(episode("Episode 3", 1, 3, 0)), 1_000);
    engine.record_open_result(true);
    engine.reset();
    assert!(engine.get_last_session().is_none());
    // After a reset the next shared tick reopens the channel.
    let (decision, directive) = engine.decide(false, PushFeed::NoEvents);
    assert_eq!(decision, FetchDecision::FetchNow);
    assert_eq!(directive, PushDirective::OpenChannel);
}
