use plex_discord_rpc::models::{MediaType, PlayerState, Session};
use plex_discord_rpc::presence::{
    build_payload, ActivityKind, ConnectionManager, PublishRecovery, StatusDisplay,
};

fn base_session(kind: MediaType, state: PlayerState) -> Session {
    Session {
        media_title: "Episode 3".to_string(),
        media_index: Some(3),
        media_parent_title: Some("Season 1".to_string()),
        media_parent_index: Some(1),
        media_grandparent_title: Some("The Show".to_string()),
        player_state: state,
        media_type: kind,
        duration: 90_000,
        view_offset: 30_000,
        thumbnail: None,
    }
}

#[test]
fn episode_payload_lines() {
    let s = base_session(MediaType::Episode, PlayerState::Playing);
    let p = build_payload(&s, 1_000);
    assert_eq!(p.details, "S1·E3 — Episode 3");
    assert_eq!(p.state, "The Show");
    assert_eq!(p.activity_kind, ActivityKind::Watching);
    assert_eq!(p.status_display, StatusDisplay::State);
}

#[test]
fn episode_without_indices_falls_back_to_title() {
    let mut s = base_session(MediaType::Episode, PlayerState::Playing);
    s.media_index = None;
    let p = build_payload(&s, 1_000);
    assert_eq!(p.details, "Episode 3");
}

#[test]
fn movie_payload_lines() {
    let mut s = base_session(MediaType::Movie, PlayerState::Playing);
    s.media_title = "The Movie".to_string();
    let p = build_payload(&s, 1_000);
    assert_eq!(p.details, "The Movie");
    assert_eq!(p.state, "");
    assert_eq!(p.activity_kind, ActivityKind::Watching);
    assert_eq!(p.status_display, StatusDisplay::Details);
}

#[test]
fn track_payload_lines() {
    let mut s = base_session(MediaType::Track, PlayerState::Playing);
    s.media_title = "The Song".to_string();
    s.media_grandparent_title = Some("The Artist".to_string());
    let p = build_payload(&s, 1_000);
    assert_eq!(p.details, "The Song");
    assert_eq!(p.state, "The Artist");
    assert_eq!(p.activity_kind, ActivityKind::Listening);
    assert_eq!(p.status_display, StatusDisplay::State);
}

#[test]
fn generic_payload_concatenates_parents() {
    let s = base_session(MediaType::Unknown, PlayerState::Playing);
    let p = build_payload(&s, 1_000);
    assert_eq!(p.details, "The Show - Season 1");
    assert_eq!(p.state, "Episode 3");
    assert_eq!(p.status_display, StatusDisplay::Name);
}

#[test]
fn generic_payload_without_grandparent() {
    let mut s = base_session(MediaType::Unknown, PlayerState::Playing);
    s.media_grandparent_title = None;
    let p = build_payload(&s, 1_000);
    assert_eq!(p.details, "Season 1");
}

#[test]
fn playing_carries_countdown_timestamps() {
    // 30 s elapsed of 90 s: the countdown spans [now - 30, now + 60].
    let s = base_session(MediaType::Episode, PlayerState::Playing);
    let p = build_payload(&s, 1_000);
    assert_eq!(p.timestamps, Some((970, 1_060)));
    assert!(p.small_image.is_none());
    assert!(p.small_text.is_none());
}

#[test]
fn paused_carries_icon_not_timestamps() {
    let s = base_session(MediaType::Episode, PlayerState::Paused);
    let p = build_payload(&s, 1_000);
    assert_eq!(p.timestamps, None);
    assert_eq!(p.small_image.as_deref(), Some("pause-circle"));
    assert_eq!(p.small_text.as_deref(), Some("Paused"));
}

#[test]
fn buffering_and_idle_icons() {
    let s = base_session(MediaType::Episode, PlayerState::Buffering);
    let p = build_payload(&s, 1_000);
    assert_eq!(p.small_image.as_deref(), Some("sand-clock"));
    assert_eq!(p.small_text.as_deref(), Some("Buffering"));

    let s = base_session(MediaType::Episode, PlayerState::Idle);
    let p = build_payload(&s, 1_000);
    assert_eq!(p.small_image.as_deref(), Some("sleep-mode"));
    assert_eq!(p.small_text.as_deref(), Some("Idle"));
}

#[test]
fn offset_past_duration_still_yields_timestamps() {
    let mut s = base_session(MediaType::Episode, PlayerState::Playing);
    s.view_offset = 95_000;
    s.duration = 90_000;
    let p = build_payload(&s, 1_000);
    // 95 s elapsed, nothing remaining.
    assert_eq!(p.timestamps, Some((905, 1_000)));
}

#[test]
fn thumbnail_becomes_large_image() {
    let mut s = base_session(MediaType::Episode, PlayerState::Playing);
    s.thumbnail = Some("http://host/art.jpg".to_string());
    let p = build_payload(&s, 1_000);
    assert_eq!(p.large_image_url.as_deref(), Some("http://host/art.jpg"));
    assert_eq!(p.large_text.as_deref(), Some("Episode 3"));

    s.thumbnail = Some(String::new());
    let p = build_payload(&s, 1_000);
    assert!(p.large_image_url.is_none());
    assert!(p.large_text.is_none());
}

#[test]
fn cooldown_blocks_fresh_attempts_only() {
    let mut mgr = ConnectionManager::new();
    assert!(!mgr.is_connected());

    assert!(mgr.start_attempts(10_000, false).is_ok());
    // Inside the 2000 ms cooldown a fresh sequence is refused...
    match mgr.start_attempts(11_000, false) {
        Err(plex_discord_rpc::models::AppError::DiscordRpc(msg)) => {
            assert_eq!(msg, "Too soon to reconnect, waiting for cooldown");
        }
        _ => panic!("the cooldown must refuse a fresh sequence"),
    }
    // ...but a forced reconnect goes through.
    assert!(mgr.start_attempts(11_000, true).is_ok());
    // Once the cooldown passed, fresh sequences run again.
    assert!(mgr.start_attempts(13_000, false).is_ok());
}

#[test]
fn backoff_is_linear_and_bounded() {
    assert_eq!(ConnectionManager::retry_backoff_after(1), Some(500));
    assert_eq!(ConnectionManager::retry_backoff_after(2), Some(1_000));
    assert_eq!(ConnectionManager::retry_backoff_after(3), None);
}

#[test]
fn publish_failure_reconnects_exactly_once() {
    // The chat client connects, then silently drops the link; the next
    // publish fails once, forces one reconnect, and the retry succeeds.
    let mut mgr = ConnectionManager::new();
    assert!(mgr.start_attempts(10_000, false).is_ok());
    mgr.note_connected();
    assert!(mgr.is_connected());

    let mut reconnects = 0;
    // First publish attempt fails.
    let mut retried = false;
    loop {
        match ConnectionManager::publish_failure_step(retried) {
            PublishRecovery::ForceReconnect => {
                mgr.note_dropped();
                assert!(mgr.start_attempts(10_100, true).is_ok());
                mgr.note_connected();
                reconnects += 1;
                retried = true;
                // The retried publish succeeds; stop.
                break;
            }
            PublishRecovery::Surface => panic!("the first failure must reconnect"),
        }
    }
    assert_eq!(reconnects, 1);
    assert!(mgr.is_connected());
    // Had the retry failed as well, the error would be surfaced.
    assert_eq!(
        ConnectionManager::publish_failure_step(true),
        PublishRecovery::Surface
    );
}
