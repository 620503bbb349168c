//! Shared value types: playback sessions, servers, configuration, errors.

use vstd::prelude::*;

verus! {

/// State the remote player reports for a session.
#[derive(Clone, Copy, Debug, PartialEq, Eq, Structural)]
pub enum PlayerState {
    Playing,
    Paused,
    Buffering,
    Idle,
}

/// Kind of media a session is playing.
#[derive(Clone, Copy, Debug, PartialEq, Eq, Structural)]
pub enum MediaType {
    Episode,
    Movie,
    Track,
    Unknown,
    Idle,
}

/// Snapshot of what is currently playing on the media server.
///
/// `duration` and `view_offset` are opaque millisecond counters; the engine
/// never assumes `view_offset <= duration`, it only uses them for drift
/// arithmetic and for countdown timestamps.
#[derive(Clone, Debug)]
pub struct Session {
    pub media_title: String,
    pub media_index: Option<u32>,
    pub media_parent_title: Option<String>,
    pub media_parent_index: Option<u32>,
    pub media_grandparent_title: Option<String>,
    pub player_state: PlayerState,
    pub media_type: MediaType,
    pub duration: u64,
    pub view_offset: u64,
    pub thumbnail: Option<String>,
}

impl Session {
    /// Field-for-field copy whose value is known to equal the original,
    /// unlike a derived `clone`.
    pub fn duplicate(&self) -> (r: Session)
        ensures
            r == *self,
    {
        Session {
            media_title: self.media_title.clone(),
            media_index: self.media_index,
            media_parent_title: clone_opt_string(&self.media_parent_title),
            media_parent_index: self.media_parent_index,
            media_grandparent_title: clone_opt_string(&self.media_grandparent_title),
            player_state: self.player_state,
            media_type: self.media_type,
            duration: self.duration,
            view_offset: self.view_offset,
            thumbnail: clone_opt_string(&self.thumbnail),
        }
    }
}

/// Copy of an optional string, with its value pinned down.
pub fn clone_opt_string(s: &Option<String>) -> (r: Option<String>)
    ensures
        r == *s,
{
    match s {
        Some(v) => Some(v.clone()),
        None => None,
    }
}

/// A media server endpoint the engine can be pointed at. The `owned` flag
/// only affects fetch strategy, never identity.
#[derive(Clone, Debug)]
pub struct PlexServer {
    pub name: String,
    pub address: String,
    pub port: u16,
    pub owned: bool,
}

/// Persisted application settings.
#[derive(Clone, Debug)]
pub struct AppConfig {
    pub auth_token: Option<String>,
    pub username: Option<String>,
    pub client_id: String,
    pub server_address: Option<String>,
    pub server_port: Option<u16>,
    pub server_name: Option<String>,
    pub is_owned: Option<bool>,
}

impl AppConfig {
    pub fn is_authenticated(&self) -> (r: bool)
        ensures
            r == (self.auth_token is Some && self.username is Some),
    {
        self.auth_token.is_some() && self.username.is_some()
    }
}

impl Default for AppConfig {
    fn default() -> (r: AppConfig)
        ensures
            r.auth_token is None,
            r.username is None,
            r.client_id@ == Seq::<char>::empty(),
            r.server_address is None,
            r.server_port is None,
            r.server_name is None,
            r.is_owned is None,
    {
        AppConfig {
            auth_token: None,
            username: None,
            client_id: String::new(),
            server_address: None,
            server_port: None,
            server_name: None,
            is_owned: None,
        }
    }
}

/// Credentials handed back once the OAuth pin is approved.
#[derive(Clone, Debug)]
pub struct PlexAuth {
    pub auth_token: String,
    pub username: String,
}

/// A pending OAuth device-code exchange.
#[derive(Clone, Debug)]
pub struct OAuthPinInfo {
    pub pin_id: u64,
    pub code: String,
    pub auth_url: String,
}

/// Which screen of the shell is active.
#[derive(Clone, Copy, Debug, PartialEq, Eq, Structural)]
pub enum ApplicationState {
    Login,
    WaitingForAuth,
    ServerSelection,
    Verifying,
    Running,
}

/// Failures surfaced by the engine or its collaborators.
#[derive(Clone, Debug)]
pub enum AppError {
    PlexApi(String),
    DiscordRpc(String),
    Config(String),
    Auth(String),
    Network(String),
    Io(String),
    Unknown(String),
}

pub type AppResult<T> = Result<T, AppError>;

} // verus!
