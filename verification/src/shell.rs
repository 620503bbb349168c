//! The shell's plain decision logic: which screen to start on, how
//! asynchronous results move the screen state, and how selections edit
//! the configuration. Rendering and task plumbing stay with the driver.

use vstd::prelude::*;
use vstd::string::StringExecFns;
use crate::digits::{dec_digits, fmt_u64};
use crate::models::{
    AppConfig, ApplicationState, OAuthPinInfo, PlexAuth, PlexServer,
};
use crate::tick::{authenticated, server_chosen};

verus! {

/// Results of the shell's background tasks, fed back into its state.
pub enum AppMessage {
    AuthStarted,
    AuthUrlReady(OAuthPinInfo),
    AuthCheckResult(Option<PlexAuth>),
    AuthFailed(String),
    ServersFetched(Vec<PlexServer>),
    ServersFetchFailed(String),
    VerificationStarted,
    VerificationSuccess(String),
    VerificationFailed(String),
    MonitorUpdate(String),
    MonitorError(String),
    ConfigSaved,
    ConfigSaveFailed(String),
}

/// The screen to start on for a saved configuration: login without
/// credentials, verification when a server is already chosen, server
/// selection otherwise.
pub open spec fn initial_state(c: AppConfig) -> ApplicationState {
    if authenticated(c) {
        if c.server_address is Some {
            ApplicationState::Verifying
        } else {
            ApplicationState::ServerSelection
        }
    } else {
        ApplicationState::Login
    }
}

/// Decides [`initial_state`] at run time.
pub fn initial_app_state(config: &AppConfig) -> (r: ApplicationState)
    ensures
        r == initial_state(*config),
{
    if config.is_authenticated() {
        if config.server_address.is_some() {
            ApplicationState::Verifying
        } else {
            ApplicationState::ServerSelection
        }
    } else {
        ApplicationState::Login
    }
}

/// How a message moves the screen state; messages that only carry
/// feedback leave it alone.
pub open spec fn state_after_message(current: ApplicationState, msg: AppMessage) -> ApplicationState {
    match msg {
        AppMessage::AuthUrlReady(_) => ApplicationState::WaitingForAuth,
        AppMessage::AuthCheckResult(auth) => if auth is Some {
            ApplicationState::ServerSelection
        } else {
            current
        },
        AppMessage::VerificationSuccess(_) => ApplicationState::Running,
        AppMessage::VerificationFailed(_) => ApplicationState::ServerSelection,
        _ => current,
    }
}

/// Decides [`state_after_message`] at run time.
pub fn next_app_state(current: ApplicationState, msg: &AppMessage) -> (r: ApplicationState)
    ensures
        r == state_after_message(current, *msg),
{
    match msg {
        AppMessage::AuthUrlReady(_) => ApplicationState::WaitingForAuth,
        AppMessage::AuthCheckResult(auth) => {
            if auth.is_some() {
                ApplicationState::ServerSelection
            } else {
                current
            }
        },
        AppMessage::VerificationSuccess(_) => ApplicationState::Running,
        AppMessage::VerificationFailed(_) => ApplicationState::ServerSelection,
        _ => current,
    }
}

/// Stores fresh credentials in the configuration.
pub fn apply_auth(config: &mut AppConfig, auth: PlexAuth)
    ensures
        final(config).auth_token matches Some(t) && t == auth.auth_token,
        final(config).username matches Some(u) && u == auth.username,
        final(config).client_id == old(config).client_id,
        final(config).server_address == old(config).server_address,
        final(config).server_port == old(config).server_port,
        final(config).server_name == old(config).server_name,
        final(config).is_owned == old(config).is_owned,
        authenticated(*final(config)),
{
    config.auth_token = Some(auth.auth_token);
    config.username = Some(auth.username);
}

/// Points the configuration at a server; the next tick then monitors it.
pub fn apply_server_selection(config: &mut AppConfig, server: &PlexServer)
    ensures
        final(config).server_name matches Some(n) && n@ == server.name@,
        final(config).server_address matches Some(a) && a@ == server.address@,
        final(config).server_port == Some(server.port),
        final(config).is_owned == Some(server.owned),
        final(config).auth_token == old(config).auth_token,
        final(config).username == old(config).username,
        final(config).client_id == old(config).client_id,
        server_chosen(*final(config)),
{
    config.server_name = Some(server.name.clone());
    config.server_address = Some(server.address.clone());
    config.server_port = Some(server.port);
    config.is_owned = Some(server.owned);
}

/// Forgets the selected server (after a disconnect or a failed
/// verification); credentials are kept.
pub fn clear_server_selection(config: &mut AppConfig)
    ensures
        final(config).server_address is None,
        final(config).server_port is None,
        final(config).server_name is None,
        final(config).auth_token == old(config).auth_token,
        final(config).username == old(config).username,
        final(config).client_id == old(config).client_id,
        final(config).is_owned == old(config).is_owned,
        !server_chosen(*final(config)),
{
    config.server_address = None;
    config.server_port = None;
    config.server_name = None;
}

/// The one-line description of a server: "name (address:port)".
pub open spec fn server_label_text(s: PlexServer) -> Seq<char> {
    s.name@ + " ("@ + s.address@ + ":"@ + dec_digits(s.port as nat) + ")"@
}

impl PlexServer {
    /// Renders [`server_label_text`].
    pub fn label(&self) -> (r: String)
        ensures
            r@ == server_label_text(*self),
    {
        let mut r = self.name.clone();
        r.append(" (");
        r.append(self.address.as_str());
        r.append(":");
        let port_digits = fmt_u64(self.port as u64);
        r.append(port_digits.as_str());
        r.append(")");
        proof {
            assert(r@ =~= server_label_text(*self));
        }
        r
    }
}

} // verus!
