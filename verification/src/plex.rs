//! Interpretation of what the media server reports: choosing the session
//! to display among a user's sessions, mapping raw fields into a
//! [`Session`], picking a server connection, the HTTP retry policy, and
//! the OAuth URL. The transport itself (HTTP, websocket) lives with the
//! driver, which decodes responses into the plain records taken here.

use vstd::prelude::*;
use vstd::string::StringExecFns;
use vstd::string::StrSliceExecFns;
use crate::digits::{dec_digits, fmt_u64};
use crate::models::{clone_opt_string, MediaType, PlayerState, PlexServer, Session};

verus! {

/// One entry of the server's session listing, as plain values.
#[derive(Clone, Debug)]
pub struct SessionRecord {
    /// Media kind as reported: "episode", "movie", "track", or other.
    pub media_type: String,
    pub title: String,
    pub index: Option<u32>,
    pub parent_title: Option<String>,
    pub parent_index: Option<u32>,
    pub grandparent_title: Option<String>,
    pub duration: u64,
    pub view_offset: u64,
    pub thumb: Option<String>,
    pub grandparent_thumb: Option<String>,
    /// Player state as reported: "playing", "paused", "buffering", or other.
    pub player_state: String,
    /// The account the session belongs to.
    pub user_title: String,
}

/// Whether a record belongs to `user` and reports player state `st`.
pub open spec fn rec_matches(rec: SessionRecord, user: Seq<char>, st: Seq<char>) -> bool {
    rec.user_title@ == user && rec.player_state@ == st
}

/// The first record of `user` in state `st`, in listing order.
pub open spec fn first_match(
    recs: Seq<SessionRecord>,
    user: Seq<char>,
    st: Seq<char>,
) -> Option<SessionRecord>
    decreases recs.len(),
{
    if recs.len() == 0 {
        None
    } else if rec_matches(recs[0], user, st) {
        Some(recs[0])
    } else {
        first_match(recs.drop_first(), user, st)
    }
}

/// The session worth displaying: the user's first playing session, else
/// the first buffering one, else the first paused one.
pub open spec fn chosen_record(recs: Seq<SessionRecord>, user: Seq<char>) -> Option<
    SessionRecord,
> {
    match first_match(recs, user, "playing"@) {
        Some(r) => Some(r),
        None => match first_match(recs, user, "buffering"@) {
            Some(r) => Some(r),
            None => first_match(recs, user, "paused"@),
        },
    }
}

proof fn lemma_first_match_after_prefix(
    recs: Seq<SessionRecord>,
    user: Seq<char>,
    st: Seq<char>,
    i: int,
)
    requires
        0 <= i <= recs.len(),
        forall|k: int| 0 <= k < i ==> !rec_matches(#[trigger] recs[k], user, st),
    ensures
        first_match(recs, user, st) == first_match(recs.skip(i), user, st),
    decreases i,
{
    if i > 0 {
        assert(!rec_matches(recs[0], user, st));
        assert forall|k: int| 0 <= k < i - 1 implies !rec_matches(
            #[trigger] recs.drop_first()[k],
            user,
            st,
        ) by {
            assert(recs.drop_first()[k] == recs[k + 1]);
        }
        lemma_first_match_after_prefix(recs.drop_first(), user, st, i - 1);
        assert(recs.drop_first().skip(i - 1) =~= recs.skip(i));
    } else {
        assert(recs.skip(0) =~= recs);
    }
}

/// Index of the first record of `user` in state `st`, if any.
fn find_state_match(recs: &Vec<SessionRecord>, user: &String, st: &str) -> (r: Option<usize>)
    ensures
        r matches Some(i) ==> i < recs@.len() && first_match(recs@, user@, st@) == Some(
            recs@[i as int],
        ),
        r is None ==> first_match(recs@, user@, st@) is None,
{
    let wanted = String::from_str(st);
    let mut i: usize = 0;
    while i < recs.len()
        invariant
            0 <= i <= recs@.len(),
            wanted@ == st@,
            forall|k: int| 0 <= k < i ==> !rec_matches(#[trigger] recs@[k], user@, st@),
        decreases recs@.len() - i,
    {
        let rec = &recs[i];
        if rec.user_title == *user && rec.player_state == wanted {
            proof {
                lemma_first_match_after_prefix(recs@, user@, st@, i as int);
                assert(recs@.skip(i as int)[0] == recs@[i as int]);
            }
            return Some(i);
        }
        i += 1;
    }
    proof {
        lemma_first_match_after_prefix(recs@, user@, st@, recs@.len() as int);
        assert(recs@.skip(recs@.len() as int) =~= Seq::<SessionRecord>::empty());
    }
    None
}

/// Index of the session worth displaying, per [`chosen_record`].
pub fn select_session_index(recs: &Vec<SessionRecord>, username: &String) -> (r: Option<usize>)
    ensures
        r matches Some(i) ==> i < recs@.len() && chosen_record(recs@, username@) == Some(
            recs@[i as int],
        ),
        r is None ==> chosen_record(recs@, username@) is None,
{
    if let Some(i) = find_state_match(recs, username, "playing") {
        return Some(i);
    }
    if let Some(i) = find_state_match(recs, username, "buffering") {
        return Some(i);
    }
    if let Some(i) = find_state_match(recs, username, "paused") {
        return Some(i);
    }
    None
}

/// Player state for a reported state string; anything unknown is idle.
pub open spec fn state_of_text(s: Seq<char>) -> PlayerState {
    if s == "playing"@ {
        PlayerState::Playing
    } else if s == "paused"@ {
        PlayerState::Paused
    } else if s == "buffering"@ {
        PlayerState::Buffering
    } else {
        PlayerState::Idle
    }
}

/// Media kind for a reported kind string; anything unknown is `Unknown`.
pub open spec fn media_type_of_text(s: Seq<char>) -> MediaType {
    if s == "episode"@ {
        MediaType::Episode
    } else if s == "movie"@ {
        MediaType::Movie
    } else if s == "track"@ {
        MediaType::Track
    } else {
        MediaType::Unknown
    }
}

/// Parses a reported player state.
pub fn parse_player_state(s: &String) -> (r: PlayerState)
    ensures
        r == state_of_text(s@),
{
    if *s == String::from_str("playing") {
        PlayerState::Playing
    } else if *s == String::from_str("paused") {
        PlayerState::Paused
    } else if *s == String::from_str("buffering") {
        PlayerState::Buffering
    } else {
        PlayerState::Idle
    }
}

/// Parses a reported media kind.
pub fn parse_media_type(s: &String) -> (r: MediaType)
    ensures
        r == media_type_of_text(s@),
{
    if *s == String::from_str("episode") {
        MediaType::Episode
    } else if *s == String::from_str("movie") {
        MediaType::Movie
    } else if *s == String::from_str("track") {
        MediaType::Track
    } else {
        MediaType::Unknown
    }
}

/// A path with its leading slashes removed.
pub open spec fn trim_slashes(s: Seq<char>) -> Seq<char>
    decreases s.len(),
{
    if s.len() > 0 && s[0] == '/' {
        trim_slashes(s.drop_first())
    } else {
        s
    }
}

proof fn lemma_trim_slashes_after_prefix(s: Seq<char>, i: int)
    requires
        0 <= i <= s.len(),
        forall|k: int| 0 <= k < i ==> #[trigger] s[k] == '/',
    ensures
        trim_slashes(s) == trim_slashes(s.skip(i)),
    decreases i,
{
    if i > 0 {
        assert(s[0] == '/');
        assert forall|k: int| 0 <= k < i - 1 implies #[trigger] s.drop_first()[k] == '/' by {
            assert(s.drop_first()[k] == s[k + 1]);
        }
        lemma_trim_slashes_after_prefix(s.drop_first(), i - 1);
        assert(s.drop_first().skip(i - 1) =~= s.skip(i));
    } else {
        assert(s.skip(0) =~= s);
    }
}

/// Removes leading slashes.
fn trim_leading_slashes(s: &str) -> (r: &str)
    ensures
        r@ == trim_slashes(s@),
{
    let n = s.unicode_len();
    let mut i: usize = 0;
    while i < n && s.get_char(i) == '/'
        invariant
            0 <= i <= n,
            n == s@.len(),
            forall|k: int| 0 <= k < i ==> #[trigger] s@[k] == '/',
        decreases n - i,
    {
        i += 1;
    }
    proof {
        lemma_trim_slashes_after_prefix(s@, i as int);
        assert(trim_slashes(s@.skip(i as int)) == s@.skip(i as int));
        assert(s@.skip(i as int) =~= s@.subrange(i as int, n as int));
    }
    s.substring_char(i, n)
}

/// The artwork URL for a reported path on a given server.
pub open spec fn thumb_url_text(
    address: Seq<char>,
    port: u16,
    path: Seq<char>,
    token: Seq<char>,
) -> Seq<char> {
    "http://"@ + address + ":"@ + dec_digits(port as nat) + "/"@ + trim_slashes(path)
        + "?X-Plex-Token="@ + token
}

/// Builds [`thumb_url_text`].
pub fn build_thumb_url(address: &String, port: u16, path: &String, token: &String) -> (r: String)
    ensures
        r@ == thumb_url_text(address@, port, path@, token@),
{
    let mut r = String::from_str("http://");
    r.append(address.as_str());
    r.append(":");
    let port_digits = fmt_u64(port as u64);
    r.append(port_digits.as_str());
    r.append("/");
    r.append(trim_leading_slashes(path.as_str()));
    r.append("?X-Plex-Token=");
    r.append(token.as_str());
    proof {
        assert(r@ =~= thumb_url_text(address@, port, path@, token@));
    }
    r
}

/// The artwork path a record offers: its own, else its grandparent's.
pub open spec fn record_thumb_source(rec: SessionRecord) -> Option<Seq<char>> {
    match rec.thumb {
        Some(t) => Some(t@),
        None => match rec.grandparent_thumb {
            Some(g) => Some(g@),
            None => None,
        },
    }
}

/// Maps a chosen record into the engine's [`Session`], resolving the
/// artwork path into a full URL on `server`.
pub fn session_from_record(rec: &SessionRecord, server: &PlexServer, token: &String) -> (r:
    Session)
    ensures
        r.media_title@ == rec.title@,
        r.media_index == rec.index,
        r.media_parent_title == rec.parent_title,
        r.media_parent_index == rec.parent_index,
        r.media_grandparent_title == rec.grandparent_title,
        r.player_state == state_of_text(rec.player_state@),
        r.media_type == media_type_of_text(rec.media_type@),
        r.duration == rec.duration,
        r.view_offset == rec.view_offset,
        record_thumb_source(*rec) matches Some(p) ==> (r.thumbnail matches Some(u) && u@
            == thumb_url_text(server.address@, server.port, p, token@)),
        record_thumb_source(*rec) is None ==> r.thumbnail is None,
{
    let thumbnail: Option<String> = match &rec.thumb {
        Some(t) => Some(build_thumb_url(&server.address, server.port, t, token)),
        None => match &rec.grandparent_thumb {
            Some(g) => Some(build_thumb_url(&server.address, server.port, g, token)),
            None => None,
        },
    };
    Session {
        media_title: rec.title.clone(),
        media_index: rec.index,
        media_parent_title: clone_opt_string(&rec.parent_title),
        media_parent_index: rec.parent_index,
        media_grandparent_title: clone_opt_string(&rec.grandparent_title),
        player_state: parse_player_state(&rec.player_state),
        media_type: parse_media_type(&rec.media_type),
        duration: rec.duration,
        view_offset: rec.view_offset,
        thumbnail,
    }
}

/// One advertised way to reach a server.
#[derive(Clone, Debug)]
pub struct ServerConnection {
    pub address: String,
    pub port: u16,
    pub local: bool,
}

/// The first local connection, in listing order.
pub open spec fn first_local(conns: Seq<ServerConnection>) -> Option<ServerConnection>
    decreases conns.len(),
{
    if conns.len() == 0 {
        None
    } else if conns[0].local {
        Some(conns[0])
    } else {
        first_local(conns.drop_first())
    }
}

/// The connection to use: a local one when offered, else the first.
pub open spec fn chosen_connection(conns: Seq<ServerConnection>) -> Option<ServerConnection> {
    match first_local(conns) {
        Some(c) => Some(c),
        None => if conns.len() > 0 {
            Some(conns[0])
        } else {
            None
        },
    }
}

proof fn lemma_first_local_after_prefix(conns: Seq<ServerConnection>, i: int)
    requires
        0 <= i <= conns.len(),
        forall|k: int| 0 <= k < i ==> !(#[trigger] conns[k].local),
    ensures
        first_local(conns) == first_local(conns.skip(i)),
    decreases i,
{
    if i > 0 {
        assert(!conns[0].local);
        assert forall|k: int| 0 <= k < i - 1 implies !(#[trigger] conns.drop_first()[k].local) by {
            assert(conns.drop_first()[k] == conns[k + 1]);
        }
        lemma_first_local_after_prefix(conns.drop_first(), i - 1);
        assert(conns.drop_first().skip(i - 1) =~= conns.skip(i));
    } else {
        assert(conns.skip(0) =~= conns);
    }
}

/// Index of the connection to use, per [`chosen_connection`].
pub fn pick_connection(conns: &Vec<ServerConnection>) -> (r: Option<usize>)
    ensures
        r matches Some(i) ==> i < conns@.len() && chosen_connection(conns@) == Some(
            conns@[i as int],
        ),
        r is None ==> conns@.len() == 0 && chosen_connection(conns@) is None,
{
    let mut i: usize = 0;
    while i < conns.len()
        invariant
            0 <= i <= conns@.len(),
            forall|k: int| 0 <= k < i ==> !(#[trigger] conns@[k].local),
        decreases conns@.len() - i,
    {
        if conns[i].local {
            proof {
                lemma_first_local_after_prefix(conns@, i as int);
                assert(conns@.skip(i as int)[0] == conns@[i as int]);
            }
            return Some(i);
        }
        i += 1;
    }
    proof {
        lemma_first_local_after_prefix(conns@, conns@.len() as int);
        assert(conns@.skip(conns@.len() as int) =~= Seq::<ServerConnection>::empty());
    }
    if conns.len() > 0 {
        Some(0)
    } else {
        None
    }
}

/// Builds the server entry for a resource, on its chosen connection.
pub fn server_from_resource(name: String, owned: bool, conns: &Vec<ServerConnection>) -> (r:
    Option<PlexServer>)
    ensures
        r matches Some(srv) ==> ({
            &&& chosen_connection(conns@) matches Some(c)
            &&& srv.name == name
            &&& srv.address == c.address
            &&& srv.port == c.port
            &&& srv.owned == owned
        }),
        r is None ==> chosen_connection(conns@) is None,
{
    match pick_connection(conns) {
        Some(i) => {
            let c = &conns[i];
            Some(PlexServer { name, address: c.address.clone(), port: c.port, owned })
        },
        None => None,
    }
}

/// Retries the transport allows per request, beyond the first attempt.
pub const MAX_HTTP_RETRIES: u32 = 3;

/// How one HTTP attempt went, as far as the retry policy cares.
#[derive(Clone, Copy, Debug, PartialEq, Eq, Structural)]
pub enum HttpAttemptOutcome {
    /// A response arrived and it is not a server error.
    Success,
    /// A response arrived but reports a server-side error.
    ServerError,
    /// No response arrived at all.
    TransportError,
}

/// What to do after an attempt.
#[derive(Clone, Copy, Debug, PartialEq, Eq, Structural)]
pub enum RetryAction {
    /// Hand the response (even a server error, once retries are spent)
    /// to the caller.
    Accept,
    /// Give up and report the transport failure.
    Fail,
    /// Sleep this many seconds, then try again.
    RetryAfterSecs(u64),
}

/// The retry policy: good responses are accepted at once; server errors
/// and transport failures are retried with a linearly growing pause until
/// [`MAX_HTTP_RETRIES`] is spent, after which a server error is accepted
/// as it is and a transport failure is reported.
pub open spec fn http_retry_plan(retries: u32, outcome: HttpAttemptOutcome) -> RetryAction {
    match outcome {
        HttpAttemptOutcome::Success => RetryAction::Accept,
        HttpAttemptOutcome::ServerError => if retries >= MAX_HTTP_RETRIES {
            RetryAction::Accept
        } else {
            RetryAction::RetryAfterSecs((retries + 1) as u64)
        },
        HttpAttemptOutcome::TransportError => if retries >= MAX_HTTP_RETRIES {
            RetryAction::Fail
        } else {
            RetryAction::RetryAfterSecs((retries + 1) as u64)
        },
    }
}

/// Decides [`http_retry_plan`] at run time; `retries` counts the
/// attempts already failed.
pub fn retry_step(retries: u32, outcome: HttpAttemptOutcome) -> (r: RetryAction)
    requires
        retries <= MAX_HTTP_RETRIES,
    ensures
        r == http_retry_plan(retries, outcome),
{
    match outcome {
        HttpAttemptOutcome::Success => RetryAction::Accept,
        HttpAttemptOutcome::ServerError => {
            if retries >= MAX_HTTP_RETRIES {
                RetryAction::Accept
            } else {
                RetryAction::RetryAfterSecs((retries + 1) as u64)
            }
        },
        HttpAttemptOutcome::TransportError => {
            if retries >= MAX_HTTP_RETRIES {
                RetryAction::Fail
            } else {
                RetryAction::RetryAfterSecs((retries + 1) as u64)
            }
        },
    }
}

/// The page a user must visit to approve a login pin.
pub open spec fn auth_url_text(client_id: Seq<char>, code: Seq<char>) -> Seq<char> {
    "https://app.plex.tv/auth#?clientID="@ + client_id + "&code="@ + code
        + "&context[device][product]=Plex%20Discord%20RPC"@
}

/// Builds [`auth_url_text`].
pub fn build_auth_url(client_id: &String, code: &String) -> (r: String)
    ensures
        r@ == auth_url_text(client_id@, code@),
{
    let mut r = String::from_str("https://app.plex.tv/auth#?clientID=");
    r.append(client_id.as_str());
    r.append("&code=");
    r.append(code.as_str());
    r.append("&context[device][product]=Plex%20Discord%20RPC");
    proof {
        assert(r@ =~= auth_url_text(client_id@, code@));
    }
    r
}

} // verus!
