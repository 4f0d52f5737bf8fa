//! The connection lifecycle: states, two-tier reconnection backoff, and the
//! endpoint URL that a connection attempt uses.

use vstd::prelude::*;
use vstd::string::*;
use crate::fingerprint::opt_view;

verus! {

/// Failed attempts in a row after which the long cooldown applies.
pub const MAX_RECONNECT_ATTEMPTS: u32 = 5;

/// Wait before the next attempt while under the ceiling, in milliseconds.
pub const RECONNECT_INTERVAL_MS: u64 = 3000;

/// Wait once the ceiling is reached, in milliseconds.
pub const RECONNECT_COOLDOWN_MS: u64 = 30000;

/// Hard limit on a handshake, in milliseconds.
pub const HANDSHAKE_TIMEOUT_MS: u64 = 15000;

/// Wait before the configuration is read again while reporting is disabled
/// or the endpoint is not a valid URL, in milliseconds.
pub const IDLE_RECHECK_MS: u64 = 5000;

#[derive(Clone, Copy, Debug, PartialEq, Eq, Structural)]
pub enum ConnectionState {
    /// Reporting is disabled or the endpoint is unusable.
    Idle,
    /// A handshake is under way.
    Connecting,
    /// The queue is being served.
    Connected,
    /// A live connection is being torn down: its write half is no longer used.
    Draining,
    /// Waiting before the next attempt.
    Backoff,
}

/// The counter after one more failure, and the wait before the next attempt.
pub open spec fn backoff_after(attempts: u32) -> (u32, u64) {
    if attempts + 1 >= MAX_RECONNECT_ATTEMPTS {
        (0u32, RECONNECT_COOLDOWN_MS)
    } else {
        ((attempts + 1) as u32, RECONNECT_INTERVAL_MS)
    }
}

/// The counter after `n` failures in a row, starting from `attempts`.
pub open spec fn attempts_after_failures(attempts: u32, n: nat) -> u32
    decreases n,
{
    if n == 0 {
        attempts
    } else {
        backoff_after(attempts_after_failures(attempts, (n - 1) as nat)).0
    }
}

/// The wait that follows the `n`-th failure in a row (counting from one),
/// starting from `attempts`.
pub open spec fn wait_after_failure(attempts: u32, n: nat) -> u64
    recommends
        n >= 1,
{
    backoff_after(attempts_after_failures(attempts, (n - 1) as nat)).1
}

/// Connection lifecycle state, the reconnection counter and the connected
/// flag that observers read.
pub struct Connection {
    pub state: ConnectionState,
    pub attempts: u32,
    pub connected: bool,
}

impl Connection {
    pub open spec fn wf(&self) -> bool {
        &&& self.attempts < MAX_RECONNECT_ATTEMPTS
        &&& self.connected <==> self.state == ConnectionState::Connected
    }

    pub fn new() -> (r: Connection)
        ensures
            r.wf(),
            r.state == ConnectionState::Idle,
            r.attempts == 0,
            !r.connected,
    {
        Connection { state: ConnectionState::Idle, attempts: 0, connected: false }
    }

    /// Reporting is off or the endpoint is unusable: wait and re-check.
    pub fn idle(&mut self)
        requires
            old(self).wf(),
        ensures
            final(self).wf(),
            final(self).state == ConnectionState::Idle,
            final(self).attempts == old(self).attempts,
            !final(self).connected,
    {
        self.state = ConnectionState::Idle;
        self.connected = false;
    }

    /// A handshake is about to start.
    pub fn connecting(&mut self)
        requires
            old(self).wf(),
        ensures
            final(self).wf(),
            final(self).state == ConnectionState::Connecting,
            final(self).attempts == old(self).attempts,
            !final(self).connected,
    {
        self.state = ConnectionState::Connecting;
        self.connected = false;
    }

    /// The handshake succeeded: the counter starts over.
    pub fn connected(&mut self)
        requires
            old(self).wf(),
        ensures
            final(self).wf(),
            final(self).state == ConnectionState::Connected,
            final(self).attempts == 0,
            final(self).connected,
    {
        self.state = ConnectionState::Connected;
        self.attempts = 0;
        self.connected = true;
    }

    /// A live connection is ending: the write half is no longer used.
    pub fn draining(&mut self)
        requires
            old(self).wf(),
        ensures
            final(self).wf(),
            final(self).state == ConnectionState::Draining,
            final(self).attempts == old(self).attempts,
            !final(self).connected,
    {
        self.state = ConnectionState::Draining;
        self.connected = false;
    }

    /// The handshake failed, timed out, or a live connection ended: count
    /// the failure and return the wait before the next attempt.
    pub fn backoff(&mut self) -> (wait_ms: u64)
        requires
            old(self).wf(),
        ensures
            final(self).wf(),
            final(self).state == ConnectionState::Backoff,
            !final(self).connected,
            (final(self).attempts, wait_ms) == backoff_after(old(self).attempts),
    {
        self.state = ConnectionState::Backoff;
        self.connected = false;
        let next = self.attempts + 1;
        if next >= MAX_RECONNECT_ATTEMPTS {
            self.attempts = 0;
            RECONNECT_COOLDOWN_MS
        } else {
            self.attempts = next;
            RECONNECT_INTERVAL_MS
        }
    }
}

/// Reconnection bound: from a counter below the ceiling, after `n` failures
/// in a row the counter is `attempts + n` modulo the ceiling, and the wait after a
/// failure is the long cooldown exactly when that failure brings the count
/// to a multiple of the ceiling. So from a fresh counter the first four
/// failures wait the short interval and the fifth the cooldown, and the next
/// attempt comes only after it.
pub proof fn lemma_reconnect_bound(attempts: u32, n: nat)
    requires
        attempts < MAX_RECONNECT_ATTEMPTS,
    ensures
        attempts_after_failures(attempts, n) == (attempts + n) % (MAX_RECONNECT_ATTEMPTS as int),
        n >= 1 ==> (wait_after_failure(attempts, n) == RECONNECT_COOLDOWN_MS <==> (attempts + n)
            % (MAX_RECONNECT_ATTEMPTS as int) == 0),
        n >= 1 ==> (wait_after_failure(attempts, n) == RECONNECT_INTERVAL_MS <==> (attempts + n)
            % (MAX_RECONNECT_ATTEMPTS as int) != 0),
    decreases n,
{
    if n > 0 {
        lemma_reconnect_bound(attempts, (n - 1) as nat);
        let prev = attempts_after_failures(attempts, (n - 1) as nat);
        assert(prev == (attempts + n - 1) % 5);
        assert((attempts + n) % 5 == (prev + 1) % 5);
    }
}

/// The endpoint with an `http` scheme rewritten to `ws` and `https` to `wss`.
pub open spec fn normalized_endpoint(s: Seq<char>) -> Seq<char> {
    if s.len() >= 7 && s.subrange(0, 7) == "http://"@ {
        "ws://"@ + s.subrange(7, s.len() as int)
    } else if s.len() >= 8 && s.subrange(0, 8) == "https://"@ {
        "wss://"@ + s.subrange(8, s.len() as int)
    } else {
        s
    }
}

/// The serialization of the parsed absolute URL `endpoint` with the query
/// pair `key=value` appended, or `None` where `endpoint` does not parse.
pub uninterp spec fn url_with_query_pair(
    endpoint: Seq<char>,
    key: Seq<char>,
    value: Seq<char>,
) -> Option<Seq<char>>;

/// Relies on `url::Url::parse_with_params`: it parses `endpoint` as an
/// absolute URL and appends the pair `key=value`, form-urlencoded, to its
/// query; the result depends on the three strings alone.
#[verifier::external_body]
fn parse_with_query_pair(endpoint: &str, key: &str, value: &str) -> (r: Option<String>)
    ensures
        opt_view(r) == url_with_query_pair(endpoint@, key@, value@),
{
    match url::Url::parse_with_params(endpoint, &[(key, value)]) {
        Ok(url) => Some(String::from(url)),
        Err(_) => None,
    }
}

/// The query key that carries the bearer token.
pub open spec fn token_key() -> Seq<char> {
    "token"@
}

/// The URL of `endpoint` with the token attached as the `token` query
/// parameter, or `None` where `endpoint` does not parse.
pub open spec fn url_with_token(endpoint: Seq<char>, token: Seq<char>) -> Option<Seq<char>> {
    url_with_query_pair(endpoint, token_key(), token)
}

fn has_prefix(s: &str, prefix: &str) -> (r: bool)
    ensures
        r == (s@.len() >= prefix@.len() && s@.subrange(0, prefix@.len() as int) == prefix@),
{
    let n = prefix.unicode_len();
    if s.unicode_len() < n {
        return false;
    }
    let mut i: usize = 0;
    while i < n
        invariant
            n == prefix@.len(),
            n <= s@.len(),
            i <= n,
            forall|j: int| 0 <= j < i ==> s@[j] == prefix@[j],
        decreases n - i,
    {
        if s.get_char(i) != prefix.get_char(i) {
            assert(s@.subrange(0, n as int)[i as int] != prefix@[i as int]);
            return false;
        }
        i = i + 1;
    }
    assert(s@.subrange(0, n as int) =~= prefix@);
    true
}

/// Rewrites an `http`/`https` scheme to `ws`/`wss`; other endpoints are kept.
pub fn normalize_endpoint(s: &str) -> (r: String)
    ensures
        r@ == normalized_endpoint(s@),
{
    let len = s.unicode_len();
    if has_prefix(s, "http://") {
        proof {
            reveal_strlit("http://");
        }
        let mut r = String::from_str("ws://");
        r.append(s.substring_char(7, len));
        r
    } else if has_prefix(s, "https://") {
        proof {
            reveal_strlit("https://");
            reveal_strlit("http://");
        }
        let mut r = String::from_str("wss://");
        r.append(s.substring_char(8, len));
        r
    } else {
        proof {
            reveal_strlit("https://");
            reveal_strlit("http://");
        }
        String::from_str(s)
    }
}

/// The URL that a connection attempt uses: the endpoint with its scheme
/// normalized and the token attached as a query parameter; `None` where the
/// normalized endpoint is not a valid absolute URL.
pub fn websocket_url(endpoint: &str, token: &str) -> (r: Option<String>)
    ensures
        opt_view(r) == url_with_token(normalized_endpoint(endpoint@), token@),
{
    let normalized = normalize_endpoint(endpoint);
    proof {
        reveal_strlit("token");
    }
    parse_with_query_pair(normalized.as_str(), "token", token)
}

} // verus!
