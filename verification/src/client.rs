use vstd::prelude::*;

use crate::clock::{before_two_days_from, wall_clock_now, wall_clock_reading, TWO_DAYS_MS};
use crate::types::CertificateResponse;

verus! {

/// The client's command line.
#[derive(Debug)]
pub struct Cli {
    pub command: Commands,
}

/// The client's commands.
#[derive(Debug)]
pub enum Commands {
    /// Fetch and renew a certificate.
    Fetch {
        /// Domain name to fetch the certificate for.
        domain: String,
        /// Path of the state file (JSON).
        state: String,
        /// Path of the credential file.
        credential: String,
        /// Server URL.
        server_url: String,
        /// Output path for the certificate.
        out_cert: String,
        /// Output path for the private key.
        out_key: String,
        /// Output path for the CA certificate.
        out_ca: String,
        /// Output path for the full chain.
        out_chain: String,
        /// Renew even when no renewal is needed.
        force: bool,
    },
    /// Check whether a renewal is needed (exit code 0 when it is, 1 when not).
    Check {
        /// Path of the state file.
        state: String,
    },
}

/// What the client remembers of the last certificate it fetched. Times are
/// milliseconds since the Unix epoch.
#[derive(Debug)]
pub struct ClientState {
    pub cert: Option<String>,
    pub key: Option<String>,
    pub ca: Option<String>,
    pub chain: Option<String>,
    pub expires_at: i64,
    pub prefer_renew_before: Option<i64>,
    pub prefer_renew_after: Option<i64>,
}

/// Whether the client renews at time `now`: never before the server's
/// preferred earliest renewal time; then when the certificate expires within
/// two days or the preferred renewal time has passed.
pub open spec fn client_should_renew(s: ClientState, now: i64) -> bool {
    !(s.prefer_renew_after matches Some(after) && now < after) && (s.expires_at < now + TWO_DAYS_MS
        || (s.prefer_renew_before matches Some(before) && now > before))
}

impl ClientState {
    /// The state to keep after fetching `response`.
    pub fn from_response(response: CertificateResponse) -> (s: Self)
        ensures
            s.cert == response.cert,
            s.key == response.key,
            s.ca == response.ca,
            s.chain == response.chain,
            s.expires_at == response.expires_at,
            s.prefer_renew_before == response.prefer_renew_before,
            s.prefer_renew_after == response.prefer_renew_after,
    {
        ClientState {
            cert: response.cert,
            key: response.key,
            ca: response.ca,
            chain: response.chain,
            expires_at: response.expires_at,
            prefer_renew_before: response.prefer_renew_before,
            prefer_renew_after: response.prefer_renew_after,
        }
    }

    /// Whether the certificate should be renewed at time `now`.
    pub fn should_renew_at(&self, now: i64) -> (r: bool)
        ensures
            r == client_should_renew(*self, now),
    {
        if let Some(after) = self.prefer_renew_after {
            if now < after {
                return false;
            }
        }
        if before_two_days_from(self.expires_at, now) {
            return true;
        }
        if let Some(before) = self.prefer_renew_before {
            if now > before {
                return true;
            }
        }
        false
    }

    /// Whether the certificate should be renewed, by the current time.
    pub fn should_renew(&self) -> (r: bool)
        ensures
            exists|t: i64| #![trigger wall_clock_reading(t)] wall_clock_reading(t) && r == client_should_renew(*self, t),
    {
        self.should_renew_at(wall_clock_now())
    }
}

/// Whether the client fetches at time `now`: when forced, when it holds no
/// state, or when its certificate should be renewed.
pub open spec fn fetch_needed(force: bool, current: Option<ClientState>, now: i64) -> bool {
    force || match current {
        None => true,
        Some(s) => client_should_renew(s, now),
    }
}

/// The state behind an optional reference.
pub open spec fn deref_state(s: Option<&ClientState>) -> Option<ClientState> {
    match s {
        Some(s) => Some(*s),
        None => None,
    }
}

/// Decides at time `now` whether the `fetch` command fetches a certificate.
pub fn needs_fetch_at(force: bool, current: Option<&ClientState>, now: i64) -> (r: bool)
    ensures
        r == fetch_needed(force, deref_state(current), now),
{
    if force {
        return true;
    }
    match current {
        None => true,
        Some(s) => s.should_renew_at(now),
    }
}

/// Decides whether the `fetch` command fetches a certificate, by the current time.
pub fn needs_fetch(force: bool, current: Option<&ClientState>) -> (r: bool)
    ensures
        exists|t: i64| #![trigger wall_clock_reading(t)] wall_clock_reading(t) && r == fetch_needed(force, deref_state(current), t),
{
    needs_fetch_at(force, current, wall_clock_now())
}

/// The exit code of the `check` command at time `now`: 0 when a renewal is
/// needed (or there is no state), 1 otherwise.
pub fn check_exit_code_at(current: Option<&ClientState>, now: i64) -> (code: i32)
    ensures
        code == (if fetch_needed(false, deref_state(current), now) {
            0i32
        } else {
            1i32
        }),
{
    if needs_fetch_at(false, current, now) {
        0
    } else {
        1
    }
}

/// The exit code of the `check` command, by the current time.
pub fn check_exit_code(current: Option<&ClientState>) -> (code: i32)
    ensures
        exists|t: i64|
            #![trigger wall_clock_reading(t)]
            wall_clock_reading(t) && code == (if fetch_needed(false, deref_state(current), t) {
                0i32
            } else {
                1i32
            }),
{
    check_exit_code_at(current, wall_clock_now())
}

/// A text without its trailing `/` characters.
pub open spec fn without_trailing_slashes(s: Seq<char>) -> Seq<char>
    decreases s.len(),
{
    if s.len() > 0 && s.last() == '/' {
        without_trailing_slashes(s.drop_last())
    } else {
        s
    }
}

/// The URL at which the server hands out the certificate for `domain`.
pub open spec fn certificate_url_spec(server_url: Seq<char>, domain: Seq<char>) -> Seq<char> {
    without_trailing_slashes(server_url) + "/certificate/"@ + domain
}

/// Builds the certificate URL: the server URL without trailing slashes,
/// `/certificate/` and the domain.
pub fn certificate_url(server_url: &str, domain: &str) -> (r: String)
    ensures
        r@ == certificate_url_spec(server_url@, domain@),
{
    let n = server_url.unicode_len();
    let mut j: usize = n;
    assert(server_url@.subrange(0, n as int) =~= server_url@);
    while j > 0 && server_url.get_char(j - 1) == '/'
        invariant
            n == server_url@.len(),
            j <= n,
            without_trailing_slashes(server_url@) == without_trailing_slashes(
                server_url@.subrange(0, j as int),
            ),
        decreases j,
    {
        let ghost prefix = server_url@.subrange(0, j as int);
        assert(prefix.drop_last() =~= server_url@.subrange(0, j - 1));
        j = j - 1;
    }
    let base = server_url.substring_char(0, j);
    assert(without_trailing_slashes(server_url@.subrange(0, j as int)) == server_url@.subrange(
        0,
        j as int,
    ));
    let mut url = String::from_str(base);
    url.append("/certificate/");
    url.append(domain);
    url
}

/// The client never renews before the server's preferred earliest renewal
/// time, and once it is past that time, a renewal it would do at some time it
/// would also do at any later time.
pub proof fn lemma_client_renewal_timing(s: ClientState, t1: i64, t2: i64)
    ensures
        s.prefer_renew_after matches Some(after) && t1 < after ==> !client_should_renew(s, t1),
        t1 <= t2 && client_should_renew(s, t1) ==> client_should_renew(s, t2),
{
}

/// At time `t` the client fetches when forced or without a saved
/// certificate; with one, it fetches when the certificate expires within two
/// days of `t` unless the server's earliest renewal time lies after `t`, and
/// never before that time.
pub proof fn lemma_client_fetches_expiring(force: bool, current: Option<ClientState>, t: i64)
    ensures
        force ==> fetch_needed(force, current, t),
        current is None ==> fetch_needed(force, current, t),
        current matches Some(s) ==> (s.expires_at < t + TWO_DAYS_MS && !(s.prefer_renew_after
            matches Some(a) && t < a) ==> fetch_needed(force, current, t)),
        current matches Some(s) ==> (!force && (s.prefer_renew_after matches Some(a) && t < a)
            ==> !fetch_needed(force, current, t)),
{
}

} // verus!
