use vstd::prelude::*;
use vstd::arithmetic::power2::{pow2, lemma2_to64, lemma_pow2_adds, lemma_pow2_pos};
use vstd::arithmetic::div_mod::lemma_basic_div;
use vstd::bits::{lemma_u128_shr_is_div, lemma_u32_shr_is_div};
use vstd::utf8::encode_utf8;
use sha2::Digest;

use crate::config::{TokenConfig, TokenView};
use crate::domain::{any_matches, any_pattern_matches};
use crate::strmap::StrMap;
use crate::text::{before_first, has_char, strs, text_before, trim, trimmed};

verus! {

// ---------------------------------------------------------------- hashing

/// What `sha2::Sha512` computes over a sequence of bytes.
pub uninterp spec fn sha512_digest(data: Seq<u8>) -> Seq<u8>;

/// Hashes bytes with `sha2::Sha512` (`new`, `update`, `finalize`). Claimed: the
/// digest is the named one for the input and, as SHA-512 prescribes, 64 bytes long.
#[verifier::external_body]
fn sha512(data: &[u8]) -> (r: Vec<u8>)
    ensures
        r@ == sha512_digest(data@),
        r@.len() == 64,
{
    let mut hasher = sha2::Sha512::new();
    hasher.update(data);
    hasher.finalize().to_vec()
}

/// The lowercase hexadecimal digit for a value below 16.
pub open spec fn hex_digit(n: int) -> char {
    if n < 10 {
        (48 + n) as char
    } else {
        (87 + n) as char
    }
}

/// Lowercase hexadecimal text of bytes: two digits per byte, high half first.
pub open spec fn hex_lower(bytes: Seq<u8>) -> Seq<char>
    decreases bytes.len(),
{
    if bytes.len() == 0 {
        Seq::empty()
    } else {
        hex_lower(bytes.drop_last()) + seq![
            hex_digit(bytes.last() as int / 16),
            hex_digit(bytes.last() as int % 16),
        ]
    }
}

/// Encodes bytes with `hex::encode`. Claimed, as the crate documents: lowercase
/// hexadecimal text, two digits per byte, high half first.
#[verifier::external_body]
fn hex_encode(bytes: &[u8]) -> (r: String)
    ensures
        r@ == hex_lower(bytes@),
{
    hex::encode(bytes)
}

/// The text under which a token is looked up: the lowercase hexadecimal
/// SHA-512 digest of its UTF-8 bytes.
pub open spec fn token_hash(token: Seq<char>) -> Seq<char> {
    hex_lower(sha512_digest(encode_utf8(token)))
}

/// Hashes a token the way configured token hashes are written.
pub fn hash_token(token: &str) -> (r: String)
    ensures
        r@ == token_hash(token@),
{
    let digest = sha512(token.as_bytes());
    hex_encode(digest.as_slice())
}

// ---------------------------------------------------------------- addresses

/// An IP address as a number: 32 bits for IPv4, 128 bits for IPv6.
#[derive(Debug)]
pub enum IpAddress {
    V4(u32),
    V6(u128),
}

/// An IP network: an address and the number of leading bits that fix the network.
#[derive(Debug)]
pub struct IpNetwork {
    pub addr: IpAddress,
    pub prefix_len: u8,
}

/// The number of bits of an address of this family.
pub open spec fn address_bits(a: IpAddress) -> nat {
    match a {
        IpAddress::V4(_) => 32,
        IpAddress::V6(_) => 128,
    }
}

/// A network contains an address of its own family whose leading
/// `prefix_len` bits equal the network address's.
pub open spec fn network_contains(net: IpNetwork, ip: IpAddress) -> bool {
    net.prefix_len <= address_bits(net.addr) && match (net.addr, ip) {
        (IpAddress::V4(n), IpAddress::V4(a)) => {
            let d = pow2((32 - net.prefix_len) as nat);
            n as int / d as int == a as int / d as int
        },
        (IpAddress::V6(n), IpAddress::V6(a)) => {
            let d = pow2((128 - net.prefix_len) as nat);
            n as int / d as int == a as int / d as int
        },
        _ => false,
    }
}

/// What `<ipnet::IpNet as FromStr>` makes of a text, as address and prefix length.
pub uninterp spec fn parsed_ip_network(text: Seq<char>) -> Option<IpNetwork>;

/// What `<core::net::IpAddr as FromStr>` makes of a text.
pub uninterp spec fn parsed_ip_address(text: Seq<char>) -> Option<IpAddress>;

/// Parses a network such as `10.0.0.0/8` with `ipnet::IpNet`'s `FromStr`.
/// Claimed: the result is the named parse; ipnet's constructors refuse a prefix
/// longer than the address, so a parsed prefix fits its family.
#[verifier::external_body]
fn parse_ip_network(text: &str) -> (r: Option<IpNetwork>)
    ensures
        r == parsed_ip_network(text@),
        r matches Some(n) ==> n.prefix_len <= address_bits(n.addr),
{
    match text.parse::<ipnet::IpNet>() {
        Ok(ipnet::IpNet::V4(n)) => Some(
            IpNetwork { addr: IpAddress::V4(u32::from(n.addr())), prefix_len: n.prefix_len() },
        ),
        Ok(ipnet::IpNet::V6(n)) => Some(
            IpNetwork { addr: IpAddress::V6(u128::from(n.addr())), prefix_len: n.prefix_len() },
        ),
        Err(_) => None,
    }
}

/// Parses a single address with `core::net::IpAddr`'s `FromStr`. Claimed: the
/// result is the named parse.
#[verifier::external_body]
pub(crate) fn parse_ip_address(text: &str) -> (r: Option<IpAddress>)
    ensures
        r == parsed_ip_address(text@),
{
    match text.parse::<core::net::IpAddr>() {
        Ok(core::net::IpAddr::V4(a)) => Some(IpAddress::V4(u32::from(a))),
        Ok(core::net::IpAddr::V6(a)) => Some(IpAddress::V6(u128::from(a))),
        Err(_) => None,
    }
}

/// Whether the network contains the address.
pub fn network_contains_address(net: &IpNetwork, ip: &IpAddress) -> (r: bool)
    requires
        net.prefix_len <= address_bits(net.addr),
    ensures
        r == network_contains(*net, *ip),
{
    match (&net.addr, ip) {
        (IpAddress::V4(n), IpAddress::V4(a)) => {
            let k: u32 = 32 - net.prefix_len as u32;
            if k == 32 {
                proof {
                    lemma2_to64();
                    assert(*n as int / pow2(32) as int == 0);
                    assert(*a as int / pow2(32) as int == 0);
                }
                true
            } else {
                proof {
                    lemma_u32_shr_is_div(*n, k);
                    lemma_u32_shr_is_div(*a, k);
                    assert(k as nat == (32 - net.prefix_len) as nat);
                }
                (*n >> k) == (*a >> k)
            }
        },
        (IpAddress::V6(n), IpAddress::V6(a)) => {
            let k: u128 = 128 - net.prefix_len as u128;
            if k == 128 {
                proof {
                    lemma2_to64();
                    lemma_pow2_adds(64, 64);
                    assert(pow2(128) > u128::MAX) by (nonlinear_arith)
                        requires
                            pow2(128) == pow2(64) * pow2(64),
                            pow2(64) == 0x10000000000000000,
                    ;
                    lemma_basic_div(*n as int, pow2(128) as int);
                    lemma_basic_div(*a as int, pow2(128) as int);
                }
                true
            } else {
                proof {
                    lemma_u128_shr_is_div(*n, k);
                    lemma_u128_shr_is_div(*a, k);
                    assert(k as nat == (128 - net.prefix_len) as nat);
                }
                (*n >> k) == (*a >> k)
            }
        },
        _ => false,
    }
}

/// The client address text that an `X-Forwarded-For` header names: its first
/// comma-separated entry without surrounding white space.
pub fn first_forwarded_address(header: &str) -> (r: String)
    ensures
        r@ == trimmed(before_first(header@, ',')),
{
    let first = text_before(header, ',');
    String::from_str(trim(first.as_str()))
}

/// The loopback address, 127.0.0.1.
pub const LOOPBACK_V4: u32 = 0x7f00_0001;

/// The address of a request's client: the first `X-Forwarded-For` entry when
/// it reads as an address, else the peer's address, else 127.0.0.1.
pub open spec fn client_address_spec(forwarded: Option<Seq<char>>, peer: Option<IpAddress>) -> IpAddress {
    let fallback = match peer {
        Some(p) => p,
        None => IpAddress::V4(LOOPBACK_V4),
    };
    match forwarded {
        Some(h) => match parsed_ip_address(trimmed(before_first(h, ','))) {
            Some(a) => a,
            None => fallback,
        },
        None => fallback,
    }
}

/// Determines a request's client address from its `X-Forwarded-For` header
/// and the peer address of its connection.
pub fn client_address(forwarded: Option<&str>, peer: Option<IpAddress>) -> (r: IpAddress)
    ensures
        r == client_address_spec(opt_chars(forwarded), peer),
{
    if let Some(h) = forwarded {
        let first = first_forwarded_address(h);
        if let Some(a) = parse_ip_address(first.as_str()) {
            return a;
        }
    }
    match peer {
        Some(p) => p,
        None => IpAddress::V4(LOOPBACK_V4),
    }
}

/// Whether an allow-list entry admits the address: an entry with `/` is a
/// network that must contain it, any other entry an address that must equal it.
#[verifier::opaque]
pub open spec fn cidr_allows(entry: Seq<char>, ip: IpAddress) -> bool {
    if entry.contains('/') {
        match parsed_ip_network(entry) {
            Some(net) => network_contains(net, ip),
            None => false,
        }
    } else {
        parsed_ip_address(entry) == Some(ip)
    }
}

/// Checks an address against one allow-list entry (a network or an address).
pub fn ip_matches_cidr(client: &IpAddress, cidr: &str) -> (r: bool)
    ensures
        r == cidr_allows(cidr@, *client),
{
    reveal(cidr_allows);
    if has_char(cidr, '/') {
        match parse_ip_network(cidr) {
            Some(net) => network_contains_address(&net, client),
            None => false,
        }
    } else {
        match parse_ip_address(cidr) {
            Some(a) => match (&a, client) {
                (IpAddress::V4(x), IpAddress::V4(y)) => *x == *y,
                (IpAddress::V6(x), IpAddress::V6(y)) => *x == *y,
                _ => false,
            },
            None => false,
        }
    }
}

/// The address passes the token's allow-list: there is none, or an entry admits it.
pub open spec fn ip_allowed(allow_from: Option<Seq<Seq<char>>>, ip: IpAddress) -> bool {
    allow_from is None || exists|i: int|
        0 <= i < allow_from->0.len() && cidr_allows(#[trigger] allow_from->0[i], ip)
}

proof fn lemma_ip_allowed_by_entry(l: Seq<Seq<char>>, ip: IpAddress, j: int)
    requires
        0 <= j < l.len(),
        cidr_allows(l[j], ip),
    ensures
        ip_allowed(Some(l), ip),
{
    assert(Some(l)->0 == l);
    assert(exists|i: int| 0 <= i < l.len() && cidr_allows(#[trigger] l[i], ip));
}

/// Whether some entry of the list admits the address.
fn any_cidr_allows(list: &Vec<String>, ip: &IpAddress) -> (r: bool)
    ensures
        r == exists|i: int| 0 <= i < list@.len() && cidr_allows(#[trigger] list@[i]@, *ip),
{
    let n = list.len();
    let mut i: usize = 0;
    while i < n
        invariant
            n == list@.len(),
            i <= n,
            forall|j: int| 0 <= j < i ==> !cidr_allows(#[trigger] list@[j]@, *ip),
        decreases n - i,
    {
        if ip_matches_cidr(ip, list[i].as_str()) {
            return true;
        }
        i = i + 1;
    }
    false
}

// ---------------------------------------------------------------- tokens

/// The key under which a token is stored: its configured hash, else the hash
/// of its plain value; a token with neither is not stored.
pub open spec fn token_key(t: TokenView) -> Option<Seq<char>> {
    match t.hashed {
        Some(h) => Some(h),
        None => match t.plain {
            Some(p) => Some(token_hash(p)),
            None => None,
        },
    }
}

/// The token table that a list of tokens builds: each token under its key, a
/// later token replacing an earlier one with the same key.
pub open spec fn tokens_table(ts: Seq<TokenView>) -> Map<Seq<char>, TokenView>
    decreases ts.len(),
{
    if ts.len() == 0 {
        Map::empty()
    } else {
        let rest = tokens_table(ts.drop_last());
        match token_key(ts.last()) {
            Some(k) => rest.insert(k, ts.last()),
            None => rest,
        }
    }
}

/// The tokens of a table, taken by their views.
pub open spec fn token_views(m: Map<Seq<char>, TokenConfig>) -> Map<Seq<char>, TokenView> {
    Map::new(|k: Seq<char>| m.contains_key(k), |k: Seq<char>| m[k]@)
}

/// The views of a list of tokens.
pub open spec fn views_of(ts: Seq<TokenConfig>) -> Seq<TokenView> {
    ts.map_values(|t: TokenConfig| t@)
}

/// Builds the token table (hash to token) from the configured tokens.
pub fn build_tokens_map(tokens: &[TokenConfig]) -> (r: StrMap<TokenConfig>)
    ensures
        token_views(r@) == tokens_table(views_of(tokens@)),
{
    let n = tokens.len();
    let mut map: StrMap<TokenConfig> = StrMap::new();
    let mut i: usize = 0;
    assert(token_views(map@) =~= tokens_table(views_of(tokens@).take(0)));
    while i < n
        invariant
            n == tokens@.len(),
            i <= n,
            token_views(map@) == tokens_table(views_of(tokens@).take(i as int)),
        decreases n - i,
    {
        let token = &tokens[i];
        let ghost prefix = views_of(tokens@).take(i as int);
        let ghost next = views_of(tokens@).take(i + 1);
        assert(next.drop_last() =~= prefix);
        assert(next.last() == token@);
        let key = match &token.hashed {
            Some(h) => Some(h.clone()),
            None => match &token.plain {
                Some(p) => Some(hash_token(p.as_str())),
                None => None,
            },
        };
        match key {
            Some(k) => {
                let ghost kv = k@;
                let ghost before = map@;
                map.insert(k, token.clone());
                assert(token_views(map@) =~= token_views(before).insert(kv, token@));
            },
            None => {},
        }
        i = i + 1;
    }
    assert(views_of(tokens@).take(n as int) =~= views_of(tokens@));
    map
}

/// Why a request is refused.
#[derive(Debug)]
pub enum AuthError {
    MissingCredential,
    InvalidToken,
    IpNotAllowed,
}

/// A request whose credential named a configured token, from an address that
/// the token admits.
#[derive(Debug)]
pub struct AuthenticatedRequest {
    pub token_config: TokenConfig,
    pub client_ip: IpAddress,
}

/// The refusal, if any, for a request with this credential from this address,
/// given the token table.
pub open spec fn auth_refusal(
    credential: Option<Seq<char>>,
    tokens: Map<Seq<char>, TokenView>,
    ip: IpAddress,
) -> Option<AuthError> {
    match credential {
        None => Some(AuthError::MissingCredential),
        Some(c) => if !tokens.contains_key(token_hash(c)) {
            Some(AuthError::InvalidToken)
        } else if !ip_allowed(tokens[token_hash(c)].allow_from, ip) {
            Some(AuthError::IpNotAllowed)
        } else {
            None
        },
    }
}

/// The characters of an optional string slice.
pub open spec fn opt_chars(o: Option<&str>) -> Option<Seq<char>> {
    match o {
        Some(s) => Some(s@),
        None => None,
    }
}

/// Authenticates a request from its `x-credential` header and client address:
/// the credential's hash must name a token, and the token's allow-list must
/// admit the address.
pub fn authenticate(
    credential: Option<&str>,
    tokens: &StrMap<TokenConfig>,
    client_ip: IpAddress,
) -> (r: Result<AuthenticatedRequest, AuthError>)
    ensures
        match r {
            Err(e) => auth_refusal(opt_chars(credential), token_views(tokens@), client_ip) == Some(
                e,
            ),
            Ok(a) => {
                &&& auth_refusal(opt_chars(credential), token_views(tokens@), client_ip) is None
                &&& a.token_config@ == token_views(tokens@)[token_hash(opt_chars(credential)->0)]
                &&& a.client_ip == client_ip
            },
        },
{
    let credential = match credential {
        Some(c) => c,
        None => {
            return Err(AuthError::MissingCredential);
        },
    };
    let hashed = hash_token(credential);
    let token_config = match tokens.get(hashed.as_str()) {
        Some(t) => t.clone(),
        None => {
            return Err(AuthError::InvalidToken);
        },
    };
    proof {
        assert(token_views(tokens@)[hashed@] == token_config@);
    }
    match &token_config.allow_from {
        Some(list) => {
            let allowed = any_cidr_allows(list, &client_ip);
            proof {
                let l = strs(list@);
                if allowed {
                    let i = choose|i: int| 0 <= i < list@.len() && cidr_allows(#[trigger] list@[i]@, client_ip);
                    assert(l.len() == list@.len());
                    assert(cidr_allows(l[i], client_ip));
                    assert(token_config@.allow_from == Some(l));
                    assert(exists|j: int| 0 <= j < l.len() && cidr_allows(#[trigger] l[j], client_ip));
                    lemma_ip_allowed_by_entry(l, client_ip, i);
                } else {
                    assert forall|i: int| 0 <= i < l.len() implies !cidr_allows(#[trigger] l[i], client_ip) by {
                        assert(l[i] == list@[i]@);
                    }
                }
            }
            if !allowed {
                return Err(AuthError::IpNotAllowed);
            }
        },
        None => {},
    }
    assert(ip_allowed(token_views(tokens@)[token_hash(credential@)].allow_from, client_ip));
    Ok(AuthenticatedRequest { token_config, client_ip })
}

impl AuthenticatedRequest {
    /// Whether the token may fetch certificates for `domain`: it has no name
    /// restriction, or one of its patterns matches.
    pub fn can_access_domain(&self, domain: &str) -> (r: bool)
        ensures
            r == match self.token_config.restrict_names {
                None => true,
                Some(p) => any_pattern_matches(p@, domain@),
            },
    {
        match &self.token_config.restrict_names {
            None => true,
            Some(patterns) => any_matches(patterns.as_slice(), domain),
        }
    }
}

/// The token table maps the hash of a token's plain value to that token when
/// the token has no configured hash and no later token is stored under the
/// same key; a request with that plain value as credential is then refused
/// only for its address, and otherwise carries that token.
pub proof fn lemma_plain_token_authenticates(ts: Seq<TokenView>, i: int, ip: IpAddress)
    requires
        0 <= i < ts.len(),
        ts[i].hashed is None,
        ts[i].plain is Some,
        forall|j: int| i < j < ts.len() ==> token_key(#[trigger] ts[j]) != Some(token_hash(ts[i].plain->0)),
    ensures
        tokens_table(ts).contains_key(token_hash(ts[i].plain->0)),
        tokens_table(ts)[token_hash(ts[i].plain->0)] == ts[i],
        auth_refusal(Some(ts[i].plain->0), tokens_table(ts), ip) == (if ip_allowed(
            ts[i].allow_from,
            ip,
        ) {
            None
        } else {
            Some(AuthError::IpNotAllowed)
        }),
    decreases ts.len(),
{
    let k = token_hash(ts[i].plain->0);
    if i < ts.len() - 1 {
        let rest = ts.drop_last();
        assert(rest[i] == ts[i]);
        assert forall|j: int| i < j < rest.len() implies token_key(#[trigger] rest[j]) != Some(k) by {
            assert(rest[j] == ts[j]);
        }
        lemma_plain_token_authenticates(rest, i, ip);
        assert(token_key(ts[ts.len() - 1]) != Some(k));
    }
}

/// A token stored under a configured hash is found by that hash.
pub proof fn lemma_hashed_token_found(ts: Seq<TokenView>, i: int)
    requires
        0 <= i < ts.len(),
        ts[i].hashed is Some,
        forall|j: int| i < j < ts.len() ==> token_key(#[trigger] ts[j]) != ts[i].hashed,
    ensures
        tokens_table(ts).contains_key(ts[i].hashed->0),
        tokens_table(ts)[ts[i].hashed->0] == ts[i],
    decreases ts.len(),
{
    if i < ts.len() - 1 {
        let rest = ts.drop_last();
        assert(rest[i] == ts[i]);
        assert forall|j: int| i < j < rest.len() implies token_key(#[trigger] rest[j])
            != rest[i].hashed by {
            assert(rest[j] == ts[j]);
        }
        lemma_hashed_token_found(rest, i);
        assert(token_key(ts[ts.len() - 1]) != ts[i].hashed);
    }
}

/// Every stored token comes from the list, and is stored under its key.
pub proof fn lemma_tokens_table_sound(ts: Seq<TokenView>, k: Seq<char>)
    requires
        tokens_table(ts).contains_key(k),
    ensures
        exists|i: int|
            0 <= i < ts.len() && #[trigger] ts[i] == tokens_table(ts)[k] && token_key(ts[i])
                == Some(k),
    decreases ts.len(),
{
    let rest = ts.drop_last();
    if token_key(ts.last()) == Some(k) {
        assert(ts[ts.len() - 1] == tokens_table(ts)[k]);
    } else {
        lemma_tokens_table_sound(rest, k);
        let i = choose|i: int|
            0 <= i < rest.len() && #[trigger] rest[i] == tokens_table(rest)[k] && token_key(rest[i])
                == Some(k);
        assert(ts[i] == rest[i]);
    }
}

} // verus!
