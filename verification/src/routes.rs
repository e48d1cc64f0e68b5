use vstd::prelude::*;

use crate::auth::AuthenticatedRequest;
use crate::certificate::{expired_at, StoredCertificate};
use crate::clock::{monotonic_clock_reading, wall_clock_now, wall_clock_reading};
use crate::challenge::{challenge_lookup, ChallengeStore};
use crate::config::CertificateConfig;
use crate::domain::any_pattern_matches;
use crate::issuance::{chosen_config, config_matches, find_matching_certificate};
use crate::strmap::StrMap;
use crate::text::{clone_strings, strs};

verus! {

/// The content type of an answer.
#[derive(Debug)]
pub enum ContentType {
    Plain,
}

/// The HTTP statuses with which the service refuses a request.
#[derive(Debug)]
pub enum HttpStatus {
    NotFound,
    InternalServerError,
}

/// `GET /`: tells that the service runs.
pub fn status() -> (r: (ContentType, &'static str))
    ensures
        r.0 is Plain,
        r.1@ == "ACME distributor running!"@,
{
    (ContentType::Plain, "ACME distributor running!")
}

/// `GET /.well-known/acme-challenge/<challenge>` at time `now`: the stored
/// answer while it is fresh, else Not Found.
pub fn serve_challenge_at(store: &ChallengeStore, challenge: &str, now: i64) -> (r: Result<
    String,
    HttpStatus,
>)
    ensures
        match r {
            Ok(v) => challenge_lookup(store@, challenge@, now) == Some(v@),
            Err(e) => e is NotFound && challenge_lookup(store@, challenge@, now) is None,
        },
{
    match store.get_at(challenge, now) {
        Some(v) => Ok(v),
        None => Err(HttpStatus::NotFound),
    }
}

/// `GET /.well-known/acme-challenge/<challenge>`, by the store's clock.
pub fn serve_challenge(store: &ChallengeStore, challenge: &str) -> (r: Result<String, HttpStatus>)
    ensures
        exists|t: i64|
            #![trigger monotonic_clock_reading(t)]
            monotonic_clock_reading(t) && match r {
                Ok(v) => challenge_lookup(store@, challenge@, t) == Some(v@),
                Err(e) => e is NotFound && challenge_lookup(store@, challenge@, t) is None,
            },
{
    match store.get(challenge) {
        Some(v) => Ok(v),
        None => Err(HttpStatus::NotFound),
    }
}

/// The certificate that a request for `name` is served from.
#[derive(Debug)]
pub struct CertificateTarget {
    /// The id of the stored certificate.
    pub cert_id: String,
    /// The id of the configuration it is made for.
    pub source: String,
    /// The provider that issues it.
    pub provider: String,
    /// The names it is issued for.
    pub names: Vec<String>,
}

/// The id of the certificate that configuration `c` serves `name` from: the
/// configuration's id for fixed names, else the id, `#` and the name.
pub open spec fn target_id(c: CertificateConfig, name: Seq<char>) -> Seq<char> {
    if c.names is Some {
        c.id@
    } else {
        c.id@ + "#"@ + name
    }
}

/// The names a certificate for `name` from configuration `c` is issued for:
/// the fixed names, else the requested name alone.
pub open spec fn target_names(c: CertificateConfig, name: Seq<char>) -> Seq<Seq<char>> {
    match c.names {
        Some(n) => strs(n@),
        None => seq![name],
    }
}

/// The token may fetch `name`.
pub open spec fn token_may_fetch(auth: AuthenticatedRequest, name: Seq<char>) -> bool {
    match auth.token_config.restrict_names {
        None => true,
        Some(p) => any_pattern_matches(p@, name),
    }
}

/// Decides which certificate a `GET /certificate/<name>` request is served
/// from: Not Found when the token may not fetch the name or no configuration
/// matches it, else the certificate of the chosen configuration.
pub fn plan_certificate_request(
    auth: &AuthenticatedRequest,
    certificates: &StrMap<CertificateConfig>,
    name: &str,
) -> (r: Result<CertificateTarget, HttpStatus>)
    ensures
        match r {
            Err(e) => e is NotFound && (!token_may_fetch(*auth, name@) || forall|i: int|
                0 <= i < certificates.pairs().len() ==> !config_matches(
                    #[trigger] certificates.pairs()[i].1,
                    name@,
                )),
            Ok(t) => token_may_fetch(*auth, name@) && exists|i: int|
                chosen_config(certificates.pairs(), name@, i) && {
                    let c = #[trigger] certificates.pairs()[i].1;
                    &&& t.cert_id@ == target_id(c, name@)
                    &&& t.source@ == c.id@
                    &&& t.provider@ == c.provider@
                    &&& strs(t.names@) == target_names(c, name@)
                },
        },
{
    if !auth.can_access_domain(name) {
        return Err(HttpStatus::NotFound);
    }
    let config = match find_matching_certificate(certificates, name) {
        Some(c) => c,
        None => {
            return Err(HttpStatus::NotFound);
        },
    };
    let cert_id = match &config.names {
        Some(_) => config.id.clone(),
        None => {
            let mut id = config.id.clone();
            id.append("#");
            id.append(name);
            id
        },
    };
    let names = match &config.names {
        Some(n) => clone_strings(n),
        None => {
            let mut v: Vec<String> = Vec::new();
            v.push(String::from_str(name));
            assert(strs(v@) =~= seq![name@]);
            v
        },
    };
    Ok(
        CertificateTarget {
            cert_id,
            source: config.id.clone(),
            provider: config.provider.clone(),
            names,
        },
    )
}

/// How a certificate request is answered once its target is known.
#[derive(Debug)]
pub enum ServePlan {
    /// The stored certificate is handed out.
    Stored(StoredCertificate),
    /// A certificate is issued first.
    Issue,
}

/// How a request is answered at time `now`: from the stored certificate
/// while it has not expired, else by issuing one.
pub open spec fn serve_plan(existing: Option<StoredCertificate>, now: i64) -> ServePlan {
    match existing {
        Some(c) => if expired_at(c, now) {
            ServePlan::Issue
        } else {
            ServePlan::Stored(c)
        },
        None => ServePlan::Issue,
    }
}

/// Decides at time `now` how a request is answered.
pub fn plan_serve_at(existing: Option<StoredCertificate>, now: i64) -> (r: ServePlan)
    ensures
        r == serve_plan(existing, now),
{
    match existing {
        Some(c) => if c.is_expired_at(now) {
            ServePlan::Issue
        } else {
            ServePlan::Stored(c)
        },
        None => ServePlan::Issue,
    }
}

/// Decides how a request is answered, by the current time.
pub fn plan_serve(existing: Option<StoredCertificate>) -> (r: ServePlan)
    ensures
        exists|t: i64| #![trigger wall_clock_reading(t)] wall_clock_reading(t) && r == serve_plan(existing, t),
{
    plan_serve_at(existing, wall_clock_now())
}

/// The provider that issues a requested certificate; Internal Server Error
/// when it is not configured.
pub fn issuing_provider<'a, V>(providers: &'a StrMap<V>, name: &str) -> (r: Result<&'a V, HttpStatus>)
    ensures
        match r {
            Ok(v) => providers@.contains_key(name@) && *v == providers@[name@],
            Err(e) => e is InternalServerError && !providers@.contains_key(name@),
        },
{
    match providers.get(name) {
        Some(v) => Ok(v),
        None => Err(HttpStatus::InternalServerError),
    }
}

/// A configuration with domain patterns keeps one certificate per requested
/// name: different names get different certificate ids. A configuration with
/// fixed names serves every name from its own id.
pub proof fn lemma_target_ids(c: CertificateConfig, n1: Seq<char>, n2: Seq<char>)
    ensures
        c.names is None && n1 != n2 ==> target_id(c, n1) != target_id(c, n2),
        c.names is Some ==> target_id(c, n1) == c.id@ && target_id(c, n2) == c.id@,
{
    if c.names is None && n1 != n2 {
        let p = c.id@ + "#"@;
        assert(target_id(c, n1) == p + n1);
        assert(target_id(c, n2) == p + n2);
        if p + n1 == p + n2 {
            assert(n1 =~= (p + n1).subrange(p.len() as int, (p + n1).len() as int));
            assert(n2 =~= (p + n2).subrange(p.len() as int, (p + n2).len() as int));
        }
    }
}

/// Whenever a configuration with fixed names matches a domain, the chosen
/// configuration has fixed names; the chosen one is the first matching
/// configuration of its kind.
pub proof fn lemma_fixed_names_preferred(
    pairs: Seq<(Seq<char>, CertificateConfig)>,
    domain: Seq<char>,
    i: int,
    j: int,
)
    requires
        chosen_config(pairs, domain, i),
        0 <= j < pairs.len(),
        config_matches(pairs[j].1, domain),
    ensures
        pairs[j].1.names is Some ==> pairs[i].1.names is Some,
        j < i ==> pairs[j].1.names is None,
{
}

/// A request at time `t` is served from the stored certificate exactly when
/// one is stored and it expires after `t`; an expired or missing one is
/// never handed out, and a new one is issued.
pub proof fn lemma_serve_only_unexpired(existing: Option<StoredCertificate>, t: i64)
    ensures
        serve_plan(existing, t) matches ServePlan::Stored(c) ==> existing == Some(c) && t
            < c.expires_at,
        existing matches Some(c) ==> (t < c.expires_at ==> serve_plan(existing, t)
            == ServePlan::Stored(c)),
        existing matches Some(c) ==> (c.expires_at <= t ==> serve_plan(existing, t) is Issue),
        existing is None ==> serve_plan(existing, t) is Issue,
{
}

} // verus!
