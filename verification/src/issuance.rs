use vstd::prelude::*;

use crate::certificate::{
    expired_at, in_renewal_window, stored_names, StoredCertificate, NewCertificate,
};
use crate::clock::{wall_clock_now, wall_clock_reading, TWO_DAYS_MS};
use crate::config::CertificateConfig;
use crate::domain::{any_matches, any_pattern_matches};
use crate::json::{encode_string_list, json_of_string_list};
use crate::strmap::StrMap;
use crate::text::{clone_strings, same_strings, str_equal, strs};
use crate::types::IssuanceResult;

verus! {

/// Sixty days in milliseconds: a certificate that was not requested for this
/// long is dropped unless it is a configured one.
pub const SIXTY_DAYS_MS: i64 = 5_184_000_000;

/// Why a certificate is issued or renewed.
#[derive(Debug)]
pub enum IssuanceReason {
    /// The certificate is not in the database.
    Missing,
    /// The certificate has expired.
    Expired,
    /// The configuration names another provider than the one that issued it.
    ProviderChanged { old: String, new: String },
    /// The configured names differ from the certificate's.
    NamesChanged,
    /// The certificate is in its renewal window.
    InRenewalWindow,
}

/// Why a stored certificate is deleted during maintenance.
#[derive(Debug)]
pub enum DeletionReason {
    /// Not requested for sixty days and not a configured certificate.
    Stale,
    /// Its provider is no longer configured.
    MissingProvider,
    /// The configuration it was made for is gone.
    MissingSourceConfig,
}

/// The text that describes an issuance reason.
pub open spec fn issuance_message(r: IssuanceReason) -> Seq<char> {
    match r {
        IssuanceReason::Missing => "not found"@,
        IssuanceReason::Expired => "expired"@,
        IssuanceReason::ProviderChanged { old, new } => "provider changed ("@ + old@ + " -> "@
            + new@ + ")"@,
        IssuanceReason::NamesChanged => "names changed"@,
        IssuanceReason::InRenewalWindow => "in renewal window"@,
    }
}

/// The text that describes a deletion reason.
pub open spec fn deletion_message(r: DeletionReason) -> Seq<char> {
    match r {
        DeletionReason::Stale => "not requested in 60+ days"@,
        DeletionReason::MissingProvider => "provider no longer exists"@,
        DeletionReason::MissingSourceConfig => "source config no longer exists"@,
    }
}

impl IssuanceReason {
    /// The reason as text, for logs.
    pub fn message(&self) -> (r: String)
        ensures
            r@ == issuance_message(*self),
    {
        match self {
            IssuanceReason::Missing => String::from_str("not found"),
            IssuanceReason::Expired => String::from_str("expired"),
            IssuanceReason::ProviderChanged { old, new } => {
                let mut s = String::from_str("provider changed (");
                s.append(old.as_str());
                s.append(" -> ");
                s.append(new.as_str());
                s.append(")");
                s
            },
            IssuanceReason::NamesChanged => String::from_str("names changed"),
            IssuanceReason::InRenewalWindow => String::from_str("in renewal window"),
        }
    }
}

impl DeletionReason {
    /// The reason as text, for logs.
    pub fn message(&self) -> (r: String)
        ensures
            r@ == deletion_message(*self),
    {
        match self {
            DeletionReason::Stale => String::from_str("not requested in 60+ days"),
            DeletionReason::MissingProvider => String::from_str("provider no longer exists"),
            DeletionReason::MissingSourceConfig => String::from_str(
                "source config no longer exists",
            ),
        }
    }
}

/// The certificate behind an optional reference.
pub open spec fn deref_cert(c: Option<&StoredCertificate>) -> Option<StoredCertificate> {
    match c {
        Some(c) => Some(*c),
        None => None,
    }
}

/// Whether, and why, a certificate for `config` with `names` must be issued at
/// time `now`, given the stored certificate.
pub open spec fn issuance_reason(
    cert: Option<StoredCertificate>,
    config: CertificateConfig,
    names: Seq<Seq<char>>,
    now: i64,
) -> Option<IssuanceReason> {
    match cert {
        None => Some(IssuanceReason::Missing),
        Some(c) => if expired_at(c, now) {
            Some(IssuanceReason::Expired)
        } else if c.provider@ != config.provider@ {
            Some(IssuanceReason::ProviderChanged { old: c.provider, new: config.provider })
        } else if stored_names(c.names@) != names {
            Some(IssuanceReason::NamesChanged)
        } else if in_renewal_window(c, now) {
            Some(IssuanceReason::InRenewalWindow)
        } else {
            None
        },
    }
}

/// Whether, and why, a stored certificate is deleted at time `now`, given the
/// configured provider ids and certificate configuration ids.
pub open spec fn deletion_reason(
    cert: StoredCertificate,
    provider_ids: Set<Seq<char>>,
    config_ids: Set<Seq<char>>,
    now: i64,
) -> Option<DeletionReason> {
    if cert.requested_at < now - SIXTY_DAYS_MS && !config_ids.contains(cert.id@) {
        Some(DeletionReason::Stale)
    } else if !provider_ids.contains(cert.provider@) {
        Some(DeletionReason::MissingProvider)
    } else if !config_ids.contains(cert.source@) {
        Some(DeletionReason::MissingSourceConfig)
    } else {
        None
    }
}

/// Checks at time `now` whether a certificate needs to be issued or renewed.
pub fn check_needs_issuance_at(
    cert: Option<&StoredCertificate>,
    config: &CertificateConfig,
    names: &[String],
    now: i64,
) -> (r: Option<IssuanceReason>)
    ensures
        r == issuance_reason(deref_cert(cert), *config, strs(names@), now),
{
    match cert {
        None => Some(IssuanceReason::Missing),
        Some(cert) => {
            if cert.is_expired_at(now) {
                Some(IssuanceReason::Expired)
            } else if !str_equal(cert.provider.as_str(), config.provider.as_str()) {
                Some(
                    IssuanceReason::ProviderChanged {
                        old: cert.provider.clone(),
                        new: config.provider.clone(),
                    },
                )
            } else {
                let stored = cert.get_names();
                if !same_strings(stored.as_slice(), names) {
                    Some(IssuanceReason::NamesChanged)
                } else if cert.needs_renewal_at(now) {
                    Some(IssuanceReason::InRenewalWindow)
                } else {
                    None
                }
            }
        },
    }
}

/// Checks whether a certificate needs to be issued or renewed, by the current time.
pub fn check_needs_issuance(
    cert: Option<&StoredCertificate>,
    config: &CertificateConfig,
    names: &[String],
) -> (r: Option<IssuanceReason>)
    ensures
        exists|t: i64| #![trigger wall_clock_reading(t)] wall_clock_reading(t) && r == issuance_reason(deref_cert(cert), *config, strs(names@), t),
{
    check_needs_issuance_at(cert, config, names, wall_clock_now())
}

/// Checks at time `now` whether a stored certificate should be deleted.
pub fn check_needs_deletion_at<V>(
    cert: &StoredCertificate,
    providers: &StrMap<V>,
    certificates: &StrMap<CertificateConfig>,
    now: i64,
) -> (r: Option<DeletionReason>)
    ensures
        r == deletion_reason(*cert, providers@.dom(), certificates@.dom(), now),
{
    let stale = (cert.requested_at as i128) < (now as i128) - (SIXTY_DAYS_MS as i128);
    if stale && !certificates.contains_key(cert.id.as_str()) {
        return Some(DeletionReason::Stale);
    }
    if !providers.contains_key(cert.provider.as_str()) {
        return Some(DeletionReason::MissingProvider);
    }
    if !certificates.contains_key(cert.source.as_str()) {
        return Some(DeletionReason::MissingSourceConfig);
    }
    None
}

/// Checks whether a stored certificate should be deleted, by the current time.
pub fn check_needs_deletion<V>(
    cert: &StoredCertificate,
    providers: &StrMap<V>,
    certificates: &StrMap<CertificateConfig>,
) -> (r: Option<DeletionReason>)
    ensures
        exists|t: i64| #![trigger wall_clock_reading(t)] wall_clock_reading(t) && r == deletion_reason(*cert, providers@.dom(), certificates@.dom(), t),
{
    check_needs_deletion_at(cert, providers, certificates, wall_clock_now())
}

/// A configuration matches a domain through one of its names or domain patterns.
pub open spec fn config_matches(c: CertificateConfig, domain: Seq<char>) -> bool {
    (c.names matches Some(n) && any_pattern_matches(n@, domain)) || (c.domains matches Some(d)
        && any_pattern_matches(d@, domain))
}

/// Whether a configuration matches a domain.
pub fn config_matches_domain(c: &CertificateConfig, domain: &str) -> (r: bool)
    ensures
        r == config_matches(*c, domain@),
{
    let by_names = match &c.names {
        Some(n) => any_matches(n.as_slice(), domain),
        None => false,
    };
    if by_names {
        return true;
    }
    match &c.domains {
        Some(d) => any_matches(d.as_slice(), domain),
        None => false,
    }
}

/// The configuration at position `i` is the one that serves `domain`: it
/// matches, no matching configuration has fixed names unless it has too, and
/// every matching configuration before it has domain patterns only while it
/// has fixed names.
pub open spec fn chosen_config(
    pairs: Seq<(Seq<char>, CertificateConfig)>,
    domain: Seq<char>,
    i: int,
) -> bool {
    &&& 0 <= i < pairs.len()
    &&& config_matches(pairs[i].1, domain)
    &&& forall|j: int|
        0 <= j < pairs.len() && config_matches(#[trigger] pairs[j].1, domain) ==> (pairs[i].1.names
            is Some || pairs[j].1.names is None) && (j < i ==> pairs[j].1.names is None
            && pairs[i].1.names is Some)
}

/// Finds the configuration that serves a domain: among the matching ones the
/// first with fixed names, else the first with domain patterns only.
pub fn find_matching_certificate<'a>(
    certs: &'a StrMap<CertificateConfig>,
    domain: &str,
) -> (r: Option<&'a CertificateConfig>)
    ensures
        r is None <==> forall|i: int|
            0 <= i < certs.pairs().len() ==> !config_matches(#[trigger] certs.pairs()[i].1, domain@),
        r matches Some(c) ==> exists|i: int|
            chosen_config(certs.pairs(), domain@, i) && *c == #[trigger] certs.pairs()[i].1,
{
    let n = certs.len();
    let mut first_named: Option<usize> = None;
    let mut first_any: Option<usize> = None;
    let mut i: usize = 0;
    while i < n
        invariant
            n == certs.pairs().len(),
            i <= n,
            match first_any {
                Some(a) => a < i && config_matches(certs.pairs()[a as int].1, domain@) && forall|
                    j: int,
                |
                    0 <= j < a ==> !config_matches(#[trigger] certs.pairs()[j].1, domain@),
                None => forall|j: int|
                    0 <= j < i ==> !config_matches(#[trigger] certs.pairs()[j].1, domain@),
            },
            match first_named {
                Some(a) => a < i && config_matches(certs.pairs()[a as int].1, domain@)
                    && certs.pairs()[a as int].1.names is Some && forall|j: int|
                    0 <= j < a && config_matches(#[trigger] certs.pairs()[j].1, domain@)
                        ==> certs.pairs()[j].1.names is None,
                None => forall|j: int|
                    0 <= j < i && config_matches(#[trigger] certs.pairs()[j].1, domain@)
                        ==> certs.pairs()[j].1.names is None,
            },
            first_named is Some ==> first_any is Some,
        decreases n - i,
    {
        let (_, c) = certs.entry_at(i);
        if config_matches_domain(c, domain) {
            if first_any.is_none() {
                first_any = Some(i);
            }
            if first_named.is_none() && c.names.is_some() {
                first_named = Some(i);
            }
        }
        i = i + 1;
    }
    match first_named {
        Some(a) => {
            let (_, c) = certs.entry_at(a);
            Some(c)
        },
        None => match first_any {
            Some(a) => {
                let (_, c) = certs.entry_at(a);
                Some(c)
            },
            None => None,
        },
    }
}

/// The ids, in order, of the stored certificates whose configuration is gone.
pub open spec fn orphaned_ids(all: Seq<StoredCertificate>, config_ids: Set<Seq<char>>) -> Seq<Seq<char>>
    decreases all.len(),
{
    if all.len() == 0 {
        Seq::empty()
    } else {
        let rest = orphaned_ids(all.drop_last(), config_ids);
        if config_ids.contains(all.last().source@) {
            rest
        } else {
            rest.push(all.last().id@)
        }
    }
}

/// Decides which stored certificates to delete because the configuration they
/// were made for no longer exists.
pub fn certificates_to_remove(all: &[StoredCertificate], certificates: &StrMap<CertificateConfig>) -> (r:
    Vec<String>)
    ensures
        strs(r@) == orphaned_ids(all@, certificates@.dom()),
{
    let n = all.len();
    let mut out: Vec<String> = Vec::new();
    let mut i: usize = 0;
    while i < n
        invariant
            n == all@.len(),
            i <= n,
            strs(out@) == orphaned_ids(all@.take(i as int), certificates@.dom()),
        decreases n - i,
    {
        assert(all@.take(i + 1).drop_last() =~= all@.take(i as int));
        if !certificates.contains_key(all[i].source.as_str()) {
            out.push(all[i].id.clone());
            assert(strs(out@) =~= orphaned_ids(all@.take(i as int), certificates@.dom()).push(
                all@[i as int].id@,
            ));
        }
        i = i + 1;
    }
    assert(all@.take(n as int) =~= all@);
    out
}

/// What startup does about one configured certificate that needs issuance.
#[derive(Debug)]
pub struct StartupPlan {
    pub reason: IssuanceReason,
    /// The names to issue the certificate for: the configured ones.
    pub names: Vec<String>,
    /// The stored certificate is deleted first (its provider changed).
    pub delete_existing: bool,
    /// The configured provider exists; otherwise issuance is skipped with a warning.
    pub provider_available: bool,
}

/// Decides at time `now` what startup does for a configured certificate:
/// nothing for a configuration with domain patterns only (its certificates
/// are made on request) or when no issuance is needed; else issuance for the
/// configured names, after deleting the stored certificate when its provider
/// changed.
pub fn plan_startup_issuance_at<V>(
    config: &CertificateConfig,
    existing: Option<&StoredCertificate>,
    providers: &StrMap<V>,
    now: i64,
) -> (r: Option<StartupPlan>)
    ensures
        config.names is None ==> r is None,
        config.names matches Some(n) ==> (r is None <==> issuance_reason(
            deref_cert(existing),
            *config,
            strs(n@),
            now,
        ) is None),
        r matches Some(p) ==> {
            &&& config.names matches Some(n) && Some(p.reason) == issuance_reason(
                deref_cert(existing),
                *config,
                strs(n@),
                now,
            ) && strs(p.names@) == strs(n@)
            &&& p.delete_existing == p.reason is ProviderChanged
            &&& p.provider_available == providers@.contains_key(config.provider@)
        },
{
    let names = match &config.names {
        Some(n) => n,
        None => {
            return None;
        },
    };
    match check_needs_issuance_at(existing, config, names.as_slice(), now) {
        None => None,
        Some(reason) => {
            let delete_existing = match &reason {
                IssuanceReason::ProviderChanged { .. } => true,
                _ => false,
            };
            let provider_available = providers.contains_key(config.provider.as_str());
            Some(
                StartupPlan {
                    reason,
                    names: clone_strings(names),
                    delete_existing,
                    provider_available,
                },
            )
        },
    }
}

/// What the maintenance job does with one stored certificate.
#[derive(Debug)]
pub enum CronAction {
    Delete(DeletionReason),
    Renew,
    Keep,
}

/// The maintenance decision at time `now`: delete when a deletion reason holds,
/// else renew when in the renewal window, else keep.
pub open spec fn cron_action(
    cert: StoredCertificate,
    provider_ids: Set<Seq<char>>,
    config_ids: Set<Seq<char>>,
    now: i64,
) -> CronAction {
    match deletion_reason(cert, provider_ids, config_ids, now) {
        Some(reason) => CronAction::Delete(reason),
        None => if in_renewal_window(cert, now) {
            CronAction::Renew
        } else {
            CronAction::Keep
        },
    }
}

/// Decides at time `now` what maintenance does with a stored certificate. A
/// renewal is only decided for a certificate whose provider is configured.
pub fn plan_cron_at<V>(
    cert: &StoredCertificate,
    providers: &StrMap<V>,
    certificates: &StrMap<CertificateConfig>,
    now: i64,
) -> (r: CronAction)
    ensures
        r == cron_action(*cert, providers@.dom(), certificates@.dom(), now),
        r is Renew ==> providers@.contains_key(cert.provider@) && certificates@.contains_key(
            cert.source@,
        ),
{
    match check_needs_deletion_at(cert, providers, certificates, now) {
        Some(reason) => CronAction::Delete(reason),
        None => if cert.needs_renewal_at(now) {
            CronAction::Renew
        } else {
            CronAction::Keep
        },
    }
}

/// Decides what maintenance does with a stored certificate, by the current time.
pub fn plan_cron<V>(
    cert: &StoredCertificate,
    providers: &StrMap<V>,
    certificates: &StrMap<CertificateConfig>,
) -> (r: CronAction)
    ensures
        exists|t: i64| #![trigger wall_clock_reading(t)] wall_clock_reading(t) && r == cron_action(*cert, providers@.dom(), certificates@.dom(), t),
        r is Renew ==> providers@.contains_key(cert.provider@) && certificates@.contains_key(
            cert.source@,
        ),
{
    plan_cron_at(cert, providers, certificates, wall_clock_now())
}

/// The database record for a certificate just issued by `provider_name` for
/// `names`; it keeps the given request time, or takes `now`.
pub fn new_certificate_record_at(
    cert_id: &str,
    source: &str,
    provider_name: &str,
    names: &[String],
    result: IssuanceResult,
    requested_at: Option<i64>,
    now: i64,
) -> (r: NewCertificate)
    ensures
        r.id@ == cert_id@,
        r.source@ == source@,
        r.provider@ == provider_name@,
        r.names@ == json_of_string_list(strs(names@)),
        stored_names(r.names@) == strs(names@),
        r.cert_pem == Some(result.cert_pem),
        r.key_pem == Some(result.key_pem),
        r.ca_pem == Some(result.ca_pem),
        r.chain_pem == Some(result.chain_pem),
        r.expires_at == result.expires_at,
        r.prefer_renew_before == result.prefer_renew_before,
        r.prefer_renew_after is None,
        r.requested_at == match requested_at {
            Some(t) => t,
            None => now,
        },
{
    let requested = match requested_at {
        Some(t) => t,
        None => now,
    };
    NewCertificate {
        id: String::from_str(cert_id),
        source: String::from_str(source),
        provider: String::from_str(provider_name),
        names: encode_string_list(names),
        cert_pem: Some(result.cert_pem),
        key_pem: Some(result.key_pem),
        ca_pem: Some(result.ca_pem),
        chain_pem: Some(result.chain_pem),
        expires_at: result.expires_at,
        prefer_renew_before: result.prefer_renew_before,
        prefer_renew_after: None,
        requested_at: requested,
    }
}

/// The database record for a certificate just issued by `provider_name` for
/// `names`; it keeps the given request time, or takes the current time.
pub fn new_certificate_record(
    cert_id: &str,
    source: &str,
    provider_name: &str,
    names: &[String],
    result: IssuanceResult,
    requested_at: Option<i64>,
) -> (r: NewCertificate)
    ensures
        r.id@ == cert_id@,
        r.source@ == source@,
        r.provider@ == provider_name@,
        r.names@ == json_of_string_list(strs(names@)),
        stored_names(r.names@) == strs(names@),
        r.cert_pem == Some(result.cert_pem),
        r.key_pem == Some(result.key_pem),
        r.ca_pem == Some(result.ca_pem),
        r.chain_pem == Some(result.chain_pem),
        r.expires_at == result.expires_at,
        r.prefer_renew_before == result.prefer_renew_before,
        r.prefer_renew_after is None,
        requested_at matches Some(t) ==> r.requested_at == t,
        requested_at is None ==> wall_clock_reading(r.requested_at),
{
    new_certificate_record_at(cert_id, source, provider_name, names, result, requested_at, wall_clock_now())
}

/// A stored certificate whose provider and names are the configured ones needs
/// no issuance while it is neither expired nor in its renewal window.
pub proof fn lemma_matching_certificate_needs_no_issuance(
    c: StoredCertificate,
    config: CertificateConfig,
    names: Seq<Seq<char>>,
    now: i64,
)
    requires
        c.provider@ == config.provider@,
        stored_names(c.names@) == names,
        !expired_at(c, now),
        !in_renewal_window(c, now),
    ensures
        issuance_reason(Some(c), config, names, now) is None,
{
}

/// Expiry and the renewal window, once reached, last: a later check finds the
/// same.
pub proof fn lemma_renewal_window_persists(c: StoredCertificate, t1: i64, t2: i64)
    requires
        t1 <= t2,
    ensures
        expired_at(c, t1) ==> expired_at(c, t2),
        in_renewal_window(c, t1) ==> in_renewal_window(c, t2),
{
}

/// A certificate of a configuration that exists, stored under a configured id,
/// with a configured provider, is never deleted by maintenance.
pub proof fn lemma_configured_certificate_kept(
    cert: StoredCertificate,
    provider_ids: Set<Seq<char>>,
    config_ids: Set<Seq<char>>,
    now: i64,
)
    requires
        config_ids.contains(cert.id@),
        config_ids.contains(cert.source@),
        provider_ids.contains(cert.provider@),
    ensures
        deletion_reason(cert, provider_ids, config_ids, now) is None,
        cron_action(cert, provider_ids, config_ids, now) !is Delete,
{
}

/// Maintenance renews exactly the certificates it does not delete and that
/// are in their renewal window.
pub proof fn lemma_cron_renews_in_window(
    cert: StoredCertificate,
    provider_ids: Set<Seq<char>>,
    config_ids: Set<Seq<char>>,
    now: i64,
)
    ensures
        cron_action(cert, provider_ids, config_ids, now) is Renew <==> deletion_reason(
            cert,
            provider_ids,
            config_ids,
            now,
        ) is None && in_renewal_window(cert, now),
{
}

/// Maintenance at time `t` renews a configured certificate (its id and its
/// source configured, its provider configured) exactly when it expires
/// within two days of `t` or its preferred renewal time lies before `t`.
pub proof fn lemma_cron_renews_expiring(
    cert: StoredCertificate,
    provider_ids: Set<Seq<char>>,
    config_ids: Set<Seq<char>>,
    t: i64,
)
    requires
        config_ids.contains(cert.id@),
        config_ids.contains(cert.source@),
        provider_ids.contains(cert.provider@),
    ensures
        cron_action(cert, provider_ids, config_ids, t) is Renew <==> (cert.expires_at < t
            + TWO_DAYS_MS || (cert.prefer_renew_before matches Some(b) && b < t)),
        cron_action(cert, provider_ids, config_ids, t) !is Renew ==> cron_action(
            cert,
            provider_ids,
            config_ids,
            t,
        ) is Keep,
{
}

} // verus!
