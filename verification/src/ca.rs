use vstd::prelude::*;
use chrono::Datelike;
use x509_parser::extensions::GeneralName;
use x509_parser::prelude::FromDer;

use crate::auth::{parse_ip_address, parsed_ip_address, IpAddress};
use crate::clock::{wall_clock_now, wall_clock_reading};
use crate::error::ProviderError;
use crate::providers::{
    ca_chain, common_name, issuance_result, NINETY_DAYS_MS, ONE_HOUR_MS, ONE_WEEK_MS,
};
use crate::text::{str_equal, strs};
use crate::types::IssuanceResult;

verus! {

/// `rcgen::KeyPair`, carried through without being looked into.
#[verifier::external_type_specification]
#[verifier::external_body]
pub struct ExKeyPair(rcgen::KeyPair);

/// `rcgen::Certificate`, carried through without being looked into.
#[verifier::external_type_specification]
#[verifier::external_body]
pub struct ExCertificate(rcgen::Certificate);

/// `rcgen::CertificateParams`, carried through without being looked into.
#[verifier::external_type_specification]
#[verifier::external_body]
pub struct ExCertificateParams(rcgen::CertificateParams);

/// The subject attributes that the local CA copies into its reconstructed certificate.
#[derive(Debug)]
pub enum DnKind {
    CommonName,
    OrganizationName,
    CountryName,
    LocalityName,
    StateOrProvinceName,
}

/// A subject alternative name as read from a certificate.
#[derive(Debug)]
pub enum AltName {
    Dns(String),
    /// An IP address as encoded: four bytes for IPv4, sixteen for IPv6,
    /// most significant first.
    Ip(Vec<u8>),
    Other,
}

/// A subject alternative name, with text taken by its characters.
pub enum AltNameView {
    Dns(Seq<char>),
    Ip(Seq<u8>),
    Other,
}

/// The views of subject alternative names.
pub open spec fn alt_names_view(v: Seq<AltName>) -> Seq<AltNameView> {
    v.map_values(
        |a: AltName|
            match a {
                AltName::Dns(s) => AltNameView::Dns(s@),
                AltName::Ip(b) => AltNameView::Ip(b@),
                AltName::Other => AltNameView::Other,
            },
    )
}

// ---------------------------------------------------------------- named outside results

/// What `x509_parser` reads from a PEM certificate's subject: each attribute's
/// OID in dotted form with its value as text (none when it is not text), in
/// order; or the stage that failed (`true` for PEM, `false` for X.509) with the
/// error's `Debug` text.
pub uninterp spec fn pem_subject_attributes(pem: Seq<char>) -> Result<
    Seq<(Seq<char>, Option<Seq<char>>)>,
    (bool, Seq<char>),
>;

/// What `rcgen::KeyPair::from_pem` makes of a PEM key: the key's public key
/// as a DER-encoded SubjectPublicKeyInfo (`KeyPair::public_key_der`), or the
/// error's text.
pub uninterp spec fn rcgen_key_from_pem(pem: Seq<char>) -> Result<Seq<u8>, Seq<char>>;

/// What `x509_parser` reads from a PEM certificate's issuer: each attribute's
/// OID in dotted form with its value as text (none when it is not text), in
/// order; none when the text is no certificate.
pub uninterp spec fn pem_issuer_attributes(pem: Seq<char>) -> Option<
    Seq<(Seq<char>, Option<Seq<char>>)>,
>;

/// What `x509_parser` reads as a PEM certificate's public key: the raw DER of
/// its SubjectPublicKeyInfo; none when the text is no certificate.
pub uninterp spec fn pem_public_key_info(pem: Seq<char>) -> Option<Seq<u8>>;

/// What `x509_parser` reads as a PEM certificate's validity: `notBefore` and
/// `notAfter` in seconds since the Unix epoch; none when the text is no
/// certificate.
pub uninterp spec fn pem_validity(pem: Seq<char>) -> Option<(i64, i64)>;

/// What `x509_parser` reads as a PEM certificate's subject alternative names,
/// in order (empty without the extension); none when the text is no
/// certificate or the extension cannot be read.
pub uninterp spec fn pem_alt_names(pem: Seq<char>) -> Option<Seq<AltNameView>>;

/// Whether `x509_parser`'s `X509Certificate::verify_signature` accepts the
/// signature of a PEM certificate under the public key given as a
/// DER-encoded SubjectPublicKeyInfo.
pub uninterp spec fn pem_signature_verifies(pem: Seq<char>, spki: Seq<u8>) -> bool;

/// Whether `rcgen::CertificateParams::new` accepts the names, with the error's text if not.
pub uninterp spec fn rcgen_params_for(names: Seq<Seq<char>>) -> Result<(), Seq<char>>;

/// The UTC calendar date (year, month, day) that chrono gives a time in
/// milliseconds since the Unix epoch, if chrono can represent that time.
pub uninterp spec fn utc_date_of(ms: i64) -> Option<(i32, u32, u32)>;

/// The number of days of a month in the Gregorian calendar.
pub open spec fn days_in_month(year: int, month: int) -> int {
    if month == 2 {
        if (year % 4 == 0 && year % 100 != 0) || year % 400 == 0 {
            29
        } else {
            28
        }
    } else if month == 4 || month == 6 || month == 9 || month == 11 {
        30
    } else {
        31
    }
}

/// A year, month and day that form a date of the Gregorian calendar.
pub open spec fn valid_date(d: (i32, u32, u32)) -> bool {
    1 <= d.1 <= 12 && 1 <= d.2 <= days_in_month(d.0 as int, d.1 as int)
}

/// The views of subject attributes.
pub open spec fn attrs_view(v: Seq<(String, Option<String>)>) -> Seq<(Seq<char>, Option<Seq<char>>)> {
    v.map_values(
        |a: (String, Option<String>)|
            (
                a.0@,
                match a.1 {
                    Some(s) => Some(s@),
                    None => None,
                },
            ),
    )
}

/// Reads the subject attributes of a PEM certificate with
/// `x509_parser::pem::parse_x509_pem`, `Pem::parse_x509`, `X509Name::iter_attributes`,
/// `AttributeTypeAndValue::attr_type`/`as_str` and `Oid::to_id_string`.
/// Claimed: the result is the named one for the text.
#[verifier::external_body]
fn subject_attributes(pem: &str) -> (r: Result<Vec<(String, Option<String>)>, (bool, String)>)
    ensures
        match r {
            Ok(v) => pem_subject_attributes(pem@) == Ok::<_, (bool, Seq<char>)>(attrs_view(v@)),
            Err((stage, text)) => pem_subject_attributes(pem@) == Err::<
                Seq<(Seq<char>, Option<Seq<char>>)>,
                _,
            >((stage, text@)),
        },
{
    let (_, parsed) = match x509_parser::pem::parse_x509_pem(pem.as_bytes()) {
        Ok(v) => v,
        Err(e) => return Err((true, format!("{:?}", e))),
    };
    let cert = match parsed.parse_x509() {
        Ok(c) => c,
        Err(e) => return Err((false, format!("{:?}", e))),
    };
    let mut out = Vec::new();
    for a in cert.subject().iter_attributes() {
        out.push((a.attr_type().to_id_string(), a.as_str().ok().map(String::from)));
    }
    Ok(out)
}

/// Parses a PEM key with `rcgen::KeyPair::from_pem`, and reads its public key
/// with `KeyPair::public_key_der`. Claimed: the result is the named one for
/// the text.
#[verifier::external_body]
fn key_pair_from_pem(pem: &str) -> (r: Result<(rcgen::KeyPair, Vec<u8>), String>)
    ensures
        match r {
            Ok((_, spki)) => rcgen_key_from_pem(pem@) == Ok::<Seq<u8>, Seq<char>>(spki@),
            Err(e) => rcgen_key_from_pem(pem@) == Err::<Seq<u8>, Seq<char>>(e@),
        },
{
    match rcgen::KeyPair::from_pem(pem) {
        Ok(k) => {
            let spki = k.public_key_der();
            Ok((k, spki))
        },
        Err(e) => Err(e.to_string()),
    }
}

/// Reads the issuer attributes of a PEM certificate with `x509_parser`, as
/// `subject_attributes` reads the subject. Claimed: the result is the named
/// one for the text.
#[verifier::external_body]
fn issuer_attributes(pem: &str) -> (r: Option<Vec<(String, Option<String>)>>)
    ensures
        r matches Some(v) ==> pem_issuer_attributes(pem@) == Some(attrs_view(v@)),
        r is None ==> pem_issuer_attributes(pem@) is None,
{
    let (_, parsed) = x509_parser::pem::parse_x509_pem(pem.as_bytes()).ok()?;
    let cert = parsed.parse_x509().ok()?;
    let mut out = Vec::new();
    for a in cert.issuer().iter_attributes() {
        out.push((a.attr_type().to_id_string(), a.as_str().ok().map(String::from)));
    }
    Some(out)
}

/// Reads the raw SubjectPublicKeyInfo of a PEM certificate with `x509_parser`
/// (`X509Certificate::public_key`). Claimed: the result is the named one for
/// the text.
#[verifier::external_body]
fn certificate_public_key(pem: &str) -> (r: Option<Vec<u8>>)
    ensures
        r matches Some(v) ==> pem_public_key_info(pem@) == Some(v@),
        r is None ==> pem_public_key_info(pem@) is None,
{
    let (_, parsed) = x509_parser::pem::parse_x509_pem(pem.as_bytes()).ok()?;
    let cert = parsed.parse_x509().ok()?;
    Some(cert.public_key().raw.to_vec())
}

/// Reads the validity of a PEM certificate with `x509_parser`
/// (`Validity::not_before`/`not_after`, `ASN1Time::timestamp`). Claimed: the
/// result is the named one for the text.
#[verifier::external_body]
fn certificate_validity(pem: &str) -> (r: Option<(i64, i64)>)
    ensures
        r == pem_validity(pem@),
{
    let (_, parsed) = x509_parser::pem::parse_x509_pem(pem.as_bytes()).ok()?;
    let cert = parsed.parse_x509().ok()?;
    Some((cert.validity().not_before.timestamp(), cert.validity().not_after.timestamp()))
}

/// Reads the subject alternative names of a PEM certificate with
/// `x509_parser` (`X509Certificate::subject_alternative_name`): DNS names as
/// text, IP addresses as their encoded bytes, other forms as `Other`. Claimed:
/// the result is the named one for the text.
#[verifier::external_body]
fn certificate_alt_names(pem: &str) -> (r: Option<Vec<AltName>>)
    ensures
        r matches Some(v) ==> pem_alt_names(pem@) == Some(alt_names_view(v@)),
        r is None ==> pem_alt_names(pem@) is None,
{
    let (_, parsed) = x509_parser::pem::parse_x509_pem(pem.as_bytes()).ok()?;
    let cert = parsed.parse_x509().ok()?;
    let Some(ext) = cert.subject_alternative_name().ok()? else { return Some(Vec::new()) };
    Some(ext.value.general_names.iter().map(|g| match g {
        GeneralName::DNSName(n) => AltName::Dns(n.to_string()),
        GeneralName::IPAddress(b) => AltName::Ip(b.to_vec()),
        _ => AltName::Other,
    }).collect())
}

/// Checks the signature of a PEM certificate with `x509_parser`
/// (`SubjectPublicKeyInfo::from_der` for the key,
/// `X509Certificate::verify_signature`). Claimed: the answer is the named one.
#[verifier::external_body]
fn signature_verifies(pem: &str, spki: &[u8]) -> (r: bool)
    ensures
        r == pem_signature_verifies(pem@, spki@),
{
    let Ok((_, parsed)) = x509_parser::pem::parse_x509_pem(pem.as_bytes()) else { return false };
    let Ok(cert) = parsed.parse_x509() else { return false };
    let Ok((_, key)) = x509_parser::x509::SubjectPublicKeyInfo::from_der(spki) else { return false };
    cert.verify_signature(Some(&key)).is_ok()
}

/// `rcgen::DnType`, carried through without being looked into.
#[verifier::external_type_specification]
#[verifier::external_body]
pub struct ExDnType(rcgen::DnType);

/// The `rcgen::DnType` variant of a subject attribute kind.
#[verifier::external_body]
fn dn_type(kind: &DnKind) -> rcgen::DnType {
    match kind {
        DnKind::CommonName => rcgen::DnType::CommonName,
        DnKind::OrganizationName => rcgen::DnType::OrganizationName,
        DnKind::CountryName => rcgen::DnType::CountryName,
        DnKind::LocalityName => rcgen::DnType::LocalityName,
        DnKind::StateOrProvinceName => rcgen::DnType::StateOrProvinceName,
    }
}

/// `rcgen::BasicConstraints`, carried through without being looked into.
#[verifier::external_type_specification]
#[verifier::external_body]
pub struct ExBasicConstraints(rcgen::BasicConstraints);

/// How deep a chain below a CA certificate may be, as in X.509's basic
/// constraints: without limit, or at most the given number of CAs.
#[derive(Debug)]
pub enum PathLength {
    Unconstrained,
    Constrained(u8),
}

/// What the CA certificate is rebuilt with: the subject taken from the CA's
/// certificate, marked as a CA with the given path length.
#[derive(Debug)]
pub struct CaRequest {
    pub subject: Vec<(DnKind, String)>,
    pub path_length: PathLength,
}

/// What a leaf certificate is signed with: its subject, the names it is
/// issued for, its validity (UTC calendar dates, each taken at midnight) and
/// the expiry, in milliseconds since the Unix epoch, reported for it.
#[derive(Debug)]
pub struct LeafRequest {
    pub subject: Vec<(DnKind, String)>,
    pub alt_names: Vec<String>,
    pub not_before: (i32, u32, u32),
    pub not_after: (i32, u32, u32),
    pub expires_at: i64,
}

/// The `rcgen::BasicConstraints` variant of a path length.
#[verifier::external_body]
fn basic_constraints(p: &PathLength) -> rcgen::BasicConstraints {
    match p {
        PathLength::Unconstrained => rcgen::BasicConstraints::Unconstrained,
        PathLength::Constrained(n) => rcgen::BasicConstraints::Constrained(*n),
    }
}

/// Rebuilds the CA certificate with `rcgen` (`CertificateParams::default`,
/// `IsCa::Ca` with the request's constraints and subject, `self_signed`). The
/// signature is randomized, so nothing is stated of the result.
#[verifier::external_body]
fn self_signed_ca(req: &CaRequest, ca_key: &rcgen::KeyPair) -> (r: Result<
    rcgen::Certificate,
    String,
>) {
    let mut params = rcgen::CertificateParams::default();
    params.is_ca = rcgen::IsCa::Ca(basic_constraints(&req.path_length));
    for (kind, value) in &req.subject {
        params.distinguished_name.push(dn_type(kind), value.as_str());
    }
    match params.self_signed(ca_key) { Ok(c) => Ok(c), Err(e) => Err(e.to_string()) }
}

/// Generates a key pair with `rcgen::KeyPair::generate`. The key is random, so
/// nothing is stated of it.
#[verifier::external_body]
fn generate_key_pair() -> (r: Result<rcgen::KeyPair, String>) {
    match rcgen::KeyPair::generate() { Ok(k) => Ok(k), Err(e) => Err(e.to_string()) }
}

/// Creates certificate parameters for the names with
/// `rcgen::CertificateParams::new`. Claimed: it succeeds exactly when the
/// named check does, with that error's text otherwise.
#[verifier::external_body]
fn certificate_params(names: &[String]) -> (r: Result<rcgen::CertificateParams, String>)
    ensures
        match r {
            Ok(_) => rcgen_params_for(strs(names@)) is Ok,
            Err(e) => rcgen_params_for(strs(names@)) == Err::<(), Seq<char>>(e@),
        },
{
    match rcgen::CertificateParams::new(names.to_vec()) { Ok(p) => Ok(p), Err(e) => Err(e.to_string()) }
}

/// Signs a leaf certificate with `rcgen`: the request's subject and
/// `date_time_ymd` validity dates go into the parameters, then `signed_by`
/// signs with the CA. `date_time_ymd` panics on an invalid date, and rcgen
/// writes years outside 1950..2050 as GeneralizedTime, whose encoder asserts a
/// year in `0..10000`; so both dates are required to be valid with years in
/// `0..=9999`. The signature is randomized, so nothing is stated of the
/// result.
#[verifier::external_body]
fn sign_leaf(
    params: rcgen::CertificateParams,
    req: &LeafRequest,
    key: &rcgen::KeyPair,
    ca: &rcgen::Certificate,
    ca_key: &rcgen::KeyPair,
) -> (r: Result<rcgen::Certificate, String>)
    requires
        valid_date(req.not_before),
        valid_date(req.not_after),
        0 <= req.not_before.0 <= 9999,
        0 <= req.not_after.0 <= 9999,
{
    let mut params = params;
    let mut dn = rcgen::DistinguishedName::new();
    for (kind, value) in &req.subject {
        dn.push(dn_type(kind), value.as_str());
    }
    params.distinguished_name = dn;
    let (b, a) = (req.not_before, req.not_after);
    params.not_before = rcgen::date_time_ymd(b.0, b.1 as u8, b.2 as u8);
    params.not_after = rcgen::date_time_ymd(a.0, a.1 as u8, a.2 as u8);
    match params.signed_by(key, ca, ca_key) { Ok(c) => Ok(c), Err(e) => Err(e.to_string()) }
}

/// The PEM text of a certificate, from `rcgen::Certificate::pem`.
#[verifier::external_body]
fn certificate_pem(cert: &rcgen::Certificate) -> String {
    cert.pem()
}

/// The PEM text of a key pair, from `rcgen::KeyPair::serialize_pem`.
#[verifier::external_body]
fn key_pair_pem(key: &rcgen::KeyPair) -> String {
    key.serialize_pem()
}

/// The UTC calendar date of a time with `chrono::DateTime::from_timestamp_millis`
/// and `Datelike`. Claimed: the result is the named one, and, as chrono
/// documents, a valid date, the day in which the time falls.
#[verifier::external_body]
fn utc_date(ms: i64) -> (r: Option<(i32, u32, u32)>)
    ensures
        r == utc_date_of(ms),
        r matches Some(d) ==> valid_date(d) && midnight_secs(d) * 1000 <= ms < midnight_secs(d)
            * 1000 + 86_400_000,
{
    chrono::DateTime::from_timestamp_millis(ms).map(|t| (t.year(), t.month(), t.day()))
}

// ---------------------------------------------------------------- verified logic

/// The subject attribute kind that a dotted OID names, among those the CA copies.
pub open spec fn dn_kind_of(oid: Seq<char>) -> Option<DnKind> {
    if oid == "2.5.4.3"@ {
        Some(DnKind::CommonName)
    } else if oid == "2.5.4.10"@ {
        Some(DnKind::OrganizationName)
    } else if oid == "2.5.4.6"@ {
        Some(DnKind::CountryName)
    } else if oid == "2.5.4.7"@ {
        Some(DnKind::LocalityName)
    } else if oid == "2.5.4.8"@ {
        Some(DnKind::StateOrProvinceName)
    } else {
        None
    }
}

/// The subject that the CA certificate is rebuilt with: the text-valued
/// attributes of a copied kind, in order.
pub open spec fn ca_dn(attrs: Seq<(Seq<char>, Option<Seq<char>>)>) -> Seq<(DnKind, Seq<char>)>
    decreases attrs.len(),
{
    if attrs.len() == 0 {
        Seq::empty()
    } else {
        let rest = ca_dn(attrs.drop_last());
        match (dn_kind_of(attrs.last().0), attrs.last().1) {
            (Some(k), Some(v)) => rest.push((k, v)),
            _ => rest,
        }
    }
}

/// The views of a subject.
pub open spec fn dn_view(v: Seq<(DnKind, String)>) -> Seq<(DnKind, Seq<char>)> {
    v.map_values(|a: (DnKind, String)| (a.0, a.1@))
}

/// The subject attribute kind of a dotted OID.
pub fn dn_kind(oid: &str) -> (r: Option<DnKind>)
    ensures
        r == dn_kind_of(oid@),
{
    if str_equal(oid, "2.5.4.3") {
        Some(DnKind::CommonName)
    } else if str_equal(oid, "2.5.4.10") {
        Some(DnKind::OrganizationName)
    } else if str_equal(oid, "2.5.4.6") {
        Some(DnKind::CountryName)
    } else if str_equal(oid, "2.5.4.7") {
        Some(DnKind::LocalityName)
    } else if str_equal(oid, "2.5.4.8") {
        Some(DnKind::StateOrProvinceName)
    } else {
        None
    }
}

/// Picks the subject for the rebuilt CA certificate from the CA's attributes.
pub fn ca_distinguished_name(attrs: &Vec<(String, Option<String>)>) -> (r: Vec<(DnKind, String)>)
    ensures
        dn_view(r@) == ca_dn(attrs_view(attrs@)),
{
    let n = attrs.len();
    let mut out: Vec<(DnKind, String)> = Vec::new();
    let mut i: usize = 0;
    assert(dn_view(out@) =~= ca_dn(attrs_view(attrs@).take(0)));
    while i < n
        invariant
            n == attrs@.len(),
            i <= n,
            dn_view(out@) == ca_dn(attrs_view(attrs@).take(i as int)),
        decreases n - i,
    {
        let ghost prefix = attrs_view(attrs@).take(i as int);
        assert(attrs_view(attrs@).take(i + 1).drop_last() =~= prefix);
        assert(attrs_view(attrs@).take(i + 1).last() == attrs_view(attrs@)[i as int]);
        let (oid, value) = &attrs[i];
        match (dn_kind(oid.as_str()), value) {
            (Some(k), Some(v)) => {
                let ghost before = dn_view(out@);
                out.push((k, v.clone()));
                assert(dn_view(out@) =~= before.push((k, v@)));
            },
            _ => {},
        }
        i = i + 1;
    }
    assert(attrs_view(attrs@).take(n as int) =~= attrs_view(attrs@));
    out
}

/// The configuration problem, if any, that the named parses report for the
/// CA's key and certificate, as the message the provider gives.
pub open spec fn ca_config_failure(ca_key_pem: Seq<char>, ca_cert_pem: Seq<char>) -> Option<Seq<char>> {
    match rcgen_key_from_pem(ca_key_pem) {
        Err(e) => Some("Failed to parse CA key: "@ + e),
        Ok(_) => match pem_subject_attributes(ca_cert_pem) {
            Err((true, t)) => Some("Failed to parse CA PEM: "@ + t),
            Err((false, t)) => Some("Failed to parse CA X509: "@ + t),
            Ok(_) => None,
        },
    }
}

/// The validity of a leaf signed at `now`: from the UTC date of one hour
/// before `now` to the UTC date ninety days after it, with `now` plus ninety
/// days reported as its expiry; none where a time or a year is out of the
/// range that the signer takes.
pub open spec fn leaf_validity_spec(now: i64) -> Option<((i32, u32, u32), (i32, u32, u32), i64)> {
    if now - ONE_HOUR_MS < i64::MIN || now + NINETY_DAYS_MS > i64::MAX {
        None
    } else {
        match (
            utc_date_of((now - ONE_HOUR_MS) as i64),
            utc_date_of((now + NINETY_DAYS_MS) as i64),
        ) {
            (Some(b), Some(a)) => if 0 <= b.0 <= 9999 && 0 <= a.0 <= 9999 {
                Some((b, a, (now + NINETY_DAYS_MS) as i64))
            } else {
                None
            },
            _ => None,
        }
    }
}

/// The validity of a leaf signed at `now`.
pub fn leaf_validity(now: i64) -> (r: Option<((i32, u32, u32), (i32, u32, u32), i64)>)
    ensures
        r == leaf_validity_spec(now),
        r matches Some(v) ==> valid_date(v.0) && valid_date(v.1) && within_day(v.0, now - ONE_HOUR_MS)
            && within_day(v.1, v.2 as int),
{
    let (before, after) = match (now.checked_sub(ONE_HOUR_MS), now.checked_add(NINETY_DAYS_MS)) {
        (Some(b), Some(a)) => (b, a),
        _ => {
            return None;
        },
    };
    match (utc_date(before), utc_date(after)) {
        (Some(db), Some(da)) => if 0 <= db.0 && db.0 <= 9999 && 0 <= da.0 && da.0 <= 9999 {
            Some((db, da, after))
        } else {
            None
        },
        _ => None,
    }
}

/// The time `ms` (milliseconds since the Unix epoch) falls on the date `d`:
/// at or after its midnight UTC and before the next.
pub open spec fn within_day(d: (i32, u32, u32), ms: int) -> bool {
    midnight_secs(d) * 1000 <= ms < midnight_secs(d) * 1000 + 86_400_000
}

/// The common name of a leaf for `names`: the first name, or `localhost`
/// when there is none.
pub open spec fn leaf_common_name(names: Seq<Seq<char>>) -> Seq<char> {
    if names.len() > 0 {
        names[0]
    } else {
        "localhost"@
    }
}

/// The subject of a leaf certificate: its common name alone.
pub fn leaf_subject(common_name: String) -> (r: Vec<(DnKind, String)>)
    ensures
        dn_view(r@) == seq![(DnKind::CommonName, common_name@)],
{
    let mut v: Vec<(DnKind, String)> = Vec::new();
    v.push((DnKind::CommonName, common_name));
    assert(dn_view(v@) =~= seq![(DnKind::CommonName, common_name@)]);
    v
}

/// The leaf request for `names` signed at `now`: subject, names and validity.
pub fn leaf_request(names: &[String], now: i64) -> (r: Option<LeafRequest>)
    ensures
        match r {
            Some(q) => {
                &&& leaf_validity_spec(now) == Some((q.not_before, q.not_after, q.expires_at))
                &&& valid_date(q.not_before) && valid_date(q.not_after)
                &&& within_day(q.not_before, now - ONE_HOUR_MS)
                &&& within_day(q.not_after, q.expires_at as int)
                &&& dn_view(q.subject@) == seq![
                    (DnKind::CommonName, leaf_common_name(strs(names@))),
                ]
                &&& strs(q.alt_names@) == strs(names@)
            },
            None => leaf_validity_spec(now) is None,
        },
{
    let (not_before, not_after, expires_at) = match leaf_validity(now) {
        Some(v) => v,
        None => {
            return None;
        },
    };
    let subject = leaf_subject(common_name(names));
    let mut alt_names: Vec<String> = Vec::new();
    let n = names.len();
    let mut i: usize = 0;
    while i < n
        invariant
            n == names@.len(),
            i <= n,
            strs(alt_names@) == strs(names@).take(i as int),
        decreases n - i,
    {
        let ghost before = strs(alt_names@);
        alt_names.push(names[i].clone());
        assert(strs(alt_names@) =~= before.push(names@[i as int]@));
        assert(strs(alt_names@) =~= strs(names@).take(i + 1));
        i = i + 1;
    }
    assert(strs(names@).take(n as int) =~= strs(names@));
    Some(LeafRequest { subject, alt_names, not_before, not_after, expires_at })
}

/// The request the CA certificate is rebuilt with: the copied subject
/// attributes, as an unconstrained CA.
pub fn ca_request(attrs: &Vec<(String, Option<String>)>) -> (r: CaRequest)
    ensures
        dn_view(r.subject@) == ca_dn(attrs_view(attrs@)),
        r.path_length is Unconstrained,
{
    CaRequest { subject: ca_distinguished_name(attrs), path_length: PathLength::Unconstrained }
}

/// A certificate signed by the local CA, with what the CA certificate was
/// rebuilt with and what the leaf was signed with.
#[derive(Debug)]
pub struct SignedLeaf {
    pub result: IssuanceResult,
    pub issuer: CaRequest,
    pub leaf: LeafRequest,
}

/// The text begins with the prefix.
pub open spec fn starts_with(s: Seq<char>, prefix: Seq<char>) -> bool {
    prefix.len() <= s.len() && s.subrange(0, prefix.len() as int) == prefix
}

proof fn lemma_starts_with_concat(p: Seq<char>, e: Seq<char>)
    ensures
        starts_with(p + e, p),
{
    assert((p + e).subrange(0, p.len() as int) =~= p);
}

// ---------------------------------------------------------------- checking the signed leaf

/// The dotted OID of a subject attribute kind.
pub open spec fn oid_of(k: DnKind) -> Seq<char> {
    match k {
        DnKind::CommonName => "2.5.4.3"@,
        DnKind::OrganizationName => "2.5.4.10"@,
        DnKind::CountryName => "2.5.4.6"@,
        DnKind::LocalityName => "2.5.4.7"@,
        DnKind::StateOrProvinceName => "2.5.4.8"@,
    }
}

/// The dotted OID of a subject attribute kind.
pub fn dn_oid(k: &DnKind) -> (r: &'static str)
    ensures
        r@ == oid_of(*k),
{
    proof {
        reveal_strlit("2.5.4.3");
        reveal_strlit("2.5.4.10");
        reveal_strlit("2.5.4.6");
        reveal_strlit("2.5.4.7");
        reveal_strlit("2.5.4.8");
    }
    match k {
        DnKind::CommonName => "2.5.4.3",
        DnKind::OrganizationName => "2.5.4.10",
        DnKind::CountryName => "2.5.4.6",
        DnKind::LocalityName => "2.5.4.7",
        DnKind::StateOrProvinceName => "2.5.4.8",
    }
}

/// The attributes, as a certificate reader gives them, of a subject.
pub open spec fn dn_attrs(dn: Seq<(DnKind, Seq<char>)>) -> Seq<(Seq<char>, Option<Seq<char>>)> {
    dn.map_values(|e: (DnKind, Seq<char>)| (oid_of(e.0), Some(e.1)))
}

/// Whether attributes read from a certificate are exactly those of a subject.
pub fn attributes_match(attrs: &Vec<(String, Option<String>)>, dn: &Vec<(DnKind, String)>) -> (r:
    bool)
    ensures
        r == (attrs_view(attrs@) == dn_attrs(dn_view(dn@))),
{
    if attrs.len() != dn.len() {
        assert(attrs_view(attrs@).len() != dn_attrs(dn_view(dn@)).len());
        return false;
    }
    let n = attrs.len();
    let mut i: usize = 0;
    while i < n
        invariant
            n == attrs@.len(),
            n == dn@.len(),
            i <= n,
            forall|j: int| 0 <= j < i ==> #[trigger] attrs_view(attrs@)[j] == dn_attrs(dn_view(dn@))[j],
        decreases n - i,
    {
        let (oid, value) = &attrs[i];
        let (kind, text) = &dn[i];
        let same = str_equal(oid.as_str(), dn_oid(kind)) && match value {
            Some(v) => str_equal(v.as_str(), text.as_str()),
            None => false,
        };
        if !same {
            assert(attrs_view(attrs@)[i as int] != dn_attrs(dn_view(dn@))[i as int]);
            return false;
        }
        i = i + 1;
    }
    assert(attrs_view(attrs@) =~= dn_attrs(dn_view(dn@)));
    true
}

/// The number that bytes encode, most significant first.
pub open spec fn be_value(b: Seq<u8>) -> nat
    decreases b.len(),
{
    if b.len() == 0 {
        0
    } else {
        be_value(b.drop_last()) * 256 + b.last() as nat
    }
}

/// 256 to the power `n`.
pub open spec fn pow256(n: nat) -> nat
    decreases n,
{
    if n == 0 {
        1
    } else {
        pow256((n - 1) as nat) * 256
    }
}

proof fn lemma_be_value_bound(b: Seq<u8>)
    ensures
        be_value(b) < pow256(b.len()),
    decreases b.len(),
{
    if b.len() > 0 {
        lemma_be_value_bound(b.drop_last());
        let v = be_value(b.drop_last());
        let p = pow256((b.len() - 1) as nat);
        assert(v * 256 + b.last() < p * 256) by (nonlinear_arith)
            requires
                v < p,
                b.last() < 256,
        ;
    }
}

/// The address that encoded IP address bytes stand for: four bytes for IPv4,
/// sixteen for IPv6.
pub open spec fn address_of_bytes(b: Seq<u8>) -> Option<IpAddress> {
    if b.len() == 4 {
        Some(IpAddress::V4(be_value(b) as u32))
    } else if b.len() == 16 {
        Some(IpAddress::V6(be_value(b) as u128))
    } else {
        None
    }
}

/// The address that encoded IP address bytes stand for.
pub fn address_from_bytes(b: &Vec<u8>) -> (r: Option<IpAddress>)
    ensures
        r == address_of_bytes(b@),
{
    let n = b.len();
    if n != 4 && n != 16 {
        return None;
    }
    proof {
        reveal_with_fuel(pow256, 17);
        assert(pow256(4) == 0x1_0000_0000);
        assert(pow256(16) == 0x1_0000_0000_0000_0000_0000_0000_0000_0000);
    }
    let mut acc: u128 = 0;
    let mut i: usize = 0;
    while i < n
        invariant
            n == b@.len(),
            n == 4 || n == 16,
            i <= n,
            acc == be_value(b@.take(i as int)),
            pow256(16) == 0x1_0000_0000_0000_0000_0000_0000_0000_0000,
        decreases n - i,
    {
        let ghost prefix = b@.take(i + 1);
        assert(prefix.drop_last() =~= b@.take(i as int));
        proof {
            lemma_be_value_bound(prefix);
            lemma_pow256_mono(prefix.len(), 16);
        }
        acc = acc * 256 + b[i] as u128;
        i = i + 1;
    }
    assert(b@.take(n as int) =~= b@);
    proof {
        lemma_be_value_bound(b@);
    }
    if n == 4 {
        Some(IpAddress::V4(acc as u32))
    } else {
        Some(IpAddress::V6(acc))
    }
}

proof fn lemma_pow256_mono(m: nat, n: nat)
    requires
        m <= n,
    ensures
        pow256(m) <= pow256(n),
    decreases n - m,
{
    if m < n {
        lemma_pow256_mono(m, (n - 1) as nat);
    }
}

/// A subject alternative name read from a certificate is the one that rcgen
/// writes for the name `n`: an address for a name that reads as an IP
/// address, else the name as a DNS name.
pub open spec fn alt_name_for(v: AltNameView, n: Seq<char>) -> bool {
    match parsed_ip_address(n) {
        Some(a) => v matches AltNameView::Ip(b) && address_of_bytes(b) == Some(a),
        None => v == AltNameView::Dns(n),
    }
}

/// The alternative names read from a certificate are, in order, those that
/// rcgen writes for `names`.
pub open spec fn alt_names_for(v: Seq<AltNameView>, names: Seq<Seq<char>>) -> bool {
    v.len() == names.len() && forall|i: int| 0 <= i < v.len() ==> alt_name_for(#[trigger] v[i], names[i])
}

/// Whether two addresses are the same.
pub fn same_address(a: &IpAddress, b: &IpAddress) -> (r: bool)
    ensures
        r == (*a == *b),
{
    match (a, b) {
        (IpAddress::V4(x), IpAddress::V4(y)) => *x == *y,
        (IpAddress::V6(x), IpAddress::V6(y)) => *x == *y,
        _ => false,
    }
}

/// Whether alternative names read from a certificate are exactly those that
/// rcgen writes for `names`.
pub fn alt_names_match(alts: &Vec<AltName>, names: &Vec<String>) -> (r: bool)
    ensures
        r == alt_names_for(alt_names_view(alts@), strs(names@)),
{
    if alts.len() != names.len() {
        return false;
    }
    let n = alts.len();
    let mut i: usize = 0;
    while i < n
        invariant
            n == alts@.len(),
            n == names@.len(),
            i <= n,
            forall|j: int|
                0 <= j < i ==> alt_name_for(#[trigger] alt_names_view(alts@)[j], strs(names@)[j]),
        decreases n - i,
    {
        let same = match (&alts[i], parse_ip_address(names[i].as_str())) {
            (AltName::Ip(bytes), Some(b)) => match address_from_bytes(bytes) {
                Some(a) => same_address(&a, &b),
                None => false,
            },
            (AltName::Dns(d), None) => str_equal(d.as_str(), names[i].as_str()),
            _ => false,
        };
        if !same {
            assert(!alt_name_for(alt_names_view(alts@)[i as int], strs(names@)[i as int]));
            return false;
        }
        i = i + 1;
    }
    true
}

/// Whether two byte strings are equal.
pub fn same_bytes(a: &Vec<u8>, b: &Vec<u8>) -> (r: bool)
    ensures
        r == (a@ == b@),
{
    if a.len() != b.len() {
        return false;
    }
    let n = a.len();
    let mut i: usize = 0;
    while i < n
        invariant
            n == a@.len(),
            n == b@.len(),
            i <= n,
            forall|j: int| 0 <= j < i ==> a@[j] == b@[j],
        decreases n - i,
    {
        if a[i] != b[i] {
            return false;
        }
        i = i + 1;
    }
    assert(a@ =~= b@);
    true
}

/// The number of days from 1970-01-01 to the given date of the Gregorian
/// calendar (days-from-civil, with the year moved up by 400 years, one full
/// cycle of 146097 days, so that all quotients are of non-negative numbers).
pub open spec fn days_from_civil(y: int, m: int, d: int) -> int {
    let yy = (if m <= 2 {
        y - 1
    } else {
        y
    }) + 400;
    let era = yy / 400;
    let yoe = yy - era * 400;
    let mp = if m > 2 {
        m - 3
    } else {
        m + 9
    };
    let doy = (153 * mp + 2) / 5 + d - 1;
    let doe = yoe * 365 + yoe / 4 - yoe / 100 + doy;
    era * 146097 + doe - 719468 - 146097
}

/// Midnight UTC of a date, in seconds since the Unix epoch.
pub open spec fn midnight_secs(d: (i32, u32, u32)) -> int {
    days_from_civil(d.0 as int, d.1 as int, d.2 as int) * 86400
}

/// Midnight UTC of a date in the years 0 to 9999, in seconds since the Unix epoch.
pub fn midnight_timestamp(d: (i32, u32, u32)) -> (r: i64)
    requires
        0 <= d.0 <= 9999,
        valid_date(d),
    ensures
        r == midnight_secs(d),
{
    let (y, m, day) = d;
    let y = y as i64;
    let m = m as i64;
    let day = day as i64;
    let yy: i64 = (if m <= 2 {
        y - 1
    } else {
        y
    }) + 400;
    let era: i64 = yy / 400;
    let yoe: i64 = yy - era * 400;
    let mp: i64 = if m > 2 {
        m - 3
    } else {
        m + 9
    };
    let doy: i64 = (153 * mp + 2) / 5 + day - 1;
    let doe: i64 = yoe * 365 + yoe / 4 - yoe / 100 + doy;
    let days: i64 = era * 146097 + doe - 719468 - 146097;
    days * 86400
}

/// What the signed leaf is checked to be: a certificate for a key other than
/// the CA's, whose public key is that key, signed by the CA's key, with the
/// requested subject, the CA's subject as issuer, the alternative names that
/// rcgen writes for the requested names, and a validity from midnight UTC of
/// the requested start date to midnight UTC of the requested end date.
pub open spec fn leaf_matches(
    cert: Seq<char>,
    key_spki: Seq<u8>,
    ca_spki: Seq<u8>,
    issuer: CaRequest,
    leaf: LeafRequest,
) -> bool {
    &&& key_spki != ca_spki
    &&& pem_public_key_info(cert) == Some(key_spki)
    &&& pem_signature_verifies(cert, ca_spki)
    &&& pem_subject_attributes(cert) == Ok::<_, (bool, Seq<char>)>(dn_attrs(dn_view(leaf.subject@)))
    &&& pem_issuer_attributes(cert) == Some(dn_attrs(dn_view(issuer.subject@)))
    &&& pem_alt_names(cert) matches Some(v) && alt_names_for(v, strs(leaf.alt_names@))
    &&& pem_validity(cert) matches Some((b, a)) && b == midnight_secs(leaf.not_before) && a
        == midnight_secs(leaf.not_after)
}

/// Checks a signed leaf certificate against its key, the CA's key and the
/// requests it was signed with.
pub fn signed_leaf_matches(
    cert_pem: &str,
    key_spki: &Vec<u8>,
    ca_spki: &Vec<u8>,
    issuer: &CaRequest,
    leaf: &LeafRequest,
) -> (r: bool)
    requires
        0 <= leaf.not_before.0 <= 9999,
        0 <= leaf.not_after.0 <= 9999,
        valid_date(leaf.not_before),
        valid_date(leaf.not_after),
    ensures
        r == leaf_matches(cert_pem@, key_spki@, ca_spki@, *issuer, *leaf),
{
    if same_bytes(key_spki, ca_spki) {
        return false;
    }
    match certificate_public_key(cert_pem) {
        Some(k) => if !same_bytes(&k, key_spki) {
            return false;
        },
        None => {
            return false;
        },
    }
    if !signature_verifies(cert_pem, ca_spki.as_slice()) {
        return false;
    }
    match subject_attributes(cert_pem) {
        Ok(a) => if !attributes_match(&a, &leaf.subject) {
            return false;
        },
        Err(_) => {
            return false;
        },
    }
    match issuer_attributes(cert_pem) {
        Some(a) => if !attributes_match(&a, &issuer.subject) {
            return false;
        },
        None => {
            return false;
        },
    }
    match certificate_alt_names(cert_pem) {
        Some(a) => if !alt_names_match(&a, &leaf.alt_names) {
            return false;
        },
        None => {
            return false;
        },
    }
    match certificate_validity(cert_pem) {
        Some((b, a)) => b == midnight_timestamp(leaf.not_before) && a == midnight_timestamp(
            leaf.not_after,
        ),
        None => false,
    }
}

/// What signing with the CA may give: see `issue_with_ca`.
pub open spec fn ca_issue_outcome(
    ca_key_pem: Seq<char>,
    ca_cert_pem: Seq<char>,
    names: Seq<Seq<char>>,
    now: i64,
    r: Result<SignedLeaf, ProviderError>,
) -> bool {
    match r {
        Ok(s) => {
            &&& ca_config_failure(ca_key_pem, ca_cert_pem) is None
            &&& pem_subject_attributes(ca_cert_pem) matches Ok(a) && dn_view(s.issuer.subject@)
                == ca_dn(a)
            &&& s.issuer.path_length is Unconstrained
            &&& rcgen_params_for(names) is Ok
            &&& leaf_validity_spec(now) == Some((s.leaf.not_before, s.leaf.not_after, s.leaf.expires_at))
            &&& within_day(s.leaf.not_before, now - ONE_HOUR_MS)
            &&& within_day(s.leaf.not_after, s.leaf.expires_at as int)
            &&& dn_view(s.leaf.subject@) == seq![(DnKind::CommonName, leaf_common_name(names))]
            &&& strs(s.leaf.alt_names@) == names
            &&& s.result.ca_pem@ == ca_cert_pem
            &&& s.result.chain_pem@ == s.result.cert_pem@ + "\n"@ + ca_cert_pem
            &&& s.result.expires_at == now + NINETY_DAYS_MS
            &&& s.result.prefer_renew_before == Some((s.result.expires_at - ONE_WEEK_MS) as i64)
            &&& rcgen_key_from_pem(ca_key_pem) matches Ok(ca_spki) && rcgen_key_from_pem(
                s.result.key_pem@,
            ) matches Ok(key_spki) && leaf_matches(
                s.result.cert_pem@,
                key_spki,
                ca_spki,
                s.issuer,
                s.leaf,
            )
        },
        Err(ProviderError::ConfigError(m)) => match ca_config_failure(ca_key_pem, ca_cert_pem) {
            Some(f) => m@ == f,
            None => starts_with(m@, "Failed to create CA cert: "@),
        },
        Err(ProviderError::IssuanceFailed(m)) => {
            &&& ca_config_failure(ca_key_pem, ca_cert_pem) is None
            &&& (starts_with(m@, "Failed to generate key: "@) || (match rcgen_params_for(names) {
                Err(e) => m@ == "Failed to create params: "@ + e,
                Ok(_) => (leaf_validity_spec(now) is None && m@
                    == "Certificate dates out of range"@) || (leaf_validity_spec(now) is Some
                    && (starts_with(m@, "Failed to sign certificate: "@) || m@
                    == "Signed certificate does not match its request"@)),
            }))
        },
        Err(_) => false,
    }
}

/// Signs a certificate for `names` at time `now` with the CA whose key and
/// certificate are given as PEM text. The CA certificate is rebuilt from the
/// CA certificate's subject (common name, organization, country, locality,
/// state) as an unconstrained CA; the leaf gets a freshly generated key, the
/// first name (or `localhost`) as common name, all names as alternative
/// names, and a validity from the UTC date of one hour before `now` to that of
/// ninety days after. Configuration errors come for an unreadable key or
/// certificate or a failed rebuild of the CA certificate, issuance errors for
/// key generation, the names, the dates or the signature. The signed
/// certificate is read back before it is handed out: it must be for the
/// generated key, which must not be the CA's, carry the requested subject,
/// names and validity with the CA's subject as issuer, and have a signature
/// that the CA's key verifies; otherwise the signing fails. The result reports
/// expiry ninety days after `now`, asks for renewal a week earlier, and comes
/// with the CA's certificate and a chain of both.
pub fn issue_with_ca(ca_key_pem: &str, ca_cert_pem: &str, names: &[String], now: i64) -> (r: Result<
    SignedLeaf,
    ProviderError,
>)
    ensures
        ca_issue_outcome(ca_key_pem@, ca_cert_pem@, strs(names@), now, r),
{
    let (ca_key, ca_spki) = match key_pair_from_pem(ca_key_pem) {
        Ok(k) => k,
        Err(e) => {
            let mut m = String::from_str("Failed to parse CA key: ");
            m.append(e.as_str());
            return Err(ProviderError::ConfigError(m));
        },
    };
    let attrs = match subject_attributes(ca_cert_pem) {
        Ok(a) => a,
        Err((stage, text)) => {
            let mut m = if stage {
                String::from_str("Failed to parse CA PEM: ")
            } else {
                String::from_str("Failed to parse CA X509: ")
            };
            m.append(text.as_str());
            return Err(ProviderError::ConfigError(m));
        },
    };
    let issuer = ca_request(&attrs);
    let ca_cert = match self_signed_ca(&issuer, &ca_key) {
        Ok(c) => c,
        Err(e) => {
            let mut m = String::from_str("Failed to create CA cert: ");
            m.append(e.as_str());
            proof {
                lemma_starts_with_concat("Failed to create CA cert: "@, e@);
            }
            return Err(ProviderError::ConfigError(m));
        },
    };
    let key_pair = match generate_key_pair() {
        Ok(k) => k,
        Err(e) => {
            let mut m = String::from_str("Failed to generate key: ");
            m.append(e.as_str());
            proof {
                lemma_starts_with_concat("Failed to generate key: "@, e@);
            }
            return Err(ProviderError::IssuanceFailed(m));
        },
    };
    let params = match certificate_params(names) {
        Ok(p) => p,
        Err(e) => {
            let mut m = String::from_str("Failed to create params: ");
            m.append(e.as_str());
            return Err(ProviderError::IssuanceFailed(m));
        },
    };
    let leaf = match leaf_request(names, now) {
        Some(q) => q,
        None => {
            return Err(
                ProviderError::IssuanceFailed(String::from_str("Certificate dates out of range")),
            );
        },
    };
    let signed = match sign_leaf(params, &leaf, &key_pair, &ca_cert, &ca_key) {
        Ok(c) => c,
        Err(e) => {
            let mut m = String::from_str("Failed to sign certificate: ");
            m.append(e.as_str());
            proof {
                lemma_starts_with_concat("Failed to sign certificate: "@, e@);
            }
            return Err(ProviderError::IssuanceFailed(m));
        },
    };
    let cert_pem = certificate_pem(&signed);
    let key_pem = key_pair_pem(&key_pair);
    let checked = match key_pair_from_pem(key_pem.as_str()) {
        Ok((_, key_spki)) => signed_leaf_matches(
            cert_pem.as_str(),
            &key_spki,
            &ca_spki,
            &issuer,
            &leaf,
        ),
        Err(_) => false,
    };
    if !checked {
        return Err(
            ProviderError::IssuanceFailed(
                String::from_str("Signed certificate does not match its request"),
            ),
        );
    }
    let chain_pem = ca_chain(cert_pem.as_str(), ca_cert_pem);
    let result = issuance_result(
        cert_pem,
        key_pem,
        String::from_str(ca_cert_pem),
        chain_pem,
        leaf.expires_at,
    );
    Ok(SignedLeaf { result, issuer, leaf })
}

impl crate::providers::CaProvider {
    /// Signs a certificate for `names` with this provider's CA, whose key and
    /// certificate files hold the given PEM texts, at the current time.
    pub fn sign(&self, ca_key_pem: &str, ca_cert_pem: &str, names: &[String]) -> (r: Result<
        SignedLeaf,
        ProviderError,
    >)
        ensures
            exists|t: i64| #![trigger wall_clock_reading(t)] wall_clock_reading(t) && ca_issue_outcome(ca_key_pem@, ca_cert_pem@, strs(names@), t, r),
    {
        issue_with_ca(ca_key_pem, ca_cert_pem, names, wall_clock_now())
    }
}

/// A certificate signed at time `t` expires ninety days after `t` and asks
/// for renewal a week before that; the certificate handed out is valid at
/// `t`: its notBefore is at or before one hour before `t`, and its notAfter is
/// after `t`, at most a day before the reported expiry.
pub proof fn lemma_ca_leaf_valid_at_signing(
    ca_key_pem: Seq<char>,
    ca_cert_pem: Seq<char>,
    names: Seq<Seq<char>>,
    t: i64,
    r: Result<SignedLeaf, ProviderError>,
)
    requires
        ca_issue_outcome(ca_key_pem, ca_cert_pem, names, t, r),
    ensures
        r matches Ok(s) ==> {
            &&& s.result.expires_at == t + NINETY_DAYS_MS
            &&& s.result.prefer_renew_before == Some((t + NINETY_DAYS_MS - ONE_WEEK_MS) as i64)
            &&& pem_validity(s.result.cert_pem@) matches Some((b, a)) && b * 1000 <= t - ONE_HOUR_MS
                && t + NINETY_DAYS_MS - 86_400_000 < a * 1000 <= t + NINETY_DAYS_MS
        },
{
}

} // verus!
