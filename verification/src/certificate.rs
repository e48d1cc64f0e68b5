use vstd::prelude::*;

use crate::clock::{before_two_days_from, wall_clock_now, wall_clock_reading, TWO_DAYS_MS};
use crate::json::{json_string_list, parse_string_list};
use crate::text::strs;

verus! {

/// A stored certificate: what was issued for which configuration, with its
/// renewal hints and bookkeeping times (milliseconds since the Unix epoch).
#[derive(Debug)]
pub struct StoredCertificate {
    pub id: String,
    /// Id of the certificate configuration this certificate was made for.
    pub source: String,
    pub provider: String,
    /// The certificate's names as a JSON array of strings.
    pub names: String,
    pub cert_pem: Option<String>,
    pub key_pem: Option<String>,
    pub ca_pem: Option<String>,
    pub chain_pem: Option<String>,
    pub expires_at: i64,
    pub prefer_renew_before: Option<i64>,
    pub prefer_renew_after: Option<i64>,
    pub requested_at: i64,
    pub created_at: i64,
    pub updated_at: i64,
}

/// The record written for a freshly issued certificate.
#[derive(Debug)]
pub struct NewCertificate {
    pub id: String,
    pub source: String,
    pub provider: String,
    pub names: String,
    pub cert_pem: Option<String>,
    pub key_pem: Option<String>,
    pub ca_pem: Option<String>,
    pub chain_pem: Option<String>,
    pub expires_at: i64,
    pub prefer_renew_before: Option<i64>,
    pub prefer_renew_after: Option<i64>,
    pub requested_at: i64,
}

/// The names stored in a certificate's JSON text; an unreadable text stands
/// for no names.
pub open spec fn stored_names(text: Seq<char>) -> Seq<Seq<char>> {
    match json_string_list(text) {
        Some(v) => v,
        None => Seq::empty(),
    }
}

/// A certificate has expired at `now` once its expiry time is reached.
pub open spec fn expired_at(c: StoredCertificate, now: i64) -> bool {
    c.expires_at <= now
}

/// A certificate is in its renewal window at `now` when its preferred renewal
/// time has passed or it expires within two days.
pub open spec fn in_renewal_window(c: StoredCertificate, now: i64) -> bool {
    (c.prefer_renew_before matches Some(t) && t < now) || c.expires_at < now + TWO_DAYS_MS
}

impl StoredCertificate {
    /// The certificate's names; empty when the stored text cannot be read.
    pub fn get_names(&self) -> (r: Vec<String>)
        ensures
            strs(r@) == stored_names(self.names@),
    {
        match parse_string_list(self.names.as_str()) {
            Some(v) => v,
            None => {
                let v: Vec<String> = Vec::new();
                assert(strs(v@) =~= Seq::<Seq<char>>::empty());
                v
            },
        }
    }

    /// Whether the certificate has expired at time `now`.
    pub fn is_expired_at(&self, now: i64) -> (r: bool)
        ensures
            r == expired_at(*self, now),
    {
        self.expires_at <= now
    }

    /// Whether the certificate has expired, by the current time.
    pub fn is_expired(&self) -> (r: bool)
        ensures
            exists|t: i64| #![trigger wall_clock_reading(t)] wall_clock_reading(t) && r == expired_at(*self, t),
    {
        self.is_expired_at(wall_clock_now())
    }

    /// Whether the certificate is in its renewal window at time `now`.
    pub fn needs_renewal_at(&self, now: i64) -> (r: bool)
        ensures
            r == in_renewal_window(*self, now),
    {
        let past_renew_before = match self.prefer_renew_before {
            Some(t) => t < now,
            None => false,
        };
        let expires_soon = before_two_days_from(self.expires_at, now);
        past_renew_before || expires_soon
    }

    /// Whether the certificate is in its renewal window, by the current time.
    pub fn needs_renewal(&self) -> (r: bool)
        ensures
            exists|t: i64| #![trigger wall_clock_reading(t)] wall_clock_reading(t) && r == in_renewal_window(*self, t),
    {
        self.needs_renewal_at(wall_clock_now())
    }
}

} // verus!
