use vstd::prelude::*;

use crate::certificate::StoredCertificate;

verus! {

/// What the certificate endpoint answers. Times are milliseconds since the Unix epoch.
#[derive(Debug)]
pub struct CertificateResponse {
    pub cert: Option<String>,
    pub key: Option<String>,
    pub ca: Option<String>,
    pub chain: Option<String>,
    pub expires_at: i64,
    pub prefer_renew_before: Option<i64>,
    pub prefer_renew_after: Option<i64>,
}

/// What a provider hands back for an issued certificate.
#[derive(Debug)]
pub struct IssuanceResult {
    pub cert_pem: String,
    pub key_pem: String,
    pub ca_pem: String,
    pub chain_pem: String,
    pub expires_at: i64,
    pub prefer_renew_before: Option<i64>,
}

impl CertificateResponse {
    /// The answer that hands out a stored certificate.
    pub fn from_certificate(cert: StoredCertificate) -> (r: Self)
        ensures
            r.cert == cert.cert_pem,
            r.key == cert.key_pem,
            r.ca == cert.ca_pem,
            r.chain == cert.chain_pem,
            r.expires_at == cert.expires_at,
            r.prefer_renew_before == cert.prefer_renew_before,
            r.prefer_renew_after == cert.prefer_renew_after,
    {
        CertificateResponse {
            cert: cert.cert_pem,
            key: cert.key_pem,
            ca: cert.ca_pem,
            chain: cert.chain_pem,
            expires_at: cert.expires_at,
            prefer_renew_before: cert.prefer_renew_before,
            prefer_renew_after: cert.prefer_renew_after,
        }
    }
}

} // verus!
