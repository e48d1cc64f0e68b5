use acme_distributor::auth::{AuthenticatedRequest, IpAddress};
use acme_distributor::certificate::StoredCertificate;
use acme_distributor::config::{CertificateConfig, TokenConfig};
use acme_distributor::routes::{
    issuing_provider, plan_certificate_request, plan_serve_at, status, ContentType, HttpStatus,
    ServePlan,
};
use acme_distributor::strmap::StrMap;
use acme_distributor::types::CertificateResponse;

fn auth(restrict: Option<Vec<&str>>) -> AuthenticatedRequest {
    AuthenticatedRequest {
        token_config: TokenConfig {
            hashed: None,
            plain: Some("t".to_string()),
            allow_from: None,
            restrict_names: restrict.map(|v| v.into_iter().map(String::from).collect()),
        },
        client_ip: IpAddress::V4(1),
    }
}

fn certs() -> StrMap<CertificateConfig> {
    let mut m = StrMap::new();
    m.insert(
        "web".to_string(),
        CertificateConfig {
            id: "web".to_string(),
            names: Some(vec!["example.com".to_string(), "www.example.com".to_string()]),
            domains: None,
            provider: "le".to_string(),
        },
    );
    m.insert(
        "dyn".to_string(),
        CertificateConfig {
            id: "dyn".to_string(),
            names: None,
            domains: Some(vec!["*.example.net".to_string()]),
            provider: "ca".to_string(),
        },
    );
    m
}

#[test]
fn status_page() {
    let (ct, body) = status();
    assert!(matches!(ct, ContentType::Plain));
    assert_eq!(body, "ACME distributor running!");
}

#[test]
fn fixed_names_are_served_from_the_configured_certificate() {
    let t = plan_certificate_request(&auth(None), &certs(), "www.example.com").unwrap();
    assert_eq!(t.cert_id, "web");
    assert_eq!(t.source, "web");
    assert_eq!(t.provider, "le");
    assert_eq!(t.names, vec!["example.com".to_string(), "www.example.com".to_string()]);
}

#[test]
fn domain_patterns_get_a_certificate_per_name() {
    let t = plan_certificate_request(&auth(None), &certs(), "a.example.net").unwrap();
    assert_eq!(t.cert_id, "dyn#a.example.net");
    assert_eq!(t.source, "dyn");
    assert_eq!(t.provider, "ca");
    assert_eq!(t.names, vec!["a.example.net".to_string()]);
}

#[test]
fn refused_requests_are_not_found() {
    assert!(matches!(plan_certificate_request(&auth(Some(vec!["*.example.net"])), &certs(), "example.com"), Err(HttpStatus::NotFound)));
    assert!(matches!(plan_certificate_request(&auth(None), &certs(), "unknown.org"), Err(HttpStatus::NotFound)));
    assert!(plan_certificate_request(&auth(Some(vec!["*.example.net"])), &certs(), "b.example.net").is_ok());
}

#[test]
fn response_hands_out_the_stored_certificate() {
    let c = StoredCertificate {
        id: "web".to_string(),
        source: "web".to_string(),
        provider: "le".to_string(),
        names: "[]".to_string(),
        cert_pem: Some("C".to_string()),
        key_pem: Some("K".to_string()),
        ca_pem: None,
        chain_pem: Some("CH".to_string()),
        expires_at: 5,
        prefer_renew_before: Some(2),
        prefer_renew_after: Some(1),
        requested_at: 0,
        created_at: 0,
        updated_at: 0,
    };
    let r = CertificateResponse::from_certificate(c);
    assert_eq!(r.cert.as_deref(), Some("C"));
    assert_eq!(r.key.as_deref(), Some("K"));
    assert_eq!(r.ca, None);
    assert_eq!(r.chain.as_deref(), Some("CH"));
    assert_eq!((r.expires_at, r.prefer_renew_before, r.prefer_renew_after), (5, Some(2), Some(1)));
}

#[test]
fn certificate_ids_per_configuration_kind() {
    let a = plan_certificate_request(&auth(None), &certs(), "a.example.net").unwrap();
    let b = plan_certificate_request(&auth(None), &certs(), "b.example.net").unwrap();
    assert_ne!(a.cert_id, b.cert_id);
    let x = plan_certificate_request(&auth(None), &certs(), "example.com").unwrap();
    let y = plan_certificate_request(&auth(None), &certs(), "www.example.com").unwrap();
    assert_eq!(x.cert_id, "web");
    assert_eq!(y.cert_id, "web");
}

fn stored_until(expires_at: i64) -> StoredCertificate {
    StoredCertificate {
        id: "web".to_string(),
        source: "web".to_string(),
        provider: "le".to_string(),
        names: "[]".to_string(),
        cert_pem: Some("C".to_string()),
        key_pem: None,
        ca_pem: None,
        chain_pem: None,
        expires_at,
        prefer_renew_before: None,
        prefer_renew_after: None,
        requested_at: 0,
        created_at: 0,
        updated_at: 0,
    }
}

#[test]
fn stored_certificates_are_served_until_they_expire() {
    match plan_serve_at(Some(stored_until(100)), 99) {
        ServePlan::Stored(c) => assert_eq!(c.expires_at, 100),
        ServePlan::Issue => panic!("expected the stored certificate"),
    }
    assert!(matches!(plan_serve_at(Some(stored_until(100)), 100), ServePlan::Issue));
    assert!(matches!(plan_serve_at(None, 0), ServePlan::Issue));
}

#[test]
fn missing_provider_is_a_server_error() {
    let mut providers: StrMap<u8> = StrMap::new();
    providers.insert("le".to_string(), 7);
    assert_eq!(issuing_provider(&providers, "le").ok(), Some(&7));
    assert!(matches!(issuing_provider(&providers, "gone"), Err(HttpStatus::InternalServerError)));
}
