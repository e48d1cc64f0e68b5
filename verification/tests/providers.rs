use acme_distributor::auth::IpAddress;
use acme_distributor::ca::{
    address_from_bytes, alt_names_match, ca_distinguished_name, ca_request, dn_kind, dn_oid,
    issue_with_ca, leaf_request, leaf_subject, leaf_validity, midnight_timestamp, same_bytes,
    signed_leaf_matches, AltName, DnKind, PathLength,
};
use acme_distributor::config::ProviderConfig;
use acme_distributor::error::ProviderError;
use acme_distributor::providers::{
    acme_lib_domains, acme_lib_settings, acme_sh_args, acme_sh_env, acme_sh_output_names, ca_chain, challenge_token,
    common_name, issuance_result, parse_cert_expiry, provider_kind, split_issued_chain, CaProvider,
    ProviderKind,
};
use acme_distributor::strmap::StrMap;

const DAY: i64 = 86_400_000;

fn make_ca() -> (String, String) {
    let mut params = rcgen::CertificateParams::default();
    params.is_ca = rcgen::IsCa::Ca(rcgen::BasicConstraints::Unconstrained);
    params.distinguished_name.push(rcgen::DnType::CommonName, "Test CA");
    params.distinguished_name.push(rcgen::DnType::OrganizationName, "Example Org");
    params.not_after = rcgen::date_time_ymd(2030, 1, 1);
    let key = rcgen::KeyPair::generate().unwrap();
    let cert = params.self_signed(&key).unwrap();
    (key.serialize_pem(), cert.pem())
}

fn provider(ty: &str, env: Option<Vec<(&str, &str)>>) -> ProviderConfig {
    ProviderConfig {
        provider_type: ty.to_string(),
        dns: None,
        env: env.map(|v| {
            let mut m = StrMap::new();
            for (k, val) in v {
                m.insert(k.to_string(), val.to_string());
            }
            m
        }),
        key: Some("ca.key".to_string()),
        cert: Some("ca.crt".to_string()),
    }
}

#[test]
fn provider_kinds() {
    assert!(matches!(provider_kind("acme-sh"), Some(ProviderKind::AcmeSh)));
    assert!(matches!(provider_kind("acme-lib"), Some(ProviderKind::AcmeLib)));
    assert!(matches!(provider_kind("ca"), Some(ProviderKind::Ca)));
    assert!(matches!(provider_kind("file"), Some(ProviderKind::File)));
    assert!(provider_kind("CA").is_none());
}

#[test]
fn acme_lib_account_settings() {
    let (email, staging) = acme_lib_settings(&provider("acme-lib", Some(vec![("email", "a@b.c"), ("staging", "1")])));
    assert_eq!(email, "a@b.c");
    assert!(staging);
    let (email, staging) = acme_lib_settings(&provider("acme-lib", Some(vec![("staging", "yes")])));
    assert_eq!(email, "");
    assert!(!staging);
    let (_, staging) = acme_lib_settings(&provider("acme-lib", Some(vec![("staging", "true")])));
    assert!(staging);
    assert_eq!(acme_lib_settings(&provider("acme-lib", None)), (String::new(), false));
}

#[test]
fn expiry_is_read_in_milliseconds() {
    let (_, ca_pem) = make_ca();
    assert_eq!(parse_cert_expiry(ca_pem.as_bytes()).unwrap(), 1_893_456_000_000);
    match parse_cert_expiry(b"garbage") {
        Err(ProviderError::ParseError(m)) => assert!(m.starts_with("Failed to parse PEM: "), "{}", m),
        _ => panic!("expected a parse error"),
    }
    let broken = "-----BEGIN CERTIFICATE-----\nAAAA\n-----END CERTIFICATE-----\n";
    match parse_cert_expiry(broken.as_bytes()) {
        Err(ProviderError::ParseError(m)) => assert!(m.starts_with("Failed to parse X509: "), "{}", m),
        _ => panic!("expected a parse error"),
    }
}

#[test]
fn chain_splitting() {
    let full = "-----BEGIN CERTIFICATE-----\nA\n-----END CERTIFICATE-----\n\n-----BEGIN CERTIFICATE-----\nB\n-----END CERTIFICATE-----\n";
    let (cert, ca) = split_issued_chain(full);
    assert_eq!(cert, "-----BEGIN CERTIFICATE-----\nA\n-----END CERTIFICATE-----");
    assert_eq!(ca, "-----BEGIN CERTIFICATE-----\nB\n-----END CERTIFICATE-----");
    let single = "-----BEGIN CERTIFICATE-----\nA\n-----END CERTIFICATE-----";
    assert_eq!(split_issued_chain(single), (single.to_string(), String::new()));
    assert_eq!(split_issued_chain("no marker"), ("no marker".to_string(), String::new()));
    let trailing = "x-----END CERTIFICATE-----  \n";
    assert_eq!(split_issued_chain(trailing), ("x-----END CERTIFICATE-----".to_string(), String::new()));
}

#[test]
fn results_ask_for_renewal_a_week_early() {
    let r = issuance_result("c".into(), "k".into(), "a".into(), "ch".into(), 10 * DAY);
    assert_eq!(r.prefer_renew_before, Some(3 * DAY));
    assert_eq!(r.expires_at, 10 * DAY);
    assert_eq!(r.chain_pem, "ch");
    let r = issuance_result("c".into(), "k".into(), "a".into(), "ch".into(), i64::MIN);
    assert_eq!(r.prefer_renew_before, None);
}

#[test]
fn acme_sh_command_line() {
    let names = vec!["a.example.com".to_string(), "*.a.example.com".to_string()];
    assert_eq!(
        acme_sh_args("/state/le", Some("dns_cf"), "/state/le/.webroot", &names),
        vec!["--config-home", "/state/le", "--server", "letsencrypt", "--issue", "--dns", "dns_cf", "-d", "a.example.com", "-d", "*.a.example.com"]
    );
    assert_eq!(
        acme_sh_args("/s", None, "/s/.webroot", &names[..1]),
        vec!["--config-home", "/s", "--server", "letsencrypt", "--issue", "--webroot", "/s/.webroot", "-d", "a.example.com"]
    );
}

#[test]
fn acme_sh_environment() {
    let mut vars = StrMap::new();
    vars.insert("CF_Key".to_string(), "k".to_string());
    vars.insert("SUDO_USER".to_string(), "root".to_string());
    let env = acme_sh_env(&vars, "web");
    assert_eq!(env.get("CF_Key").map(String::as_str), Some("k"));
    assert_eq!(env.get("DOMAIN_CERT_ID").map(String::as_str), Some("web"));
    assert_eq!(env.get("SUDO_USER").map(String::as_str), Some(""));
    assert_eq!(env.get("SUDO_COMMAND").map(String::as_str), Some(""));
    assert_eq!(env.len(), 6);
}

#[test]
fn acme_sh_tokens_and_files() {
    assert_eq!(challenge_token("tok123.thumbprint"), "tok123");
    assert_eq!(challenge_token("a.b.c"), "a");
    assert_eq!(challenge_token("plain"), "plain");
    assert_eq!(challenge_token(".x"), "");
    assert_eq!(
        acme_sh_output_names("web"),
        ("web.cer".to_string(), "web.key".to_string(), "web_ecc".to_string())
    );
}

#[test]
fn ca_helpers() {
    let p = CaProvider::new("int", &provider("ca", None));
    assert_eq!(p.id, "int");
    assert_eq!(p.ca_key_path, "ca.key");
    assert_eq!(p.ca_cert_path, "ca.crt");
    assert_eq!(ca_chain("C", "A"), "C\nA");
    assert_eq!(common_name(&[]), "localhost");
    assert_eq!(common_name(&["x".to_string(), "y".to_string()]), "x");
    assert!(matches!(dn_kind("2.5.4.3"), Some(DnKind::CommonName)));
    assert!(dn_kind("2.5.4.11").is_none());
    let attrs = vec![
        ("2.5.4.6".to_string(), Some("NO".to_string())),
        ("2.5.4.11".to_string(), Some("Unit".to_string())),
        ("2.5.4.3".to_string(), None),
        ("2.5.4.10".to_string(), Some("Org".to_string())),
    ];
    let dn = ca_distinguished_name(&attrs);
    assert_eq!(dn.len(), 2);
    assert!(matches!(&dn[0], (DnKind::CountryName, v) if v == "NO"));
    assert!(matches!(&dn[1], (DnKind::OrganizationName, v) if v == "Org"));
}

#[test]
fn ca_signs_certificates() {
    let (key, ca) = make_ca();
    let now = 1_700_000_000_000;
    let names = vec!["internal.example.com".to_string()];
    let signed = issue_with_ca(&key, &ca, &names, now).unwrap();
    let res = &signed.result;
    assert_eq!(res.ca_pem, ca);
    assert_eq!(res.chain_pem, format!("{}\n{}", res.cert_pem, ca));
    assert_eq!(res.expires_at, now + 90 * DAY);
    assert_eq!(res.prefer_renew_before, Some(now + 83 * DAY));
    assert!(res.key_pem.contains("PRIVATE KEY"));
    let leaf_expiry = parse_cert_expiry(res.cert_pem.as_bytes()).unwrap();
    assert_eq!(leaf_expiry, (now + 90 * DAY) / DAY * DAY);
    assert!(matches!(signed.leaf.subject.as_slice(), [(DnKind::CommonName, cn)] if cn == "internal.example.com"));
    assert_eq!(signed.leaf.alt_names, names);
    assert_eq!(signed.leaf.not_before, (2023, 11, 14));
    assert_eq!(signed.leaf.not_after, (2024, 2, 12));
    assert_eq!(signed.leaf.expires_at, now + 90 * DAY);
    assert!(matches!(signed.issuer.path_length, PathLength::Unconstrained));
    assert_eq!(signed.issuer.subject.len(), 2);
    assert!(matches!(&signed.issuer.subject[0], (DnKind::CommonName, v) if v == "Test CA"));
    assert!(matches!(&signed.issuer.subject[1], (DnKind::OrganizationName, v) if v == "Example Org"));

    // The signed certificate carries what was asked for.
    let (_, pem) = x509_parser::pem::parse_x509_pem(res.cert_pem.as_bytes()).unwrap();
    let cert = pem.parse_x509().unwrap();
    let subject_cn: Vec<String> = cert.subject().iter_common_name().map(|a| a.as_str().unwrap().to_string()).collect();
    assert_eq!(subject_cn, vec!["internal.example.com".to_string()]);
    let issuer_cn: Vec<String> = cert.issuer().iter_common_name().map(|a| a.as_str().unwrap().to_string()).collect();
    assert_eq!(issuer_cn, vec!["Test CA".to_string()]);
    assert_eq!(cert.validity().not_before.timestamp(), 1_699_920_000);
    assert_eq!(cert.validity().not_after.timestamp(), 1_707_696_000);
    assert!(!res.key_pem.is_empty() && res.key_pem != key);

    let p = CaProvider::new("int", &provider("ca", None));
    assert!(p.sign(&key, &ca, &names).is_ok());
}

#[test]
fn leaf_requests() {
    let names = vec!["a.example".to_string(), "b.example".to_string()];
    let q = leaf_request(&names, 1_700_000_000_000).unwrap();
    assert!(matches!(q.subject.as_slice(), [(DnKind::CommonName, cn)] if cn == "a.example"));
    assert_eq!(q.alt_names, names);
    let q = leaf_request(&[], 1_700_000_000_000).unwrap();
    assert!(matches!(q.subject.as_slice(), [(DnKind::CommonName, cn)] if cn == "localhost"));
    assert!(q.alt_names.is_empty());
    assert!(matches!(leaf_subject("x".to_string()).as_slice(), [(DnKind::CommonName, cn)] if cn == "x"));
    assert_eq!(
        leaf_validity(0),
        Some(((1969, 12, 31), (1970, 4, 1), 90 * DAY))
    );
    // A year before year 0 is not signed (rcgen's date encoder refuses it).
    let year_minus_one = -62_170_000_000_000;
    assert_eq!(leaf_validity(year_minus_one), None);
    assert!(leaf_request(&names, year_minus_one).is_none());
    assert_eq!(leaf_validity(i64::MAX), None);
    let attrs = vec![
        ("2.5.4.3".to_string(), Some("CA".to_string())),
        ("2.5.4.11".to_string(), Some("Unit".to_string())),
    ];
    let r = ca_request(&attrs);
    assert!(matches!(r.path_length, PathLength::Unconstrained));
    assert!(matches!(r.subject.as_slice(), [(DnKind::CommonName, v)] if v == "CA"));
}

#[test]
fn ca_reports_its_errors() {
    let (key, ca) = make_ca();
    let names = vec!["a.example.com".to_string()];
    match issue_with_ca("not a key", &ca, &names, 0) {
        Err(ProviderError::ConfigError(m)) => assert!(m.starts_with("Failed to parse CA key: "), "{}", m),
        _ => panic!("expected a config error"),
    }
    match issue_with_ca(&key, "not a cert", &names, 0) {
        Err(ProviderError::ConfigError(m)) => assert!(m.starts_with("Failed to parse CA PEM: "), "{}", m),
        _ => panic!("expected a config error"),
    }
    match issue_with_ca(&key, &ca, &["bad\u{e9}".to_string()], 0) {
        Err(ProviderError::IssuanceFailed(m)) => assert!(m.starts_with("Failed to create params: "), "{}", m),
        _ => panic!("expected an issuance error"),
    }
    match issue_with_ca(&key, &ca, &names, i64::MAX) {
        Err(ProviderError::IssuanceFailed(m)) => assert_eq!(m, "Certificate dates out of range"),
        _ => panic!("expected an issuance error"),
    }
    match issue_with_ca(&key, &ca, &names, -62_170_000_000_000) {
        Err(ProviderError::IssuanceFailed(m)) => assert_eq!(m, "Certificate dates out of range"),
        _ => panic!("expected an issuance error"),
    }
}

#[test]
fn acme_lib_order_domains() {
    let names = vec!["a.example".to_string(), "b.example".to_string(), "c.example".to_string()];
    let (primary, alt) = acme_lib_domains(&names).unwrap();
    assert_eq!(primary, "a.example");
    assert_eq!(alt, vec!["b.example".to_string(), "c.example".to_string()]);
    let (primary, alt) = acme_lib_domains(&names[..1]).unwrap();
    assert_eq!(primary, "a.example");
    assert!(alt.is_empty());
    match acme_lib_domains(&[]) {
        Err(ProviderError::IssuanceFailed(m)) => assert_eq!(m, "No domains provided"),
        other => panic!("unexpected: {:?}", other),
    }
}

#[test]
fn provider_error_messages() {
    assert_eq!(
        ProviderError::IssuanceFailed("boom".to_string()).message(),
        "Issuance failed: boom"
    );
    assert_eq!(
        ProviderError::ParseError("bad".to_string()).message(),
        "Certificate parsing error: bad"
    );
    assert_eq!(
        ProviderError::ConfigError("no key".to_string()).message(),
        "Configuration error: no key"
    );
    let io = std::io::Error::new(std::io::ErrorKind::NotFound, "missing file");
    assert_eq!(ProviderError::Io(io).message(), "IO error: missing file");
}

#[test]
fn signed_leaf_is_checked_against_its_keys() {
    let (key, ca) = make_ca();
    let names = vec!["10.0.0.1".to_string(), "host.example".to_string(), "::1".to_string()];
    let signed = issue_with_ca(&key, &ca, &names, 1_700_000_000_000).unwrap();
    let cert = &signed.result.cert_pem;
    let leaf_spki = rcgen::KeyPair::from_pem(&signed.result.key_pem).unwrap().public_key_der();
    let ca_spki = rcgen::KeyPair::from_pem(&key).unwrap().public_key_der();
    assert_ne!(leaf_spki, ca_spki);
    assert!(signed_leaf_matches(cert, &leaf_spki, &ca_spki, &signed.issuer, &signed.leaf));
    // Keys swapped, or the CA's key handed out as the leaf's: refused.
    assert!(!signed_leaf_matches(cert, &ca_spki, &leaf_spki, &signed.issuer, &signed.leaf));
    assert!(!signed_leaf_matches(cert, &ca_spki, &ca_spki, &signed.issuer, &signed.leaf));
    // A certificate signed by another key: refused.
    let other = rcgen::KeyPair::generate().unwrap().public_key_der();
    assert!(!signed_leaf_matches(cert, &leaf_spki, &other, &signed.issuer, &signed.leaf));
    // Another request: refused.
    let other_leaf = leaf_request(&["other.example".to_string()], 1_700_000_000_000).unwrap();
    assert!(!signed_leaf_matches(cert, &leaf_spki, &ca_spki, &signed.issuer, &other_leaf));
}

#[test]
fn certificate_reading_helpers() {
    assert_eq!(midnight_timestamp((1970, 1, 1)), 0);
    assert_eq!(midnight_timestamp((2024, 2, 12)), 1_707_696_000);
    assert_eq!(midnight_timestamp((2000, 3, 1)), 951_868_800);
    assert_eq!(midnight_timestamp((0, 1, 1)), -62_167_219_200);
    assert!(matches!(address_from_bytes(&vec![127, 0, 0, 1]), Some(IpAddress::V4(0x7f00_0001))));
    let mut v6 = vec![0u8; 16];
    v6[15] = 1;
    assert!(matches!(address_from_bytes(&v6), Some(IpAddress::V6(1))));
    assert!(address_from_bytes(&vec![1, 2, 3]).is_none());
    assert_eq!(dn_oid(&DnKind::StateOrProvinceName), "2.5.4.8");
    assert!(same_bytes(&vec![1, 2], &vec![1, 2]));
    assert!(!same_bytes(&vec![1, 2], &vec![1, 3]));
    let names = vec!["a.example".to_string(), "192.0.2.1".to_string()];
    let read = vec![AltName::Dns("a.example".to_string()), AltName::Ip(vec![192, 0, 2, 1])];
    assert!(alt_names_match(&read, &names));
    let wrong = vec![AltName::Dns("a.example".to_string()), AltName::Dns("192.0.2.1".to_string())];
    assert!(!alt_names_match(&wrong, &names));
}
