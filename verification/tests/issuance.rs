use acme_distributor::certificate::StoredCertificate;
use acme_distributor::config::{assign_certificate_ids, CertificateConfig};
use acme_distributor::domain::matches_domain;
use acme_distributor::issuance::{
    certificates_to_remove, check_needs_deletion, check_needs_deletion_at, check_needs_issuance,
    check_needs_issuance_at, find_matching_certificate, new_certificate_record,
    new_certificate_record_at, plan_cron,
    plan_cron_at, plan_startup_issuance_at, CronAction, DeletionReason, IssuanceReason,
};
use acme_distributor::strmap::StrMap;
use acme_distributor::types::IssuanceResult;

const DAY: i64 = 86_400_000;

fn stored(id: &str, source: &str, provider: &str, names: &str, expires_at: i64) -> StoredCertificate {
    StoredCertificate {
        id: id.to_string(),
        source: source.to_string(),
        provider: provider.to_string(),
        names: names.to_string(),
        cert_pem: Some("CERT".to_string()),
        key_pem: Some("KEY".to_string()),
        ca_pem: Some("CA".to_string()),
        chain_pem: Some("CHAIN".to_string()),
        expires_at,
        prefer_renew_before: None,
        prefer_renew_after: None,
        requested_at: 0,
        created_at: 0,
        updated_at: 0,
    }
}

fn config(id: &str, names: Option<Vec<&str>>, domains: Option<Vec<&str>>, provider: &str) -> CertificateConfig {
    CertificateConfig {
        id: id.to_string(),
        names: names.map(|v| v.into_iter().map(String::from).collect()),
        domains: domains.map(|v| v.into_iter().map(String::from).collect()),
        provider: provider.to_string(),
    }
}

fn names(v: &[&str]) -> Vec<String> {
    v.iter().map(|s| s.to_string()).collect()
}

#[test]
fn issuance_reasons_in_order() {
    let cfg = config("web", Some(vec!["a.example.com"]), None, "le");
    let n = names(&["a.example.com"]);
    let now = 1_000 * DAY;
    assert!(matches!(check_needs_issuance_at(None, &cfg, &n, now), Some(IssuanceReason::Missing)));
    let expired = stored("web", "web", "other", "[\"a.example.com\"]", now);
    assert!(matches!(check_needs_issuance_at(Some(&expired), &cfg, &n, now), Some(IssuanceReason::Expired)));
    let moved = stored("web", "web", "other", "[\"a.example.com\"]", now + 30 * DAY);
    match check_needs_issuance_at(Some(&moved), &cfg, &n, now) {
        Some(IssuanceReason::ProviderChanged { old, new }) => {
            assert_eq!(old, "other");
            assert_eq!(new, "le");
        }
        _ => panic!("expected a provider change"),
    }
    let renamed = stored("web", "web", "le", "[\"b.example.com\"]", now + 30 * DAY);
    assert!(matches!(check_needs_issuance_at(Some(&renamed), &cfg, &n, now), Some(IssuanceReason::NamesChanged)));
    let unreadable = stored("web", "web", "le", "not json", now + 30 * DAY);
    assert!(matches!(check_needs_issuance_at(Some(&unreadable), &cfg, &n, now), Some(IssuanceReason::NamesChanged)));
    let soon = stored("web", "web", "le", "[\"a.example.com\"]", now + DAY);
    assert!(matches!(check_needs_issuance_at(Some(&soon), &cfg, &n, now), Some(IssuanceReason::InRenewalWindow)));
    let mut hinted = stored("web", "web", "le", "[\"a.example.com\"]", now + 30 * DAY);
    hinted.prefer_renew_before = Some(now - 1);
    assert!(matches!(check_needs_issuance_at(Some(&hinted), &cfg, &n, now), Some(IssuanceReason::InRenewalWindow)));
    let good = stored("web", "web", "le", "[\"a.example.com\"]", now + 30 * DAY);
    assert!(check_needs_issuance_at(Some(&good), &cfg, &n, now).is_none());
    assert!(check_needs_issuance(None, &cfg, &n).is_some());
}

#[test]
fn stored_names_and_clock_checks() {
    let c = stored("x", "x", "le", "[\"a\",\"b\"]", 100);
    assert_eq!(c.get_names(), names(&["a", "b"]));
    assert!(stored("x", "x", "le", "{}", 100).get_names().is_empty());
    assert!(c.is_expired_at(100));
    assert!(!c.is_expired_at(99));
    assert!(c.is_expired());
    assert!(c.needs_renewal_at(100 - 2 * DAY + 1));
    assert!(!c.needs_renewal_at(100 - 2 * DAY));
    assert!(c.needs_renewal());
}

#[test]
fn reason_messages() {
    let r = IssuanceReason::ProviderChanged { old: "a".to_string(), new: "b".to_string() };
    assert_eq!(r.message(), "provider changed (a -> b)");
    assert_eq!(IssuanceReason::Missing.message(), "not found");
    assert_eq!(IssuanceReason::Expired.message(), "expired");
    assert_eq!(IssuanceReason::NamesChanged.message(), "names changed");
    assert_eq!(IssuanceReason::InRenewalWindow.message(), "in renewal window");
    assert_eq!(DeletionReason::Stale.message(), "not requested in 60+ days");
    assert_eq!(DeletionReason::MissingProvider.message(), "provider no longer exists");
    assert_eq!(DeletionReason::MissingSourceConfig.message(), "source config no longer exists");
}

fn setup() -> (StrMap<u8>, StrMap<CertificateConfig>) {
    let mut providers: StrMap<u8> = StrMap::new();
    providers.insert("le".to_string(), 0);
    let mut certs: StrMap<CertificateConfig> = StrMap::new();
    certs.insert("web".to_string(), config("web", Some(vec!["a.example.com"]), None, "le"));
    certs.insert("wild".to_string(), config("wild", None, Some(vec!["*.example.org"]), "le"));
    (providers, certs)
}

#[test]
fn deletion_reasons() {
    let (providers, certs) = setup();
    let now = 100 * DAY;
    let mut dynamic = stored("wild#x.example.org", "wild", "le", "[]", now + 30 * DAY);
    dynamic.requested_at = now - 61 * DAY;
    assert!(matches!(check_needs_deletion_at(&dynamic, &providers, &certs, now), Some(DeletionReason::Stale)));
    dynamic.requested_at = now - 59 * DAY;
    assert!(check_needs_deletion_at(&dynamic, &providers, &certs, now).is_none());
    let mut named = stored("web", "web", "le", "[]", now);
    named.requested_at = 0;
    assert!(check_needs_deletion_at(&named, &providers, &certs, now).is_none());
    let orphan_provider = stored("web", "web", "gone", "[]", now);
    assert!(matches!(check_needs_deletion_at(&orphan_provider, &providers, &certs, now), Some(DeletionReason::MissingProvider)));
    let mut orphan_source = stored("old#x", "old", "le", "[]", now);
    orphan_source.requested_at = now;
    assert!(matches!(check_needs_deletion_at(&orphan_source, &providers, &certs, now), Some(DeletionReason::MissingSourceConfig)));
    assert!(matches!(check_needs_deletion(&orphan_provider, &providers, &certs), Some(DeletionReason::MissingProvider)));
}

#[test]
fn cron_actions() {
    let (providers, certs) = setup();
    let now = 100 * DAY;
    let orphan = stored("web", "web", "gone", "[]", now + 30 * DAY);
    assert!(matches!(plan_cron_at(&orphan, &providers, &certs, now), CronAction::Delete(DeletionReason::MissingProvider)));
    let soon = stored("web", "web", "le", "[]", now + DAY);
    assert!(matches!(plan_cron_at(&soon, &providers, &certs, now), CronAction::Renew));
    let fine = stored("web", "web", "le", "[]", now + 30 * DAY);
    assert!(matches!(plan_cron_at(&fine, &providers, &certs, now), CronAction::Keep));
    assert!(matches!(plan_cron(&orphan, &providers, &certs), CronAction::Delete(_)));
}

#[test]
fn startup_plans() {
    let (providers, _) = setup();
    let now = 100 * DAY;
    let cfg = config("web", Some(vec!["a.example.com"]), None, "le");
    let n = names(&["a.example.com"]);
    let moved = stored("web", "web", "old", "[\"a.example.com\"]", now + 30 * DAY);
    let plan = plan_startup_issuance_at(&cfg, Some(&moved), &providers, now).unwrap();
    assert_eq!(plan.names, n);
    assert!(plan.delete_existing);
    assert!(plan.provider_available);
    assert!(matches!(plan.reason, IssuanceReason::ProviderChanged { .. }));
    let elsewhere = config("web", Some(vec!["a.example.com"]), None, "missing");
    let plan = plan_startup_issuance_at(&elsewhere, None, &providers, now).unwrap();
    assert!(matches!(plan.reason, IssuanceReason::Missing));
    assert!(!plan.delete_existing);
    assert!(!plan.provider_available);
    let good = stored("web", "web", "le", "[\"a.example.com\"]", now + 30 * DAY);
    assert!(plan_startup_issuance_at(&cfg, Some(&good), &providers, now).is_none());
    // Configurations with domain patterns only are issued on request, not at startup.
    let dynamic = config("dyn", None, Some(vec!["*.example.com"]), "le");
    assert!(plan_startup_issuance_at(&dynamic, None, &providers, now).is_none());
}

#[test]
fn matching_prefers_fixed_names() {
    let mut certs: StrMap<CertificateConfig> = StrMap::new();
    certs.insert("dyn".to_string(), config("dyn", None, Some(vec!["*.example.com"]), "le"));
    certs.insert("fixed".to_string(), config("fixed", Some(vec!["www.example.com"]), None, "le"));
    certs.insert("dyn2".to_string(), config("dyn2", None, Some(vec!["other.net"]), "le"));
    assert_eq!(find_matching_certificate(&certs, "www.example.com").unwrap().id, "fixed");
    assert_eq!(find_matching_certificate(&certs, "api.example.com").unwrap().id, "dyn");
    assert_eq!(find_matching_certificate(&certs, "other.net").unwrap().id, "dyn2");
    assert!(find_matching_certificate(&certs, "example.com").is_none());
}

#[test]
fn domain_patterns() {
    assert!(matches_domain("example.com", "example.com"));
    assert!(matches_domain("*.example.com", "www.example.com"));
    assert!(!matches_domain("*.example.com", "example.com"));
    assert!(matches_domain("{a,b}.example.com", "b.example.com"));
    assert!(!matches_domain("a.example.com", "b.example.com"));
}

#[test]
fn orphans_are_listed_in_order() {
    let (_, certs) = setup();
    let all = vec![
        stored("web", "web", "le", "[]", 0),
        stored("gone1", "gone", "le", "[]", 0),
        stored("wild#a", "wild", "le", "[]", 0),
        stored("gone2", "gone", "le", "[]", 0),
    ];
    assert_eq!(certificates_to_remove(&all, &certs), names(&["gone1", "gone2"]));
}

#[test]
fn issued_record_keeps_names_and_request_time() {
    let result = IssuanceResult {
        cert_pem: "C".to_string(),
        key_pem: "K".to_string(),
        ca_pem: "A".to_string(),
        chain_pem: "CH".to_string(),
        expires_at: 77,
        prefer_renew_before: Some(7),
    };
    let n = names(&["a.example.com", "b\"q"]);
    let rec = new_certificate_record("id#a", "id", "le", &n, result, Some(5));
    assert_eq!(rec.names, "[\"a.example.com\",\"b\\\"q\"]");
    assert_eq!(rec.requested_at, 5);
    assert_eq!(rec.id, "id#a");
    assert_eq!(rec.source, "id");
    assert_eq!(rec.provider, "le");
    assert_eq!(rec.cert_pem.as_deref(), Some("C"));
    assert_eq!(rec.prefer_renew_before, Some(7));
    assert_eq!(rec.prefer_renew_after, None);
    let back = stored("id#a", "id", "le", &rec.names, 77).get_names();
    assert_eq!(back, n);
    let again = IssuanceResult {
        cert_pem: "C".to_string(),
        key_pem: "K".to_string(),
        ca_pem: "A".to_string(),
        chain_pem: "CH".to_string(),
        expires_at: 77,
        prefer_renew_before: None,
    };
    let rec = new_certificate_record_at("id", "id", "le", &n, again, None, 1234);
    assert_eq!(rec.requested_at, 1234);
}

#[test]
fn certificate_ids_follow_keys() {
    let mut certs: StrMap<CertificateConfig> = StrMap::new();
    certs.insert("web".to_string(), config("", Some(vec!["a"]), None, "le"));
    certs.insert("api".to_string(), config("wrong", None, Some(vec!["*.b"]), "ca"));
    assign_certificate_ids(&mut certs);
    assert_eq!(certs.get("web").unwrap().id, "web");
    assert_eq!(certs.get("api").unwrap().id, "api");
    assert_eq!(certs.get("api").unwrap().provider, "ca");
}
