use acme_distributor::auth::{
    authenticate, build_tokens_map, client_address, first_forwarded_address, hash_token, ip_matches_cidr, network_contains_address,
    AuthError, AuthenticatedRequest, IpAddress, IpNetwork,
};
use acme_distributor::config::TokenConfig;

const SECRET_HASH: &str = "0cabac23a378ec166d60e2f7ce32d0434944812a145ecc4a10791645573950642178a989b898e8802348835bac33f78888d6b400e4fcf791d35cff977577ec6f";

fn v4(a: u8, b: u8, c: u8, d: u8) -> IpAddress {
    IpAddress::V4(u32::from_be_bytes([a, b, c, d]))
}

fn token(hashed: Option<&str>, plain: Option<&str>, allow: Option<Vec<&str>>, restrict: Option<Vec<&str>>) -> TokenConfig {
    TokenConfig {
        hashed: hashed.map(String::from),
        plain: plain.map(String::from),
        allow_from: allow.map(|v| v.into_iter().map(String::from).collect()),
        restrict_names: restrict.map(|v| v.into_iter().map(String::from).collect()),
    }
}

#[test]
fn token_hash_is_lowercase_hex_sha512() {
    assert_eq!(hash_token("secret-token"), SECRET_HASH);
    assert_eq!(&hash_token("")[..16], "cf83e1357eefb8bd");
    assert_eq!(
        hash_token("é"),
        "9e2ad28633f24451bd4f3c1cb20586a21a44c3aeedbdc01b9cc8fa72917ea7bd689c82b8bf1fef89b911cf8cc46fa2c1ccc10087b2094fd4d3350ecd88526a2c"
    );
}

#[test]
fn tokens_table_uses_hash_or_plain_and_later_wins() {
    let tokens = vec![
        token(None, Some("secret-token"), None, Some(vec!["a"])),
        token(Some("abc"), Some("ignored"), None, None),
        token(None, None, None, None),
        token(Some(SECRET_HASH), None, None, Some(vec!["b"])),
    ];
    let map = build_tokens_map(&tokens);
    assert_eq!(map.len(), 2);
    assert!(map.contains_key("abc"));
    assert!(!map.contains_key(&hash_token("ignored")));
    let t = map.get(SECRET_HASH).unwrap();
    assert_eq!(t.restrict_names, Some(vec!["b".to_string()]));
}

#[test]
fn authentication_outcomes() {
    let tokens = build_tokens_map(&[
        token(None, Some("open"), None, None),
        token(None, Some("lan"), Some(vec!["10.0.0.0/8", "192.168.1.7", "bogus/x", "::1"]), None),
    ]);
    assert!(matches!(authenticate(None, &tokens, v4(1, 2, 3, 4)), Err(AuthError::MissingCredential)));
    assert!(matches!(authenticate(Some("nope"), &tokens, v4(1, 2, 3, 4)), Err(AuthError::InvalidToken)));
    assert!(matches!(authenticate(Some("lan"), &tokens, v4(11, 0, 0, 1)), Err(AuthError::IpNotAllowed)));
    let ok = authenticate(Some("lan"), &tokens, v4(10, 200, 0, 1)).unwrap();
    assert!(matches!(ok.client_ip, IpAddress::V4(x) if x == u32::from_be_bytes([10, 200, 0, 1])));
    assert_eq!(ok.token_config.plain.as_deref(), Some("lan"));
    assert!(authenticate(Some("lan"), &tokens, v4(192, 168, 1, 7)).is_ok());
    assert!(authenticate(Some("lan"), &tokens, IpAddress::V6(1)).is_ok());
    assert!(authenticate(Some("open"), &tokens, IpAddress::V6(99)).is_ok());
}

#[test]
fn cidr_matching() {
    assert!(ip_matches_cidr(&v4(10, 1, 2, 3), "10.0.0.0/8"));
    assert!(!ip_matches_cidr(&v4(11, 1, 2, 3), "10.0.0.0/8"));
    assert!(ip_matches_cidr(&v4(8, 8, 8, 8), "0.0.0.0/0"));
    assert!(ip_matches_cidr(&v4(8, 8, 8, 8), "8.8.8.8/32"));
    assert!(!ip_matches_cidr(&v4(8, 8, 8, 9), "8.8.8.8/32"));
    assert!(ip_matches_cidr(&v4(8, 8, 8, 8), "8.8.8.8"));
    assert!(!ip_matches_cidr(&IpAddress::V6(0x0808_0808), "8.8.8.8"));
    assert!(ip_matches_cidr(&IpAddress::V6(0x2001_0db8 << 96), "2001:db8::/32"));
    assert!(ip_matches_cidr(&IpAddress::V6(5), "::/0"));
    assert!(!ip_matches_cidr(&v4(10, 0, 0, 1), "::/0"));
    assert!(!ip_matches_cidr(&v4(10, 0, 0, 1), "10.0.0.0/33"));
    assert!(!ip_matches_cidr(&v4(10, 0, 0, 1), "garbage"));
    let net = IpNetwork { addr: v4(192, 168, 0, 0), prefix_len: 16 };
    assert!(network_contains_address(&net, &v4(192, 168, 255, 1)));
    assert!(!network_contains_address(&net, &v4(192, 169, 0, 1)));
}

#[test]
fn domain_restrictions() {
    let any = AuthenticatedRequest { token_config: token(None, Some("x"), None, None), client_ip: v4(1, 1, 1, 1) };
    assert!(any.can_access_domain("anything.example"));
    let some = AuthenticatedRequest {
        token_config: token(None, Some("x"), None, Some(vec!["*.example.com", "exact.org"])),
        client_ip: v4(1, 1, 1, 1),
    };
    assert!(some.can_access_domain("www.example.com"));
    assert!(some.can_access_domain("exact.org"));
    assert!(!some.can_access_domain("example.com"));
    assert!(!some.can_access_domain("www.exact.org"));
}

#[test]
fn forwarded_client_address() {
    assert_eq!(first_forwarded_address("203.0.113.7, 10.0.0.1"), "203.0.113.7");
    assert_eq!(first_forwarded_address("  198.51.100.2  "), "198.51.100.2");
    assert_eq!(first_forwarded_address(" 2001:db8::1 ,x"), "2001:db8::1");
    assert_eq!(first_forwarded_address(""), "");
}

#[test]
fn client_address_prefers_forwarded_then_peer() {
    let peer = Some(v4(10, 0, 0, 9));
    assert!(matches!(client_address(Some("203.0.113.7, 10.0.0.1"), v4_opt(10, 0, 0, 9)), IpAddress::V4(a) if a == u32::from_be_bytes([203, 0, 113, 7])));
    assert!(matches!(client_address(Some("not an address"), peer), IpAddress::V4(a) if a == u32::from_be_bytes([10, 0, 0, 9])));
    assert!(matches!(client_address(None, None), IpAddress::V4(0x7f00_0001)));
    assert!(matches!(client_address(Some(" ::1 "), None), IpAddress::V6(1)));
}

fn v4_opt(a: u8, b: u8, c: u8, d: u8) -> Option<IpAddress> {
    Some(v4(a, b, c, d))
}
