use vstd::prelude::*;

use crate::config::ProviderConfig;
use crate::error::ProviderError;
use crate::strmap::StrMap;
use crate::text::{
    before_first, chars_of, find_first, occurs_at, str_equal, strs, text_before, trim, trimmed,
};
use crate::types::IssuanceResult;

verus! {

/// One week in milliseconds: providers ask for renewal this long before expiry.
pub const ONE_WEEK_MS: i64 = 604_800_000;

// ---------------------------------------------------------------- provider types

/// The kinds of certificate provider.
#[derive(Debug)]
pub enum ProviderKind {
    /// Let's Encrypt through the acme.sh script, with DNS or webroot validation.
    AcmeSh,
    /// Let's Encrypt through the acme-lib crate, with HTTP-01 validation.
    AcmeLib,
    /// Signing with a local certificate authority.
    Ca,
    /// Certificates read from local files.
    File,
}

/// The provider kind that a configured `type` names.
pub open spec fn provider_kind_of(t: Seq<char>) -> Option<ProviderKind> {
    if t == "acme-sh"@ {
        Some(ProviderKind::AcmeSh)
    } else if t == "acme-lib"@ {
        Some(ProviderKind::AcmeLib)
    } else if t == "ca"@ {
        Some(ProviderKind::Ca)
    } else if t == "file"@ {
        Some(ProviderKind::File)
    } else {
        None
    }
}

/// The provider kind of a configured `type`; `None` for an unknown type, which
/// the service refuses to start with.
pub fn provider_kind(provider_type: &str) -> (r: Option<ProviderKind>)
    ensures
        r == provider_kind_of(provider_type@),
{
    if str_equal(provider_type, "acme-sh") {
        Some(ProviderKind::AcmeSh)
    } else if str_equal(provider_type, "acme-lib") {
        Some(ProviderKind::AcmeLib)
    } else if str_equal(provider_type, "ca") {
        Some(ProviderKind::Ca)
    } else if str_equal(provider_type, "file") {
        Some(ProviderKind::File)
    } else {
        None
    }
}

// ---------------------------------------------------------------- results

/// The renewal hint for a certificate expiring at `expires_at`: one week
/// earlier, when that time is representable.
pub open spec fn renew_before_spec(expires_at: i64) -> Option<i64> {
    if expires_at - ONE_WEEK_MS >= i64::MIN {
        Some((expires_at - ONE_WEEK_MS) as i64)
    } else {
        None
    }
}

/// What a provider hands back: the files, the expiry and a renewal hint one
/// week before expiry.
pub fn issuance_result(
    cert_pem: String,
    key_pem: String,
    ca_pem: String,
    chain_pem: String,
    expires_at: i64,
) -> (r: IssuanceResult)
    ensures
        r.cert_pem == cert_pem,
        r.key_pem == key_pem,
        r.ca_pem == ca_pem,
        r.chain_pem == chain_pem,
        r.expires_at == expires_at,
        r.prefer_renew_before == renew_before_spec(expires_at),
{
    let prefer_renew_before = expires_at.checked_sub(ONE_WEEK_MS);
    IssuanceResult { cert_pem, key_pem, ca_pem, chain_pem, expires_at, prefer_renew_before }
}

// ---------------------------------------------------------------- certificate expiry

/// What `x509_parser` makes of PEM text: the certificate's `notAfter` in
/// seconds since the Unix epoch, or the stage that failed (`true` for the PEM
/// layer, `false` for the X.509 layer) with the error's `Debug` text.
pub uninterp spec fn pem_not_after(pem: Seq<u8>) -> Result<i64, (bool, Seq<char>)>;

/// Reads the expiry of a PEM certificate with `x509_parser::pem::parse_x509_pem`,
/// `Pem::parse_x509` and `ASN1Time::timestamp`. Claimed: the result is the
/// named one for these bytes.
#[verifier::external_body]
fn x509_not_after(pem: &[u8]) -> (r: Result<i64, (bool, String)>)
    ensures
        match r {
            Ok(t) => pem_not_after(pem@) == Ok::<i64, (bool, Seq<char>)>(t),
            Err((stage, text)) => pem_not_after(pem@) == Err::<i64, (bool, Seq<char>)>(
                (stage, text@),
            ),
        },
{
    let (_, parsed) = match x509_parser::pem::parse_x509_pem(pem) {
        Ok(v) => v,
        Err(e) => return Err((true, format!("{:?}", e))),
    };
    match parsed.parse_x509() {
        Ok(cert) => Ok(cert.validity().not_after.timestamp()),
        Err(e) => Err((false, format!("{:?}", e))),
    }
}

/// The expiry, in milliseconds, that a provider reads from a PEM certificate,
/// or the message of the parse error.
pub open spec fn cert_expiry_spec(pem: Seq<u8>) -> Result<int, Seq<char>> {
    match pem_not_after(pem) {
        Ok(t) => if i64::MIN <= t * 1000 <= i64::MAX {
            Ok(t * 1000)
        } else {
            Err("certificate expiry out of range"@)
        },
        Err((true, text)) => Err("Failed to parse PEM: "@ + text),
        Err((false, text)) => Err("Failed to parse X509: "@ + text),
    }
}

/// Reads a certificate's expiry (milliseconds since the Unix epoch) from its PEM text.
pub fn parse_cert_expiry(pem: &[u8]) -> (r: Result<i64, ProviderError>)
    ensures
        match r {
            Ok(t) => cert_expiry_spec(pem@) == Ok::<int, Seq<char>>(t as int),
            Err(ProviderError::ParseError(m)) => cert_expiry_spec(pem@) == Err::<int, Seq<char>>(
                m@,
            ),
            Err(_) => false,
        },
{
    match x509_not_after(pem) {
        Ok(t) => match t.checked_mul(1000) {
            Some(ms) => Ok(ms),
            None => Err(ProviderError::ParseError(String::from_str("certificate expiry out of range"))),
        },
        Err((stage, text)) => {
            let mut m = if stage {
                String::from_str("Failed to parse PEM: ")
            } else {
                String::from_str("Failed to parse X509: ")
            };
            m.append(text.as_str());
            Err(ProviderError::ParseError(m))
        },
    }
}

// ---------------------------------------------------------------- acme-lib

/// The acme-lib account settings a provider configuration gives: the `email`
/// entry of `env` (empty without one), and staging mode when the `staging`
/// entry is `true` or `1`.
pub open spec fn acme_lib_email(config: ProviderConfig) -> Seq<char> {
    match config.env {
        Some(env) => if env@.contains_key("email"@) {
            env@["email"@]@
        } else {
            Seq::empty()
        },
        None => Seq::empty(),
    }
}

/// Whether a provider configuration asks for the staging directory.
pub open spec fn acme_lib_staging(config: ProviderConfig) -> bool {
    match config.env {
        Some(env) => env@.contains_key("staging"@) && (env@["staging"@]@ == "true"@
            || env@["staging"@]@ == "1"@),
        None => false,
    }
}

/// The account e-mail address and staging flag of an acme-lib provider.
pub fn acme_lib_settings(config: &ProviderConfig) -> (r: (String, bool))
    ensures
        r.0@ == acme_lib_email(*config),
        r.1 == acme_lib_staging(*config),
{
    match &config.env {
        Some(env) => {
            let email = match env.get("email") {
                Some(e) => e.clone(),
                None => String::new(),
            };
            let staging = match env.get("staging") {
                Some(s) => str_equal(s.as_str(), "true") || str_equal(s.as_str(), "1"),
                None => false,
            };
            (email, staging)
        },
        None => (String::new(), false),
    }
}

/// The line that ends a PEM certificate.
pub open spec fn end_marker() -> Seq<char> {
    "-----END CERTIFICATE-----"@
}

/// Where the first certificate of a PEM chain ends: just after the first end
/// marker, or at the end of the text when there is none.
pub open spec fn first_cert_end(full: Seq<char>) -> int {
    if exists|i: int| #[trigger] occurs_at(full, end_marker(), i) {
        (choose|i: int|
            occurs_at(full, end_marker(), i) && forall|j: int|
                0 <= j < i ==> !#[trigger] occurs_at(full, end_marker(), j)) + end_marker().len()
    } else {
        full.len() as int
    }
}

/// Splits a PEM chain into its first certificate and the rest, with white
/// space trimmed off the rest (which is empty when the chain holds one
/// certificate).
pub fn split_issued_chain(full: &str) -> (r: (String, String))
    ensures
        r.0@ == full@.subrange(0, first_cert_end(full@)),
        r.1@ == (if first_cert_end(full@) < full@.len() {
            trimmed(full@.subrange(first_cert_end(full@), full@.len() as int))
        } else {
            Seq::empty()
        }),
{
    proof {
        reveal_strlit("-----END CERTIFICATE-----");
    }
    let chars = chars_of(full);
    let marker = chars_of("-----END CERTIFICATE-----");
    let n = chars.len();
    let end: usize = match find_first(&chars, &marker) {
        Some(i) => {
            proof {
                let w = choose|j: int|
                    occurs_at(full@, end_marker(), j) && forall|k: int|
                        0 <= k < j ==> !#[trigger] occurs_at(full@, end_marker(), k);
                if w < i {
                    assert(!occurs_at(full@, end_marker(), w));
                }
                if i < w {
                    assert(!occurs_at(full@, end_marker(), i as int));
                }
            }
            i + marker.len()
        },
        None => n,
    };
    let cert_only = String::from_str(full.substring_char(0, end));
    let rest = if end < n {
        String::from_str(trim(full.substring_char(end, n)))
    } else {
        String::new()
    };
    (cert_only, rest)
}

// ---------------------------------------------------------------- acme.sh

/// The command-line arguments of an acme.sh issuance: configuration home,
/// Let's Encrypt server, DNS plugin or webroot, then `-d` and each name.
pub open spec fn acme_sh_args_spec(
    config_home: Seq<char>,
    dns_plugin: Option<Seq<char>>,
    webroot: Seq<char>,
    names: Seq<Seq<char>>,
) -> Seq<Seq<char>> {
    seq!["--config-home"@, config_home, "--server"@, "letsencrypt"@, "--issue"@] + match dns_plugin {
        Some(d) => seq!["--dns"@, d],
        None => seq!["--webroot"@, webroot],
    } + domain_args(names)
}

/// `-d` followed by each name.
pub open spec fn domain_args(names: Seq<Seq<char>>) -> Seq<Seq<char>>
    decreases names.len(),
{
    if names.len() == 0 {
        Seq::empty()
    } else {
        domain_args(names.drop_last()) + seq!["-d"@, names.last()]
    }
}

/// The characters of an optional string slice.
pub open spec fn opt_slice(o: Option<&str>) -> Option<Seq<char>> {
    match o {
        Some(s) => Some(s@),
        None => None,
    }
}

/// Builds the acme.sh command line for an issuance.
pub fn acme_sh_args(config_home: &str, dns_plugin: Option<&str>, webroot: &str, names: &[String]) -> (r:
    Vec<String>)
    ensures
        strs(r@) == acme_sh_args_spec(config_home@, opt_slice(dns_plugin), webroot@, strs(names@)),
{
    let mut args: Vec<String> = Vec::new();
    args.push(String::from_str("--config-home"));
    args.push(String::from_str(config_home));
    args.push(String::from_str("--server"));
    args.push(String::from_str("letsencrypt"));
    args.push(String::from_str("--issue"));
    match dns_plugin {
        Some(dns) => {
            args.push(String::from_str("--dns"));
            args.push(String::from_str(dns));
        },
        None => {
            args.push(String::from_str("--webroot"));
            args.push(String::from_str(webroot));
        },
    }
    let ghost head = strs(args@);
    let n = names.len();
    let mut i: usize = 0;
    assert(strs(names@).take(0) =~= Seq::<Seq<char>>::empty());
    assert(strs(args@) =~= head + domain_args(strs(names@).take(0)));
    while i < n
        invariant
            n == names@.len(),
            i <= n,
            strs(args@) == head + domain_args(strs(names@).take(i as int)),
        decreases n - i,
    {
        let ghost before = strs(args@);
        args.push(String::from_str("-d"));
        args.push(names[i].clone());
        assert(strs(names@).take(i + 1).drop_last() =~= strs(names@).take(i as int));
        assert(strs(args@) =~= before + seq!["-d"@, names@[i as int]@]);
        i = i + 1;
    }
    assert(strs(names@).take(n as int) =~= strs(names@));
    assert(strs(args@) =~= acme_sh_args_spec(
        config_home@,
        opt_slice(dns_plugin),
        webroot@,
        strs(names@),
    ));
    args
}

/// The environment variables that acme.sh clears.
pub open spec fn is_cleared_variable(k: Seq<char>) -> bool {
    k == "SUDO_COMMAND"@ || k == "SUDO_USER"@ || k == "SUDO_GID"@ || k == "SUDO_UID"@
}

/// Builds the acme.sh environment: the configured variables, `DOMAIN_CERT_ID`
/// set to the certificate id, and the sudo variables set to empty.
pub fn acme_sh_env(env_vars: &StrMap<String>, id: &str) -> (r: StrMap<String>)
    ensures
        forall|k: Seq<char>|
            #[trigger] r@.contains_key(k) <==> (env_vars@.contains_key(k) || k
                == "DOMAIN_CERT_ID"@ || is_cleared_variable(k)),
        r@["DOMAIN_CERT_ID"@]@ == id@,
        forall|k: Seq<char>| is_cleared_variable(k) ==> (#[trigger] r@[k])@ == Seq::<char>::empty(),
        forall|k: Seq<char>|
            #[trigger] env_vars@.contains_key(k) && k != "DOMAIN_CERT_ID"@ && !is_cleared_variable(
                k,
            ) ==> r@[k] == env_vars@[k],
{
    let mut env: StrMap<String> = StrMap::new();
    let n = env_vars.len();
    let mut i: usize = 0;
    while i < env_vars.len()
        invariant
            n == env_vars.pairs().len(),
            i <= n,
            forall|k: Seq<char>|
                #[trigger] env@.contains_key(k) <==> exists|j: int|
                    0 <= j < i && #[trigger] env_vars.pairs()[j].0 == k,
            forall|j: int|
                0 <= j < i ==> env@[#[trigger] env_vars.pairs()[j].0] == env_vars.pairs()[j].1,
        decreases n - i,
    {
        let (k, v) = env_vars.entry_at(i);
        let ghost before = env@;
        env.insert(k.clone(), v.clone());
        assert forall|kk: Seq<char>| #[trigger] env@.contains_key(kk) <==> exists|j: int|
            0 <= j < i + 1 && #[trigger] env_vars.pairs()[j].0 == kk by {
            if env@.contains_key(kk) && kk != k@ {
                let j = choose|j: int| 0 <= j < i && #[trigger] env_vars.pairs()[j].0 == kk;
            }
            if exists|j: int| 0 <= j < i + 1 && #[trigger] env_vars.pairs()[j].0 == kk {
                let j = choose|j: int| 0 <= j < i + 1 && #[trigger] env_vars.pairs()[j].0 == kk;
                if j < i {
                    assert(before.contains_key(kk));
                }
            }
        }
        assert forall|j: int| 0 <= j < i + 1 implies env@[#[trigger] env_vars.pairs()[j].0]
            == env_vars.pairs()[j].1 by {
            if j < i {
                assert(env_vars.pairs()[j].0 != env_vars.pairs()[i as int].0);
            }
        }
        i = i + 1;
    }
    assert forall|k: Seq<char>| #[trigger] env_vars@.contains_key(k) implies env@.contains_key(k)
        && env@[k] == env_vars@[k] by {
        let j = choose|j: int| 0 <= j < n && #[trigger] env_vars.pairs()[j].0 == k;
    }
    assert forall|k: Seq<char>| #[trigger] env@.contains_key(k) implies env_vars@.contains_key(k) by {
        let j = choose|j: int| 0 <= j < n && #[trigger] env_vars.pairs()[j].0 == k;
    }
    proof {
        reveal_strlit("DOMAIN_CERT_ID");
        reveal_strlit("SUDO_COMMAND");
        reveal_strlit("SUDO_USER");
        reveal_strlit("SUDO_UID");
        reveal_strlit("SUDO_GID");
        assert("DOMAIN_CERT_ID"@[0] != "SUDO_COMMAND"@[0]);
        assert("DOMAIN_CERT_ID"@[0] != "SUDO_USER"@[0]);
        assert("DOMAIN_CERT_ID"@[0] != "SUDO_UID"@[0]);
        assert("DOMAIN_CERT_ID"@[0] != "SUDO_GID"@[0]);
    }
    env.insert(String::from_str("DOMAIN_CERT_ID"), String::from_str(id));
    env.insert(String::from_str("SUDO_COMMAND"), String::new());
    env.insert(String::from_str("SUDO_USER"), String::new());
    env.insert(String::from_str("SUDO_UID"), String::new());
    env.insert(String::from_str("SUDO_GID"), String::new());
    env
}

/// Extracts the challenge token from a key authorization line that acme.sh
/// reports: the text before its first `.`, or the whole line when it has none.
pub fn challenge_token(line: &str) -> (r: String)
    ensures
        r@ == before_first(line@, '.'),
{
    text_before(line, '.')
}

/// The primary domain and the alternative names of an acme-lib order: the
/// first name and the rest; an order without names is refused.
pub fn acme_lib_domains(names: &[String]) -> (r: Result<(String, Vec<String>), ProviderError>)
    ensures
        match r {
            Ok((primary, alt)) => names@.len() > 0 && primary@ == names@[0]@ && strs(alt@) == strs(
                names@,
            ).drop_first(),
            Err(ProviderError::IssuanceFailed(m)) => names@.len() == 0 && m@ == "No domains provided"@,
            Err(_) => false,
        },
{
    if names.len() == 0 {
        return Err(ProviderError::IssuanceFailed(String::from_str("No domains provided")));
    }
    let primary = names[0].clone();
    let mut alt: Vec<String> = Vec::new();
    let n = names.len();
    let mut i: usize = 1;
    while i < n
        invariant
            n == names@.len(),
            1 <= i <= n,
            strs(alt@) == strs(names@).subrange(1, i as int),
        decreases n - i,
    {
        let ghost before = strs(alt@);
        alt.push(names[i].clone());
        assert(strs(alt@) =~= before.push(names@[i as int]@));
        assert(strs(alt@) =~= strs(names@).subrange(1, i + 1));
        i = i + 1;
    }
    assert(strs(names@).subrange(1, n as int) =~= strs(names@).drop_first());
    Ok((primary, alt))
}

/// A provider that issues through the acme.sh script.
#[derive(Debug)]
pub struct AcmeShProvider {
    pub id: String,
    /// The provider's own directory, which acme.sh uses as its configuration home.
    pub state_path: String,
    pub dns_plugin: Option<String>,
    pub env_vars: StrMap<String>,
}

impl AcmeShProvider {
    /// An acme.sh provider from its configuration and its directory: the DNS
    /// plugin and the environment variables (none when unset) are taken over.
    pub fn new(id: &str, config: &ProviderConfig, provider_state: String) -> (r: Self)
        ensures
            r.id@ == id@,
            r.state_path == provider_state,
            r.dns_plugin == config.dns,
            match config.env {
                Some(env) => r.env_vars@ == env@,
                None => r.env_vars@ == Map::<Seq<char>, String>::empty(),
            },
    {
        let env_vars = match &config.env {
            Some(env) => env.clone(),
            None => StrMap::new(),
        };
        let dns_plugin = match &config.dns {
            Some(d) => Some(d.clone()),
            None => None,
        };
        AcmeShProvider { id: String::from_str(id), state_path: provider_state, dns_plugin, env_vars }
    }
}

/// A provider that issues through the acme-lib crate with HTTP-01 validation.
#[derive(Debug)]
pub struct AcmeLibProvider {
    pub id: String,
    /// The provider's own directory, where acme-lib keeps the account.
    pub state_path: String,
    pub staging: bool,
    pub email: String,
}

impl AcmeLibProvider {
    /// An acme-lib provider from its configuration and its directory.
    pub fn new(id: &str, config: &ProviderConfig, provider_state: String) -> (r: Self)
        ensures
            r.id@ == id@,
            r.state_path == provider_state,
            r.email@ == acme_lib_email(*config),
            r.staging == acme_lib_staging(*config),
    {
        let (email, staging) = acme_lib_settings(config);
        AcmeLibProvider { id: String::from_str(id), state_path: provider_state, staging, email }
    }
}

/// A provider that reads certificates from files under its directory.
#[derive(Debug)]
pub struct FileProvider {
    pub id: String,
    /// The provider's own directory, with one subdirectory per certificate.
    pub state_path: String,
}

impl FileProvider {
    /// A file provider with its directory.
    pub fn new(id: &str, provider_state: String) -> (r: Self)
        ensures
            r.id@ == id@,
            r.state_path == provider_state,
    {
        FileProvider { id: String::from_str(id), state_path: provider_state }
    }
}

/// The files in which acme.sh leaves an issued certificate `id`: its
/// certificate, its key, and the directory it uses for ECC keys.
pub fn acme_sh_output_names(id: &str) -> (r: (String, String, String))
    ensures
        r.0@ == id@ + ".cer"@,
        r.1@ == id@ + ".key"@,
        r.2@ == id@ + "_ecc"@,
{
    let mut cer = String::from_str(id);
    cer.append(".cer");
    let mut key = String::from_str(id);
    key.append(".key");
    let mut ecc = String::from_str(id);
    ecc.append("_ecc");
    (cer, key, ecc)
}

// ---------------------------------------------------------------- local CA

/// A provider that signs certificates with a local certificate authority.
#[derive(Debug)]
pub struct CaProvider {
    pub id: String,
    pub ca_key_path: String,
    pub ca_cert_path: String,
}

impl CaProvider {
    /// A CA provider from its configuration, which must name the CA's key and
    /// certificate files.
    pub fn new(id: &str, config: &ProviderConfig) -> (r: Self)
        requires
            config.key is Some,
            config.cert is Some,
        ensures
            r.id@ == id@,
            r.ca_key_path == config.key->0,
            r.ca_cert_path == config.cert->0,
    {
        let ca_key_path = match &config.key {
            Some(k) => k.clone(),
            None => String::new(),
        };
        let ca_cert_path = match &config.cert {
            Some(c) => c.clone(),
            None => String::new(),
        };
        CaProvider { id: String::from_str(id), ca_key_path, ca_cert_path }
    }
}

/// Ninety days in milliseconds: the validity of certificates the local CA signs.
pub const NINETY_DAYS_MS: i64 = 7_776_000_000;

/// One hour in milliseconds: certificates the local CA signs start this long
/// before signing, against clock skew.
pub const ONE_HOUR_MS: i64 = 3_600_000;

/// The chain the local CA hands out: the new certificate, a line break and the
/// CA's certificate.
pub fn ca_chain(cert_pem: &str, ca_cert_pem: &str) -> (r: String)
    ensures
        r@ == cert_pem@ + "\n"@ + ca_cert_pem@,
{
    let mut chain = String::from_str(cert_pem);
    chain.append("\n");
    chain.append(ca_cert_pem);
    chain
}

/// The first name of a certificate, which becomes its common name, or
/// `localhost` for a certificate without names.
pub fn common_name(names: &[String]) -> (r: String)
    ensures
        r@ == (if names@.len() > 0 {
            names@[0]@
        } else {
            "localhost"@
        }),
{
    if names.len() > 0 {
        names[0].clone()
    } else {
        String::from_str("localhost")
    }
}

} // verus!
