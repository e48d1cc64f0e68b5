use vstd::prelude::*;

use crate::strmap::StrMap;
use crate::text::{clone_opt_string, clone_opt_strings, opt_str, opt_strs};

verus! {

/// The configuration of the service.
#[derive(Debug)]
pub struct Config {
    pub server: ServerConfig,
    /// Directory for the database and the providers' files.
    pub state: String,
    pub providers: StrMap<ProviderConfig>,
    pub certificates: StrMap<CertificateConfig>,
    pub tokens: Vec<TokenConfig>,
}

/// Where the HTTP server listens.
#[derive(Debug)]
pub struct ServerConfig {
    pub host: String,
    pub port: u16,
    pub trust_proxy: Option<String>,
}

/// One certificate provider: its type and the settings that type reads.
#[derive(Debug)]
pub struct ProviderConfig {
    pub provider_type: String,
    pub dns: Option<String>,
    pub env: Option<StrMap<String>>,
    pub key: Option<String>,
    pub cert: Option<String>,
}

/// One configured certificate: fixed names, or domain patterns for which a
/// certificate is made on demand, and the provider that issues it.
#[derive(Debug)]
pub struct CertificateConfig {
    pub id: String,
    pub names: Option<Vec<String>>,
    pub domains: Option<Vec<String>>,
    pub provider: String,
}

/// An access token: its SHA-512 hash or the token itself, the addresses it may
/// be used from and the names it may fetch.
#[derive(Debug)]
pub struct TokenConfig {
    pub hashed: Option<String>,
    pub plain: Option<String>,
    pub allow_from: Option<Vec<String>>,
    pub restrict_names: Option<Vec<String>>,
}

/// A token's settings, taken by their characters.
pub struct TokenView {
    pub hashed: Option<Seq<char>>,
    pub plain: Option<Seq<char>>,
    pub allow_from: Option<Seq<Seq<char>>>,
    pub restrict_names: Option<Seq<Seq<char>>>,
}

impl View for TokenConfig {
    type V = TokenView;

    open spec fn view(&self) -> TokenView {
        TokenView {
            hashed: opt_str(self.hashed),
            plain: opt_str(self.plain),
            allow_from: opt_strs(self.allow_from),
            restrict_names: opt_strs(self.restrict_names),
        }
    }
}

impl Clone for TokenConfig {
    fn clone(&self) -> (r: Self)
        ensures
            r@ == self@,
    {
        TokenConfig {
            hashed: clone_opt_string(&self.hashed),
            plain: clone_opt_string(&self.plain),
            allow_from: clone_opt_strings(&self.allow_from),
            restrict_names: clone_opt_strings(&self.restrict_names),
        }
    }
}


/// Gives every configured certificate the id under which it is configured,
/// changing nothing else and keeping the order.
pub fn assign_certificate_ids(certs: &mut StrMap<CertificateConfig>)
    ensures
        final(certs).pairs().len() == old(certs).pairs().len(),
        forall|i: int|
            0 <= i < old(certs).pairs().len() ==> {
                let (k, c) = #[trigger] final(certs).pairs()[i];
                let (k0, c0) = old(certs).pairs()[i];
                &&& k == k0
                &&& c.id@ == k
                &&& opt_strs(c.names) == opt_strs(c0.names)
                &&& opt_strs(c.domains) == opt_strs(c0.domains)
                &&& c.provider == c0.provider
            },
{
    let ghost start = certs.pairs();
    let n = certs.len();
    let mut i: usize = 0;
    while i < n
        invariant
            n == certs.pairs().len(),
            n == start.len(),
            i <= n,
            forall|j: int|
                i <= j < n ==> #[trigger] certs.pairs()[j] == start[j],
            forall|j: int|
                0 <= j < i ==> {
                    let (k, c) = #[trigger] certs.pairs()[j];
                    let (k0, c0) = start[j];
                    &&& k == k0
                    &&& c.id@ == k
                    &&& opt_strs(c.names) == opt_strs(c0.names)
                    &&& opt_strs(c.domains) == opt_strs(c0.domains)
                    &&& c.provider == c0.provider
                },
        decreases n - i,
    {
        let (k, c) = certs.entry_at(i);
        let updated = CertificateConfig {
            id: k.clone(),
            names: clone_opt_strings(&c.names),
            domains: clone_opt_strings(&c.domains),
            provider: c.provider.clone(),
        };
        certs.set_value_at(i, updated);
        i = i + 1;
    }
}

} // verus!
