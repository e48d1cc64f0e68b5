use vstd::prelude::*;

verus! {

/// `std::io::Error`, carried through without being looked into.
#[verifier::external_type_specification]
#[verifier::external_body]
pub struct ExIoError(std::io::Error);

/// The text of an I/O error, from its `Display` implementation; nothing is
/// stated of it.
#[verifier::external_body]
fn io_error_text(e: &std::io::Error) -> String {
    e.to_string()
}

/// Errors of the service as a whole.
#[derive(Debug)]
pub enum AcmeError {
    NotFound,
    Unauthorized,
    IpNotAllowed,
    Provider(String),
    Database(String),
    Io(std::io::Error),
}

/// Why a provider could not issue a certificate.
#[derive(Debug)]
pub enum ProviderError {
    IssuanceFailed(String),
    Io(std::io::Error),
    ParseError(String),
    ConfigError(String),
}

impl ProviderError {
    /// The error as text, for logs.
    pub fn message(&self) -> (r: String)
        ensures
            match self {
                ProviderError::IssuanceFailed(m) => r@ == "Issuance failed: "@ + m@,
                ProviderError::ParseError(m) => r@ == "Certificate parsing error: "@ + m@,
                ProviderError::ConfigError(m) => r@ == "Configuration error: "@ + m@,
                ProviderError::Io(_) => r@.len() >= "IO error: "@.len() && r@.subrange(
                    0,
                    "IO error: "@.len() as int,
                ) == "IO error: "@,
            },
    {
        let (prefix, detail) = match self {
            ProviderError::IssuanceFailed(m) => ("Issuance failed: ", m.clone()),
            ProviderError::Io(e) => ("IO error: ", io_error_text(e)),
            ProviderError::ParseError(m) => ("Certificate parsing error: ", m.clone()),
            ProviderError::ConfigError(m) => ("Configuration error: ", m.clone()),
        };
        let mut s = String::from_str(prefix);
        let ghost p = s@;
        s.append(detail.as_str());
        assert(s@.subrange(0, p.len() as int) =~= p);
        s
    }
}

} // verus!
