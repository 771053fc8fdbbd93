//! The errors of the library.
use vstd::prelude::*;

use rustls_pki_types::InvalidDnsNameError;

verus! {

/// The error that `rustls_pki_types` reports for a host that is neither a DNS
/// name nor an IP address.
#[verifier::external_type_specification]
#[verifier::external_body]
pub struct ExInvalidDnsNameError(InvalidDnsNameError);

/// An I/O error, as the caller's socket operations report it.
#[verifier::external_type_specification]
#[verifier::external_body]
pub struct ExIoError(std::io::Error);

/// Everything that can go wrong while talking to a proxy.
#[derive(Debug)]
pub enum Error {
    /// The destination URI has no host or no port.
    InvalidURI,
    /// No proxy address was given.
    SocksProxyAddrNotSet,
    /// No destination address was given.
    SocksTargetAddrNotSet,
    /// The proxy answered, but not with a success; the text says why.
    ProxyResponseNotOk(String),
    /// The destination host is not a valid TLS server name.
    DNSError(InvalidDnsNameError),
    /// A socket operation failed.
    Other(std::io::Error),
}

impl From<std::io::Error> for Error {
    fn from(e: std::io::Error) -> (r: Self)
        ensures
            r == Error::Other(e),
    {
        Error::Other(e)
    }
}

impl vstd::std_specs::convert::FromSpecImpl<std::io::Error> for Error {
    open spec fn obeys_from_spec() -> bool {
        true
    }

    open spec fn from_spec(e: std::io::Error) -> Self {
        Error::Other(e)
    }
}

impl From<InvalidDnsNameError> for Error {
    fn from(e: InvalidDnsNameError) -> (r: Self)
        ensures
            r == Error::DNSError(e),
    {
        Error::DNSError(e)
    }
}

impl vstd::std_specs::convert::FromSpecImpl<InvalidDnsNameError> for Error {
    open spec fn obeys_from_spec() -> bool {
        true
    }

    open spec fn from_spec(e: InvalidDnsNameError) -> Self {
        Error::DNSError(e)
    }
}

impl Error {
    /// The error holds a proxy refusal with exactly this text.
    pub open spec fn is_refusal(self, text: Seq<char>) -> bool {
        self matches Error::ProxyResponseNotOk(m) && m@ == text
    }

    /// Builds a proxy refusal that carries `text`.
    pub fn refusal(text: &str) -> (e: Error)
        ensures
            e.is_refusal(text@),
    {
        Error::ProxyResponseNotOk(text.to_string())
    }
}

} // verus!
