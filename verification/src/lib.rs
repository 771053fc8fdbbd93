//! A proxy client library: the wire formats and the decisions of the SOCKS4,
//! SOCKS5, HTTP (connect-ip) and HTTPS (CONNECT) client handshakes.
//!
//! The library builds every packet that a client sends to a proxy and decides,
//! from every reply, what the client does next. Opening sockets, writing and
//! reading them, and wrapping a stream in TLS are left to the caller.
use vstd::prelude::*;

pub mod addr;
pub mod auth;
pub mod errors;
pub mod http;
pub mod https;
pub mod response;
pub mod socks4;
pub mod socks5;
pub mod status;

pub use addr::{SocketAddr, SocketAddrV4, SocketAddrV6};
pub use errors::Error;
pub use rustls::{ClientConfig, RootCertStore};
pub use rustls_pki_types::ServerName;

use status::{accepts_status, read_status_code};
use std::borrow::Cow;

verus! {

/// The result type of the library's fallible operations.
pub type Result<T> = core::result::Result<T, errors::Error>;

/// A port number.
///
/// Used with [`NetworkTarget::Domain`] for SOCKS5 connect operations.
#[derive(Clone, Copy, Debug, PartialEq, Eq)]
pub struct Port(pub u16);

/// Where the proxy connects to: an IPv4 or IPv6 socket address
/// ([`NetworkTarget::IP`]), or a domain name and a port
/// ([`NetworkTarget::Domain`]).
#[derive(Clone, Debug)]
pub enum NetworkTarget {
    IP(SocketAddr),
    Domain(String, Port),
}

/// A destination and the proxy through which it is reached.
pub struct Context<T = SocketAddrV4, P = SocketAddrV4> {
    pub destination: T,
    pub proxy: P,
}

impl From<SocketAddrV4> for NetworkTarget {
    fn from(value: SocketAddrV4) -> (t: Self)
        ensures
            t == NetworkTarget::IP(SocketAddr::V4(value)),
    {
        Self::IP(SocketAddr::V4(value))
    }
}

impl From<SocketAddrV6> for NetworkTarget {
    fn from(value: SocketAddrV6) -> (t: Self)
        ensures
            t == NetworkTarget::IP(SocketAddr::V6(value)),
    {
        Self::IP(SocketAddr::V6(value))
    }
}

impl vstd::std_specs::convert::FromSpecImpl<SocketAddrV4> for NetworkTarget {
    open spec fn obeys_from_spec() -> bool {
        true
    }

    open spec fn from_spec(v: SocketAddrV4) -> Self {
        NetworkTarget::IP(SocketAddr::V4(v))
    }
}

impl vstd::std_specs::convert::FromSpecImpl<SocketAddrV6> for NetworkTarget {
    open spec fn obeys_from_spec() -> bool {
        true
    }

    open spec fn from_spec(v: SocketAddrV6) -> Self {
        NetworkTarget::IP(SocketAddr::V6(v))
    }
}

/// Whether a proxy's response is a success: the status code on its first
/// line (the line's second whitespace-separated word, read as a `u16`) lies
/// in `200..399`.
pub fn is_ok_status(utf8_proxy_response: Cow<'_, str>) -> (ok: bool)
    ensures
        ok == accepts_status(utf8_proxy_response@),
{
    let text: &str = match &utf8_proxy_response {
        Cow::Borrowed(s) => s,
        Cow::Owned(s) => s.as_str(),
    };
    match read_status_code(text) {
        Some(code) => 200 <= code && code < 399,
        None => false,
    }
}

} // verus!
