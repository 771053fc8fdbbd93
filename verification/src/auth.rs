//! Authentication for HTTP/HTTPS and SOCKS4/SOCKS5 proxies.
//!
//! See [`Auth`] for the available authentication methods.
use vstd::prelude::*;

verus! {

/// How the client authenticates itself to the proxy.
pub enum Auth {
    /// Use when no authentication is required
    NoAuth,
    /// Header name separated by a colon and header value, such as
    /// `Auth::HTTPAuthorizationHeader("Proxy-Authorization: Basic <encoded>".into())`
    HTTPAuthorizationHeader(String),
    /// SOCKS5 username/password authentication
    UserPass(String, String),
}

} // verus!
