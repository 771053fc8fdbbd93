//! A TLS tunnel through an HTTP proxy with HTTP CONNECT (RFC 9110).
//!
//! The client sends one `CONNECT host:port` request, optionally with an
//! authorization header line, and reads the proxy's response until it ends
//! with the empty line that ends its head (or the stream ends). A status
//! code in `200..399` opens the tunnel, over which the client then speaks
//! TLS to the destination host with the configuration of [`HttpsProxy`].
use vstd::prelude::*;
use vstd::string::StringExecFns;

use rustls::ClientConfig;
use rustls_pki_types::{InvalidDnsNameError, ServerName};
use std::sync::Arc;

use crate::auth::Auth;
use crate::errors::Error;
use crate::http::{authorization_line, ends_head, TargetUri};
use crate::response::{Completion, ProxyResponse};

verus! {

/// The TLS client configuration of `rustls`.
#[verifier::external_type_specification]
#[verifier::external_body]
pub struct ExClientConfig(ClientConfig);

/// The name under which `rustls` verifies a server: a DNS name or an IP
/// address.
#[verifier::external_type_specification]
#[verifier::external_body]
pub struct ExServerName<'a>(ServerName<'a>);

/// Whether `host` is a DNS name or an IP address, so that
/// `ServerName::try_from` accepts it.
pub uninterp spec fn is_server_name(host: Seq<char>) -> bool;

/// The server name that `ServerName::try_from` makes of `host`.
pub uninterp spec fn server_name_of(host: Seq<char>) -> ServerName<'static>;

/// `ServerName::try_from(String)`: it succeeds exactly on the hosts that
/// [`is_server_name`] names, and then gives the name [`server_name_of`]
/// the host, which depends on the host's text alone. Which hosts are
/// accepted (the DNS name syntax and the IP address syntax of
/// `rustls_pki_types`) and what the name holds are left to the names.
#[verifier::external_body]
fn server_name(host: &str) -> (r: core::result::Result<ServerName<'static>, InvalidDnsNameError>)
    ensures
        r is Ok <==> is_server_name(host@),
        r matches Ok(name) ==> name == server_name_of(host@),
{
    ServerName::try_from(host.to_string())
}

/// The CONNECT request for a destination with this host and port.
pub open spec fn connect_request(host: Seq<char>, port: Seq<char>, auth: Option<Auth>) -> Seq<
    char,
> {
    let target = host + ":"@ + port;
    "CONNECT "@ + target + " HTTP/1.1\r\nHost: "@ + target + "\r\n"@ + authorization_line(auth) + "\r\n"@
}

/// A client of HTTPS proxies, with the TLS configuration it uses towards
/// destinations.
pub struct HttpsProxy {
    config: Arc<ClientConfig>,
}

impl HttpsProxy {
    /// The TLS configuration of the client.
    pub closed spec fn spec_config(&self) -> Arc<ClientConfig> {
        self.config
    }

    pub fn with_client_config(config: Arc<ClientConfig>) -> (p: Self)
        ensures
            p.spec_config() == config,
    {
        Self { config }
    }

    /// The TLS configuration of the client.
    pub fn client_config(&self) -> (c: &Arc<ClientConfig>)
        ensures
            *c == self.spec_config(),
    {
        &self.config
    }

    /// The TLS server name of `dest`'s host and the CONNECT request that asks the
    /// proxy for a tunnel to it. A URI without a host or without a port is
    /// invalid; a host that is no server name is a DNS error.
    pub fn handshake(dest: &TargetUri, auth: &Option<Auth>) -> (r: Result<
        (ServerName<'static>, String),
        Error,
    >)
        ensures
            r is Ok <==> (dest.host matches Some(h) && is_server_name(h@) && dest.port is Some),
            dest.host is None ==> (r matches Err(e) && e is InvalidURI),
            dest.host matches Some(h) && !is_server_name(h@) ==> (r matches Err(e) && e is DNSError),
            dest.host matches Some(h) && is_server_name(h@) && dest.port is None ==> (r matches Err(
                e,
            ) && e is InvalidURI),
            r matches Ok((name, _)) ==> name == server_name_of(dest.host->Some_0@),
            r matches Ok((_, s)) ==> s@ == connect_request(
                dest.host->Some_0@,
                dest.port->Some_0@,
                *auth,
            ),
    {
        let host = match &dest.host {
            Some(h) => h,
            None => return Err(Error::InvalidURI),
        };
        let name = match server_name(host.as_str()) {
            Ok(name) => name,
            Err(e) => return Err(Error::DNSError(e)),
        };
        let port = match &dest.port {
            Some(p) => p,
            None => return Err(Error::InvalidURI),
        };
        let mut target = String::new();
        target.append(host.as_str());
        target.append(":");
        target.append(port.as_str());
        let mut packet = String::new();
        packet.append("CONNECT ");
        packet.append(target.as_str());
        packet.append(" HTTP/1.1\r\nHost: ");
        packet.append(target.as_str());
        packet.append("\r\n");
        if let Some(Auth::HTTPAuthorizationHeader(header)) = auth {
            packet.append(header.as_str());
            packet.append("\r\n");
        }
        packet.append("\r\n");
        assert(packet@ =~= connect_request(host@, port@, *auth));
        Ok((name, packet))
    }

    /// The response to the CONNECT request: complete once it ends with
    /// `\r\n\r\n`.
    pub fn response() -> (r: ProxyResponse)
        ensures
            r.received@ == Seq::<u8>::empty(),
            r.completion == Completion::BlankLineAtEnd,
    {
        ProxyResponse::new(Completion::BlankLineAtEnd)
    }
}

/// Every CONNECT request ends its head with an empty line, whatever header
/// the client sends.
pub proof fn lemma_connect_request_ends_head(host: Seq<char>, port: Seq<char>, auth: Option<Auth>)
    ensures
        ends_head(connect_request(host, port, auth)),
{
    reveal_strlit("\r\n");
    let target = host + ":"@ + port;
    let before = "CONNECT "@ + target + " HTTP/1.1\r\nHost: "@ + target + "\r\n"@;
    let line = authorization_line(auth);
    let r = connect_request(host, port, auth);
    assert(r == before + line + "\r\n"@);
    if line.len() == 0 {
        assert(before + line =~= before);
    }
    assert((before + line).len() >= 2);
    assert((before + line)[(before + line).len() - 2] == '\r');
    assert((before + line)[(before + line).len() - 1] == '\n');
    assert(r.subrange(r.len() - 4, r.len() as int) =~= seq!['\r', '\n', '\r', '\n']);
}

/// How the authorization header enters the request: only an HTTP
/// authorization header adds a line, and that line is the header exactly as
/// given, just before the empty line that ends the head; with no auth, or
/// with SOCKS credentials, the request is the same as without any.
pub proof fn lemma_connect_request_header(host: Seq<char>, port: Seq<char>, header: String, user: String, pass: String)
    ensures
        ({
            let bare = connect_request(host, port, None);
            &&& connect_request(host, port, Some(Auth::HTTPAuthorizationHeader(header))) == bare.take(
                bare.len() - 2,
            ) + header@ + "\r\n\r\n"@
            &&& connect_request(host, port, Some(Auth::NoAuth)) == bare
            &&& connect_request(host, port, Some(Auth::UserPass(user, pass)))
                == bare
        }),
{
    reveal_strlit("\r\n");
    reveal_strlit("\r\n\r\n");
    let bare = connect_request(host, port, None);
    let with = connect_request(host, port, Some(Auth::HTTPAuthorizationHeader(header)));
    assert(bare.take(bare.len() - 2) + "\r\n"@ =~= bare);
    assert(with =~= bare.take(bare.len() - 2) + header@ + "\r\n\r\n"@);
}

} // verus!
