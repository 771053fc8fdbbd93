//! A tunnel through an HTTP proxy with the connect-ip upgrade (RFC 9484).
//!
//! The client sends one `GET` request that asks the proxy to upgrade the
//! connection to `connect-ip` for the destination, optionally with the
//! authorization header line of [`Auth::HTTPAuthorizationHeader`], and reads the proxy's response until the empty
//! line that ends its head (or the end of the stream). A status code in
//! `200..399` opens the tunnel.
//!
//! [`crate::https::HttpsProxy`] is based on HTTP CONNECT and has TLS support;
//! prefer it unless you know what you are doing.
use vstd::prelude::*;
use vstd::string::StringExecFns;

use crate::auth::Auth;
use crate::errors::Error;
use crate::response::{Completion, ProxyResponse};

verus! {

/// The parts of a destination URI that the HTTP handshakes read: the URI as
/// it displays, its host, and its port as written.
#[derive(Clone, Debug)]
pub struct TargetUri {
    pub text: String,
    pub host: Option<String>,
    pub port: Option<String>,
}

/// The authorization header line of the request: present only when `auth`
/// is an HTTP authorization header, which holds the whole line (header name
/// and value) and is sent as it is.
pub open spec fn authorization_line(auth: Option<Auth>) -> Seq<char> {
    match auth {
        Some(Auth::HTTPAuthorizationHeader(header)) => header@ + "\r\n"@,
        _ => Seq::empty(),
    }
}

/// The upgrade request for a destination with this text, host and port.
pub open spec fn upgrade_request(
    text: Seq<char>,
    host: Seq<char>,
    port: Seq<char>,
    auth: Option<Auth>,
) -> Seq<char> {
    "GET "@ + text + " HTTP/1.1\r\nHost: "@ + host + ":"@ + port
        + "\r\nConnection: Upgrade\r\nUpgrade: connect-ip\r\n"@ + authorization_line(auth)
        + "\r\n"@
}

/// The request that asks the proxy to open a tunnel to `dest`. A URI
/// without a host or without a port is invalid.
pub fn request(dest: &TargetUri, auth: &Option<Auth>) -> (r: Result<String, Error>)
    ensures
        r is Ok <==> (dest.host is Some && dest.port is Some),
        r matches Err(e) ==> e is InvalidURI,
        r matches Ok(s) ==> s@ == upgrade_request(
            dest.text@,
            dest.host->Some_0@,
            dest.port->Some_0@,
            *auth,
        ),
{
    let host = match &dest.host {
        Some(h) => h,
        None => return Err(Error::InvalidURI),
    };
    let port = match &dest.port {
        Some(p) => p,
        None => return Err(Error::InvalidURI),
    };
    let mut packet = String::new();
    packet.append("GET ");
    packet.append(dest.text.as_str());
    packet.append(" HTTP/1.1\r\nHost: ");
    packet.append(host.as_str());
    packet.append(":");
    packet.append(port.as_str());
    packet.append("\r\nConnection: Upgrade\r\nUpgrade: connect-ip\r\n");
    if let Some(Auth::HTTPAuthorizationHeader(header)) = auth {
        packet.append(header.as_str());
        packet.append("\r\n");
    }
    packet.append("\r\n");
    assert(packet@ =~= upgrade_request(dest.text@, host@, port@, *auth));
    Ok(packet)
}

/// The response to the upgrade request: complete once `\r\n\r\n` occurs in
/// it.
pub fn response() -> (r: ProxyResponse)
    ensures
        r.received@ == Seq::<u8>::empty(),
        r.completion == Completion::BlankLineAnywhere,
{
    ProxyResponse::new(Completion::BlankLineAnywhere)
}

/// The last four characters of `s` are `\r\n\r\n`: the empty line that
/// ends the head of an HTTP request.
pub open spec fn ends_head(s: Seq<char>) -> bool {
    s.len() >= 4 && s.subrange(s.len() - 4, s.len() as int) == seq!['\r', '\n', '\r', '\n']
}

/// Every upgrade request ends its head with an empty line, whatever header
/// the client sends.
pub proof fn lemma_upgrade_request_ends_head(
    text: Seq<char>,
    host: Seq<char>,
    port: Seq<char>,
    auth: Option<Auth>,
)
    ensures
        ends_head(upgrade_request(text, host, port, auth)),
{
    reveal_strlit("\r\n");
    reveal_strlit("\r\nConnection: Upgrade\r\nUpgrade: connect-ip\r\n");
    let before = "GET "@ + text + " HTTP/1.1\r\nHost: "@ + host + ":"@ + port
        + "\r\nConnection: Upgrade\r\nUpgrade: connect-ip\r\n"@;
    let line = authorization_line(auth);
    let r = upgrade_request(text, host, port, auth);
    assert(r == before + line + "\r\n"@);
    if line.len() == 0 {
        assert(before + line =~= before);
    }
    assert((before + line).len() >= 2);
    assert((before + line)[(before + line).len() - 2] == '\r');
    assert((before + line)[(before + line).len() - 1] == '\n');
    assert(r.subrange(r.len() - 4, r.len() as int) =~= seq!['\r', '\n', '\r', '\n']);
}

/// How the authorization header enters the request: only an HTTP
/// authorization header adds a line, and that line is the header exactly as
/// given, just before the empty line that ends the head; with no auth, or
/// with SOCKS credentials, the request is the same as without any.
pub proof fn lemma_upgrade_request_header(text: Seq<char>, host: Seq<char>, port: Seq<char>, header: String, user: String, pass: String)
    ensures
        ({
            let bare = upgrade_request(text, host, port, None);
            &&& upgrade_request(text, host, port, Some(Auth::HTTPAuthorizationHeader(header))) == bare.take(
                bare.len() - 2,
            ) + header@ + "\r\n\r\n"@
            &&& upgrade_request(text, host, port, Some(Auth::NoAuth)) == bare
            &&& upgrade_request(text, host, port, Some(Auth::UserPass(user, pass)))
                == bare
        }),
{
    reveal_strlit("\r\n");
    reveal_strlit("\r\n\r\n");
    let bare = upgrade_request(text, host, port, None);
    let with = upgrade_request(text, host, port, Some(Auth::HTTPAuthorizationHeader(header)));
    assert(bare.take(bare.len() - 2) + "\r\n"@ =~= bare);
    assert(with =~= bare.take(bare.len() - 2) + header@ + "\r\n\r\n"@);
}

} // verus!
