//! The client side of the SOCKS5 CONNECT operation (RFC 1928), with the
//! username/password authentication of RFC 1929.
//!
//! The handshake is a conversation of up to three exchanges:
//! 1. the greeting, which offers one authentication method, and the proxy's
//!    choice of method;
//! 2. when the proxy chose username/password, the credentials and the
//!    proxy's verdict on them;
//! 3. the CONNECT request for the destination and the proxy's reply, which
//!    is read exactly: its four-byte head (version, status, reserved, address
//!    type), then the bound address that the head announces (4 bytes for
//!    IPv4, 16 for IPv6, a length byte and that many bytes for a domain name)
//!    and its two-byte port. No byte relayed from the destination is read.
//!    A granted reply whose address type was not read, or is none of these
//!    three, establishes the connection at once, as any reply with status 0
//!    does.
//!
//! [`Socks5Handshake`] holds the state of that conversation. The caller
//! sends the greeting that [`Socks5Handshake::new`] returns, reads the
//! proxy's answer into a zeroed buffer and hands it to
//! [`Socks5Handshake::on_reply`], which says what to send next or how the
//! handshake ended.
use vstd::prelude::*;

use crate::addr::{lemma_port_bytes_big_endian, port_bytes, port_to_be_bytes, SocketAddr};
use crate::auth::Auth;
use crate::errors::Error;
use crate::NetworkTarget;

verus! {

pub const VERSION_5: u8 = 0x05;

pub const CONNECT_REQUEST: u8 = 0x01;

pub const NULL: u8 = 0x00;

pub const IPV4: u8 = 0x01;

pub const IPV6: u8 = 0x04;

pub const DOMAIN: u8 = 0x03;

/// The version byte of the username/password sub-negotiation.
pub const AUTH_VERSION: u8 = 0x01;

/// The length of the replies to the greeting and to the credentials.
pub const SHORT_REPLY_LEN: usize = 2;

/// The authentication methods that the client can offer.
#[derive(Debug, Clone, Copy, PartialEq, Eq)]
pub enum AuthMethods {
    NoAuth,
    UserPass,
}

impl AuthMethods {
    pub open spec fn spec_code(self) -> u8 {
        match self {
            AuthMethods::NoAuth => 0x00,
            AuthMethods::UserPass => 0x02,
        }
    }

    /// The byte that stands for the method on the wire.
    #[verifier::when_used_as_spec(spec_code)]
    pub fn code(self) -> (c: u8)
        ensures
            c == self.spec_code(),
    {
        match self {
            AuthMethods::NoAuth => 0x00,
            AuthMethods::UserPass => 0x02,
        }
    }
}

/// The method that the client offers: username/password when it has
/// credentials, no authentication otherwise.
pub open spec fn offered_method(auth: Auth) -> AuthMethods {
    match auth {
        Auth::UserPass(_, _) => AuthMethods::UserPass,
        _ => AuthMethods::NoAuth,
    }
}

/// The greeting: version 5, one method, the offered method.
pub open spec fn greeting(auth: Auth) -> Seq<u8> {
    seq![VERSION_5, 0x01u8, offered_method(auth).spec_code()]
}

/// The UTF-8 bytes of a string.
pub open spec fn utf8(s: Seq<char>) -> Seq<u8> {
    vstd::utf8::encode_utf8(s)
}

/// The credentials packet: sub-negotiation version 1, then the user name and
/// the password, each preceded by the low byte of its length in bytes.
pub open spec fn auth_request(user: Seq<char>, pass: Seq<char>) -> Seq<u8> {
    seq![AUTH_VERSION, utf8(user).len() as u8] + utf8(user) + seq![utf8(pass).len() as u8] + utf8(
        pass,
    )
}

/// The address type, the address and the port of a destination, as the
/// CONNECT request carries them. A domain name is preceded by the low byte
/// of its length in bytes.
pub open spec fn address_field(destination: NetworkTarget) -> Seq<u8> {
    match destination {
        NetworkTarget::IP(SocketAddr::V4(a)) => seq![IPV4] + a.ip@ + port_bytes(a.port),
        NetworkTarget::IP(SocketAddr::V6(a)) => seq![IPV6] + a.ip@ + port_bytes(a.port),
        NetworkTarget::Domain(name, port) => seq![DOMAIN, utf8(name@).len() as u8] + utf8(name@)
            + port_bytes(port.0),
    }
}

/// The CONNECT request for `destination`.
pub open spec fn connect_request(destination: NetworkTarget) -> Seq<u8> {
    seq![VERSION_5, CONNECT_REQUEST, NULL] + address_field(destination)
}

/// The head of the reply to a CONNECT request: version, status, a reserved
/// byte and the type of the bound address that follows.
pub const CONNECT_REPLY_HEAD_LEN: usize = 4;

/// The length of the bound address and port that follow a CONNECT reply
/// head whose address type is `atyp`, for the known types other than a
/// domain name (whose length is carried in a byte of its own).
pub open spec fn bound_address_len(atyp: u8) -> int {
    if atyp == IPV4 {
        4int + 2
    } else {
        16int + 2
    }
}

/// What a refused method choice means.
pub open spec fn method_refusal_text(method: u8) -> Seq<char> {
    if method == 255 {
        "preferred auth method rejected"@
    } else {
        "unknown status reply from proxy server"@
    }
}

/// Reading filled the whole head of a CONNECT reply (`n` bytes of it), and
/// its address type is IPv4, IPv6 or a domain name: a bound address of known
/// length follows.
pub open spec fn announces_bound_address(reply: Seq<u8>, n: int) -> bool {
    n >= CONNECT_REPLY_HEAD_LEN && (reply[3] == IPV4 || reply[3] == IPV6 || reply[3] == DOMAIN)
}

/// What a refused CONNECT request means.
pub open spec fn connect_refusal_text(code: u8) -> Seq<char> {
    if code == 0x01 {
        "general SOCKS server failure"@
    } else if code == 0x02 {
        "connection not allowed by ruleset"@
    } else if code == 0x03 {
        "Network unreachable"@
    } else if code == 0x04 {
        "Host unreachable"@
    } else if code == 0x05 {
        "Connection refused"@
    } else if code == 0x06 {
        "TTL expired"@
    } else if code == 0x07 {
        "Command not supported"@
    } else if code == 0x08 {
        "Address type not supported"@
    } else if code == 0x09 {
        "unassigned x'FF'"@
    } else {
        "unknown reply from proxy server on CONNECT request"@
    }
}

/// A method choice that the client accepts.
#[derive(Debug)]
pub struct AuthReply;

impl AuthReply {
    /// Reads the proxy's choice of method: 0 (no authentication) and 2
    /// (username/password) are accepted, 255 means that the offered method
    /// was rejected, anything else is unknown.
    pub fn try_from(value: u8) -> (r: Result<AuthReply, Error>)
        ensures
            r is Ok <==> (value == 0 || value == 2),
            r matches Err(e) ==> e.is_refusal(method_refusal_text(value)),
    {
        match value {
            0 | 2 => Ok(AuthReply),
            255 => Err(Error::refusal("preferred auth method rejected")),
            _ => Err(Error::refusal("unknown status reply from proxy server")),
        }
    }
}

/// Where the conversation with the proxy stands.
#[derive(Debug, Clone, Copy, PartialEq, Eq)]
pub enum Socks5Stage {
    /// The greeting was sent; the proxy's choice of method is awaited.
    AwaitingMethod,
    /// The credentials were sent; the proxy's verdict is awaited.
    AwaitingAuth,
    /// The CONNECT request was sent; the head of the proxy's reply is awaited.
    AwaitingConnect,
    /// The proxy accepted the CONNECT request with a domain name as bound
    /// address; the byte that holds the name's length is awaited.
    AwaitingBoundNameLength,
    /// The proxy accepted the CONNECT request; the rest of its reply (the
    /// bound address and port) is awaited.
    AwaitingBoundAddress,
    /// The proxy accepted the CONNECT request.
    Established,
    /// The handshake failed.
    Failed,
}

impl Socks5Stage {
    /// A reply is awaited.
    pub open spec fn is_awaiting(self) -> bool {
        self is AwaitingMethod || self is AwaitingAuth || self is AwaitingConnect
            || self is AwaitingBoundNameLength || self is AwaitingBoundAddress
    }

    /// How far the conversation has come.
    pub open spec fn rank(self) -> int {
        match self {
            Socks5Stage::AwaitingMethod => 0,
            Socks5Stage::AwaitingAuth => 1,
            Socks5Stage::AwaitingConnect => 2,
            Socks5Stage::AwaitingBoundNameLength => 3,
            Socks5Stage::AwaitingBoundAddress => 4,
            _ => 5,
        }
    }

    /// How many bytes of the reply awaited in this stage the client looks
    /// at: the reply buffer holds at least these.
    pub open spec fn head_len(self) -> int {
        match self {
            Socks5Stage::AwaitingMethod => SHORT_REPLY_LEN as int,
            Socks5Stage::AwaitingAuth => SHORT_REPLY_LEN as int,
            Socks5Stage::AwaitingConnect => CONNECT_REPLY_HEAD_LEN as int,
            Socks5Stage::AwaitingBoundNameLength => 1,
            _ => 0,
        }
    }
}

/// What the client does after a reply, as a mathematical value.
pub enum Socks5Outcome {
    /// Send `packet`, then read a reply into a buffer of `reply_len` bytes;
    /// the conversation moves to `next`.
    Send { packet: Seq<u8>, reply_len: int, next: Socks5Stage },
    /// The proxy accepted the CONNECT request.
    Established,
    /// The handshake failed with this refusal text.
    Failed(Seq<char>),
}

/// What the client does when, in `stage`, reading the proxy's reply filled
/// the first `n` bytes of the zeroed reply buffer `reply`.
pub open spec fn outcome(
    stage: Socks5Stage,
    auth: Auth,
    destination: NetworkTarget,
    reply: Seq<u8>,
    n: int,
) -> Socks5Outcome {
    let connect = Socks5Outcome::Send {
        packet: connect_request(destination),
        reply_len: CONNECT_REPLY_HEAD_LEN as int,
        next: Socks5Stage::AwaitingConnect,
    };
    match stage {
        Socks5Stage::AwaitingMethod => {
            if n == 0 {
                Socks5Outcome::Failed("proxy server didn't reply"@)
            } else if reply[1] == 0 {
                connect
            } else if reply[1] == 2 {
                match auth {
                    Auth::UserPass(user, pass) => Socks5Outcome::Send {
                        packet: auth_request(user@, pass@),
                        reply_len: SHORT_REPLY_LEN as int,
                        next: Socks5Stage::AwaitingAuth,
                    },
                    _ => Socks5Outcome::Failed(
                        "handshake established for user pass auth but it was not provided by client"@,
                    ),
                }
            } else {
                Socks5Outcome::Failed(method_refusal_text(reply[1]))
            }
        },
        Socks5Stage::AwaitingAuth => {
            if n == 0 {
                Socks5Outcome::Failed(
                    "proxy server didn't reply, it should've verified our user pass request"@,
                )
            } else if reply[1] != 0 {
                Socks5Outcome::Failed("auth failure"@)
            } else {
                connect
            }
        },
        Socks5Stage::AwaitingConnect => {
            if n == 0 {
                Socks5Outcome::Failed(
                    "proxy server didn't reply, it should've replied to our CONNECT request"@,
                )
            } else if reply[1] != 0 {
                Socks5Outcome::Failed(connect_refusal_text(reply[1]))
            } else if !announces_bound_address(reply, n) {
                Socks5Outcome::Established
            } else if reply[3] == DOMAIN {
                Socks5Outcome::Send {
                    packet: Seq::empty(),
                    reply_len: 1,
                    next: Socks5Stage::AwaitingBoundNameLength,
                }
            } else {
                Socks5Outcome::Send {
                    packet: Seq::empty(),
                    reply_len: bound_address_len(reply[3]),
                    next: Socks5Stage::AwaitingBoundAddress,
                }
            }
        },
        Socks5Stage::AwaitingBoundNameLength => Socks5Outcome::Send {
            packet: Seq::empty(),
            reply_len: reply[0] + 2,
            next: Socks5Stage::AwaitingBoundAddress,
        },
        _ => Socks5Outcome::Established,
    }
}

/// What the client does after a reply.
pub enum Socks5Step {
    /// Send `packet`, then read the proxy's reply into a zeroed buffer of
    /// `reply_len` bytes and hand it to [`Socks5Handshake::on_reply`].
    Send { packet: Vec<u8>, reply_len: usize },
    /// The proxy accepted the CONNECT request: the connection is ready.
    Established,
    /// The handshake failed.
    Failed(Error),
}

impl Socks5Step {
    /// This step carries out `o`, the handshake moving to `stage`.
    pub open spec fn carries_out(self, o: Socks5Outcome, stage: Socks5Stage) -> bool {
        match o {
            Socks5Outcome::Send { packet, reply_len, next } => {
                &&& self matches Socks5Step::Send { packet: p, reply_len: l }
                &&& p@ == packet
                &&& l == reply_len
                &&& stage == next
            },
            Socks5Outcome::Established => self is Established && stage
                == Socks5Stage::Established,
            Socks5Outcome::Failed(text) => {
                &&& self matches Socks5Step::Failed(e)
                &&& e.is_refusal(text)
                &&& stage == Socks5Stage::Failed
            },
        }
    }
}

/// The state of a SOCKS5 handshake.
pub struct Socks5Handshake {
    pub stage: Socks5Stage,
    pub auth: Auth,
    pub destination: NetworkTarget,
}

/// Appends `bytes` to `v`.
fn push_all(v: &mut Vec<u8>, bytes: &[u8])
    ensures
        final(v)@ == old(v)@ + bytes@,
{
    let ghost start = v@;
    for i in 0..bytes.len()
        invariant
            v@ == start + bytes@.take(i as int),
    {
        v.push(bytes[i]);
        assert(start + bytes@.take(i + 1) =~= start + bytes@.take(i as int) + seq![bytes@[i as int]]);
    }
    assert(bytes@.take(bytes@.len() as int) =~= bytes@);
}

/// The greeting for `auth`.
pub fn greeting_packet(auth: &Auth) -> (packet: [u8; 3])
    ensures
        packet@ == greeting(*auth),
{
    let method = match auth {
        Auth::UserPass(_, _) => AuthMethods::UserPass,
        _ => AuthMethods::NoAuth,
    };
    let packet = [VERSION_5, 0x01, method.code()];
    assert(packet@ =~= greeting(*auth));
    packet
}

/// The credentials packet for `user` and `pass`.
pub fn auth_request_packet(user: &String, pass: &String) -> (packet: Vec<u8>)
    ensures
        packet@ == auth_request(user@, pass@),
{
    let user_bytes = user.as_str().as_bytes();
    let pass_bytes = pass.as_str().as_bytes();
    let mut packet: Vec<u8> = Vec::new();
    packet.push(AUTH_VERSION);
    packet.push(user_bytes.len() as u8);
    push_all(&mut packet, user_bytes);
    packet.push(pass_bytes.len() as u8);
    push_all(&mut packet, pass_bytes);
    assert(packet@ =~= auth_request(user@, pass@));
    packet
}

/// The CONNECT request for `destination`.
pub fn connect_request_packet(destination: &NetworkTarget) -> (packet: Vec<u8>)
    ensures
        packet@ == connect_request(*destination),
{
    let mut packet: Vec<u8> = Vec::new();
    packet.push(VERSION_5);
    packet.push(CONNECT_REQUEST);
    packet.push(NULL);
    match destination {
        NetworkTarget::IP(SocketAddr::V4(a)) => {
            packet.push(IPV4);
            push_all(&mut packet, &a.ip);
            push_all(&mut packet, &port_to_be_bytes(a.port));
        },
        NetworkTarget::IP(SocketAddr::V6(a)) => {
            packet.push(IPV6);
            push_all(&mut packet, &a.ip);
            push_all(&mut packet, &port_to_be_bytes(a.port));
        },
        NetworkTarget::Domain(name, port) => {
            let name_bytes = name.as_str().as_bytes();
            packet.push(DOMAIN);
            packet.push(name_bytes.len() as u8);
            push_all(&mut packet, name_bytes);
            push_all(&mut packet, &port_to_be_bytes(port.0));
        },
    }
    assert(packet@ =~= connect_request(*destination));
    packet
}


/// The error that carries the text of a refused CONNECT request.
fn connect_refusal(code: u8) -> (e: Error)
    ensures
        e.is_refusal(connect_refusal_text(code)),
{
    match code {
        0x01 => Error::refusal("general SOCKS server failure"),
        0x02 => Error::refusal("connection not allowed by ruleset"),
        0x03 => Error::refusal("Network unreachable"),
        0x04 => Error::refusal("Host unreachable"),
        0x05 => Error::refusal("Connection refused"),
        0x06 => Error::refusal("TTL expired"),
        0x07 => Error::refusal("Command not supported"),
        0x08 => Error::refusal("Address type not supported"),
        0x09 => Error::refusal("unassigned x'FF'"),
        _ => Error::refusal("unknown reply from proxy server on CONNECT request"),
    }
}

impl Socks5Handshake {
    /// Starts a handshake for `destination`, authenticating with `auth`.
    /// Returns the handshake and the greeting to send; the reply to the
    /// greeting is read into a buffer of [`SHORT_REPLY_LEN`] bytes.
    pub fn new(destination: NetworkTarget, auth: Auth) -> (res: (Socks5Handshake, [u8; 3]))
        ensures
            res.0.stage == Socks5Stage::AwaitingMethod,
            res.0.auth == auth,
            res.0.destination == destination,
            res.1@ == greeting(auth),
    {
        let packet = greeting_packet(&auth);
        (Socks5Handshake { stage: Socks5Stage::AwaitingMethod, auth, destination }, packet)
    }

    /// Decides on a reply: `reply` is the zeroed buffer of the size that the
    /// previous step asked for, of which reading filled the first `n` bytes.
    pub fn on_reply(&mut self, reply: &[u8], n: usize) -> (step: Socks5Step)
        requires
            old(self).stage.is_awaiting(),
            reply@.len() >= old(self).stage.head_len(),
        ensures
            final(self).auth == old(self).auth,
            final(self).destination == old(self).destination,
            step.carries_out(
                outcome(old(self).stage, old(self).auth, old(self).destination, reply@, n as int),
                final(self).stage,
            ),
    {
        match self.stage {
            Socks5Stage::AwaitingMethod => {
                if n == 0 {
                    self.stage = Socks5Stage::Failed;
                    return Socks5Step::Failed(Error::refusal("proxy server didn't reply"));
                }
                if let Err(e) = AuthReply::try_from(reply[1]) {
                    self.stage = Socks5Stage::Failed;
                    return Socks5Step::Failed(e);
                }
                if reply[1] == AuthMethods::NoAuth.code() {
                    self.send_connect_request()
                } else {
                    match &self.auth {
                        Auth::UserPass(user, pass) => {
                            let packet = auth_request_packet(user, pass);
                            self.stage = Socks5Stage::AwaitingAuth;
                            Socks5Step::Send { packet, reply_len: SHORT_REPLY_LEN }
                        },
                        _ => {
                            self.stage = Socks5Stage::Failed;
                            Socks5Step::Failed(
                                Error::refusal(
                                    "handshake established for user pass auth but it was not provided by client",
                                ),
                            )
                        },
                    }
                }
            },
            Socks5Stage::AwaitingAuth => {
                if n == 0 {
                    self.stage = Socks5Stage::Failed;
                    return Socks5Step::Failed(
                        Error::refusal(
                            "proxy server didn't reply, it should've verified our user pass request",
                        ),
                    );
                }
                if reply[1] != 0x00 {
                    self.stage = Socks5Stage::Failed;
                    return Socks5Step::Failed(Error::refusal("auth failure"));
                }
                self.send_connect_request()
            },
            Socks5Stage::AwaitingConnect => {
                if n == 0 {
                    self.stage = Socks5Stage::Failed;
                    return Socks5Step::Failed(
                        Error::refusal(
                            "proxy server didn't reply, it should've replied to our CONNECT request",
                        ),
                    );
                }
                if reply[1] != 0x00 {
                    self.stage = Socks5Stage::Failed;
                    return Socks5Step::Failed(connect_refusal(reply[1]));
                }
                let atyp = reply[3];
                if n >= CONNECT_REPLY_HEAD_LEN && atyp == IPV4 {
                    self.stage = Socks5Stage::AwaitingBoundAddress;
                    Socks5Step::Send { packet: Vec::new(), reply_len: 4 + 2 }
                } else if n >= CONNECT_REPLY_HEAD_LEN && atyp == IPV6 {
                    self.stage = Socks5Stage::AwaitingBoundAddress;
                    Socks5Step::Send { packet: Vec::new(), reply_len: 16 + 2 }
                } else if n >= CONNECT_REPLY_HEAD_LEN && atyp == DOMAIN {
                    self.stage = Socks5Stage::AwaitingBoundNameLength;
                    Socks5Step::Send { packet: Vec::new(), reply_len: 1 }
                } else {
                    self.stage = Socks5Stage::Established;
                    Socks5Step::Established
                }
            },
            Socks5Stage::AwaitingBoundNameLength => {
                self.stage = Socks5Stage::AwaitingBoundAddress;
                Socks5Step::Send { packet: Vec::new(), reply_len: reply[0] as usize + 2 }
            },
            _ => {
                self.stage = Socks5Stage::Established;
                Socks5Step::Established
            },
        }
    }

    /// Moves to the CONNECT exchange.
    fn send_connect_request(&mut self) -> (step: Socks5Step)
        ensures
            final(self).auth == old(self).auth,
            final(self).destination == old(self).destination,
            step.carries_out(
                Socks5Outcome::Send {
                    packet: connect_request(old(self).destination),
                    reply_len: CONNECT_REPLY_HEAD_LEN as int,
                    next: Socks5Stage::AwaitingConnect,
                },
                final(self).stage,
            ),
    {
        let packet = connect_request_packet(&self.destination);
        self.stage = Socks5Stage::AwaitingConnect;
        Socks5Step::Send { packet, reply_len: CONNECT_REPLY_HEAD_LEN }
    }
}

/// A granted CONNECT request always ends in success, and only a granted one
/// does. Awaiting the reply to its CONNECT request, the handshake fails
/// exactly when the proxy did not answer or answered with a status other
/// than 0, with that status's text; otherwise it is established at once
/// when the reply announces no bound address of known length, or goes on
/// to read that address, and reading the bound address never fails. The
/// handshake is established only from these stages.
pub proof fn lemma_established_iff_granted(
    stage: Socks5Stage,
    auth: Auth,
    destination: NetworkTarget,
    reply: Seq<u8>,
    n: int,
)
    requires
        stage.is_awaiting(),
        reply.len() >= stage.head_len(),
    ensures
        stage == Socks5Stage::AwaitingConnect ==> ((outcome(stage, auth, destination, reply, n)
            is Failed) <==> (n == 0 || reply[1] != 0)),
        stage == Socks5Stage::AwaitingConnect && n != 0 && reply[1] != 0 ==> outcome(
            stage,
            auth,
            destination,
            reply,
            n,
        ) == Socks5Outcome::Failed(connect_refusal_text(reply[1])),
        stage == Socks5Stage::AwaitingConnect && n != 0 && reply[1] == 0 ==> ((outcome(
            stage,
            auth,
            destination,
            reply,
            n,
        ) is Established) <==> !announces_bound_address(reply, n)),
        (stage == Socks5Stage::AwaitingBoundNameLength || stage
            == Socks5Stage::AwaitingBoundAddress) ==> !(outcome(stage, auth, destination, reply, n)
            is Failed),
        (outcome(stage, auth, destination, reply, n) is Established) ==> (stage
            == Socks5Stage::AwaitingBoundAddress || (stage == Socks5Stage::AwaitingConnect && n != 0
            && reply[1] == 0)),
        (outcome(stage, auth, destination, reply, n) matches Socks5Outcome::Send { next, .. } && (
        next == Socks5Stage::AwaitingBoundNameLength || next == Socks5Stage::AwaitingBoundAddress))
            ==> (stage == Socks5Stage::AwaitingBoundNameLength || (stage
            == Socks5Stage::AwaitingConnect && n != 0 && reply[1] == 0 && announces_bound_address(
            reply,
            n,
        ))),
{
}

/// The reply to a granted CONNECT request is read exactly as RFC 1928 lays
/// it out, and nothing after it: after its four-byte head come the bound
/// address and the port, 4 + 2 bytes for IPv4, 16 + 2 for IPv6, and for a
/// domain name one length byte followed by that many bytes and 2. No packet
/// is sent meanwhile.
pub proof fn lemma_connect_reply_read_exactly(
    stage: Socks5Stage,
    auth: Auth,
    destination: NetworkTarget,
    reply: Seq<u8>,
    n: int,
)
    requires
        stage.is_awaiting(),
        reply.len() >= stage.head_len(),
    ensures
        stage == Socks5Stage::AwaitingConnect && n >= 4 && reply[1] == 0 && reply[3] == IPV4
            ==> outcome(stage, auth, destination, reply, n) == (Socks5Outcome::Send {
            packet: Seq::empty(),
            reply_len: 6,
            next: Socks5Stage::AwaitingBoundAddress,
        }),
        stage == Socks5Stage::AwaitingConnect && n >= 4 && reply[1] == 0 && reply[3] == IPV6
            ==> outcome(stage, auth, destination, reply, n) == (Socks5Outcome::Send {
            packet: Seq::empty(),
            reply_len: 18,
            next: Socks5Stage::AwaitingBoundAddress,
        }),
        stage == Socks5Stage::AwaitingConnect && n >= 4 && reply[1] == 0 && reply[3] == DOMAIN
            ==> outcome(stage, auth, destination, reply, n) == (Socks5Outcome::Send {
            packet: Seq::empty(),
            reply_len: 1,
            next: Socks5Stage::AwaitingBoundNameLength,
        }),
        stage == Socks5Stage::AwaitingBoundNameLength ==> outcome(stage, auth, destination, reply, n)
            == (Socks5Outcome::Send {
            packet: Seq::empty(),
            reply_len: reply[0] + 2,
            next: Socks5Stage::AwaitingBoundAddress,
        }),
{
}

/// Credentials are sent only after the proxy chose username/password in
/// answer to the greeting, and only when the client has credentials; what is
/// sent then is exactly the credentials packet. A client without
/// credentials never moves to the authentication exchange.
pub proof fn lemma_credentials_only_when_chosen(
    stage: Socks5Stage,
    auth: Auth,
    destination: NetworkTarget,
    reply: Seq<u8>,
    n: int,
)
    requires
        stage.is_awaiting(),
        reply.len() >= stage.head_len(),
    ensures
        (outcome(stage, auth, destination, reply, n) matches Socks5Outcome::Send { next, .. }
            && next == Socks5Stage::AwaitingAuth) <==> (stage == Socks5Stage::AwaitingMethod && n
            != 0 && reply[1] == 2 && auth is UserPass),
        auth matches Auth::UserPass(user, pass) ==> (stage == Socks5Stage::AwaitingMethod && n != 0
            && reply[1] == 2 ==> outcome(stage, auth, destination, reply, n) == (Socks5Outcome::Send {
            packet: auth_request(user@, pass@),
            reply_len: SHORT_REPLY_LEN as int,
            next: Socks5Stage::AwaitingAuth,
        })),
{
}

/// Every reply moves the handshake forward: it either ends the handshake or
/// moves it to a later stage that awaits another reply, into a buffer large
/// enough for what that stage reads. A handshake therefore ends after at
/// most five replies. Whenever it moves to awaiting the reply to the CONNECT
/// request, what it sends is the CONNECT request for its destination.
pub proof fn lemma_handshake_advances(
    stage: Socks5Stage,
    auth: Auth,
    destination: NetworkTarget,
    reply: Seq<u8>,
    n: int,
)
    requires
        stage.is_awaiting(),
        reply.len() >= stage.head_len(),
    ensures
        outcome(stage, auth, destination, reply, n) matches Socks5Outcome::Send {
            reply_len,
            next,
            ..
        } ==> (next.is_awaiting() && next.rank() > stage.rank() && reply_len >= next.head_len()),
        outcome(stage, auth, destination, reply, n) matches Socks5Outcome::Send {
            packet,
            reply_len,
            next,
        } ==> (next == Socks5Stage::AwaitingConnect ==> packet == connect_request(destination)
            && reply_len == CONNECT_REPLY_HEAD_LEN),
        stage.rank() < 5,
{
}

/// The greeting is three bytes: version 5, one method, and the method,
/// which is username/password (2) exactly when the client has credentials
/// and no authentication (0) otherwise.
pub proof fn lemma_greeting_layout(auth: Auth)
    ensures
        greeting(auth).len() == 3,
        greeting(auth)[0] == 5,
        greeting(auth)[1] == 1,
        greeting(auth)[2] == 2 <==> auth is UserPass,
        greeting(auth)[2] == 0 <==> !(auth is UserPass),
{
}

/// The credentials packet (RFC 1929): version 1, the user name's length in
/// bytes (its low byte), the user name's UTF-8 bytes, the password's length
/// in bytes (its low byte), the password's UTF-8 bytes, and nothing else.
pub proof fn lemma_auth_request_layout(user: Seq<char>, pass: Seq<char>)
    ensures
        ({
            let p = auth_request(user, pass);
            let u = vstd::utf8::encode_utf8(user);
            let w = vstd::utf8::encode_utf8(pass);
            &&& p.len() == 3 + u.len() as int + w.len()
            &&& p[0] == 1
            &&& p[1] == u.len() as u8
            &&& p.subrange(2, 2 + u.len() as int) == u
            &&& p[2 + u.len() as int] == w.len() as u8
            &&& p.subrange(3 + u.len() as int, p.len() as int) == w
        }),
{
    let p = auth_request(user, pass);
    let u = vstd::utf8::encode_utf8(user);
    let w = vstd::utf8::encode_utf8(pass);
    assert(p.subrange(2, 2 + u.len() as int) =~= u);
    assert(p.subrange(3 + u.len() as int, p.len() as int) =~= w);
}

/// The CONNECT request (RFC 1928): version 5, command CONNECT, a reserved
/// zero, then the address type with the destination (1 and the four IPv4
/// octets, 4 and the sixteen IPv6 octets, or 3, the name's length in bytes
/// and the name's UTF-8 bytes), and last the port, high byte first.
pub proof fn lemma_connect_request_layout(destination: NetworkTarget)
    ensures
        ({
            let p = connect_request(destination);
            &&& p.len() >= 6
            &&& p[0] == 5
            &&& p[1] == 1
            &&& p[2] == 0
            &&& p[p.len() - 2] as int * 256 + p[p.len() - 1] as int == match destination {
                NetworkTarget::IP(a) => a.spec_port() as int,
                NetworkTarget::Domain(_, port) => port.0 as int,
            }
            &&& match destination {
                NetworkTarget::IP(SocketAddr::V4(a)) => {
                    &&& p.len() == 10
                    &&& p[3] == 1
                    &&& p.subrange(4, 8) == a.ip@
                },
                NetworkTarget::IP(SocketAddr::V6(a)) => {
                    &&& p.len() == 22
                    &&& p[3] == 4
                    &&& p.subrange(4, 20) == a.ip@
                },
                NetworkTarget::Domain(name, _) => {
                    let b = vstd::utf8::encode_utf8(name@);
                    &&& p.len() == 7 + b.len()
                    &&& p[3] == 3
                    &&& p[4] == b.len() as u8
                    &&& p.subrange(5, 5 + b.len() as int) == b
                },
            }
        }),
{
    let p = connect_request(destination);
    match destination {
        NetworkTarget::IP(SocketAddr::V4(a)) => {
            lemma_port_bytes_big_endian(a.port);
            assert(p.subrange(4, 8) =~= a.ip@);
            assert(p[8] == port_bytes(a.port)[0]);
            assert(p[9] == port_bytes(a.port)[1]);
        },
        NetworkTarget::IP(SocketAddr::V6(a)) => {
            lemma_port_bytes_big_endian(a.port);
            assert(p.subrange(4, 20) =~= a.ip@);
            assert(p[20] == port_bytes(a.port)[0]);
            assert(p[21] == port_bytes(a.port)[1]);
        },
        NetworkTarget::Domain(name, port) => {
            let b = vstd::utf8::encode_utf8(name@);
            lemma_port_bytes_big_endian(port.0);
            assert(p.subrange(5, 5 + b.len() as int) =~= b);
            assert(p[5 + b.len() as int] == port_bytes(port.0)[0]);
            assert(p[6 + b.len() as int] == port_bytes(port.0)[1]);
        },
    }
}

/// The proxy's choice of method: the handshake fails exactly when the proxy
/// did not answer, chose a method other than 0 and 2, or chose
/// username/password (2) while the client has no credentials. Choosing 0
/// sends the CONNECT request at once; choosing 2 sends the credentials.
pub proof fn lemma_method_choice(auth: Auth, destination: NetworkTarget, reply: Seq<u8>, n: int)
    requires
        reply.len() >= 2,
    ensures
        ({
            let o = outcome(Socks5Stage::AwaitingMethod, auth, destination, reply, n);
            &&& (o is Failed) <==> (n == 0 || (reply[1] != 0 && reply[1] != 2) || (reply[1] == 2
                && !(auth is UserPass)))
            &&& n != 0 && reply[1] == 0 ==> o == Socks5Outcome::Send {
                packet: connect_request(destination),
                reply_len: 4,
                next: Socks5Stage::AwaitingConnect,
            }
            &&& n != 0 && reply[1] == 2 && auth is UserPass ==> (o matches Socks5Outcome::Send {
                next,
                reply_len,
                ..
            } && next == Socks5Stage::AwaitingAuth && reply_len == 2)
            &&& n != 0 && reply[1] == 255 ==> o == Socks5Outcome::Failed(
                "preferred auth method rejected"@,
            )
        }),
{
}

/// The proxy's verdict on the credentials (RFC 1929): a status other than
/// 0 is a failure, with the text "auth failure"; no answer fails too; only
/// status 0 goes on, and then to the CONNECT request for the destination.
pub proof fn lemma_credentials_verdict(
    auth: Auth,
    destination: NetworkTarget,
    reply: Seq<u8>,
    n: int,
)
    requires
        reply.len() >= 2,
    ensures
        ({
            let o = outcome(Socks5Stage::AwaitingAuth, auth, destination, reply, n);
            &&& (o is Failed) <==> (n == 0 || reply[1] != 0)
            &&& n != 0 && reply[1] != 0 ==> o == Socks5Outcome::Failed("auth failure"@)
            &&& n != 0 && reply[1] == 0 ==> o == Socks5Outcome::Send {
                packet: connect_request(destination),
                reply_len: 4,
                next: Socks5Stage::AwaitingConnect,
            }
        }),
{
}

} // verus!
