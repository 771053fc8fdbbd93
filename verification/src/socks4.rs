//! The client side of the SOCKS4 CONNECT operation.
//!
//! A client sends one request (version 4, command CONNECT, the destination
//! port in network order, the destination's IPv4 octets and an empty user
//! id) and reads an eight-byte reply whose second byte is the status: 90
//! grants the request, every other status refuses it.
use vstd::prelude::*;

use crate::addr::{lemma_port_bytes_big_endian, port_bytes, port_to_be_bytes, SocketAddrV4};
use crate::errors::Error;
use crate::Context;

verus! {

pub const VERSION_4: u8 = 0x04;

pub const CONNECT_REQUEST: u8 = 0x01;

pub const NULL: u8 = 0x00;

/// The status with which a SOCKS4 proxy grants a request.
pub const GRANTED: u8 = 90;

/// The length of a SOCKS4 reply.
pub const REPLY_LEN: usize = 8;

/// The CONNECT request for `destination`.
pub open spec fn connect_request(destination: SocketAddrV4) -> Seq<u8> {
    seq![VERSION_4, CONNECT_REQUEST] + port_bytes(destination.port) + destination.ip@ + seq![NULL]
}

/// What a refusing status means.
pub open spec fn refusal_text(status: u8) -> Seq<char> {
    if status == 91 {
        "Request rejected or failed."@
    } else if status == 92 {
        "Request rejected due to inability to connect to identd on the client."@
    } else if status == 93 {
        "Request rejected because the client program and identd report different user-IDs."@
    } else {
        "unknown status reply from proxy server"@
    }
}

/// A granted request.
#[derive(Debug)]
pub struct Reply;

impl Reply {
    /// Reads the status byte of a reply: 90 grants the request, every other
    /// value refuses it, with the text of [`refusal_text`].
    pub fn try_from(value: u8) -> (r: Result<Reply, Error>)
        ensures
            r is Ok <==> value == GRANTED,
            r matches Err(e) ==> e.is_refusal(refusal_text(value)),
    {
        match value {
            90 => Ok(Reply),
            91 => Err(Error::refusal("Request rejected or failed.")),
            92 => Err(
                Error::refusal(
                    "Request rejected due to inability to connect to identd on the client.",
                ),
            ),
            93 => Err(
                Error::refusal(
                    "Request rejected because the client program and identd report different user-IDs.",
                ),
            ),
            _ => Err(Error::refusal("unknown status reply from proxy server")),
        }
    }
}

/// The request that opens a connection to `ctx.destination`.
pub fn request(ctx: &Context) -> (packet: [u8; 9])
    ensures
        packet@ == connect_request(ctx.destination),
{
    let target = ctx.destination;
    let port = port_to_be_bytes(target.port);
    let packet: [u8; 9] = [
        VERSION_4,
        CONNECT_REQUEST,
        port[0],
        port[1],
        target.ip[0],
        target.ip[1],
        target.ip[2],
        target.ip[3],
        NULL,
    ];
    assert(packet@ =~= connect_request(ctx.destination));
    packet
}

/// Decides on the proxy's reply: `reply` is the reply buffer, of which the
/// read filled the first `n` bytes (the rest still zero). A read of nothing
/// means that the proxy did not answer.
pub fn check_reply(reply: &[u8], n: usize) -> (r: Result<(), Error>)
    requires
        reply@.len() == REPLY_LEN,
    ensures
        r is Ok <==> n > 0 && reply@[1] == GRANTED,
        n == 0 ==> (r matches Err(e) && e.is_refusal("proxy server didn't reply"@)),
        n > 0 && reply@[1] != GRANTED ==> (r matches Err(e) && e.is_refusal(
            refusal_text(reply@[1]),
        )),
{
    if n == 0 {
        return Err(Error::refusal("proxy server didn't reply"));
    }
    match Reply::try_from(reply[1]) {
        Ok(_) => Ok(()),
        Err(e) => Err(e),
    }
}

/// The SOCKS4 CONNECT request is nine bytes: version 4, command CONNECT,
/// the destination port high byte first, the four IPv4 octets, and the
/// empty user id's terminating zero.
pub proof fn lemma_connect_request_layout(destination: SocketAddrV4)
    ensures
        ({
            let p = connect_request(destination);
            &&& p.len() == 9
            &&& p[0] == 4
            &&& p[1] == 1
            &&& p[2] as int * 256 + p[3] as int == destination.port as int
            &&& p.subrange(4, 8) == destination.ip@
            &&& p[8] == 0
        }),
{
    let p = connect_request(destination);
    lemma_port_bytes_big_endian(destination.port);
    assert(p[2] == port_bytes(destination.port)[0]);
    assert(p[3] == port_bytes(destination.port)[1]);
    assert(p.subrange(4, 8) =~= destination.ip@);
}

} // verus!
