//! Socket addresses as plain values: the octets of an IP address and a port.
use vstd::prelude::*;

verus! {

/// An IPv4 socket address: four octets in network order and a port.
#[derive(Clone, Copy, Debug, PartialEq, Eq)]
pub struct SocketAddrV4 {
    pub ip: [u8; 4],
    pub port: u16,
}

/// An IPv6 socket address: sixteen octets in network order and a port.
#[derive(Clone, Copy, Debug, PartialEq, Eq)]
pub struct SocketAddrV6 {
    pub ip: [u8; 16],
    pub port: u16,
}

/// An IPv4 or an IPv6 socket address.
#[derive(Clone, Copy, Debug, PartialEq, Eq)]
pub enum SocketAddr {
    V4(SocketAddrV4),
    V6(SocketAddrV6),
}

impl SocketAddrV4 {
    pub fn new(ip: [u8; 4], port: u16) -> (res: SocketAddrV4)
        ensures
            res.ip == ip,
            res.port == port,
    {
        SocketAddrV4 { ip, port }
    }
}

impl SocketAddrV6 {
    pub fn new(ip: [u8; 16], port: u16) -> (res: SocketAddrV6)
        ensures
            res.ip == ip,
            res.port == port,
    {
        SocketAddrV6 { ip, port }
    }
}

impl SocketAddr {
    /// The port of the address, whichever its family.
    pub open spec fn spec_port(&self) -> u16 {
        match self {
            SocketAddr::V4(a) => a.port,
            SocketAddr::V6(a) => a.port,
        }
    }

    #[verifier::when_used_as_spec(spec_port)]
    pub fn port(&self) -> (p: u16)
        ensures
            p == self.spec_port(),
    {
        match self {
            SocketAddr::V4(a) => a.port,
            SocketAddr::V6(a) => a.port,
        }
    }
}

/// The two bytes of a port in network (big-endian) order.
pub open spec fn port_bytes(port: u16) -> Seq<u8> {
    seq![(port / 256) as u8, (port % 256) as u8]
}

/// Returns the port in network (big-endian) order, as `u16::to_be_bytes` does.
pub fn port_to_be_bytes(port: u16) -> (b: [u8; 2])
    ensures
        b@ == port_bytes(port),
{
    let b = [(port / 256) as u8, (port % 256) as u8];
    assert(b@ =~= port_bytes(port));
    b
}

/// The two bytes of a port, read back in network order, give the port:
/// the first is its high byte and the second its low byte.
pub proof fn lemma_port_bytes_big_endian(port: u16)
    ensures
        port_bytes(port).len() == 2,
        port_bytes(port)[0] as int * 256 + port_bytes(port)[1] as int == port as int,
        port_bytes(port)[1] as int == port as int % 256,
{
    let hi = port / 256;
    let lo = port % 256;
    assert(hi < 256 && lo < 256);
    assert(hi * 256 + lo == port);
}

} // verus!
