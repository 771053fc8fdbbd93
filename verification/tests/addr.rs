use proxifier_rs::addr::port_to_be_bytes;
use proxifier_rs::{NetworkTarget, SocketAddr, SocketAddrV4, SocketAddrV6};

#[test]
fn port_bytes_are_big_endian() {
    assert_eq!(port_to_be_bytes(80), [0, 80]);
    assert_eq!(port_to_be_bytes(6742), 6742u16.to_be_bytes());
    assert_eq!(port_to_be_bytes(65535), [255, 255]);
}

#[test]
fn targets_from_addresses() {
    let a = SocketAddrV4::new([1, 2, 3, 4], 5);
    match NetworkTarget::from(a) {
        NetworkTarget::IP(SocketAddr::V4(b)) => assert_eq!(a, b),
        _ => panic!("expected an IPv4 target"),
    }
    let a6 = SocketAddrV6::new([9; 16], 7);
    match NetworkTarget::from(a6) {
        NetworkTarget::IP(s) => assert_eq!(s.port(), 7),
        _ => panic!("expected an IP target"),
    }
}

#[test]
fn errors_from_outside_errors() {
    let e: proxifier_rs::Error = std::io::Error::new(std::io::ErrorKind::Other, "x").into();
    assert!(matches!(e, proxifier_rs::Error::Other(_)));
    let e: proxifier_rs::Error = rustls_pki_types::InvalidDnsNameError.into();
    assert!(matches!(e, proxifier_rs::Error::DNSError(_)));
}
