use proxifier_rs::socks4::{check_reply, request, Reply};
use proxifier_rs::{Context, Error, SocketAddrV4};

fn refusal_text(r: Result<(), Error>) -> String {
    match r {
        Err(Error::ProxyResponseNotOk(m)) => m,
        _ => panic!("expected a refusal"),
    }
}

#[test]
fn request_layout() {
    let ctx = Context {
        proxy: SocketAddrV4::new([72, 195, 34, 35], 27360),
        destination: SocketAddrV4::new([104, 26, 12, 205], 80),
    };
    assert_eq!(request(&ctx), [4, 1, 0, 80, 104, 26, 12, 205, 0]);
}

#[test]
fn request_port_is_big_endian() {
    let ctx = Context {
        proxy: SocketAddrV4::new([127, 0, 0, 1], 1080),
        destination: SocketAddrV4::new([172, 67, 74, 152], 443),
    };
    assert_eq!(request(&ctx), [4, 1, 1, 187, 172, 67, 74, 152, 0]);
}

#[test]
fn granted_reply() {
    assert!(check_reply(&[0, 90, 0, 0, 0, 0, 0, 0], 8).is_ok());
    assert!(Reply::try_from(90).is_ok());
}

#[test]
fn refused_replies() {
    assert_eq!(
        refusal_text(check_reply(&[0, 91, 0, 0, 0, 0, 0, 0], 8)),
        "Request rejected or failed."
    );
    assert_eq!(
        refusal_text(check_reply(&[0, 92, 0, 0, 0, 0, 0, 0], 8)),
        "Request rejected due to inability to connect to identd on the client."
    );
    assert_eq!(
        refusal_text(check_reply(&[0, 93, 0, 0, 0, 0, 0, 0], 8)),
        "Request rejected because the client program and identd report different user-IDs."
    );
    assert_eq!(
        refusal_text(check_reply(&[0, 0, 0, 0, 0, 0, 0, 0], 8)),
        "unknown status reply from proxy server"
    );
}

#[test]
fn silent_proxy() {
    assert_eq!(
        refusal_text(check_reply(&[0, 90, 0, 0, 0, 0, 0, 0], 0)),
        "proxy server didn't reply"
    );
}
