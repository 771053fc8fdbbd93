use proxifier_rs::auth::Auth;
use proxifier_rs::socks5::{
    auth_request_packet, connect_request_packet, greeting_packet, AuthReply, Socks5Handshake,
    Socks5Stage, Socks5Step,
};
use proxifier_rs::{Error, NetworkTarget, Port, SocketAddrV4, SocketAddrV6};

fn refusal(step: Socks5Step) -> String {
    match step {
        Socks5Step::Failed(Error::ProxyResponseNotOk(m)) => m,
        _ => panic!("expected a refusal"),
    }
}

fn sent(step: Socks5Step) -> (Vec<u8>, usize) {
    match step {
        Socks5Step::Send { packet, reply_len } => (packet, reply_len),
        _ => panic!("expected a packet to send"),
    }
}

fn ipv4_target() -> NetworkTarget {
    SocketAddrV4::new([104, 26, 12, 205], 80).into()
}

fn user_pass() -> Auth {
    Auth::UserPass("vcilvnba".into(), "vi14viqvvrr7".into())
}

#[test]
fn greeting_offers_one_method() {
    assert_eq!(greeting_packet(&Auth::NoAuth), [5, 1, 0]);
    assert_eq!(greeting_packet(&user_pass()), [5, 1, 2]);
    assert_eq!(greeting_packet(&Auth::HTTPAuthorizationHeader("x".into())), [5, 1, 0]);
}

#[test]
fn credentials_layout() {
    let p = auth_request_packet(&"ab".to_string(), &"xyz".to_string());
    assert_eq!(p, vec![1, 2, b'a', b'b', 3, b'x', b'y', b'z']);
    let p = auth_request_packet(&"é".to_string(), &String::new());
    assert_eq!(p, vec![1, 2, 0xc3, 0xa9, 0]);
}

#[test]
fn connect_request_ipv4() {
    assert_eq!(connect_request_packet(&ipv4_target()), vec![5, 1, 0, 1, 104, 26, 12, 205, 0, 80]);
}

#[test]
fn connect_request_ipv6() {
    let mut ip = [0u8; 16];
    ip[15] = 1;
    let t: NetworkTarget = SocketAddrV6::new(ip, 8080).into();
    let mut expected = vec![5, 1, 0, 4];
    expected.extend_from_slice(&ip);
    expected.extend_from_slice(&[0x1f, 0x90]);
    assert_eq!(connect_request_packet(&t), expected);
}

#[test]
fn connect_request_domain() {
    let t = NetworkTarget::Domain("api.ipify.org".into(), Port(80));
    let mut expected = vec![5, 1, 0, 3, 13];
    expected.extend_from_slice(b"api.ipify.org");
    expected.extend_from_slice(&[0, 80]);
    assert_eq!(connect_request_packet(&t), expected);
}

#[test]
fn no_auth_handshake() {
    let (mut hs, greeting) = Socks5Handshake::new(ipv4_target(), Auth::NoAuth);
    assert_eq!(greeting, [5, 1, 0]);
    let (packet, reply_len) = sent(hs.on_reply(&[5, 0], 2));
    assert_eq!(packet, vec![5, 1, 0, 1, 104, 26, 12, 205, 0, 80]);
    assert_eq!(reply_len, 4);
    assert_eq!(hs.stage, Socks5Stage::AwaitingConnect);
    let (packet, reply_len) = sent(hs.on_reply(&[5, 0, 0, 1], 4));
    assert!(packet.is_empty());
    assert_eq!(reply_len, 6);
    assert_eq!(hs.stage, Socks5Stage::AwaitingBoundAddress);
    assert!(matches!(hs.on_reply(&[10, 0, 0, 1, 0x1f, 0x90], 6), Socks5Step::Established));
    assert_eq!(hs.stage, Socks5Stage::Established);
}

#[test]
fn user_pass_handshake() {
    let t = NetworkTarget::Domain("api.ipify.org".into(), Port(80));
    let (mut hs, greeting) = Socks5Handshake::new(t, user_pass());
    assert_eq!(greeting, [5, 1, 2]);
    let (packet, reply_len) = sent(hs.on_reply(&[5, 2], 2));
    let mut expected = vec![1, 8];
    expected.extend_from_slice(b"vcilvnba");
    expected.push(12);
    expected.extend_from_slice(b"vi14viqvvrr7");
    assert_eq!(packet, expected);
    assert_eq!(reply_len, 2);
    assert_eq!(hs.stage, Socks5Stage::AwaitingAuth);
    let (packet, reply_len) = sent(hs.on_reply(&[1, 0], 2));
    assert_eq!(packet[..5], [5, 1, 0, 3, 13]);
    assert_eq!(reply_len, 4);
    let (packet, reply_len) = sent(hs.on_reply(&[5, 0, 0, 3], 4));
    assert!(packet.is_empty());
    assert_eq!(reply_len, 1);
    assert_eq!(hs.stage, Socks5Stage::AwaitingBoundNameLength);
    let (packet, reply_len) = sent(hs.on_reply(&[9], 1));
    assert!(packet.is_empty());
    assert_eq!(reply_len, 9 + 2);
    assert_eq!(hs.stage, Socks5Stage::AwaitingBoundAddress);
    let rest = b"proxy.lan\x04\x38";
    assert!(matches!(hs.on_reply(rest, rest.len()), Socks5Step::Established));
}

#[test]
fn method_choice_refusals() {
    let (mut hs, _) = Socks5Handshake::new(ipv4_target(), Auth::NoAuth);
    assert_eq!(refusal(hs.on_reply(&[5, 255], 2)), "preferred auth method rejected");
    assert_eq!(hs.stage, Socks5Stage::Failed);
    let (mut hs, _) = Socks5Handshake::new(ipv4_target(), Auth::NoAuth);
    assert_eq!(refusal(hs.on_reply(&[5, 1], 2)), "unknown status reply from proxy server");
    let (mut hs, _) = Socks5Handshake::new(ipv4_target(), Auth::NoAuth);
    assert_eq!(refusal(hs.on_reply(&[0, 0], 0)), "proxy server didn't reply");
    let (mut hs, _) = Socks5Handshake::new(ipv4_target(), Auth::NoAuth);
    assert_eq!(
        refusal(hs.on_reply(&[5, 2], 2)),
        "handshake established for user pass auth but it was not provided by client"
    );
    assert!(AuthReply::try_from(0).is_ok());
    assert!(AuthReply::try_from(2).is_ok());
    assert!(AuthReply::try_from(1).is_err());
}

#[test]
fn credential_refusals() {
    let (mut hs, _) = Socks5Handshake::new(ipv4_target(), user_pass());
    let _ = sent(hs.on_reply(&[5, 2], 2));
    assert_eq!(refusal(hs.on_reply(&[1, 1], 2)), "auth failure");
    let (mut hs, _) = Socks5Handshake::new(ipv4_target(), user_pass());
    let _ = sent(hs.on_reply(&[5, 2], 2));
    assert_eq!(
        refusal(hs.on_reply(&[0, 0], 0)),
        "proxy server didn't reply, it should've verified our user pass request"
    );
}

#[test]
fn connect_refusals() {
    let texts = [
        (1u8, "general SOCKS server failure"),
        (2, "connection not allowed by ruleset"),
        (3, "Network unreachable"),
        (4, "Host unreachable"),
        (5, "Connection refused"),
        (6, "TTL expired"),
        (7, "Command not supported"),
        (8, "Address type not supported"),
        (9, "unassigned x'FF'"),
        (10, "unknown reply from proxy server on CONNECT request"),
        (255, "unknown reply from proxy server on CONNECT request"),
    ];
    for (code, text) in texts {
        let (mut hs, _) = Socks5Handshake::new(ipv4_target(), Auth::NoAuth);
        let (_, reply_len) = sent(hs.on_reply(&[5, 0], 2));
        let mut reply = vec![0u8; reply_len];
        reply[0] = 5;
        reply[1] = code;
        assert_eq!(refusal(hs.on_reply(&reply, reply_len)), text);
        assert_eq!(hs.stage, Socks5Stage::Failed);
    }
    let (mut hs, _) = Socks5Handshake::new(ipv4_target(), Auth::NoAuth);
    let (_, reply_len) = sent(hs.on_reply(&[5, 0], 2));
    assert_eq!(
        refusal(hs.on_reply(&vec![0u8; reply_len], 0)),
        "proxy server didn't reply, it should've replied to our CONNECT request"
    );
}

#[test]
fn ipv6_bound_address() {
    let t: NetworkTarget = SocketAddrV6::new([0u8; 16], 443).into();
    let (mut hs, _) = Socks5Handshake::new(t, Auth::NoAuth);
    let (_, reply_len) = sent(hs.on_reply(&[5, 0], 2));
    assert_eq!(reply_len, 4);
    let (_, reply_len) = sent(hs.on_reply(&[5, 0, 0, 4], 4));
    assert_eq!(reply_len, 16 + 2);
    assert!(matches!(hs.on_reply(&[0u8; 18], 18), Socks5Step::Established));
}

#[test]
fn ipv4_reply_is_ten_bytes() {
    let (mut hs, _) = Socks5Handshake::new(ipv4_target(), Auth::NoAuth);
    let (_, head) = sent(hs.on_reply(&[5, 0], 2));
    let (_, rest) = sent(hs.on_reply(&[5, 0, 0, 1], 4));
    assert_eq!(head + rest, 10);
}

#[test]
fn granted_reply_without_known_address_type() {
    let (mut hs, _) = Socks5Handshake::new(ipv4_target(), Auth::NoAuth);
    let _ = sent(hs.on_reply(&[5, 0], 2));
    assert!(matches!(hs.on_reply(&[5, 0, 0, 7], 4), Socks5Step::Established));
    assert_eq!(hs.stage, Socks5Stage::Established);
    let (mut hs, _) = Socks5Handshake::new(ipv4_target(), Auth::NoAuth);
    let _ = sent(hs.on_reply(&[5, 0], 2));
    assert!(matches!(hs.on_reply(&[5, 0, 0, 0], 2), Socks5Step::Established));
    let (mut hs, _) = Socks5Handshake::new(ipv4_target(), Auth::NoAuth);
    let _ = sent(hs.on_reply(&[5, 0], 2));
    assert!(matches!(hs.on_reply(&[5, 0, 0, 1], 3), Socks5Step::Established));
}
