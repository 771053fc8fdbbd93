use std::borrow::Cow;

fn is_ok_status(s: &str) -> bool {
    proxifier_rs::is_ok_status(Cow::Borrowed(s))
}

#[test]
fn accepts_owned_text() {
    assert!(proxifier_rs::is_ok_status(Cow::Owned("HTTP/1.1 200 OK".to_string())));
    assert!(!proxifier_rs::is_ok_status(Cow::Owned("HTTP/1.1 404 Not Found".to_string())));
}

#[test]
fn accepts_200_ok() {
    assert!(is_ok_status("HTTP/1.1 200 OK\r\nContent-Length: 0\r\n\r\n"));
}

#[test]
fn accepts_connection_established() {
    assert!(is_ok_status("HTTP/1.1 200 Connection established\r\n\r\n"));
}

#[test]
fn accepts_range_edges() {
    assert!(is_ok_status("HTTP/1.0 200"));
    assert!(is_ok_status("HTTP/1.0 398 x"));
    assert!(!is_ok_status("HTTP/1.0 399 x"));
    assert!(!is_ok_status("HTTP/1.0 199 x"));
}

#[test]
fn rejects_refusals() {
    assert!(!is_ok_status("HTTP/1.1 407 Proxy Authentication Required\r\n\r\n"));
    assert!(!is_ok_status("HTTP/1.1 502 Bad Gateway\r\n\r\n"));
}

#[test]
fn rejects_empty_and_single_word() {
    assert!(!is_ok_status(""));
    assert!(!is_ok_status("HTTP/1.1"));
    assert!(!is_ok_status("HTTP/1.1\r\n200 OK\r\n"));
}

#[test]
fn reads_code_as_u16_does() {
    assert!(is_ok_status("HTTP/1.1 +200 OK"));
    assert!(is_ok_status("HTTP/1.1 0200 OK"));
    assert!(!is_ok_status("HTTP/1.1 -200 OK"));
    assert!(!is_ok_status("HTTP/1.1 + OK"));
    assert!(!is_ok_status("HTTP/1.1 2OO OK"));
    assert!(!is_ok_status("HTTP/1.1 65736 OK"));
    assert!(!is_ok_status("HTTP/1.1 99999999999999999999 OK"));
}

#[test]
fn splits_on_unicode_whitespace() {
    assert!(is_ok_status("  HTTP/1.1\t\t204\u{a0}No Content"));
    assert!(is_ok_status("HTTP/1.1\u{3000}302\u{2003}Found"));
    assert!(!is_ok_status("HTTP/1.1\u{200b}200 OK"));
}

#[test]
fn looks_at_first_line_only() {
    assert!(!is_ok_status("HTTP/1.1 500 Oops\n200 OK\n"));
    assert!(is_ok_status("HTTP/1.1 201\r\nHTTP/1.1 500\r\n"));
}
