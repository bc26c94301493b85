use bsproxy::websocket::names_key_header;
use bsproxy::websocket::handshake_for_text;
use bsproxy::websocket::{accept_key, handshake_reply, header_value_of, sec_websocket_key, websocket_handshake};

#[test]
fn accept_key_of_the_rfc_example() {
    assert_eq!(accept_key("dGhlIHNhbXBsZSBub25jZQ=="), "s3pPLMBiTxaQ9kYGzzhZRbK+xOo=");
}

#[test]
fn key_is_found_in_any_letter_case_and_trimmed() {
    let text = "GET /chat HTTP/1.1\r\nHost: x\r\nSEC-WEBSOCKET-KEY:   abc== \r\nUpgrade: websocket\r\n\r\n";
    assert_eq!(sec_websocket_key(text), "abc==");
}

#[test]
fn first_key_line_wins() {
    let text = "sec-websocket-key: one\nSec-WebSocket-Key: two\n";
    assert_eq!(sec_websocket_key(text), "one");
}

#[test]
fn missing_key_is_empty() {
    assert_eq!(sec_websocket_key("GET / HTTP/1.1\r\nUpgrade: websocket\r\n"), "");
    assert_eq!(sec_websocket_key(""), "");
}

#[test]
fn header_value_stops_at_the_second_colon() {
    assert_eq!(header_value_of("Sec-WebSocket-Key: a:b"), "a");
    assert_eq!(header_value_of("no colon here"), "");
    assert_eq!(header_value_of("k:\t v \t"), "v");
}

#[test]
fn switching_reply_layout() {
    assert_eq!(
        handshake_reply("XYZ"),
        "HTTP/1.1 101 Switching Protocols\r\nUpgrade: websocket\r\nConnection: Upgrade\r\nSec-WebSocket-Accept: XYZ\r\n\r\n"
    );
}

#[test]
fn upgrade_request_gets_the_switching_reply() {
    let request = b"GET /chat HTTP/1.1\r\nHost: server.example.com\r\nUpgrade: websocket\r\nConnection: Upgrade\r\nSec-WebSocket-Key: dGhlIHNhbXBsZSBub25jZQ==\r\nSec-WebSocket-Version: 13\r\n\r\n";
    let reply = websocket_handshake(request).expect("an upgrade request is answered");
    assert_eq!(
        reply,
        "HTTP/1.1 101 Switching Protocols\r\nUpgrade: websocket\r\nConnection: Upgrade\r\nSec-WebSocket-Accept: s3pPLMBiTxaQ9kYGzzhZRbK+xOo=\r\n\r\n"
    );
}

#[test]
fn plain_request_gets_no_reply() {
    assert!(websocket_handshake(b"GET / HTTP/1.1\r\nSec-WebSocket-Key: abc\r\n\r\n").is_none());
    assert!(websocket_handshake(b"").is_none());
}

#[test]
fn upgrade_without_key_hashes_the_empty_key() {
    let reply = websocket_handshake(b"Upgrade: websocket\r\n\r\n").unwrap();
    assert_eq!(reply, handshake_reply(&accept_key("")));
    assert_ne!(accept_key(""), accept_key("x"));
}

#[test]
fn handshake_from_request_text() {
    assert_eq!(
        handshake_for_text("Upgrade: websocket\r\nsec-websocket-key: dGhlIHNhbXBsZSBub25jZQ==\r\n"),
        Some(handshake_reply("s3pPLMBiTxaQ9kYGzzhZRbK+xOo="))
    );
    assert_eq!(handshake_for_text("upgrade: websocket\r\n"), None);
}

#[test]
fn key_header_marker() {
    assert!(names_key_header("sec-websocket-key: x"));
    assert!(!names_key_header("Sec-WebSocket-Key: x"));
    assert!(!names_key_header("x-sec-websocket-key: x"));
}

#[test]
fn unicode_case_folding_applies_to_the_header_name() {
    // U+212A KELVIN SIGN lower-cases to an ASCII 'k'.
    assert_eq!(sec_websocket_key("Sec-WebSocket-\u{212A}ey: abc\n"), "abc");
}
