use bsproxy::ProtocolDetector;
use bsproxy::routing::{
    certificate_paths, http_status_replies, plan_connection, protocol_of_peek, route_connection, route_request, route_tls,
    ssh_upgrade_reply, status_to_send, websocket_wants_tls, xhttp_wants_tls, Route, TlsRoute,
};

fn chars(s: &str) -> Vec<char> {
    s.chars().collect()
}

#[test]
fn nothing_peeked_falls_back() {
    assert_eq!(route_connection(&[]), Route::Fallback);
}

#[test]
fn tls_record_is_routed_to_tls() {
    assert_eq!(route_connection(&[0x16, 0x03, 0x01]), Route::Tls);
    assert_eq!(route_connection(&[0x16]), Route::Tls);
}

#[test]
fn ssh_banner_is_tunnelled() {
    assert_eq!(route_connection(b"SSH-2.0-OpenSSH\r\n"), Route::Ssh);
}

#[test]
fn websocket_requests() {
    assert_eq!(
        route_connection(b"GET / HTTP/1.1\r\nUpgrade: websocket\r\n\r\n"),
        Route::WebSocket { secure: false }
    );
    assert_eq!(
        route_connection(b"GET wss://h/ HTTP/1.1\r\nSec-WebSocket-Key: k\r\n\r\n"),
        Route::WebSocket { secure: true }
    );
    assert_eq!(
        route_connection(b"GET / HTTP/1.1\r\nUpgrade: websocket\r\nX-SSL: 1\r\n\r\n"),
        Route::WebSocket { secure: true }
    );
}

#[test]
fn xhttp_requests() {
    assert_eq!(route_connection(b"POST / HTTP/1.1\r\nX-Thing: 1\r\n\r\n"), Route::Xhttp { secure: false });
    assert_eq!(route_connection(b"XHTTP hello"), Route::Xhttp { secure: false });
    assert_eq!(route_connection(b"GET / HTTP/1.1\r\nX-SSL: on\r\n\r\n"), Route::Xhttp { secure: true });
}

#[test]
fn http_requests() {
    assert_eq!(route_connection(b"GET / HTTP/1.1\r\nHost: a\r\n\r\n"), Route::Http);
    assert_eq!(route_connection(b"CONNECT host:443"), Route::Http);
    assert_eq!(route_connection(b"POST /x"), Route::Http);
}

#[test]
fn unknown_bytes_fall_back() {
    assert_eq!(route_connection(b"hello"), Route::Fallback);
    assert_eq!(route_connection(&[0x05, 0x01, 0x00]), Route::Fallback);
}

#[test]
fn ssh_is_checked_before_websocket() {
    assert_eq!(route_connection(b"SSH-2.0 Upgrade: websocket"), Route::Ssh);
}

#[test]
fn route_request_uses_the_given_text() {
    assert_eq!(route_request(b"x", "SSH-1.99"), Route::Ssh);
    assert_eq!(route_request(&[], "SSH-1.99"), Route::Fallback);
    assert_eq!(route_request(&[0x16], "GET "), Route::Tls);
}

#[test]
fn tls_inner_routes() {
    assert_eq!(route_tls(&[]), TlsRoute::Forward);
    assert_eq!(route_tls(b"GET / HTTP/1.1\r\nUpgrade: websocket\r\n\r\n"), TlsRoute::WebSocket);
    assert_eq!(route_tls(b"GET / HTTP/1.1\r\nX-Real: 1\r\n\r\n"), TlsRoute::Xhttp);
    assert_eq!(route_tls(b"GET / HTTP/1.1\r\nUpgrade: security\r\n\r\n"), TlsRoute::SshUpgrade);
    assert_eq!(route_tls(b"SSH-2.0-client"), TlsRoute::SshUpgrade);
    assert_eq!(route_tls(b"GET / HTTP/1.1\r\n\r\n"), TlsRoute::Forward);
}

#[test]
fn ssl_markers() {
    assert!(websocket_wants_tls(&chars("a wss://b")));
    assert!(!websocket_wants_tls(&chars("ws://b")));
    assert!(xhttp_wants_tls(&chars("X-SSL: yes")));
    assert!(!xhttp_wants_tls(&chars("wss://b")));
}

#[test]
fn status_up_to_the_first_bar() {
    assert_eq!(status_to_send("200 OK|101 Switching"), "200 OK");
    assert_eq!(status_to_send("@BSPROXY"), "@BSPROXY");
    assert_eq!(status_to_send("|x"), "");
    assert_eq!(status_to_send(""), "");
}

#[test]
fn http_status_lines() {
    let (switching, ok) = http_status_replies("@BSPROXY");
    assert_eq!(switching, "HTTP/1.1 101 @BSPROXY\r\n\r\n");
    assert_eq!(ok, "HTTP/1.1 200 @BSPROXY\r\n\r\n");
}

#[test]
fn ssh_upgrade_response() {
    assert_eq!(ssh_upgrade_reply(), "HTTP/1.1 200 OK\r\nUpgrade: security\r\n\r\n");
}

#[test]
fn protocol_names_of_peeked_bytes() {
    assert_eq!(protocol_of_peek(&[]), "SSH");
    assert_eq!(protocol_of_peek(&[0x05]), "socks5");
    assert_eq!(protocol_of_peek(b"OpenVPN"), "ovpn");
}

#[test]
fn letsencrypt_paths() {
    let (chain, key) = certificate_paths("example.org");
    assert_eq!(chain, "/etc/letsencrypt/live/example.org/fullchain.pem");
    assert_eq!(key, "/etc/letsencrypt/live/example.org/privkey.pem");
}

#[test]
fn what_the_detector_calls_tls_is_routed_to_tls() {
    let data = [0x16, 0x03, 0x03, 0x00, 0x2a];
    assert_eq!(ProtocolDetector::detect(&data), "tls");
    assert_eq!(route_connection(&data), Route::Tls);
}

#[test]
fn announced_protocol_has_no_effect() {
    for peeked in [&b""[..], b"SSH-2.0", b"GET / HTTP/1.1\r\n", &[0x16, 0x03]] {
        let a = plan_connection(peeked, "ssh", "200 OK|x");
        let b = plan_connection(peeked, "multi", "200 OK|x");
        assert_eq!(a.route, b.route);
        assert_eq!(a.status, b.status);
        assert_eq!(a.status, "200 OK");
        assert_eq!(a.route, route_connection(peeked));
    }
}
