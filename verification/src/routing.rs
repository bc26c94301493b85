//! How the proxy routes a new connection, decided from the bytes it peeks.
//!
//! The caller peeks at the first bytes, hands them here, and performs the
//! I/O of the route it gets back.

use vstd::prelude::*;
use crate::protocol::ProtocolDetector;
use crate::protocol::detected_protocol;
use crate::text::{chars_of, contains_str, find_char, find_from, find_from_bounds, has_substring};
use crate::unicode::{decode_lossy, utf8_lossy};

verus! {

/// What to do with a new plain-TCP connection.
#[derive(PartialEq, Eq, Structural, Clone, Copy, Debug)]
pub enum Route {
    /// A TLS record: terminate TLS and route on what it carries.
    Tls,
    /// An SSH client: tunnel to the target.
    Ssh,
    /// A WebSocket upgrade, to be served over TLS when `secure`.
    WebSocket { secure: bool },
    /// A request with custom `X-` headers, to be served over TLS when `secure`.
    Xhttp { secure: bool },
    /// A plain HTTP request: answer with the configured status, then tunnel.
    Http,
    /// Nothing recognised (or nothing sent): tunnel to the target as SSH.
    Fallback,
}

/// What to do with the first bytes read inside a TLS session.
#[derive(PartialEq, Eq, Structural, Clone, Copy, Debug)]
pub enum TlsRoute {
    /// WebSocket over TLS.
    WebSocket,
    /// XHTTP over TLS.
    Xhttp,
    /// SSH over TLS: answer with the security-upgrade response, then tunnel.
    SshUpgrade,
    /// Tunnel to the target, replaying the bytes already read.
    Forward,
}

/// The request asks for a WebSocket upgrade.
pub open spec fn asks_websocket(text: Seq<char>) -> bool {
    has_substring(text, "Upgrade: websocket"@) || has_substring(text, "Sec-WebSocket-Key"@)
}

/// The request carries custom `X-` headers or names XHTTP.
pub open spec fn asks_xhttp(text: Seq<char>) -> bool {
    has_substring(text, "X-"@) || has_substring(text, "XHTTP"@)
}

/// The request looks like plain HTTP.
pub open spec fn asks_http(text: Seq<char>) -> bool {
    has_substring(text, "HTTP/"@) || has_substring(text, "GET "@) || has_substring(text, "POST "@)
        || has_substring(text, "CONNECT"@)
}

/// A WebSocket request that says it comes over SSL.
pub open spec fn websocket_is_secure(text: Seq<char>) -> bool {
    has_substring(text, "X-SSL:"@) || has_substring(text, "wss://"@)
}

/// An XHTTP request that says it comes over SSL.
pub open spec fn xhttp_is_secure(text: Seq<char>) -> bool {
    has_substring(text, "X-SSL:"@)
}

/// The route for a connection whose first bytes are `peeked`, given their
/// text `text`.
pub open spec fn route_for(peeked: Seq<u8>, text: Seq<char>) -> Route {
    if peeked.len() == 0 {
        Route::Fallback
    } else if peeked[0] == 0x16 {
        Route::Tls
    } else if has_substring(text, "SSH-"@) {
        Route::Ssh
    } else if asks_websocket(text) {
        Route::WebSocket { secure: websocket_is_secure(text) }
    } else if asks_xhttp(text) {
        Route::Xhttp { secure: xhttp_is_secure(text) }
    } else if asks_http(text) {
        Route::Http
    } else {
        Route::Fallback
    }
}

/// The route inside a TLS session whose first bytes are `inner`, given their
/// text `text`.
pub open spec fn tls_route_for(inner: Seq<u8>, text: Seq<char>) -> TlsRoute {
    if inner.len() == 0 {
        TlsRoute::Forward
    } else if asks_websocket(text) {
        TlsRoute::WebSocket
    } else if asks_xhttp(text) {
        TlsRoute::Xhttp
    } else if has_substring(text, "Upgrade: security"@) || has_substring(text, "SSH"@) {
        TlsRoute::SshUpgrade
    } else {
        TlsRoute::Forward
    }
}

/// The status text sent to HTTP clients: the configured status up to its
/// first `|` (a status may list several alternatives separated by `|`).
pub open spec fn first_status(status: Seq<char>) -> Seq<char> {
    status.subrange(0, find_from(status, '|', 0) as int)
}

/// Whether a WebSocket request says it comes over SSL.
pub fn websocket_wants_tls(request_text: &[char]) -> (secure: bool)
    ensures
        secure == websocket_is_secure(request_text@),
{
    contains_str(request_text, "X-SSL:") || contains_str(request_text, "wss://")
}

/// Whether an XHTTP request says it comes over SSL.
pub fn xhttp_wants_tls(request_text: &[char]) -> (secure: bool)
    ensures
        secure == xhttp_is_secure(request_text@),
{
    contains_str(request_text, "X-SSL:")
}

/// The route for a connection whose first bytes are `peeked`, given the text
/// `request_text` that `String::from_utf8_lossy` makes of them.
pub fn route_request(peeked: &[u8], request_text: &str) -> (route: Route)
    ensures
        route == route_for(peeked@, request_text@),
{
    if peeked.len() == 0 {
        return Route::Fallback;
    }
    if peeked[0] == 0x16 {
        return Route::Tls;
    }
    let text = chars_of(request_text);
    let t = text.as_slice();
    if contains_str(t, "SSH-") {
        Route::Ssh
    } else if contains_str(t, "Upgrade: websocket") || contains_str(t, "Sec-WebSocket-Key") {
        Route::WebSocket { secure: websocket_wants_tls(t) }
    } else if contains_str(t, "X-") || contains_str(t, "XHTTP") {
        Route::Xhttp { secure: xhttp_wants_tls(t) }
    } else if contains_str(t, "HTTP/") || contains_str(t, "GET ") || contains_str(t, "POST ")
        || contains_str(t, "CONNECT") {
        Route::Http
    } else {
        Route::Fallback
    }
}

/// The route for a connection whose first bytes are `peeked` (none when the
/// peek timed out or found the stream empty).
pub fn route_connection(peeked: &[u8]) -> (route: Route)
    ensures
        route == route_for(peeked@, utf8_lossy(peeked@)),
{
    let text = decode_lossy(peeked);
    route_request(peeked, text.as_str())
}

/// How a connection is served: its route and the status text sent to HTTP
/// clients.
pub struct ConnectionPlan {
    pub route: Route,
    pub status: String,
}

/// The route and status text for a connection whose first bytes are
/// `peeked`, under the configured status `status`.
pub open spec fn plan_of(peeked: Seq<u8>, status: Seq<char>) -> (Route, Seq<char>) {
    (route_for(peeked, utf8_lossy(peeked)), first_status(status))
}

/// How to serve a connection whose first bytes are `peeked`, announced as
/// `_protocol`, under the configured status `status`. The plan depends on the
/// bytes and the status alone: the announced protocol has no effect.
pub fn plan_connection(peeked: &[u8], _protocol: &str, status: &str) -> (plan: ConnectionPlan)
    ensures
        (plan.route, plan.status@) == plan_of(peeked@, status@),
{
    ConnectionPlan { route: route_connection(peeked), status: status_to_send(status) }
}

/// The route inside a TLS session whose first bytes are `inner`, given the
/// text `inner_text` that `String::from_utf8_lossy` makes of them.
pub fn route_tls_request(inner: &[u8], inner_text: &str) -> (route: TlsRoute)
    ensures
        route == tls_route_for(inner@, inner_text@),
{
    if inner.len() == 0 {
        return TlsRoute::Forward;
    }
    let text = chars_of(inner_text);
    let t = text.as_slice();
    if contains_str(t, "Upgrade: websocket") || contains_str(t, "Sec-WebSocket-Key") {
        TlsRoute::WebSocket
    } else if contains_str(t, "X-") || contains_str(t, "XHTTP") {
        TlsRoute::Xhttp
    } else if contains_str(t, "Upgrade: security") || contains_str(t, "SSH") {
        TlsRoute::SshUpgrade
    } else {
        TlsRoute::Forward
    }
}

/// The route inside a TLS session whose first bytes are `inner` (none when
/// the read timed out or the session ended).
pub fn route_tls(inner: &[u8]) -> (route: TlsRoute)
    ensures
        route == tls_route_for(inner@, utf8_lossy(inner@)),
{
    let text = decode_lossy(inner);
    route_tls_request(inner, text.as_str())
}

/// The response that opens an SSH tunnel inside TLS.
pub fn ssh_upgrade_reply() -> (reply: String)
    ensures
        reply@ == "HTTP/1.1 200 OK\r\nUpgrade: security\r\n\r\n"@,
{
    "HTTP/1.1 200 OK\r\nUpgrade: security\r\n\r\n".to_owned()
}

/// The status text sent to HTTP clients: `status` up to its first `|`.
pub fn status_to_send(status: &str) -> (sent: String)
    ensures
        sent@ == first_status(status@),
{
    let chars = chars_of(status);
    let end = find_char(chars.as_slice(), '|', 0);
    proof {
        find_from_bounds(status@, '|', 0);
    }
    status.substring_char(0, end).to_owned()
}

/// The two status lines of the HTTP handshake: first `101`, then, after the
/// client's next request, `200`, both with the status text `status`.
pub fn http_status_replies(status: &str) -> (replies: (String, String))
    ensures
        replies.0@ == "HTTP/1.1 101 "@ + status@ + "\r\n\r\n"@,
        replies.1@ == "HTTP/1.1 200 "@ + status@ + "\r\n\r\n"@,
{
    let mut switching = "HTTP/1.1 101 ".to_owned();
    switching.append(status);
    switching.append("\r\n\r\n");
    let mut ok = "HTTP/1.1 200 ".to_owned();
    ok.append(status);
    ok.append("\r\n\r\n");
    (switching, ok)
}

/// The protocol name reported for a stream whose first bytes are `peeked`:
/// `"SSH"` when it sent nothing yet, otherwise what the detector names.
pub fn protocol_of_peek(peeked: &[u8]) -> (name: String)
    ensures
        name@ == (if peeked@.len() == 0 { "SSH"@ } else { detected_protocol(peeked@) }),
{
    if peeked.len() == 0 {
        "SSH".to_owned()
    } else {
        ProtocolDetector::detect(peeked)
    }
}

/// The certificate chain and private key files of a Let's Encrypt domain.
pub fn certificate_paths(domain: &str) -> (paths: (String, String))
    ensures
        paths.0@ == "/etc/letsencrypt/live/"@ + domain@ + "/fullchain.pem"@,
        paths.1@ == "/etc/letsencrypt/live/"@ + domain@ + "/privkey.pem"@,
{
    let mut chain = "/etc/letsencrypt/live/".to_owned();
    chain.append(domain);
    chain.append("/fullchain.pem");
    let mut key = "/etc/letsencrypt/live/".to_owned();
    key.append(domain);
    key.append("/privkey.pem");
    (chain, key)
}

/// The status sent never holds a `|`, is a prefix of the configured status,
/// and is the whole status when that holds no `|`.
pub proof fn first_status_is_clean_prefix(status: Seq<char>)
    ensures
        !first_status(status).contains('|'),
        status.subrange(0, first_status(status).len() as int) == first_status(status),
        !status.contains('|') ==> first_status(status) == status,
{
    find_from_bounds(status, '|', 0);
    let end = find_from(status, '|', 0);
    assert forall|k: int| 0 <= k < end implies status[k] != '|' by {
        first_bar_is_first(status, 0, k);
    }
    if !status.contains('|') {
        if end < status.len() {
            assert(status[end as int] == '|');
        }
        assert(status.subrange(0, end as int) =~= status);
    }
}

/// What the detector names TLS, the router terminates as TLS; bytes the
/// detector names SOCKS5 are never terminated as TLS.
pub proof fn tls_detection_agrees_with_routing(peeked: Seq<u8>, text: Seq<char>)
    ensures
        detected_protocol(peeked) == "tls"@ ==> route_for(peeked, text) == Route::Tls,
        peeked.len() > 0 && peeked[0] == 0x05 ==> route_for(peeked, text) != Route::Tls,
{
    reveal_strlit("tls");
    reveal_strlit("ssh");
    reveal_strlit("socks5");
    reveal_strlit("ovpn");
    if detected_protocol(peeked) == "tls"@ {
        if peeked.len() == 0 {
            assert("ssh"@.len() != "tls"@.len());
        } else if peeked[0] == 0x05 {
            assert("socks5"@.len() != "tls"@.len());
        } else if !(peeked.len() > 2 && peeked[0] == 0x16 && peeked[1] == 0x03) {
            assert("ovpn"@[0] != "tls"@[0]);
            assert("ssh"@[0] != "tls"@[0]);
        }
    }
}

/// A request that carries no TLS, SSH, WebSocket or custom-header marker but
/// does carry `HTTP/`, `GET `, `POST ` or `CONNECT` is served as plain HTTP,
/// whatever its method or its other headers.
pub proof fn http_requests_are_served_as_http(peeked: Seq<u8>, text: Seq<char>)
    requires
        peeked.len() > 0,
        peeked[0] != 0x16,
        !has_substring(text, "SSH-"@),
        !has_substring(text, "Upgrade: websocket"@),
        !has_substring(text, "Sec-WebSocket-Key"@),
        !has_substring(text, "X-"@),
        !has_substring(text, "XHTTP"@),
        has_substring(text, "HTTP/"@) || has_substring(text, "GET "@) || has_substring(text, "POST "@)
            || has_substring(text, "CONNECT"@),
    ensures
        route_for(peeked, text) == Route::Http,
{
}

/// Nothing peeked falls back to SSH, and a first byte 0x16 (a TLS record)
/// is always terminated as TLS, whatever follows.
pub proof fn empty_and_tls_routes(peeked: Seq<u8>, text: Seq<char>)
    ensures
        peeked.len() == 0 ==> route_for(peeked, text) == Route::Fallback,
        peeked.len() > 0 && peeked[0] == 0x16 ==> route_for(peeked, text) == Route::Tls,
{
}

/// A request with custom headers and no TLS, SSH or WebSocket marker is
/// served as XHTTP, over TLS exactly when it names `X-SSL:`; a request with
/// no marker at all falls back to SSH.
pub proof fn xhttp_and_unknown_requests(peeked: Seq<u8>, text: Seq<char>)
    requires
        peeked.len() > 0,
        peeked[0] != 0x16,
        !has_substring(text, "SSH-"@),
        !has_substring(text, "Upgrade: websocket"@),
        !has_substring(text, "Sec-WebSocket-Key"@),
    ensures
        has_substring(text, "X-"@) || has_substring(text, "XHTTP"@) ==> route_for(peeked, text)
            == (Route::Xhttp { secure: has_substring(text, "X-SSL:"@) }),
        !has_substring(text, "X-"@) && !has_substring(text, "XHTTP"@) && !has_substring(text, "HTTP/"@)
            && !has_substring(text, "GET "@) && !has_substring(text, "POST "@) && !has_substring(
            text,
            "CONNECT"@,
        ) ==> route_for(peeked, text) == Route::Fallback,
{
}

/// A WebSocket upgrade request that is neither a TLS record nor an SSH
/// banner is served as WebSocket whatever custom headers it also carries,
/// over TLS exactly when it names `X-SSL:` or `wss://`.
pub proof fn websocket_requests_are_served_as_websocket(peeked: Seq<u8>, text: Seq<char>)
    requires
        peeked.len() > 0,
        peeked[0] != 0x16,
        !has_substring(text, "SSH-"@),
        has_substring(text, "Upgrade: websocket"@) || has_substring(text, "Sec-WebSocket-Key"@),
    ensures
        route_for(peeked, text) == (Route::WebSocket {
            secure: has_substring(text, "X-SSL:"@) || has_substring(text, "wss://"@),
        }),
{
}

/// Inside TLS, a request that asks for a WebSocket upgrade is served as
/// WebSocket whatever other headers (custom `X-` ones included) it carries.
pub proof fn websocket_inside_tls_is_served_as_websocket(inner: Seq<u8>, text: Seq<char>)
    requires
        inner.len() > 0,
        has_substring(text, "Upgrade: websocket"@) || has_substring(text, "Sec-WebSocket-Key"@),
    ensures
        tls_route_for(inner, text) == TlsRoute::WebSocket,
{
}

/// Inside TLS, a request with custom headers and no WebSocket marker is
/// served as XHTTP; one with neither that names `Upgrade: security` or `SSH`
/// gets the SSH upgrade; anything else read is forwarded.
pub proof fn other_requests_inside_tls(inner: Seq<u8>, text: Seq<char>)
    requires
        inner.len() > 0,
        !has_substring(text, "Upgrade: websocket"@),
        !has_substring(text, "Sec-WebSocket-Key"@),
    ensures
        has_substring(text, "X-"@) || has_substring(text, "XHTTP"@) ==> tls_route_for(inner, text)
            == TlsRoute::Xhttp,
        !has_substring(text, "X-"@) && !has_substring(text, "XHTTP"@) && (has_substring(
            text,
            "Upgrade: security"@,
        ) || has_substring(text, "SSH"@)) ==> tls_route_for(inner, text) == TlsRoute::SshUpgrade,
        !has_substring(text, "X-"@) && !has_substring(text, "XHTTP"@) && !has_substring(
            text,
            "Upgrade: security"@,
        ) && !has_substring(text, "SSH"@) ==> tls_route_for(inner, text) == TlsRoute::Forward,
{
}

/// An SSH banner is tunnelled as SSH whatever else the bytes hold, unless
/// they open with a TLS record byte.
pub proof fn ssh_banner_takes_precedence(peeked: Seq<u8>, text: Seq<char>)
    requires
        peeked.len() > 0,
        peeked[0] != 0x16,
        has_substring(text, "SSH-"@),
    ensures
        route_for(peeked, text) == Route::Ssh,
{
}

/// No `c` stands between `from` and the position `find_from` returns.
proof fn first_bar_is_first(t: Seq<char>, from: nat, k: int)
    requires
        from <= k < find_from(t, '|', from),
        from <= t.len(),
    ensures
        t[k] != '|',
    decreases t.len() - from,
{
    if from < t.len() && t[from as int] != '|' && k > from {
        first_bar_is_first(t, from + 1, k);
    }
}

} // verus!
