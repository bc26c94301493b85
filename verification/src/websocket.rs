//! The server side of the WebSocket opening handshake.

use vstd::prelude::*;
use vstd::utf8::encode_utf8;
use crate::digest::{base64_encode, base64_of, sha1_digest, sha1_of};
use crate::text::{
    chars_of, contains_str, find_char, find_from, find_from_at_most, find_from_bounds, has_substring, occurs_at,
    occurs_at_exec, trim_bounds, trimmed,
};
use crate::unicode::{decode_lossy, to_lowercase, unicode_lowercase, utf8_lossy};

verus! {

/// The GUID that RFC 6455 appends to the client key.
pub open spec fn websocket_guid() -> Seq<char> {
    "258EAFA5-E914-47DA-95CA-C5AB0DC85B11"@
}

/// The line of `t` that runs from `start` to the line break at `end`, without
/// the carriage return that may precede the break (as `str::lines`).
pub open spec fn line_body(t: Seq<char>, start: nat, end: nat) -> Seq<char> {
    if end < t.len() && end > start && t[end - 1] == '\r' {
        t.subrange(start as int, end - 1)
    } else {
        t.subrange(start as int, end as int)
    }
}

/// The line names the `Sec-WebSocket-Key` header, in any letter case.
pub open spec fn is_key_header(line: Seq<char>) -> bool {
    occurs_at(unicode_lowercase(line), "sec-websocket-key:"@, 0)
}

/// The text of a header line between its first and second colon (or the end
/// of the line), trimmed; empty when the line has no colon.
pub open spec fn header_value(line: Seq<char>) -> Seq<char> {
    let i = find_from(line, ':', 0);
    if i >= line.len() {
        Seq::empty()
    } else {
        trimmed(line.subrange(i + 1 as int, find_from(line, ':', i + 1) as int))
    }
}

/// The value of the first `Sec-WebSocket-Key` line of `t` from position
/// `start` on, or the empty text when there is none.
pub open spec fn key_from(t: Seq<char>, start: nat) -> Seq<char>
    decreases t.len() - start,
{
    if start >= t.len() {
        Seq::empty()
    } else {
        let end = find_from(t, '\n', start);
        let line = line_body(t, start, end);
        if is_key_header(line) {
            header_value(line)
        } else if end >= t.len() {
            Seq::empty()
        } else {
            proof {
                find_from_bounds(t, '\n', start);
            }
            key_from(t, end + 1)
        }
    }
}

/// A request is answered exactly when its text holds `Upgrade: websocket`,
/// and the answer carries the accept value of the key the request names.
pub proof fn upgrade_requests_are_answered(text: Seq<char>)
    ensures
        has_substring(text, "Upgrade: websocket"@) <==> handshake_for(text) is Some,
        has_substring(text, "Upgrade: websocket"@) ==> handshake_for(text) == Some(
            "HTTP/1.1 101 Switching Protocols\r\nUpgrade: websocket\r\nConnection: Upgrade\r\nSec-WebSocket-Accept: "@
                + accept_of(key_from(text, 0)) + "\r\n\r\n"@,
        ),
{
}

/// Position `s` starts a line of `t`: it is the start of the text or follows
/// a line break.
pub open spec fn starts_line(t: Seq<char>, s: nat) -> bool {
    s <= t.len() && (s == 0 || t[s - 1] == '\n')
}

/// The line of `t` that starts at `s`.
pub open spec fn line_at(t: Seq<char>, s: nat) -> Seq<char> {
    line_body(t, s, find_from(t, '\n', s))
}

proof fn key_from_reaches(t: Seq<char>, start: nat, s: nat)
    requires
        start <= s < t.len(),
        starts_line(t, start),
        starts_line(t, s),
        is_key_header(line_at(t, s)),
        forall|r: nat| r < s && starts_line(t, r) ==> !is_key_header(#[trigger] line_at(t, r)),
    ensures
        key_from(t, start) == header_value(line_at(t, s)),
    decreases s - start,
{
    if start < s {
        assert(!is_key_header(line_at(t, start)));
        find_from_at_most(t, '\n', start, (s - 1) as nat);
        find_from_bounds(t, '\n', start);
        let end = find_from(t, '\n', start);
        assert(starts_line(t, end + 1));
        key_from_reaches(t, end + 1, s);
    }
}

/// The key is the value of the first line that names the
/// `Sec-WebSocket-Key` header (in any letter case), wherever in the request
/// that line stands.
pub proof fn first_key_line_gives_the_key(t: Seq<char>, s: nat)
    requires
        s < t.len(),
        starts_line(t, s),
        is_key_header(line_at(t, s)),
        forall|r: nat| r < s && starts_line(t, r) ==> !is_key_header(#[trigger] line_at(t, r)),
    ensures
        key_from(t, 0) == header_value(line_at(t, s)),
{
    key_from_reaches(t, 0, s);
}

/// A request with no line naming the `Sec-WebSocket-Key` header has the
/// empty key.
pub proof fn no_key_line_gives_the_empty_key(t: Seq<char>)
    requires
        forall|r: nat| r < t.len() && starts_line(t, r) ==> !is_key_header(#[trigger] line_at(t, r)),
    ensures
        key_from(t, 0) == Seq::<char>::empty(),
{
    no_key_from(t, 0);
}

proof fn no_key_from(t: Seq<char>, start: nat)
    requires
        start <= t.len(),
        starts_line(t, start),
        forall|r: nat| r < t.len() && starts_line(t, r) ==> !is_key_header(#[trigger] line_at(t, r)),
    ensures
        key_from(t, start) == Seq::<char>::empty(),
    decreases t.len() - start,
{
    if start < t.len() {
        assert(!is_key_header(line_at(t, start)));
        find_from_bounds(t, '\n', start);
        let end = find_from(t, '\n', start);
        if end < t.len() {
            assert(starts_line(t, end + 1));
            no_key_from(t, end + 1);
        }
    }
}

/// The `Sec-WebSocket-Accept` value for a client key.
pub open spec fn accept_of(key: Seq<char>) -> Seq<char> {
    base64_of(sha1_of(encode_utf8(key) + encode_utf8(websocket_guid())))
}

/// The switching-protocols response that carries `accept`.
pub open spec fn reply_text(accept: Seq<char>) -> Seq<char> {
    "HTTP/1.1 101 Switching Protocols\r\nUpgrade: websocket\r\nConnection: Upgrade\r\nSec-WebSocket-Accept: "@
        + accept + "\r\n\r\n"@
}

/// The response owed to the first bytes `request` of a connection: a
/// switching-protocols response when the request asks for a WebSocket upgrade.
pub open spec fn handshake_of(request: Seq<u8>) -> Option<Seq<char>> {
    handshake_for(utf8_lossy(request))
}

/// The response owed to a request whose text is `text`.
pub open spec fn handshake_for(text: Seq<char>) -> Option<Seq<char>> {
    if has_substring(text, "Upgrade: websocket"@) {
        Some(reply_text(accept_of(key_from(text, 0))))
    } else {
        None
    }
}

/// The value of the header line `line`: between its first and second colon,
/// trimmed.
pub fn header_value_of(line: &str) -> (value: String)
    ensures
        value@ == header_value(line@),
{
    let chars = chars_of(line);
    let i = find_char(chars.as_slice(), ':', 0);
    if i >= chars.len() {
        return String::new();
    }
    proof {
        find_from_bounds(chars@, ':', (i + 1) as nat);
    }
    let j = find_char(chars.as_slice(), ':', i + 1);
    let (a, b) = trim_bounds(chars.as_slice(), i + 1, j);
    let value = line.substring_char(a, b).to_owned();
    assert(value@ =~= header_value(line@));
    value
}

/// Whether a lower-cased header line names the `Sec-WebSocket-Key` header.
pub fn names_key_header(lower_line: &str) -> (names: bool)
    ensures
        names == occurs_at(lower_line@, "sec-websocket-key:"@, 0),
{
    let line = chars_of(lower_line);
    let marker = chars_of("sec-websocket-key:");
    occurs_at_exec(line.as_slice(), marker.as_slice(), 0)
}

/// The value of the first `Sec-WebSocket-Key` header line of a request text,
/// or the empty text when there is none.
pub fn sec_websocket_key(request_text: &str) -> (key: String)
    ensures
        key@ == key_from(request_text@, 0),
{
    let chars = chars_of(request_text);
    let mut start: usize = 0;
    while start < chars.len()
        invariant
            chars@ == request_text@,
            start <= chars@.len(),
            key_from(chars@, start as nat) == key_from(chars@, 0),
        decreases chars@.len() - start,
    {
        let end = find_char(chars.as_slice(), '\n', start);
        proof {
            find_from_bounds(chars@, '\n', start as nat);
        }
        let body_end = if end < chars.len() && end > start && chars[end - 1] == '\r' {
            end - 1
        } else {
            end
        };
        let line = request_text.substring_char(start, body_end);
        assert(line@ == line_body(chars@, start as nat, end as nat));
        let lower = to_lowercase(line);
        if names_key_header(lower.as_str()) {
            return header_value_of(line);
        }
        if end >= chars.len() {
            return String::new();
        }
        start = end + 1;
    }
    String::new()
}

/// The `Sec-WebSocket-Accept` value for a client key: the Base64 text of the
/// SHA-1 digest of the key followed by the RFC 6455 GUID.
pub fn accept_key(key: &str) -> (accept: String)
    ensures
        accept@ == accept_of(key@),
{
    let mut data: Vec<u8> = Vec::new();
    data.extend_from_slice(key.as_bytes());
    data.extend_from_slice("258EAFA5-E914-47DA-95CA-C5AB0DC85B11".as_bytes());
    assert(data@ =~= encode_utf8(key@) + encode_utf8(websocket_guid()));
    let digest = sha1_digest(data.as_slice());
    base64_encode(digest.as_slice())
}

/// The switching-protocols response that carries the accept value `accept`.
pub fn handshake_reply(accept: &str) -> (reply: String)
    ensures
        reply@ == reply_text(accept@),
{
    let mut reply =
        "HTTP/1.1 101 Switching Protocols\r\nUpgrade: websocket\r\nConnection: Upgrade\r\nSec-WebSocket-Accept: "
            .to_owned();
    reply.append(accept);
    reply.append("\r\n\r\n");
    reply
}

/// The response owed to the first bytes of a WebSocket connection: `None`
/// when they do not ask for an upgrade, otherwise the switching-protocols
/// response for the key they carry.
pub fn websocket_handshake(request: &[u8]) -> (reply: Option<String>)
    ensures
        reply matches Some(r) ==> handshake_of(request@) == Some(r@),
        reply is None ==> handshake_of(request@) is None,
{
    let text = decode_lossy(request);
    handshake_for_text(text.as_str())
}

/// The response owed to a request whose text (as `String::from_utf8_lossy`
/// makes it) is `request_text`.
pub fn handshake_for_text(request_text: &str) -> (reply: Option<String>)
    ensures
        reply matches Some(r) ==> handshake_for(request_text@) == Some(r@),
        reply is None ==> handshake_for(request_text@) is None,
{
    let chars = chars_of(request_text);
    if contains_str(chars.as_slice(), "Upgrade: websocket") {
        let key = sec_websocket_key(request_text);
        let accept = accept_key(key.as_str());
        Some(handshake_reply(accept.as_str()))
    } else {
        None
    }
}

} // verus!
