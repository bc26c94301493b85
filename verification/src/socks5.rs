//! The SOCKS5 handshake as a state machine.
//!
//! The caller performs the I/O: it reads exactly the number of bytes that a
//! step asks for, writes the bytes a step sends, connects where a step says,
//! and hands the outcome back to `Socks5Session::step` as the next event.

use vstd::prelude::*;
use crate::text::{decimal, decimal_is_digits, find_from, find_from_first, is_digit, push_decimal};
use crate::unicode::{decode_lossy, utf8_lossy};

verus! {

/// Why a SOCKS5 handshake ended without a relay.
#[derive(PartialEq, Eq, Structural, Clone, Copy, Debug)]
pub enum Socks5Error {
    /// The greeting does not carry protocol version 5.
    NotSocks5,
    /// The request asks for a command other than CONNECT.
    UnsupportedCommand(u8),
    /// The request names an IPv6 address.
    Ipv6Unsupported,
    /// The request names an address of an unknown type.
    UnsupportedAddressType,
    /// The connection to the requested destination failed.
    ConnectFailed,
}

/// The host part of a requested destination.
pub enum Socks5Host {
    /// An IPv4 address, most significant byte first.
    Ipv4(u8, u8, u8, u8),
    /// A domain name, as the raw bytes the client sent.
    Domain(Vec<u8>),
}

/// A destination requested by a client.
pub struct Socks5Target {
    pub host: Socks5Host,
    pub port: u16,
}

/// Where a handshake stands: what it waits for next.
pub enum Socks5State {
    /// Waiting for the version and method-count bytes.
    AwaitGreeting,
    /// Waiting for the `count` method bytes.
    AwaitMethods { count: u8 },
    /// Waiting for the four request header bytes.
    AwaitRequest,
    /// Waiting for the four bytes of an IPv4 address.
    AwaitIpv4Address,
    /// Waiting for the port that follows an IPv4 address.
    AwaitIpv4Port { a: u8, b: u8, c: u8, d: u8 },
    /// Waiting for the length byte of a domain name.
    AwaitDomainLength,
    /// Waiting for the `length` bytes of a domain name.
    AwaitDomain { length: u8 },
    /// Waiting for the port that follows a domain name.
    AwaitDomainPort { domain: Vec<u8> },
    /// Waiting for the outcome of the connection to the destination.
    AwaitConnection,
    /// The handshake succeeded; bytes are relayed both ways.
    Relaying,
    /// The handshake ended.
    Closed,
}

/// What the caller hands to the machine.
pub enum Socks5Event {
    /// The bytes read, exactly as many as the previous step asked for.
    Received(Vec<u8>),
    /// The connection to the destination was made.
    Connected,
    /// The connection to the destination failed.
    ConnectFailed,
}

/// What the caller does after writing the bytes of a step.
pub enum Socks5Next {
    /// Read exactly this many bytes from the client.
    ReadExact(usize),
    /// Connect to this destination.
    Connect(Socks5Target),
    /// Relay bytes between client and destination until either side closes.
    Relay,
    /// End the handshake with this error.
    Fail(Socks5Error),
}

/// One step of the handshake: the new state, the bytes to send to the client
/// (possibly none), and what to do next.
pub struct Socks5Step {
    pub state: Socks5State,
    pub send: Vec<u8>,
    pub next: Socks5Next,
}

/// The reply that ends a request with status `code`: version 5, the code, a
/// reserved zero, address type IPv4, and an all-zero address and port.
pub open spec fn reply_bytes(code: u8) -> Seq<u8> {
    seq![5u8, code, 0u8, 1u8, 0u8, 0u8, 0u8, 0u8, 0u8, 0u8]
}

/// The answer to the method negotiation: version 5, no authentication.
pub open spec fn no_auth_bytes() -> Seq<u8> {
    seq![5u8, 0u8]
}

/// The port written as two bytes, most significant first.
pub open spec fn port_of(bytes: Seq<u8>) -> u16 {
    (bytes[0] as int * 256 + bytes[1] as int) as u16
}

/// The text of a host: dotted decimal for IPv4, the lossily decoded name for
/// a domain.
pub open spec fn host_text(host: Socks5Host) -> Seq<char> {
    match host {
        Socks5Host::Ipv4(a, b, c, d) => decimal(a as nat) + seq!['.'] + decimal(b as nat) + seq!['.']
            + decimal(c as nat) + seq!['.'] + decimal(d as nat),
        Socks5Host::Domain(name) => utf8_lossy(name@),
    }
}

/// The textual `host:port` form of a destination.
pub open spec fn target_text(target: Socks5Target) -> Seq<char> {
    host_text(target.host) + seq![':'] + decimal(target.port as nat)
}

/// The `host:port` text made of a host text and a port.
pub fn join_host_port(host: String, port: u16) -> (text: String)
    ensures
        text@ == host@ + seq![':'] + decimal(port as nat),
{
    let mut text = host;
    text.append(":");
    push_decimal(&mut text, port);
    proof {
        reveal_strlit(":");
    }
    assert(text@ =~= host@ + seq![':'] + decimal(port as nat));
    text
}

/// The address text of an IPv4 destination reads back field by field: up to
/// the first `.` the first octet, then the second, the third and, up to the
/// `:`, the fourth, each in decimal and in order, and after the `:` the port.
pub proof fn ipv4_address_reads_back(a: u8, b: u8, c: u8, d: u8, port: u16)
    ensures
        ({
            let t = target_text(Socks5Target { host: Socks5Host::Ipv4(a, b, c, d), port });
            let i1 = find_from(t, '.', 0);
            let i2 = find_from(t, '.', i1 + 1);
            let i3 = find_from(t, '.', i2 + 1);
            let j = find_from(t, ':', i3 + 1);
            &&& t.subrange(0, i1 as int) == decimal(a as nat)
            &&& t.subrange((i1 + 1) as int, i2 as int) == decimal(b as nat)
            &&& t.subrange((i2 + 1) as int, i3 as int) == decimal(c as nat)
            &&& t.subrange((i3 + 1) as int, j as int) == decimal(d as nat)
            &&& t.subrange((j + 1) as int, t.len() as int) == decimal(port as nat)
        }),
{
    let da = decimal(a as nat);
    let db = decimal(b as nat);
    let dc = decimal(c as nat);
    let dd = decimal(d as nat);
    let dp = decimal(port as nat);
    decimal_is_digits(a as nat);
    decimal_is_digits(b as nat);
    decimal_is_digits(c as nat);
    decimal_is_digits(d as nat);
    decimal_is_digits(port as nat);
    let t = target_text(Socks5Target { host: Socks5Host::Ipv4(a, b, c, d), port });
    assert(t =~= da + seq!['.'] + db + seq!['.'] + dc + seq!['.'] + dd + seq![':'] + dp);
    let p1 = da.len();
    let p2 = p1 + 1 + db.len();
    let p3 = p2 + 1 + dc.len();
    let q = p3 + 1 + dd.len();
    assert(t.subrange(0, p1 as int) =~= da);
    assert(t.subrange((p1 + 1) as int, p2 as int) =~= db);
    assert(t.subrange((p2 + 1) as int, p3 as int) =~= dc);
    assert(t.subrange((p3 + 1) as int, q as int) =~= dd);
    assert(t.subrange((q + 1) as int, t.len() as int) =~= dp);
    assert forall|k: int| 0 <= k < p1 implies t[k] != '.' by {
        assert(t[k] == da[k]);
        assert(is_digit(da[k]));
    }
    find_from_first(t, '.', 0, p1);
    assert forall|k: int| p1 + 1 <= k < p2 implies t[k] != '.' by {
        assert(t[k] == db[k - p1 - 1]);
        assert(is_digit(db[k - p1 - 1]));
    }
    find_from_first(t, '.', p1 + 1, p2);
    assert forall|k: int| p2 + 1 <= k < p3 implies t[k] != '.' by {
        assert(t[k] == dc[k - p2 - 1]);
        assert(is_digit(dc[k - p2 - 1]));
    }
    find_from_first(t, '.', p2 + 1, p3);
    assert forall|k: int| p3 + 1 <= k < q implies t[k] != ':' by {
        assert(t[k] == dd[k - p3 - 1]);
        assert(is_digit(dd[k - p3 - 1]));
    }
    find_from_first(t, ':', p3 + 1, q);
}

/// The port is read big-endian: the first byte is its high byte and the
/// second its low byte.
pub proof fn port_is_big_endian(bytes: Seq<u8>)
    requires
        bytes.len() == 2,
    ensures
        port_of(bytes) / 256 == bytes[0],
        port_of(bytes) % 256 == bytes[1],
{
}

/// A reply is ten bytes: version 5, the status code, a reserved zero,
/// address type IPv4 (1), then an all-zero address and port.
pub proof fn reply_layout(code: u8)
    ensures
        reply_bytes(code).len() == 10,
        reply_bytes(code)[0] == 5,
        reply_bytes(code)[1] == code,
        reply_bytes(code)[2] == 0,
        reply_bytes(code)[3] == 1,
        forall|k: int| 4 <= k < 10 ==> reply_bytes(code)[k] == 0,
        no_auth_bytes() == seq![5u8, 0u8],
{
}

/// How many bytes a state waits for, if it waits for bytes.
pub open spec fn expected_len(state: Socks5State) -> Option<nat> {
    match state {
        Socks5State::AwaitGreeting => Some(2),
        Socks5State::AwaitMethods { count } => Some(count as nat),
        Socks5State::AwaitRequest => Some(4),
        Socks5State::AwaitIpv4Address => Some(4),
        Socks5State::AwaitIpv4Port { .. } => Some(2),
        Socks5State::AwaitDomainLength => Some(1),
        Socks5State::AwaitDomain { length } => Some(length as nat),
        Socks5State::AwaitDomainPort { .. } => Some(2),
        _ => None,
    }
}

/// Whether `event` is one the machine waits for in `state`.
pub open spec fn accepts(state: Socks5State, event: Socks5Event) -> bool {
    match event {
        Socks5Event::Received(bytes) => expected_len(state) == Some(bytes@.len()),
        _ => state is AwaitConnection,
    }
}

/// The step ends the handshake with `error` after sending `send`.
pub open spec fn fails_with(out: Socks5Step, send: Seq<u8>, error: Socks5Error) -> bool {
    &&& out.state is Closed
    &&& out.send@ == send
    &&& out.next == Socks5Next::Fail(error)
}

/// The step sends nothing and then reads exactly `n` bytes.
pub open spec fn reads(out: Socks5Step, n: nat) -> bool {
    &&& out.send@.len() == 0
    &&& out.next matches Socks5Next::ReadExact(k) && k == n
}

/// The step sends nothing, connects to a host that satisfies `host_is` at
/// `port`, and waits for the outcome.
pub open spec fn connects(out: Socks5Step, host_is: spec_fn(Socks5Host) -> bool, port: u16) -> bool {
    &&& out.state is AwaitConnection
    &&& out.send@.len() == 0
    &&& out.next matches Socks5Next::Connect(t) && host_is(t.host) && t.port == port
}

/// What the handshake does in `state` on `event`.
pub open spec fn step_spec(state: Socks5State, event: Socks5Event, out: Socks5Step) -> bool {
    match (state, event) {
        (Socks5State::AwaitGreeting, Socks5Event::Received(b)) => if b@[0] != 5 {
            fails_with(out, seq![], Socks5Error::NotSocks5)
        } else {
            &&& reads(out, b@[1] as nat)
            &&& out.state == Socks5State::AwaitMethods { count: b@[1] }
        },
        (Socks5State::AwaitMethods { .. }, Socks5Event::Received(_)) => {
            &&& out.state is AwaitRequest
            &&& out.send@ == no_auth_bytes()
            &&& out.next matches Socks5Next::ReadExact(k) && k == 4
        },
        (Socks5State::AwaitRequest, Socks5Event::Received(b)) => if b@[1] != 1 {
            fails_with(out, reply_bytes(7), Socks5Error::UnsupportedCommand(b@[1]))
        } else if b@[3] == 1 {
            reads(out, 4) && out.state is AwaitIpv4Address
        } else if b@[3] == 3 {
            reads(out, 1) && out.state is AwaitDomainLength
        } else if b@[3] == 4 {
            fails_with(out, reply_bytes(8), Socks5Error::Ipv6Unsupported)
        } else {
            fails_with(out, reply_bytes(8), Socks5Error::UnsupportedAddressType)
        },
        (Socks5State::AwaitIpv4Address, Socks5Event::Received(b)) => {
            &&& reads(out, 2)
            &&& out.state == Socks5State::AwaitIpv4Port { a: b@[0], b: b@[1], c: b@[2], d: b@[3] }
        },
        (Socks5State::AwaitIpv4Port { a, b, c, d }, Socks5Event::Received(p)) => connects(
            out,
            |h: Socks5Host| h == Socks5Host::Ipv4(a, b, c, d),
            port_of(p@),
        ),
        (Socks5State::AwaitDomainLength, Socks5Event::Received(b)) => {
            &&& reads(out, b@[0] as nat)
            &&& out.state == Socks5State::AwaitDomain { length: b@[0] }
        },
        (Socks5State::AwaitDomain { .. }, Socks5Event::Received(b)) => {
            &&& reads(out, 2)
            &&& out.state matches Socks5State::AwaitDomainPort { domain } && domain@ == b@
        },
        (Socks5State::AwaitDomainPort { domain }, Socks5Event::Received(p)) => connects(
            out,
            |h: Socks5Host| h matches Socks5Host::Domain(name) && name@ == domain@,
            port_of(p@),
        ),
        (Socks5State::AwaitConnection, Socks5Event::Connected) => {
            &&& out.state is Relaying
            &&& out.send@ == reply_bytes(0)
            &&& out.next is Relay
        },
        (Socks5State::AwaitConnection, Socks5Event::ConnectFailed) => fails_with(
            out,
            reply_bytes(5),
            Socks5Error::ConnectFailed,
        ),
        _ => false,
    }
}

/// The reply that ends a request with status `code`.
pub fn reply(code: u8) -> (bytes: Vec<u8>)
    ensures
        bytes@ == reply_bytes(code),
{
    let bytes = vec![5u8, code, 0u8, 1u8, 0u8, 0u8, 0u8, 0u8, 0u8, 0u8];
    assert(bytes@ =~= reply_bytes(code));
    bytes
}

/// The port carried by two bytes, most significant first.
pub fn read_port(bytes: &[u8]) -> (port: u16)
    requires
        bytes@.len() == 2,
    ensures
        port == port_of(bytes@),
{
    (bytes[0] as u16) * 256 + (bytes[1] as u16)
}

/// The first step of a handshake: wait for the greeting.
pub fn start() -> (out: Socks5Step)
    ensures
        out.state is AwaitGreeting,
        reads(out, 2),
{
    Socks5Step { state: Socks5State::AwaitGreeting, send: Vec::new(), next: Socks5Next::ReadExact(2) }
}

fn fail(send: Vec<u8>, error: Socks5Error) -> (out: Socks5Step)
    ensures
        fails_with(out, send@, error),
{
    Socks5Step { state: Socks5State::Closed, send, next: Socks5Next::Fail(error) }
}

fn read_next(state: Socks5State, n: usize) -> (out: Socks5Step)
    ensures
        out.state == state,
        reads(out, n as nat),
{
    Socks5Step { state, send: Vec::new(), next: Socks5Next::ReadExact(n) }
}

/// Advances the handshake in `state` by `event`.
pub fn step(state: Socks5State, event: Socks5Event) -> (out: Socks5Step)
    requires
        accepts(state, event),
    ensures
        step_spec(state, event, out),
{
    match event {
        Socks5Event::Received(bytes) => match state {
            Socks5State::AwaitGreeting => {
                if bytes[0] != 5 {
                    fail(Vec::new(), Socks5Error::NotSocks5)
                } else {
                    let count = bytes[1];
                    read_next(Socks5State::AwaitMethods { count }, count as usize)
                }
            },
            Socks5State::AwaitMethods { .. } => {
                let send = vec![5u8, 0u8];
                assert(send@ =~= no_auth_bytes());
                Socks5Step { state: Socks5State::AwaitRequest, send, next: Socks5Next::ReadExact(4) }
            },
            Socks5State::AwaitRequest => {
                let command = bytes[1];
                let address_type = bytes[3];
                if command != 1 {
                    fail(reply(7), Socks5Error::UnsupportedCommand(command))
                } else if address_type == 1 {
                    read_next(Socks5State::AwaitIpv4Address, 4)
                } else if address_type == 3 {
                    read_next(Socks5State::AwaitDomainLength, 1)
                } else if address_type == 4 {
                    fail(reply(8), Socks5Error::Ipv6Unsupported)
                } else {
                    fail(reply(8), Socks5Error::UnsupportedAddressType)
                }
            },
            Socks5State::AwaitIpv4Address => read_next(
                Socks5State::AwaitIpv4Port { a: bytes[0], b: bytes[1], c: bytes[2], d: bytes[3] },
                2,
            ),
            Socks5State::AwaitIpv4Port { a, b, c, d } => {
                let port = read_port(bytes.as_slice());
                Socks5Step {
                    state: Socks5State::AwaitConnection,
                    send: Vec::new(),
                    next: Socks5Next::Connect(Socks5Target { host: Socks5Host::Ipv4(a, b, c, d), port }),
                }
            },
            Socks5State::AwaitDomainLength => {
                let length = bytes[0];
                read_next(Socks5State::AwaitDomain { length }, length as usize)
            },
            Socks5State::AwaitDomain { .. } => read_next(Socks5State::AwaitDomainPort { domain: bytes }, 2),
            Socks5State::AwaitDomainPort { domain } => {
                let port = read_port(bytes.as_slice());
                Socks5Step {
                    state: Socks5State::AwaitConnection,
                    send: Vec::new(),
                    next: Socks5Next::Connect(Socks5Target { host: Socks5Host::Domain(domain), port }),
                }
            },
            _ => {
                assert(false);
                fail(Vec::new(), Socks5Error::ConnectFailed)
            },
        },
        Socks5Event::Connected => Socks5Step {
            state: Socks5State::Relaying,
            send: reply(0),
            next: Socks5Next::Relay,
        },
        Socks5Event::ConnectFailed => fail(reply(5), Socks5Error::ConnectFailed),
    }
}

impl Socks5Target {
    /// The `host:port` text that the connection is made to.
    pub fn address(&self) -> (text: String)
        ensures
            text@ == target_text(*self),
    {
        let host = match &self.host {
            Socks5Host::Ipv4(a, b, c, d) => {
                let mut t = String::new();
                push_decimal(&mut t, *a as u16);
                t.append(".");
                push_decimal(&mut t, *b as u16);
                t.append(".");
                push_decimal(&mut t, *c as u16);
                t.append(".");
                push_decimal(&mut t, *d as u16);
                t
            },
            Socks5Host::Domain(name) => decode_lossy(name.as_slice()),
        };
        proof {
            reveal_strlit(".");
        }
        assert(host@ =~= host_text(self.host));
        join_host_port(host, self.port)
    }
}


/// The reply status that goes with an error reported after the greeting.
pub open spec fn status_code(error: Socks5Error) -> u8 {
    match error {
        Socks5Error::UnsupportedCommand(_) => 7,
        Socks5Error::ConnectFailed => 5,
        _ => 8,
    }
}

/// What a step asks the caller to do next is what its new state waits for.
pub open spec fn next_agrees(out: Socks5Step) -> bool {
    match out.next {
        Socks5Next::ReadExact(n) => expected_len(out.state) == Some(n as nat),
        Socks5Next::Connect(_) => out.state is AwaitConnection,
        Socks5Next::Relay => out.state is Relaying,
        Socks5Next::Fail(_) => out.state is Closed,
    }
}

/// Every step leaves the machine waiting for exactly what it asks the caller
/// to fetch: the bytes it reads next are the bytes its new state accepts, a
/// connection attempt leads to waiting for its outcome, and a failure closes.
pub proof fn steps_agree_with_next(state: Socks5State, event: Socks5Event, out: Socks5Step)
    requires
        accepts(state, event),
        step_spec(state, event, out),
    ensures
        next_agrees(out),
{
}

/// A handshake that fails after the greeting tells the client why: it sends
/// the ten-byte SOCKS5 reply carrying the status of the error. A bad greeting
/// is dropped without a reply.
pub proof fn failures_are_answered(state: Socks5State, event: Socks5Event, out: Socks5Step, error: Socks5Error)
    requires
        accepts(state, event),
        step_spec(state, event, out),
        out.next == Socks5Next::Fail(error),
    ensures
        state is AwaitGreeting ==> out.send@.len() == 0 && error == Socks5Error::NotSocks5,
        !(state is AwaitGreeting) ==> out.send@ == reply_bytes(status_code(error)),
{
}

/// A client that greets with version 5, offers its methods, asks to CONNECT
/// to an IPv4 address and sends the port is answered with "no
/// authentication" and connected to exactly that address and port.
pub proof fn ipv4_request_connects_to_its_address(
    greeting: Vec<u8>,
    methods: Vec<u8>,
    request: Vec<u8>,
    address: Vec<u8>,
    port: Vec<u8>,
    o1: Socks5Step,
    o2: Socks5Step,
    o3: Socks5Step,
    o4: Socks5Step,
    o5: Socks5Step,
)
    requires
        greeting@.len() == 2 && greeting@[0] == 5,
        methods@.len() == greeting@[1],
        request@.len() == 4 && request@[1] == 1 && request@[3] == 1,
        address@.len() == 4,
        port@.len() == 2,
        step_spec(Socks5State::AwaitGreeting, Socks5Event::Received(greeting), o1),
        step_spec(o1.state, Socks5Event::Received(methods), o2),
        step_spec(o2.state, Socks5Event::Received(request), o3),
        step_spec(o3.state, Socks5Event::Received(address), o4),
        step_spec(o4.state, Socks5Event::Received(port), o5),
    ensures
        o2.send@ == no_auth_bytes(),
        o5.next matches Socks5Next::Connect(t) && t.host == Socks5Host::Ipv4(
            address@[0],
            address@[1],
            address@[2],
            address@[3],
        ) && t.port == port_of(port@),
        o5.state is AwaitConnection,
{
}

/// A client that asks to CONNECT to a domain name is connected to exactly
/// that name and port.
pub proof fn domain_request_connects_to_its_name(
    request: Vec<u8>,
    length: Vec<u8>,
    name: Vec<u8>,
    port: Vec<u8>,
    o1: Socks5Step,
    o2: Socks5Step,
    o3: Socks5Step,
    o4: Socks5Step,
)
    requires
        request@.len() == 4 && request@[1] == 1 && request@[3] == 3,
        length@.len() == 1,
        name@.len() == length@[0],
        port@.len() == 2,
        step_spec(Socks5State::AwaitRequest, Socks5Event::Received(request), o1),
        step_spec(o1.state, Socks5Event::Received(length), o2),
        step_spec(o2.state, Socks5Event::Received(name), o3),
        step_spec(o3.state, Socks5Event::Received(port), o4),
    ensures
        o4.next matches Socks5Next::Connect(t) && (t.host matches Socks5Host::Domain(n) && n@ == name@)
            && t.port == port_of(port@),
{
}

impl Socks5Error {
    /// The text that describes the error.
    pub fn message(&self) -> (text: String)
        ensures
            text@ == error_text(*self),
    {
        match self {
            Socks5Error::NotSocks5 => "Não é um protocolo SOCKS5 válido".to_owned(),
            Socks5Error::UnsupportedCommand(command) => {
                let mut text = "Comando SOCKS não suportado: ".to_owned();
                push_decimal(&mut text, *command as u16);
                text
            },
            Socks5Error::Ipv6Unsupported => "IPv6 ainda não suportado".to_owned(),
            Socks5Error::UnsupportedAddressType => "Tipo de endereço não suportado".to_owned(),
            Socks5Error::ConnectFailed => "Falha ao conectar".to_owned(),
        }
    }
}

/// The text that describes an error.
pub open spec fn error_text(error: Socks5Error) -> Seq<char> {
    match error {
        Socks5Error::NotSocks5 => "Não é um protocolo SOCKS5 válido"@,
        Socks5Error::UnsupportedCommand(command) => "Comando SOCKS não suportado: "@ + decimal(command as nat),
        Socks5Error::Ipv6Unsupported => "IPv6 ainda não suportado"@,
        Socks5Error::UnsupportedAddressType => "Tipo de endereço não suportado"@,
        Socks5Error::ConnectFailed => "Falha ao conectar"@,
    }
}

} // verus!
