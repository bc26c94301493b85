use bsproxy::socks5::join_host_port;
use bsproxy::socks5::{
    read_port, reply, start, step, Socks5Error, Socks5Event, Socks5Host, Socks5Next, Socks5State,
    Socks5Step, Socks5Target,
};

fn feed(state: Socks5State, bytes: &[u8]) -> Socks5Step {
    step(state, Socks5Event::Received(bytes.to_vec()))
}

fn expect_read(out: &Socks5Step, n: usize) {
    match out.next {
        Socks5Next::ReadExact(k) => assert_eq!(k, n),
        _ => panic!("expected a read"),
    }
}

fn expect_fail(out: &Socks5Step, error: Socks5Error) {
    match out.next {
        Socks5Next::Fail(e) => assert_eq!(e, error),
        _ => panic!("expected a failure"),
    }
    assert!(matches!(out.state, Socks5State::Closed));
}

#[test]
fn socks5_reply_layout() {
    assert_eq!(reply(7), vec![5, 7, 0, 1, 0, 0, 0, 0, 0, 0]);
    assert_eq!(reply(0), vec![5, 0, 0, 1, 0, 0, 0, 0, 0, 0]);
}

#[test]
fn port_is_big_endian() {
    assert_eq!(read_port(&[0x1f, 0x90]), 8080);
    assert_eq!(read_port(&[0x00, 0x16]), 22);
    assert_eq!(read_port(&[0xff, 0xff]), 65535);
}

#[test]
fn ipv4_connect_session() {
    let out = start();
    assert!(matches!(out.state, Socks5State::AwaitGreeting));
    expect_read(&out, 2);
    let out = feed(out.state, &[5, 2]);
    assert!(out.send.is_empty());
    expect_read(&out, 2);
    let out = feed(out.state, &[0, 2]);
    assert_eq!(out.send, vec![5, 0]);
    expect_read(&out, 4);
    let out = feed(out.state, &[5, 1, 0, 1]);
    expect_read(&out, 4);
    let out = feed(out.state, &[10, 0, 0, 1]);
    expect_read(&out, 2);
    let out = feed(out.state, &[0x1f, 0x90]);
    assert!(out.send.is_empty());
    match &out.next {
        Socks5Next::Connect(target) => {
            assert_eq!(target.port, 8080);
            assert!(matches!(target.host, Socks5Host::Ipv4(10, 0, 0, 1)));
            assert_eq!(target.address(), "10.0.0.1:8080");
        }
        _ => panic!("expected a connect"),
    }
    let out = step(out.state, Socks5Event::Connected);
    assert_eq!(out.send, vec![5, 0, 0, 1, 0, 0, 0, 0, 0, 0]);
    assert!(matches!(out.next, Socks5Next::Relay));
    assert!(matches!(out.state, Socks5State::Relaying));
}

#[test]
fn domain_connect_session() {
    let out = feed(Socks5State::AwaitGreeting, &[5, 0]);
    expect_read(&out, 0);
    let out = feed(out.state, &[]);
    assert_eq!(out.send, vec![5, 0]);
    let out = feed(out.state, &[5, 1, 0, 3]);
    expect_read(&out, 1);
    let out = feed(out.state, &[11]);
    expect_read(&out, 11);
    let out = feed(out.state, b"example.com");
    expect_read(&out, 2);
    let out = feed(out.state, &[0x01, 0xbb]);
    match &out.next {
        Socks5Next::Connect(target) => assert_eq!(target.address(), "example.com:443"),
        _ => panic!("expected a connect"),
    }
    let out = step(out.state, Socks5Event::ConnectFailed);
    assert_eq!(out.send, reply(5));
    expect_fail(&out, Socks5Error::ConnectFailed);
}

#[test]
fn wrong_version_is_refused_silently() {
    let out = feed(Socks5State::AwaitGreeting, &[4, 1]);
    assert!(out.send.is_empty());
    expect_fail(&out, Socks5Error::NotSocks5);
}

#[test]
fn bind_command_is_refused_with_status_seven() {
    let out = feed(Socks5State::AwaitRequest, &[5, 2, 0, 1]);
    assert_eq!(out.send, reply(7));
    expect_fail(&out, Socks5Error::UnsupportedCommand(2));
}

#[test]
fn ipv6_is_refused_with_status_eight() {
    let out = feed(Socks5State::AwaitRequest, &[5, 1, 0, 4]);
    assert_eq!(out.send, reply(8));
    expect_fail(&out, Socks5Error::Ipv6Unsupported);
}

#[test]
fn unknown_address_type_is_refused_with_status_eight() {
    let out = feed(Socks5State::AwaitRequest, &[5, 1, 0, 9]);
    assert_eq!(out.send, reply(8));
    expect_fail(&out, Socks5Error::UnsupportedAddressType);
}

#[test]
fn command_is_checked_before_address_type() {
    let out = feed(Socks5State::AwaitRequest, &[5, 3, 0, 4]);
    expect_fail(&out, Socks5Error::UnsupportedCommand(3));
}

#[test]
fn domain_with_invalid_utf8_is_decoded_lossily() {
    let target = Socks5Target { host: Socks5Host::Domain(vec![b'a', 0xff]), port: 80 };
    assert_eq!(target.address(), "a\u{fffd}:80");
}

#[test]
fn error_messages() {
    assert_eq!(Socks5Error::NotSocks5.message(), "Não é um protocolo SOCKS5 válido");
    assert_eq!(Socks5Error::UnsupportedCommand(2).message(), "Comando SOCKS não suportado: 2");
    assert_eq!(Socks5Error::UnsupportedCommand(255).message(), "Comando SOCKS não suportado: 255");
    assert_eq!(Socks5Error::Ipv6Unsupported.message(), "IPv6 ainda não suportado");
    assert_eq!(Socks5Error::UnsupportedAddressType.message(), "Tipo de endereço não suportado");
}

#[test]
fn host_and_port_are_joined_with_a_colon() {
    assert_eq!(join_host_port("h".to_string(), 0), "h:0");
    assert_eq!(join_host_port(String::new(), 1080), ":1080");
}
