use bsproxy::config::{Backends, Dispatch};
use bsproxy::{Config, DEFAULT_STATUS};

fn backend(config: &Config, name: &str) -> Option<String> {
    config.backends.get(name).cloned()
}

#[test]
fn built_in_configuration() {
    let config = Config::default();
    assert_eq!(config.status_msg, "@BSPROXY");
    assert_eq!(DEFAULT_STATUS, "@BSPROXY");
    assert_eq!(config.idle_timeout, 300);
    assert_eq!(config.max_connections, 500);
    assert!(config.whitelist.is_empty());
    assert_eq!(backend(&config, "ssh").as_deref(), Some("127.0.0.1:22"));
    assert_eq!(backend(&config, "ovpn").as_deref(), Some("127.0.0.1:1194"));
    assert_eq!(backend(&config, "socks5").as_deref(), Some("127.0.0.1:1080"));
    assert_eq!(backend(&config, "tls").as_deref(), Some("127.0.0.1:443"));
    assert_eq!(backend(&config, "http"), None);
    assert_eq!(config.backends.entries().len(), 4);
}

#[test]
fn unknown_protocol_uses_the_ssh_backend() {
    let config = Config::default();
    assert_eq!(config.backend_for("ovpn"), "127.0.0.1:1194");
    assert_eq!(config.backend_for("gopher"), "127.0.0.1:22");
}

#[test]
fn dispatch_by_detected_protocol() {
    let config = Config::default();
    assert!(matches!(config.dispatch(&[0x05, 0x01]), Dispatch::Socks5));
    assert!(matches!(config.dispatch(&[0x16, 0x03, 0x01]), Dispatch::Tls));
    match config.dispatch(b"OPENVPN") {
        Dispatch::Forward(address) => assert_eq!(address, "127.0.0.1:1194"),
        _ => panic!("expected a forward"),
    }
    match config.dispatch(b"SSH-2.0") {
        Dispatch::Forward(address) => assert_eq!(address, "127.0.0.1:22"),
        _ => panic!("expected a forward"),
    }
}

#[test]
fn insert_replaces_and_lookup_finds() {
    let mut table = Backends::new();
    assert!(table.get("ssh").is_none());
    table.insert("ssh".to_string(), "a:1".to_string());
    table.insert("tls".to_string(), "b:2".to_string());
    table.insert("ssh".to_string(), "c:3".to_string());
    assert_eq!(table.get("ssh").map(|s| s.as_str()), Some("c:3"));
    assert_eq!(table.get("tls").map(|s| s.as_str()), Some("b:2"));
    assert_eq!(table.entries().len(), 2);
}

#[test]
fn later_pairs_win() {
    let table = Backends::from_pairs(vec![
        ("ssh".to_string(), "first".to_string()),
        ("ssh".to_string(), "second".to_string()),
    ]);
    assert_eq!(table.get("ssh").map(|s| s.as_str()), Some("second"));
    assert_eq!(table.entries().len(), 1);
}

#[test]
fn socks5_and_tls_need_no_ssh_backend() {
    let mut config = Config::default();
    config.backends = Backends::new();
    assert!(matches!(config.dispatch(&[0x05, 0x01]), Dispatch::Socks5));
    assert!(matches!(config.dispatch(&[0x16, 0x03, 0x01]), Dispatch::Tls));
}
