use bsproxy::ProtocolDetector;

#[test]
fn empty_data_is_ssh() {
    assert_eq!(ProtocolDetector::detect(&[]), "ssh");
}

#[test]
fn version_five_is_socks5() {
    assert_eq!(ProtocolDetector::detect(&[0x05, 0x01, 0x00]), "socks5");
    assert_eq!(ProtocolDetector::detect(&[0x05]), "socks5");
}

#[test]
fn handshake_record_is_tls() {
    assert_eq!(ProtocolDetector::detect(&[0x16, 0x03, 0x01, 0x00]), "tls");
}

#[test]
fn short_tls_prefix_is_not_tls() {
    assert_eq!(ProtocolDetector::detect(&[0x16, 0x03]), "ssh");
    assert_eq!(ProtocolDetector::detect(&[0x16, 0x02, 0x01]), "ssh");
}

#[test]
fn ssh_banner_is_ssh() {
    assert_eq!(ProtocolDetector::detect(b"SSH-2.0-OpenSSH_9.0\r\n"), "ssh");
}

#[test]
fn openvpn_text_in_any_case_is_ovpn() {
    assert_eq!(ProtocolDetector::detect(b"hello openvpn client"), "ovpn");
    assert_eq!(ProtocolDetector::detect(b"OpenVPN"), "ovpn");
}

#[test]
fn ssh_wins_over_openvpn() {
    assert_eq!(ProtocolDetector::detect(b"openvpn over ssh"), "ssh");
}

#[test]
fn two_zero_bytes_are_ovpn() {
    assert_eq!(ProtocolDetector::detect(&[0x00, 0x00, 0x2a]), "ovpn");
    assert_eq!(ProtocolDetector::detect(&[0x00, 0x01, 0x2a]), "ssh");
}

#[test]
fn unknown_text_is_ssh() {
    assert_eq!(ProtocolDetector::detect(b"GET / HTTP/1.1\r\n"), "ssh");
}

#[test]
fn invalid_utf8_is_decoded_lossily() {
    assert_eq!(ProtocolDetector::detect(&[0xff, b'o', b'p', b'e', b'n', b'v', b'p', b'n']), "ovpn");
}

fn chars(s: &str) -> Vec<char> {
    s.chars().collect()
}

#[test]
fn classify_uses_the_given_upper_text() {
    assert_eq!(ProtocolDetector::classify(b"x", &chars("AN OPENVPN PEER")), "ovpn");
    assert_eq!(ProtocolDetector::classify(b"x", &chars("SSH")), "ssh");
    assert_eq!(ProtocolDetector::classify(&[0, 0], &chars("NOTHING")), "ovpn");
    assert_eq!(ProtocolDetector::classify(b"x", &chars("openvpn")), "ssh");
}

fn std_upper(data: &[u8]) -> Vec<char> {
    String::from_utf8_lossy(data).to_uppercase().chars().collect()
}

#[test]
fn upper_text_matches_std_on_all_short_inputs() {
    for a in 0u16..256 {
        let one = [a as u8];
        assert_eq!(ProtocolDetector::upper_text_of(&one), std_upper(&one), "{:?}", one);
        for b in 0u16..256 {
            let two = [a as u8, b as u8];
            assert_eq!(ProtocolDetector::upper_text_of(&two), std_upper(&two), "{:?}", two);
        }
    }
}

#[test]
fn upper_text_matches_std_on_mixed_inputs() {
    let samples: Vec<&[u8]> = vec![
        "straße".as_bytes(),
        "ſsh".as_bytes(),
        "\u{212A}elvin openvpn".as_bytes(),
        "ǆemal ﬆ ﬁ".as_bytes(),
        "Ὀδυσσεύς".as_bytes(),
        &[0xe2, 0x82, b'a', 0xf0, 0x9f, 0x98, 0x80, 0xff, b'z'],
        &[0xc3, 0x9f, 0x80, 0xed, 0xa0, 0x80, b's', b's', b'h'],
    ];
    for s in samples {
        assert_eq!(ProtocolDetector::upper_text_of(s), std_upper(s), "{:?}", s);
    }
    let mut state: u32 = 12345;
    for _ in 0..50000 {
        let mut bytes = Vec::new();
        state = state.wrapping_mul(1103515245).wrapping_add(12345);
        let len = (state >> 16) % 9;
        for _ in 0..len {
            state = state.wrapping_mul(1103515245).wrapping_add(12345);
            let r = (state >> 16) as u8;
            let b = if r % 3 == 0 { b'a' + r % 26 } else { 0x80 | r };
            bytes.push(b);
        }
        assert_eq!(ProtocolDetector::upper_text_of(&bytes), std_upper(&bytes), "{:?}", bytes);
    }
}

#[test]
fn ascii_case_does_not_matter() {
    let samples: [&[u8]; 4] = [b"hello OpenVpn", b"x ssh y", &[0x00, 0x00, b'q'], &[0xff, b'O', b'p', b'e', b'n', b'V', b'P', b'N']];
    for s in samples {
        let detected = ProtocolDetector::detect(s);
        assert_eq!(ProtocolDetector::detect(&s.to_ascii_lowercase()), detected);
        assert_eq!(ProtocolDetector::detect(&s.to_ascii_uppercase()), detected);
    }
}

fn lossy_by_runs(data: &[u8]) -> String {
    let mut out = String::new();
    let mut i = 0;
    while i < data.len() {
        if data[i] < 0x80 {
            out.push(data[i] as char);
            i += 1;
        } else {
            let mut j = i;
            while j < data.len() && data[j] >= 0x80 {
                j += 1;
            }
            out.push_str(&String::from_utf8_lossy(&data[i..j]));
            i = j;
        }
    }
    out
}

#[test]
fn lossy_decoding_splits_at_ascii_bytes() {
    for a in 0u16..256 {
        for b in 0u16..256 {
            for c in [0x00u8, b'a', 0x80, 0xbf, 0xc3, 0xe2, 0xf0, 0xff] {
                let bytes = [a as u8, b as u8, c];
                assert_eq!(String::from_utf8_lossy(&bytes), lossy_by_runs(&bytes), "{:?}", bytes);
            }
        }
    }
}
