//! Sniffing the first bytes of a connection to name its protocol.

use vstd::prelude::*;
use crate::text::{chars_of, contains_str, has_substring};
use crate::unicode::{
    char_uppercase, decode_lossy, lossy_by_runs, run_end, run_end_bounds, uppercase_char, utf8_lossy,
};

verus! {

/// Names the protocol of a connection from the first bytes it sent.
pub struct ProtocolDetector;

/// The bytes begin with two zero bytes (an OpenVPN TCP packet length).
pub open spec fn starts_with_two_zeros(data: Seq<u8>) -> bool {
    data.len() >= 2 && data[0] == 0 && data[1] == 0
}

/// The protocol named for data that is neither SOCKS5 nor a TLS record,
/// given the upper-cased text of the data.
pub open spec fn classify_text(data: Seq<u8>, upper: Seq<char>) -> Seq<char> {
    if has_substring(upper, "SSH"@) {
        "ssh"@
    } else if has_substring(upper, "OPENVPN"@) || starts_with_two_zeros(data) {
        "ovpn"@
    } else {
        "ssh"@
    }
}

/// The first bytes open a TLS record of protocol version 3.x.
pub open spec fn is_tls_record(data: Seq<u8>) -> bool {
    data.len() > 2 && data[0] == 0x16 && data[1] == 0x03
}

/// An ASCII byte upper-cased: `a`-`z` become `A`-`Z`, every other byte stays.
pub open spec fn upper_byte(b: u8) -> u8 {
    if 97 <= b <= 122 {
        (b - 32) as u8
    } else {
        b
    }
}

/// An ASCII byte lower-cased: `A`-`Z` become `a`-`z`, every other byte stays.
pub open spec fn lower_byte(b: u8) -> u8 {
    if 65 <= b <= 90 {
        (b + 32) as u8
    } else {
        b
    }
}

/// The upper case of one character: ASCII characters as `to_ascii_uppercase`
/// maps them, the others as `char::to_uppercase` does.
pub open spec fn upper_of(c: char) -> Seq<char> {
    if (c as u32) < 128 {
        seq![upper_byte((c as u32) as u8) as char]
    } else {
        char_uppercase(c)
    }
}

/// A text upper-cased character by character (as `str::to_uppercase`).
pub open spec fn upper_chars(t: Seq<char>) -> Seq<char>
    decreases t.len(),
{
    if t.len() == 0 {
        Seq::empty()
    } else {
        upper_of(t[0]) + upper_chars(t.drop_first())
    }
}

/// The upper-cased text of `d` from byte `i` on, taken piece by piece: each
/// ASCII byte upper-cased on its own, and each run of other bytes decoded on
/// its own and upper-cased (`upper_chars` of `lossy_by_runs`).
pub open spec fn upper_text(d: Seq<u8>, i: nat) -> Seq<char>
    decreases d.len() - i,
{
    if i >= d.len() {
        Seq::empty()
    } else if d[i as int] < 128 {
        seq![upper_byte(d[i as int]) as char] + upper_text(d, i + 1)
    } else {
        proof {
            run_end_bounds(d, i);
        }
        let j = run_end(d, i);
        upper_chars(utf8_lossy(d.subrange(i as int, j as int))) + upper_text(d, j)
    }
}

/// The protocol named for the first bytes `data` of a connection, given the
/// upper-cased text `upper` of the data.
pub open spec fn protocol_with_upper(data: Seq<u8>, upper: Seq<char>) -> Seq<char> {
    if data.len() == 0 {
        "ssh"@
    } else if data[0] == 0x05 {
        "socks5"@
    } else if is_tls_record(data) {
        "tls"@
    } else {
        classify_text(data, upper)
    }
}

/// The protocol named for the first bytes `data` of a connection.
pub open spec fn detected_protocol(data: Seq<u8>) -> Seq<char> {
    protocol_with_upper(data, upper_text(data, 0))
}

/// Upper-casing a text piece by piece is upper-casing it whole.
pub proof fn upper_chars_concat(a: Seq<char>, b: Seq<char>)
    ensures
        upper_chars(a + b) == upper_chars(a) + upper_chars(b),
    decreases a.len(),
{
    if a.len() == 0 {
        assert(a + b =~= b);
    } else {
        assert((a + b).drop_first() =~= a.drop_first() + b);
        upper_chars_concat(a.drop_first(), b);
        assert(upper_chars(a + b) =~= upper_chars(a) + upper_chars(b));
    }
}

/// Upper-casing the lossy decoding taken by runs gives `upper_text`.
pub proof fn upper_of_runs(d: Seq<u8>, i: nat)
    requires
        i <= d.len(),
    ensures
        upper_chars(lossy_by_runs(d, i)) == upper_text(d, i),
    decreases d.len() - i,
{
    if i < d.len() {
        if d[i as int] < 128 {
            let c = d[i as int] as char;
            upper_chars_concat(seq![c], lossy_by_runs(d, i + 1));
            assert(seq![c].drop_first() =~= Seq::<char>::empty());
            assert((c as u32) == d[i as int] as u32);
            assert(((c as u32) as u8) == d[i as int]);
            assert(upper_of(c) == seq![upper_byte(d[i as int]) as char]);
            assert(upper_chars(Seq::<char>::empty()) == Seq::<char>::empty());
            assert(upper_chars(seq![c]) == upper_of(seq![c][0]) + upper_chars(seq![c].drop_first()));
            assert(upper_chars(seq![c]) =~= seq![upper_byte(d[i as int]) as char]);
            upper_of_runs(d, i + 1);
        } else {
            run_end_bounds(d, i);
            let j = run_end(d, i);
            upper_chars_concat(utf8_lossy(d.subrange(i as int, j as int)), lossy_by_runs(d, j));
            upper_of_runs(d, j);
        }
    }
}

/// An ASCII byte upper-cased.
fn upper_byte_exec(b: u8) -> (u: u8)
    ensures
        u == upper_byte(b),
{
    if 97 <= b && b <= 122 {
        b - 32
    } else {
        b
    }
}

/// Appends the upper case of the text `t` to `out`.
fn push_upper_chars(out: &mut Vec<char>, t: &Vec<char>)
    ensures
        final(out)@ == old(out)@ + upper_chars(t@),
{
    let ghost start = out@;
    let mut i: usize = 0;
    assert(t@.skip(0) =~= t@);
    while i < t.len()
        invariant
            i <= t@.len(),
            start + upper_chars(t@) == out@ + upper_chars(t@.skip(i as int)),
        decreases t@.len() - i,
    {
        let c = t[i];
        let code = c as u32;
        let ghost before = out@;
        if code < 128 {
            out.push(upper_byte_exec(code as u8) as char);
        } else {
            let upper = uppercase_char(c);
            let mut k: usize = 0;
            while k < upper.len()
                invariant
                    k <= upper@.len(),
                    upper@ == char_uppercase(c),
                    out@ == before + upper@.take(k as int),
                decreases upper@.len() - k,
            {
                out.push(upper[k]);
                k = k + 1;
                assert(upper@.take(k as int) =~= upper@.take(k - 1) + seq![upper@[k - 1]]);
            }
            assert(upper@.take(k as int) =~= upper@);
        }
        assert(t@.skip(i as int).drop_first() =~= t@.skip(i + 1));
        assert(out@ =~= before + upper_of(t@[i as int]));
        i = i + 1;
    }
    assert(t@.skip(i as int) =~= Seq::<char>::empty());
    assert(out@ =~= start + upper_chars(t@));
}

impl ProtocolDetector {
    /// Names the protocol of a connection from its first bytes: `"socks5"`,
    /// `"tls"`, `"ovpn"` or `"ssh"` (the default). The text searched is the
    /// lossy UTF-8 decoding of the whole input, upper-cased.
    pub fn detect(data: &[u8]) -> (protocol: String)
        ensures
            protocol@ == protocol_with_upper(data@, upper_chars(utf8_lossy(data@))),
            protocol@ == detected_protocol(data@),
    {
        if data.len() == 0 {
            return "ssh".to_owned();
        }
        if data[0] == 0x05 {
            return "socks5".to_owned();
        }
        if data[0] == 0x16 && data.len() > 2 && data[1] == 0x03 {
            return "tls".to_owned();
        }
        let upper = Self::upper_text_of(data);
        Self::classify(data, upper.as_slice())
    }

    /// The upper-cased text of `data`: its lossy UTF-8 decoding, upper-cased
    /// character by character.
    pub fn upper_text_of(data: &[u8]) -> (upper: Vec<char>)
        ensures
            upper@ == upper_chars(utf8_lossy(data@)),
            upper@ == upper_text(data@, 0),
    {
        let text = decode_lossy(data);
        let chars = chars_of(text.as_str());
        let mut upper: Vec<char> = Vec::new();
        push_upper_chars(&mut upper, &chars);
        proof {
            upper_of_runs(data@, 0);
            assert(upper@ =~= upper_chars(utf8_lossy(data@)));
        }
        upper
    }

    /// Names the protocol of data that is neither SOCKS5 nor a TLS record,
    /// given the upper-cased text `upper_text` of the data.
    pub fn classify(data: &[u8], upper_text: &[char]) -> (protocol: String)
        ensures
            protocol@ == classify_text(data@, upper_text@),
    {
        if contains_str(upper_text, "SSH") {
            "ssh".to_owned()
        } else if contains_str(upper_text, "OPENVPN") || (data.len() >= 2 && data[0] == 0 && data[1]
            == 0) {
            "ovpn".to_owned()
        } else {
            "ssh".to_owned()
        }
    }
}

/// Whatever the bytes, the detector answers one of the four protocol names
/// `"ssh"`, `"socks5"`, `"tls"` and `"ovpn"`.
pub proof fn detected_protocol_is_known(data: Seq<u8>)
    ensures
        detected_protocol(data) == "ssh"@ || detected_protocol(data) == "socks5"@
            || detected_protocol(data) == "tls"@ || detected_protocol(data) == "ovpn"@,
{
}

/// A TLS record header, 0x16 then major version 3, is named `"tls"` whatever
/// the length of the data that follows it.
pub proof fn tls_records_are_named_tls(data: Seq<u8>)
    requires
        data.len() > 2,
        data[0] == 0x16,
        data[1] == 0x03,
    ensures
        detected_protocol(data) == "tls"@,
{
}

/// Text data is named by what its upper-cased text holds: `"ssh"` when it
/// holds `SSH`; otherwise `"ovpn"` when it holds `OPENVPN` or the data opens
/// with two zero bytes; otherwise `"ssh"`.
pub proof fn text_data_is_named_by_its_markers(data: Seq<u8>, upper: Seq<char>)
    requires
        data.len() > 0,
        data[0] != 0x05,
        !(data.len() > 2 && data[0] == 0x16 && data[1] == 0x03),
    ensures
        has_substring(upper, "SSH"@) ==> protocol_with_upper(data, upper) == "ssh"@,
        !has_substring(upper, "SSH"@) && (has_substring(upper, "OPENVPN"@) || (data.len() >= 2
            && data[0] == 0 && data[1] == 0)) ==> protocol_with_upper(data, upper) == "ovpn"@,
        !has_substring(upper, "SSH"@) && !has_substring(upper, "OPENVPN"@) && !(data.len() >= 2
            && data[0] == 0 && data[1] == 0) ==> protocol_with_upper(data, upper) == "ssh"@,
{
}

/// Data opening with the SOCKS version byte 5 is named `"socks5"`, and no
/// data at all is named `"ssh"`.
pub proof fn socks5_and_empty_data(data: Seq<u8>)
    ensures
        data.len() > 0 && data[0] == 0x05 ==> detected_protocol(data) == "socks5"@,
        data.len() == 0 ==> detected_protocol(data) == "ssh"@,
{
}

/// Two byte sequences that differ at most in the case of ASCII letters.
pub open spec fn same_but_ascii_case(a: Seq<u8>, b: Seq<u8>) -> bool {
    &&& a.len() == b.len()
    &&& forall|i: int| 0 <= i < a.len() ==> #[trigger] upper_byte(a[i]) == upper_byte(b[i])
}

/// The bytes with their ASCII letters lower-cased (as `to_ascii_lowercase`).
pub open spec fn ascii_lowercase(data: Seq<u8>) -> Seq<u8> {
    data.map_values(|b: u8| lower_byte(b))
}

/// The bytes with their ASCII letters upper-cased (as `to_ascii_uppercase`).
pub open spec fn ascii_uppercase(data: Seq<u8>) -> Seq<u8> {
    data.map_values(|b: u8| upper_byte(b))
}

proof fn run_end_ignores_ascii_case(a: Seq<u8>, b: Seq<u8>, i: nat)
    requires
        same_but_ascii_case(a, b),
        i <= a.len(),
    ensures
        run_end(a, i) == run_end(b, i),
    decreases a.len() - i,
{
    if i < a.len() {
        assert(upper_byte(a[i as int]) == upper_byte(b[i as int]));
        if a[i as int] >= 128 {
            run_end_ignores_ascii_case(a, b, i + 1);
        }
    }
}

proof fn upper_text_ignores_ascii_case(a: Seq<u8>, b: Seq<u8>, i: nat)
    requires
        same_but_ascii_case(a, b),
        i <= a.len(),
    ensures
        upper_text(a, i) == upper_text(b, i),
    decreases a.len() - i,
{
    if i < a.len() {
        assert(upper_byte(a[i as int]) == upper_byte(b[i as int]));
        if a[i as int] < 128 {
            upper_text_ignores_ascii_case(a, b, i + 1);
        } else {
            run_end_bounds(a, i);
            run_end_ignores_ascii_case(a, b, i);
            let j = run_end(a, i);
            assert forall|k: int| i <= k < j implies a[k] == b[k] by {
                assert(upper_byte(a[k]) == upper_byte(b[k]));
            }
            assert(a.subrange(i as int, j as int) =~= b.subrange(i as int, j as int));
            upper_text_ignores_ascii_case(a, b, j);
        }
    }
}

/// The detector does not care about the case of ASCII letters: bytes that
/// differ only there are named the same protocol.
pub proof fn detection_ignores_ascii_case(a: Seq<u8>, b: Seq<u8>)
    requires
        same_but_ascii_case(a, b),
    ensures
        detected_protocol(a) == detected_protocol(b),
{
    if a.len() > 0 {
        assert(upper_byte(a[0]) == upper_byte(b[0]));
    }
    if a.len() > 1 {
        assert(upper_byte(a[1]) == upper_byte(b[1]));
    }
    upper_text_ignores_ascii_case(a, b, 0);
}

/// Lower-casing or upper-casing the ASCII letters of the bytes does not
/// change the protocol they are named.
pub proof fn detection_ignores_ascii_case_mapping(data: Seq<u8>)
    ensures
        detected_protocol(ascii_lowercase(data)) == detected_protocol(data),
        detected_protocol(ascii_uppercase(data)) == detected_protocol(data),
{
    assert forall|i: int| 0 <= i < data.len() implies #[trigger] upper_byte(ascii_lowercase(data)[i])
        == upper_byte(data[i]) by {}
    assert forall|i: int| 0 <= i < data.len() implies #[trigger] upper_byte(ascii_uppercase(data)[i])
        == upper_byte(data[i]) by {}
    detection_ignores_ascii_case(ascii_lowercase(data), data);
    detection_ignores_ascii_case(ascii_uppercase(data), data);
}

} // verus!
