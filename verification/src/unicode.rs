//! Unicode conversions of the standard library that the sniffers rely on.
//!
//! Lossy UTF-8 decoding and case mapping are functions of their input alone;
//! their results are given names here, and the callers' contracts are stated
//! over these names. The `White_Space` property is short enough to state.

use vstd::prelude::*;
#[allow(unused_imports)]
use vstd::utf8::{valid_utf8, decode_utf8};

verus! {

/// The text that `String::from_utf8_lossy` makes of a byte sequence.
pub uninterp spec fn utf8_lossy(bytes: Seq<u8>) -> Seq<char>;

/// The characters that `char::to_uppercase` yields for a character.
pub uninterp spec fn char_uppercase(c: char) -> Seq<char>;

/// The text that `str::to_lowercase` makes of a text.
pub uninterp spec fn unicode_lowercase(text: Seq<char>) -> Seq<char>;

/// Whether a character has the Unicode `White_Space` property (the
/// property `char::is_whitespace` tests): tab to carriage return, space,
/// next line, no-break space, Ogham space mark, the spaces from en quad to
/// hair space, the line and paragraph separators, narrow no-break space,
/// medium mathematical space and ideographic space.
pub open spec fn unicode_white_space(c: char) -> bool {
    let u = c as u32;
    ||| 0x09 <= u <= 0x0d
    ||| u == 0x20
    ||| u == 0x85
    ||| u == 0xa0
    ||| u == 0x1680
    ||| 0x2000 <= u <= 0x200a
    ||| u == 0x2028
    ||| u == 0x2029
    ||| u == 0x202f
    ||| u == 0x205f
    ||| u == 0x3000
}

/// The end of the run of non-ASCII bytes of `d` that starts at `i`.
pub open spec fn run_end(d: Seq<u8>, i: nat) -> nat
    decreases d.len() - i,
{
    if i >= d.len() || d[i as int] < 128 {
        i
    } else {
        run_end(d, i + 1)
    }
}

/// `run_end` lies between `i` and the end, past `i` when `d[i]` is not
/// ASCII, and every byte before it is not ASCII.
pub proof fn run_end_bounds(d: Seq<u8>, i: nat)
    requires
        i <= d.len(),
    ensures
        i <= run_end(d, i) <= d.len(),
        i < d.len() && d[i as int] >= 128 ==> i < run_end(d, i),
        forall|k: int| i <= k < run_end(d, i) ==> d[k] >= 128,
    decreases d.len() - i,
{
    if i < d.len() && d[i as int] >= 128 {
        run_end_bounds(d, i + 1);
    }
}

/// The lossy decoding of `d` from byte `i` on, taken piece by piece: each
/// ASCII byte stands for its own character, and each run of non-ASCII bytes
/// between them is decoded on its own.
pub open spec fn lossy_by_runs(d: Seq<u8>, i: nat) -> Seq<char>
    decreases d.len() - i,
{
    if i >= d.len() {
        Seq::empty()
    } else if d[i as int] < 128 {
        seq![d[i as int] as char] + lossy_by_runs(d, i + 1)
    } else {
        proof {
            run_end_bounds(d, i);
        }
        let j = run_end(d, i);
        utf8_lossy(d.subrange(i as int, j as int)) + lossy_by_runs(d, j)
    }
}

/// Calls `String::from_utf8_lossy`. Believed: the result is `utf8_lossy` of
/// the bytes; a byte sequence that is already valid UTF-8 is decoded as it
/// stands (only invalid sequences are replaced by U+FFFD); and the decoding
/// splits at ASCII bytes. An ASCII byte is a whole UTF-8 sequence by itself,
/// no multi-byte sequence holds one (continuation bytes are 0x80 to 0xBF),
/// and an invalid sequence, which is replaced as a whole, is a prefix of a
/// multi-byte sequence; so each ASCII byte decodes to its own character and
/// the runs of other bytes between them decode as they would alone.
#[verifier::external_body]
pub(crate) fn decode_lossy(bytes: &[u8]) -> (text: String)
    ensures
        text@ == utf8_lossy(bytes@),
        valid_utf8(bytes@) ==> text@ == decode_utf8(bytes@),
        text@ == lossy_by_runs(bytes@, 0),
{
    String::from_utf8_lossy(bytes).into_owned()
}

/// Calls `char::to_uppercase` and collects what it yields. Believed: the
/// result is `char_uppercase` of the character.
#[verifier::external_body]
pub(crate) fn uppercase_char(c: char) -> (upper: Vec<char>)
    ensures
        upper@ == char_uppercase(c),
{
    c.to_uppercase().collect()
}

/// Calls `str::to_lowercase`. Believed: the result is `unicode_lowercase` of
/// the text.
#[verifier::external_body]
pub(crate) fn to_lowercase(text: &str) -> (lower: String)
    ensures
        lower@ == unicode_lowercase(text@),
{
    text.to_lowercase()
}

/// Whether a character has the Unicode `White_Space` property.
pub fn is_whitespace(c: char) -> (b: bool)
    ensures
        b == unicode_white_space(c),
{
    let u = c as u32;
    (0x09 <= u && u <= 0x0d) || u == 0x20 || u == 0x85 || u == 0xa0 || u == 0x1680 || (0x2000 <= u
        && u <= 0x200a) || u == 0x2028 || u == 0x2029 || u == 0x202f || u == 0x205f || u == 0x3000
}

} // verus!
