//! Character-sequence helpers shared by the protocol sniffers.

use vstd::prelude::*;
use crate::unicode::{is_whitespace, unicode_white_space};

verus! {

/// `needle` occurs in `hay` starting at position `i`.
pub open spec fn occurs_at(hay: Seq<char>, needle: Seq<char>, i: int) -> bool {
    &&& 0 <= i
    &&& i + needle.len() <= hay.len()
    &&& hay.subrange(i, i + needle.len()) == needle
}

/// `needle` occurs somewhere in `hay` (the empty needle occurs everywhere).
pub open spec fn has_substring(hay: Seq<char>, needle: Seq<char>) -> bool {
    exists|i: int| occurs_at(hay, needle, i)
}

/// The characters of a string slice, as a vector.
pub fn chars_of(s: &str) -> (v: Vec<char>)
    ensures
        v@ == s@,
{
    broadcast use vstd::string::group_string_axioms;
    let mut v: Vec<char> = Vec::new();
    for c in it: s.chars()
        invariant
            it.seq() == s@,
            v@ == it.seq().take(it.index() as int),
    {
        v.push(c);
    }
    v
}


/// Whether `needle` occurs in `hay` at position `i`.
pub fn occurs_at_exec(hay: &[char], needle: &[char], i: usize) -> (b: bool)
    ensures
        b == occurs_at(hay@, needle@, i as int),
{
    if i > hay.len() || needle.len() > hay.len() - i {
        return false;
    }
    let mut j: usize = 0;
    while j < needle.len()
        invariant
            i + needle@.len() <= hay@.len(),
            hay@.len() == hay.len(),
            needle@.len() == needle.len(),
            j <= needle@.len(),
            forall|k: int| 0 <= k < j ==> hay@[i + k] == needle@[k],
        decreases needle@.len() - j,
    {
        if hay[i + j] != needle[j] {
            assert(hay@.subrange(i as int, i + needle@.len())[j as int] != needle@[j as int]);
            return false;
        }
        j = j + 1;
    }
    assert(hay@.subrange(i as int, i + needle@.len()) =~= needle@);
    true
}

/// Whether `needle` occurs anywhere in `hay`.
pub fn contains_exec(hay: &[char], needle: &[char]) -> (b: bool)
    ensures
        b == has_substring(hay@, needle@),
{
    if needle.len() > hay.len() {
        assert(forall|i: int| !occurs_at(hay@, needle@, i));
        return false;
    }
    let last = hay.len() - needle.len();
    let mut i: usize = 0;
    loop
        invariant
            last == hay@.len() - needle@.len(),
            i <= last,
            forall|k: int| 0 <= k < i ==> !occurs_at(hay@, needle@, k),
        ensures
            forall|k: int| 0 <= k <= last ==> !occurs_at(hay@, needle@, k),
        decreases last - i,
    {
        if occurs_at_exec(hay, needle, i) {
            return true;
        }
        if i == last {
            break;
        }
        i = i + 1;
    }
    assert forall|k: int| !occurs_at(hay@, needle@, k) by {
        if 0 <= k <= last {
        }
    }
    false
}

/// Whether the text of `hay` contains the text of the literal `needle`.
pub fn contains_str(hay: &[char], needle: &str) -> (b: bool)
    ensures
        b == has_substring(hay@, needle@),
{
    let n = chars_of(needle);
    contains_exec(hay, n.as_slice())
}


/// The character of the decimal digit `d`.
pub open spec fn digit_char(d: nat) -> char {
    (48 + d) as char
}

/// The decimal notation of `n`, without leading zeros.
pub open spec fn decimal(n: nat) -> Seq<char>
    decreases n,
{
    if n < 10 {
        seq![digit_char(n)]
    } else {
        decimal(n / 10).push(digit_char(n % 10))
    }
}

/// A decimal digit character, `0` to `9`.
pub open spec fn is_digit(c: char) -> bool {
    48 <= (c as u32) <= 57
}

/// The decimal notation of a number is a non-empty run of digits.
pub proof fn decimal_is_digits(n: nat)
    ensures
        decimal(n).len() > 0,
        forall|k: int| 0 <= k < decimal(n).len() ==> is_digit(#[trigger] decimal(n)[k]),
    decreases n,
{
    if n >= 10 {
        decimal_is_digits(n / 10);
        assert(((48 + n % 10) as char) as u32 == 48 + n % 10);
    } else {
        assert(((48 + n) as char) as u32 == 48 + n);
    }
}

/// The number a run of decimal digits denotes.
pub open spec fn decimal_value(s: Seq<char>) -> nat
    decreases s.len(),
{
    if s.len() == 0 {
        0
    } else {
        decimal_value(s.drop_last()) * 10 + ((s.last() as u32) - 48) as nat
    }
}

/// The decimal notation of a number denotes that number, and starts with a
/// zero only when the number is zero.
pub proof fn decimal_reads_back(n: nat)
    ensures
        decimal_value(decimal(n)) == n,
        decimal(n)[0] == '0' <==> n == 0,
    decreases n,
{
    if n >= 10 {
        decimal_reads_back(n / 10);
        let s = decimal(n);
        assert(s.drop_last() =~= decimal(n / 10));
        assert(((48 + n % 10) as char) as u32 == 48 + n % 10);
        assert(s[0] == decimal(n / 10)[0]);
        assert(n == (n / 10) * 10 + n % 10) by (nonlinear_arith);
        assert(decimal_value(s) == decimal_value(decimal(n / 10)) * 10 + n % 10);
    } else {
        assert(((48 + n) as char) as u32 == 48 + n);
        assert(decimal(n).drop_last() =~= Seq::<char>::empty());
        assert(decimal_value(decimal(n)) == decimal_value(Seq::<char>::empty()) * 10 + n);
    }
}

/// The one-character text of the decimal digit `d`.
fn digit_text(d: u16) -> (text: &'static str)
    requires
        d < 10,
    ensures
        text@ == seq![digit_char(d as nat)],
{
    proof {
        reveal_strlit("0");
        reveal_strlit("1");
        reveal_strlit("2");
        reveal_strlit("3");
        reveal_strlit("4");
        reveal_strlit("5");
        reveal_strlit("6");
        reveal_strlit("7");
        reveal_strlit("8");
        reveal_strlit("9");
    }
    match d {
        0 => "0",
        1 => "1",
        2 => "2",
        3 => "3",
        4 => "4",
        5 => "5",
        6 => "6",
        7 => "7",
        8 => "8",
        _ => "9",
    }
}

/// Appends the decimal notation of `n` to `out`.
pub fn push_decimal(out: &mut String, n: u16)
    ensures
        final(out)@ == old(out)@ + decimal(n as nat),
    decreases n,
{
    if n >= 10 {
        push_decimal(out, n / 10);
    }
    out.append(digit_text(n % 10));
    proof {
        if n >= 10 {
            assert(out@ =~= old(out)@ + decimal(n as nat));
        }
    }
}


/// The first position at or after `from` where `t` holds `c`, or the length
/// of `t` when there is none.
pub open spec fn find_from(t: Seq<char>, c: char, from: nat) -> nat
    decreases t.len() - from,
{
    if from >= t.len() {
        t.len()
    } else if t[from as int] == c {
        from
    } else {
        find_from(t, c, from + 1)
    }
}

/// `find_from` finds the first `c` at or after `from`.
pub proof fn find_from_first(t: Seq<char>, c: char, from: nat, p: nat)
    requires
        from <= p < t.len(),
        t[p as int] == c,
        forall|k: int| from <= k < p ==> t[k] != c,
    ensures
        find_from(t, c, from) == p,
    decreases p - from,
{
    if from < p {
        find_from_first(t, c, from + 1, p);
    }
}

/// `find_from` stops no later than any `c` at or after `from`.
pub proof fn find_from_at_most(t: Seq<char>, c: char, from: nat, p: nat)
    requires
        from <= p < t.len(),
        t[p as int] == c,
    ensures
        find_from(t, c, from) <= p,
    decreases p - from,
{
    if from < p && t[from as int] != c {
        find_from_at_most(t, c, from + 1, p);
    }
}

/// `find_from` lands between its start and the end of the text.
pub proof fn find_from_bounds(t: Seq<char>, c: char, from: nat)
    requires
        from <= t.len(),
    ensures
        from <= find_from(t, c, from) <= t.len(),
        find_from(t, c, from) < t.len() ==> t[find_from(t, c, from) as int] == c,
    decreases t.len() - from,
{
    if from < t.len() && t[from as int] != c {
        find_from_bounds(t, c, from + 1);
    }
}

/// The first position at or after `from` where `t` holds `c`, or `t.len()`.
pub fn find_char(t: &[char], c: char, from: usize) -> (i: usize)
    requires
        from <= t@.len(),
    ensures
        i == find_from(t@, c, from as nat),
{
    let mut i = from;
    while i < t.len()
        invariant
            from <= i <= t@.len(),
            find_from(t@, c, i as nat) == find_from(t@, c, from as nat),
        decreases t@.len() - i,
    {
        if t[i] == c {
            return i;
        }
        i = i + 1;
    }
    i
}

/// The first position at or after `from` that holds no white space, or the
/// length of `t`.
pub open spec fn skip_space(t: Seq<char>, from: nat) -> nat
    decreases t.len() - from,
{
    if from >= t.len() {
        t.len()
    } else if unicode_white_space(t[from as int]) {
        skip_space(t, from + 1)
    } else {
        from
    }
}

/// The end of `t` once white space is stripped back from `end`, not going
/// below `start`.
pub open spec fn back_space(t: Seq<char>, start: nat, end: nat) -> nat
    decreases end,
{
    if end <= start || end > t.len() {
        end
    } else if unicode_white_space(t[end - 1]) {
        back_space(t, start, (end - 1) as nat)
    } else {
        end
    }
}

/// `t` without leading and trailing white space (as `str::trim`).
pub open spec fn trimmed(t: Seq<char>) -> Seq<char> {
    let a = skip_space(t, 0);
    t.subrange(a as int, back_space(t, a, t.len()) as int)
}

proof fn skip_space_bounds(t: Seq<char>, from: nat)
    requires
        from <= t.len(),
    ensures
        from <= skip_space(t, from) <= t.len(),
    decreases t.len() - from,
{
    if from < t.len() && unicode_white_space(t[from as int]) {
        skip_space_bounds(t, from + 1);
    }
}

proof fn back_space_bounds(t: Seq<char>, start: nat, end: nat)
    requires
        start <= end <= t.len(),
    ensures
        start <= back_space(t, start, end) <= end,
    decreases end,
{
    if end > start && unicode_white_space(t[end - 1]) {
        back_space_bounds(t, start, (end - 1) as nat);
    }
}

/// The positions of the text of `t` between `start` and `end` once white
/// space is stripped from both ends.
pub fn trim_bounds(t: &[char], start: usize, end: usize) -> (r: (usize, usize))
    requires
        start <= end <= t@.len(),
    ensures
        r.0 == skip_space(t@.subrange(start as int, end as int), 0) + start,
        r.1 == back_space(t@.subrange(start as int, end as int), (r.0 - start) as nat, (end - start) as nat) + start,
        start <= r.0 <= r.1 <= end,
{
    let ghost s = t@.subrange(start as int, end as int);
    let mut a = start;
    while a < end && is_whitespace(t[a])
        invariant
            start <= a <= end <= t@.len(),
            s == t@.subrange(start as int, end as int),
            skip_space(s, (a - start) as nat) == skip_space(s, 0),
        decreases end - a,
    {
        a = a + 1;
    }
    proof {
        skip_space_bounds(s, 0);
    }
    let mut b = end;
    while b > a && is_whitespace(t[b - 1])
        invariant
            start <= a <= b <= end <= t@.len(),
            s == t@.subrange(start as int, end as int),
            back_space(s, (a - start) as nat, (b - start) as nat) == back_space(s, (a - start) as nat, (end - start) as nat),
        decreases b,
    {
        b = b - 1;
    }
    (a, b)
}

} // verus!
