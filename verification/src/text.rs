//! Decimal and debug rendering of integers, and lossy UTF-8 decoding.

use vstd::prelude::*;
use vstd::utf8::{decode_utf8, valid_utf8};

verus! {

/// The ASCII digit for `d`, where `0 <= d < 10`.
pub open spec fn digit_char(d: int) -> char {
    if d == 0 { '0' }
    else if d == 1 { '1' }
    else if d == 2 { '2' }
    else if d == 3 { '3' }
    else if d == 4 { '4' }
    else if d == 5 { '5' }
    else if d == 6 { '6' }
    else if d == 7 { '7' }
    else if d == 8 { '8' }
    else { '9' }
}

/// Decimal digits of a natural number, most significant first, without leading zeros.
pub open spec fn decimal(n: nat) -> Seq<char>
    decreases n,
{
    if n < 10 {
        seq![digit_char(n as int)]
    } else {
        decimal(n / 10).push(digit_char((n % 10) as int))
    }
}

/// Decimal rendering of an integer as `Display` writes it: a `-` before negative values.
pub open spec fn int_decimal(i: int) -> Seq<char> {
    if i < 0 {
        seq!['-'] + decimal((-i) as nat)
    } else {
        decimal(i as nat)
    }
}

/// `Debug` rendering of an optional integer: `Some(<n>)` or `None`.
pub open spec fn option_int_debug(o: Option<i32>) -> Seq<char> {
    match o {
        Some(n) => seq!['S', 'o', 'm', 'e', '('] + int_decimal(n as int) + seq![')'],
        None => seq!['N', 'o', 'n', 'e'],
    }
}

fn append_digit(s: &mut String, d: u64)
    requires
        d < 10,
    ensures
        final(s)@ == old(s)@.push(digit_char(d as int)),
{
    proof {
        reveal_strlit("0");
        reveal_strlit("1");
        reveal_strlit("2");
        reveal_strlit("3");
        reveal_strlit("4");
        reveal_strlit("5");
        reveal_strlit("6");
        reveal_strlit("7");
        reveal_strlit("8");
        reveal_strlit("9");
    }
    let ghost before = s@;
    if d == 0 {
        s.append("0");
    } else if d == 1 {
        s.append("1");
    } else if d == 2 {
        s.append("2");
    } else if d == 3 {
        s.append("3");
    } else if d == 4 {
        s.append("4");
    } else if d == 5 {
        s.append("5");
    } else if d == 6 {
        s.append("6");
    } else if d == 7 {
        s.append("7");
    } else if d == 8 {
        s.append("8");
    } else {
        s.append("9");
    }
    assert(s@ =~= before.push(digit_char(d as int)));
}

/// Appends the decimal digits of `n` to `s`.
pub fn append_decimal(s: &mut String, n: u64)
    ensures
        final(s)@ == old(s)@ + decimal(n as nat),
    decreases n,
{
    if n < 10 {
        append_digit(s, n);
        assert(old(s)@.push(digit_char(n as int)) =~= old(s)@ + decimal(n as nat));
    } else {
        append_decimal(s, n / 10);
        append_digit(s, n % 10);
        assert(old(s)@ + decimal((n / 10) as nat) + seq![digit_char((n % 10) as int)]
            =~= old(s)@ + decimal(n as nat));
    }
}

/// Appends `i` as `Display` renders an `i32`.
pub fn append_i32(s: &mut String, i: i32)
    ensures
        final(s)@ == old(s)@ + int_decimal(i as int),
{
    proof {
        reveal_strlit("-");
    }
    let wide: i64 = i as i64;
    if wide < 0 {
        s.append("-");
        let magnitude: u64 = (0 - wide) as u64;
        append_decimal(s, magnitude);
        assert(old(s)@ + seq!['-'] + decimal(magnitude as nat) =~= old(s)@ + int_decimal(i as int));
    } else {
        append_decimal(s, wide as u64);
    }
}

/// The decimal rendering of `i`, as `i.to_string()` gives it.
pub fn i32_to_decimal(i: i32) -> (res: String)
    ensures
        res@ == int_decimal(i as int),
{
    let mut s = String::new();
    append_i32(&mut s, i);
    assert(s@ =~= int_decimal(i as int));
    s
}

} // verus!

verus! {

/// Name for what `String::from_utf8_lossy` gives for `bytes`: the bytes read as UTF-8,
/// with each invalid sequence replaced by U+FFFD.
pub uninterp spec fn utf8_lossy(bytes: Seq<u8>) -> Seq<char>;

/// Calls std's `String::from_utf8_lossy`. Trusted: the text is `utf8_lossy` of the
/// bytes; bytes that are valid UTF-8 decode to the text they encode; the text is
/// empty exactly when the bytes are, since each invalid sequence becomes one U+FFFD.
/// How invalid sequences are split into replacement characters is not stated.
#[verifier::external_body]
pub(crate) fn decode_utf8_lossy(bytes: &[u8]) -> (text: String)
    ensures
        text@ == utf8_lossy(bytes@),
        valid_utf8(bytes@) ==> text@ == decode_utf8(bytes@),
        text@.len() == 0 <==> bytes@.len() == 0,
{
    String::from_utf8_lossy(bytes).into_owned()
}

} // verus!
