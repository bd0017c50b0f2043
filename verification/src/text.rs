//! Text building blocks: decimal numerals and byte decoding.

use vstd::prelude::*;
use vstd::string::*;
use vstd::utf8::encode_utf8;

verus! {

/// The numeral character of a single decimal digit.
pub open spec fn digit_char(d: nat) -> char
    recommends
        d < 10,
{
    if d == 0 {
        '0'
    } else if d == 1 {
        '1'
    } else if d == 2 {
        '2'
    } else if d == 3 {
        '3'
    } else if d == 4 {
        '4'
    } else if d == 5 {
        '5'
    } else if d == 6 {
        '6'
    } else if d == 7 {
        '7'
    } else if d == 8 {
        '8'
    } else {
        '9'
    }
}

/// The decimal numeral of `n`: most significant digit first, no leading
/// zeros, and `"0"` for zero.
pub open spec fn decimal(n: nat) -> Seq<char>
    decreases n,
{
    if n < 10 {
        seq![digit_char(n)]
    } else {
        decimal(n / 10).push(digit_char(n % 10))
    }
}

/// The decimal numeral of an integer: a minus sign in front of the numeral of
/// its magnitude when it is negative.
pub open spec fn signed_decimal(i: int) -> Seq<char> {
    if i < 0 {
        seq!['-'] + decimal((-i) as nat)
    } else {
        decimal(i as nat)
    }
}

fn digit_str(d: u8) -> (s: &'static str)
    requires
        d < 10,
    ensures
        s@ == seq![digit_char(d as nat)],
{
    proof {
        reveal_strlit("0");
        reveal_strlit("1");
        reveal_strlit("2");
        reveal_strlit("3");
        reveal_strlit("4");
        reveal_strlit("5");
        reveal_strlit("6");
        reveal_strlit("7");
        reveal_strlit("8");
        reveal_strlit("9");
    }
    let s: &'static str = match d {
        0 => "0",
        1 => "1",
        2 => "2",
        3 => "3",
        4 => "4",
        5 => "5",
        6 => "6",
        7 => "7",
        8 => "8",
        _ => "9",
    };
    assert(s@ =~= seq![digit_char(d as nat)]);
    s
}

/// Writes `n` as a decimal numeral.
pub fn u64_to_decimal(n: u64) -> (s: String)
    ensures
        s@ == decimal(n as nat),
    decreases n,
{
    if n < 10 {
        String::from_str(digit_str(n as u8))
    } else {
        let head = u64_to_decimal(n / 10);
        let s = head.concat(digit_str((n % 10) as u8));
        assert(s@ =~= decimal(n as nat));
        s
    }
}

/// Writes `i` as a decimal numeral, with a minus sign when it is negative.
pub fn i32_to_decimal(i: i32) -> (s: String)
    ensures
        s@ == signed_decimal(i as int),
{
    let wide: i64 = i as i64;
    if wide < 0 {
        let magnitude: u64 = (-wide) as u64;
        proof {
            reveal_strlit("-");
        }
        let s = String::from_str("-").concat(u64_to_decimal(magnitude).as_str());
        assert(s@ =~= signed_decimal(i as int));
        s
    } else {
        u64_to_decimal(wide as u64)
    }
}

/// The text that lossy UTF-8 decoding yields for a byte string: the text the
/// bytes encode, with U+FFFD in place of each malformed part.
pub uninterp spec fn utf8_lossy(bytes: Seq<u8>) -> Seq<char>;

/// Decodes bytes as UTF-8 with `String::from_utf8_lossy`.
///
/// Trusted: the result is taken to be a function of the bytes alone, named
/// `utf8_lossy`, and bytes that are the UTF-8 encoding of a text are taken to
/// decode to that text unchanged. Nothing is claimed of what malformed bytes
/// decode to.
#[verifier::external_body]
pub(crate) fn decode_lossy(bytes: &Vec<u8>) -> (s: String)
    ensures
        s@ == utf8_lossy(bytes@),
        forall|text: Seq<char>| #[trigger] encode_utf8(text) == bytes@ ==> s@ == text,
{
    String::from_utf8_lossy(bytes).into_owned()
}

} // verus!
