//! Decimal text for integer literals.
//!
//! Every integer the serializer emits is written as a decimal literal; these
//! are the specification of that text, the executable rendering, and the
//! proof that the rendered text denotes the value it was rendered from.

use vstd::prelude::*;

verus! {

/// The character for one decimal digit.
pub open spec fn digit_char(d: nat) -> char {
    if d == 0 {
        '0'
    } else if d == 1 {
        '1'
    } else if d == 2 {
        '2'
    } else if d == 3 {
        '3'
    } else if d == 4 {
        '4'
    } else if d == 5 {
        '5'
    } else if d == 6 {
        '6'
    } else if d == 7 {
        '7'
    } else if d == 8 {
        '8'
    } else {
        '9'
    }
}

/// Whether a character is a decimal digit.
pub open spec fn is_dec_digit(c: char) -> bool {
    c == '0' || c == '1' || c == '2' || c == '3' || c == '4' || c == '5' || c == '6' || c == '7'
        || c == '8' || c == '9'
}

/// The numeric value of one digit character.
pub open spec fn digit_val(c: char) -> nat {
    if c == '0' {
        0
    } else if c == '1' {
        1
    } else if c == '2' {
        2
    } else if c == '3' {
        3
    } else if c == '4' {
        4
    } else if c == '5' {
        5
    } else if c == '6' {
        6
    } else if c == '7' {
        7
    } else if c == '8' {
        8
    } else {
        9
    }
}

/// The decimal text of a nonnegative number, most significant digit first,
/// with no leading zeros (a single `0` for zero).
pub open spec fn dec_digits(n: nat) -> Seq<char>
    decreases n,
{
    if n < 10 {
        seq![digit_char(n)]
    } else {
        dec_digits(n / 10).push(digit_char(n % 10))
    }
}

/// The decimal text of a signed number: a leading `-` for negatives.
pub open spec fn int_digits(v: int) -> Seq<char> {
    if v < 0 {
        seq!['-'] + dec_digits((-v) as nat)
    } else {
        dec_digits(v as nat)
    }
}

/// The number a sequence of digit characters denotes.
pub open spec fn parse_dec(s: Seq<char>) -> nat
    decreases s.len(),
{
    if s.len() == 0 {
        0
    } else {
        parse_dec(s.drop_last()) * 10 + digit_val(s.last())
    }
}

/// The signed number a decimal literal denotes: an optional leading `-`,
/// then digits.
pub open spec fn parse_int(s: Seq<char>) -> int {
    if s.len() > 0 && s[0] == '-' {
        -(parse_dec(s.subrange(1, s.len() as int)) as int)
    } else {
        parse_dec(s) as int
    }
}

/// Rendered decimal text is never empty and opens with a digit, so it can
/// never be mistaken for a sign.
pub proof fn lemma_dec_digits_shape(n: nat)
    ensures
        dec_digits(n).len() >= 1,
        is_dec_digit(dec_digits(n)[0]),
    decreases n,
{
    if n >= 10 {
        lemma_dec_digits_shape(n / 10);
    }
}

/// Round trip for nonnegative decimal text: reading the rendered digits back
/// yields the number they were rendered from.
pub proof fn lemma_dec_digits_round_trip(n: nat)
    ensures
        parse_dec(dec_digits(n)) == n,
    decreases n,
{
    reveal_with_fuel(parse_dec, 3);
    if n < 10 {
        assert(dec_digits(n).drop_last() =~= Seq::<char>::empty());
        assert(dec_digits(n).last() == digit_char(n));
        assert(digit_val(digit_char(n)) == n);
    } else {
        lemma_dec_digits_round_trip(n / 10);
        assert(dec_digits(n).drop_last() =~= dec_digits(n / 10));
        assert(dec_digits(n).last() == digit_char(n % 10));
        assert(digit_val(digit_char(n % 10)) == n % 10);
        assert(parse_dec(dec_digits(n)) == (n / 10) * 10 + n % 10);
        assert((n / 10) * 10 + n % 10 == n) by (nonlinear_arith);
    }
}

/// Round trip for signed decimal text: the emitted literal denotes exactly
/// the value it was rendered from.
pub proof fn lemma_int_digits_round_trip(v: int)
    ensures
        parse_int(int_digits(v)) == v,
{
    if v < 0 {
        let s = int_digits(v);
        assert(s.subrange(1, s.len() as int) =~= dec_digits((-v) as nat));
        lemma_dec_digits_round_trip((-v) as nat);
    } else {
        lemma_dec_digits_shape(v as nat);
        lemma_dec_digits_round_trip(v as nat);
    }
}

/// The text of one decimal digit.
pub(crate) fn digit_str(d: u8) -> (r: &'static str)
    requires
        d < 10,
    ensures
        r@ == seq![digit_char(d as nat)],
{
    proof {
        reveal_strlit("0");
        reveal_strlit("1");
        reveal_strlit("2");
        reveal_strlit("3");
        reveal_strlit("4");
        reveal_strlit("5");
        reveal_strlit("6");
        reveal_strlit("7");
        reveal_strlit("8");
        reveal_strlit("9");
    }
    if d == 0 {
        "0"
    } else if d == 1 {
        "1"
    } else if d == 2 {
        "2"
    } else if d == 3 {
        "3"
    } else if d == 4 {
        "4"
    } else if d == 5 {
        "5"
    } else if d == 6 {
        "6"
    } else if d == 7 {
        "7"
    } else if d == 8 {
        "8"
    } else {
        "9"
    }
}

/// Appends the decimal text of an unsigned number to a buffer.
pub(crate) fn push_dec_u128(buf: &mut String, v: u128)
    ensures
        final(buf)@ == old(buf)@ + dec_digits(v as nat),
    decreases v,
{
    if v < 10 {
        buf.append(digit_str(v as u8));
    } else {
        push_dec_u128(buf, v / 10);
        let d = (v % 10) as u8;
        buf.append(digit_str(d));
        proof {
            assert(old(buf)@ + dec_digits((v / 10) as nat) + seq![digit_char((v % 10) as nat)]
                =~= old(buf)@ + dec_digits(v as nat));
        }
    }
}

/// Relies on String::push: appends the given character to the end of the
/// string, and does nothing else.
#[verifier::external_body]
pub(crate) fn push_char(s: &mut String, c: char)
    ensures
        final(s)@ == old(s)@ + seq![c],
{
    s.push(c);
}

/// Appends the decimal text of a signed number to a buffer.
pub(crate) fn push_dec_i128(buf: &mut String, v: i128)
    ensures
        final(buf)@ == old(buf)@ + int_digits(v as int),
{
    if v < 0 {
        buf.append("-");
        proof {
            reveal_strlit("-");
        }
        let low = -(v + 1);
        let mag: u128 = (low as u128) + 1;
        push_dec_u128(buf, mag);
        proof {
            assert(old(buf)@ + "-"@ + dec_digits(mag as nat) =~= old(buf)@ + int_digits(
                v as int,
            ));
        }
    } else {
        push_dec_u128(buf, v as u128);
    }
}

} // verus!
