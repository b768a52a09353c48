//! Decimal text of integers.
//!
//! Integers travel over the wire as ASCII decimal text: no leading zeros, no
//! plus sign, a single `-` in front of a negative number. This module states
//! that text as a function of the number, produces it, and shows that an
//! unsigned number can be read back from it.

use vstd::prelude::*;

verus! {

/// The ASCII byte of the minus sign.
pub const MINUS: u8 = 45;

/// The ASCII byte of the digit `0`.
pub const ZERO: u8 = 48;

/// The ASCII byte that writes the digit `d`, for `d` below ten.
pub open spec fn digit_byte(d: nat) -> u8
    recommends
        d < 10,
{
    (ZERO + d) as u8
}

/// Whether `b` is the ASCII byte of a decimal digit.
pub open spec fn is_digit(b: u8) -> bool {
    ZERO <= b <= ZERO + 9
}

/// The decimal text of `n`: its digits, most significant first, without
/// leading zeros. Zero is written `0`.
pub open spec fn decimal_digits(n: nat) -> Seq<u8>
    decreases n,
{
    if n < 10 {
        seq![digit_byte(n)]
    } else {
        decimal_digits(n / 10).push(digit_byte(n % 10))
    }
}

/// The decimal text of a signed number: the text of its magnitude, behind a
/// minus sign where the number is negative.
pub open spec fn signed_decimal(i: int) -> Seq<u8> {
    if i < 0 {
        seq![MINUS] + decimal_digits((-i) as nat)
    } else {
        decimal_digits(i as nat)
    }
}

/// The number that a run of digit bytes writes. The empty run reads as zero.
pub open spec fn parse_decimal(digits: Seq<u8>) -> nat
    decreases digits.len(),
{
    if digits.len() == 0 {
        0
    } else {
        (parse_decimal(digits.drop_last()) * 10 + (digits.last() - ZERO)) as nat
    }
}

/// Decimal text is never empty and holds digit bytes only.
pub proof fn lemma_decimal_digits_shape(n: nat)
    ensures
        decimal_digits(n).len() >= 1,
        forall|i: int| 0 <= i < decimal_digits(n).len() ==> is_digit(#[trigger] decimal_digits(n)[i]),
    decreases n,
{
    if n >= 10 {
        lemma_decimal_digits_shape(n / 10);
    }
}

/// Reading the decimal text of a number gives the number back.
pub proof fn lemma_parse_decimal_digits(n: nat)
    ensures
        parse_decimal(decimal_digits(n)) == n,
    decreases n,
{
    if n < 10 {
        let text = decimal_digits(n);
        assert(parse_decimal(text.drop_last()) == 0);
    } else {
        lemma_parse_decimal_digits(n / 10);
        let text = decimal_digits(n);
        assert(text.drop_last() =~= decimal_digits(n / 10));
    }
}

/// Two numbers with the same decimal text are the same number.
pub proof fn lemma_decimal_digits_injective(a: nat, b: nat)
    requires
        decimal_digits(a) == decimal_digits(b),
    ensures
        a == b,
{
    lemma_parse_decimal_digits(a);
    lemma_parse_decimal_digits(b);
}

/// Appends the decimal text of `n` to `out`.
pub fn push_decimal(n: u64, out: &mut Vec<u8>)
    ensures
        final(out)@ == old(out)@ + decimal_digits(n as nat),
    decreases n,
{
    if n >= 10 {
        push_decimal(n / 10, out);
    }
    let digit: u8 = (n % 10) as u8;
    out.push(ZERO + digit);
}

/// The decimal text of an unsigned number.
pub fn encode_unsigned(n: u64) -> (text: Vec<u8>)
    ensures
        text@ == decimal_digits(n as nat),
{
    let mut text: Vec<u8> = Vec::new();
    push_decimal(n, &mut text);
    text
}

/// The decimal text of a signed number.
pub fn encode_signed(i: i64) -> (text: Vec<u8>)
    ensures
        text@ == signed_decimal(i as int),
{
    let mut text: Vec<u8> = Vec::new();
    if i < 0 {
        text.push(MINUS);
        let magnitude: u64 = (-(i as i128)) as u64;
        push_decimal(magnitude, &mut text);
    } else {
        push_decimal(i as u64, &mut text);
    }
    text
}

} // verus!
