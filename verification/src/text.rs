//! Building text: appending a character, and writing an integer in decimal.

use vstd::prelude::*;

verus! {

/// Appends one character with the standard library's `String::push`.
/// Trusted: the contract states what the documentation of `push` promises,
/// that the text afterwards is the text before with the character at its end.
#[verifier::external_body]
pub(crate) fn push_char(text: &mut String, c: char)
    ensures
        final(text)@ == old(text)@.push(c),
{
    text.push(c);
}

/// The decimal digit for `d`.
pub open spec fn digit(d: int) -> char {
    ((0x30 + d) as u8) as char
}

/// The decimal digits of `n`, without leading zeros.
pub open spec fn decimal_of_nat(n: nat) -> Seq<char>
    decreases n,
{
    if n < 10 {
        seq![digit(n as int)]
    } else {
        decimal_of_nat(n / 10).push(digit((n % 10) as int))
    }
}

/// `i` written in decimal, with a minus sign before a negative number.
pub open spec fn decimal_of(i: int) -> Seq<char> {
    if i < 0 {
        seq!['-'] + decimal_of_nat((-i) as nat)
    } else {
        decimal_of_nat(i as nat)
    }
}

/// Appends the decimal digits of `n` to `text`.
pub fn push_digits(text: &mut String, n: u64)
    ensures
        final(text)@ == old(text)@ + decimal_of_nat(n as nat),
    decreases n,
{
    if n >= 10 {
        push_digits(text, n / 10);
    }
    let d: u8 = (n % 10) as u8;
    let c: char = (0x30u8 + d) as char;
    push_char(text, c);
    assert(final(text)@ =~= old(text)@ + decimal_of_nat(n as nat));
}

/// Appends `i` in decimal to `text`.
pub fn push_decimal(text: &mut String, i: i64)
    ensures
        final(text)@ == old(text)@ + decimal_of(i as int),
{
    if i < 0 {
        let magnitude: u64 = (-(i + 1)) as u64 + 1;
        push_char(text, '-');
        push_digits(text, magnitude);
        assert(final(text)@ =~= old(text)@ + decimal_of(i as int));
    } else {
        push_digits(text, i as u64);
    }
}

/// Writes `i` in decimal.
pub fn decimal(i: i64) -> (text: String)
    ensures
        text@ == decimal_of(i as int),
{
    let mut text = String::new();
    push_decimal(&mut text, i);
    assert(text@ =~= decimal_of(i as int));
    text
}

} // verus!
