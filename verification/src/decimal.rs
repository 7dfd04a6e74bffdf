//! Numbers written out in decimal digits.

use vstd::prelude::*;
use vstd::string::*;

verus! {

/// The character that stands for the digit `d`, for `d` below ten.
pub open spec fn digit_char(d: nat) -> char {
    if d == 0 {
        '0'
    } else if d == 1 {
        '1'
    } else if d == 2 {
        '2'
    } else if d == 3 {
        '3'
    } else if d == 4 {
        '4'
    } else if d == 5 {
        '5'
    } else if d == 6 {
        '6'
    } else if d == 7 {
        '7'
    } else if d == 8 {
        '8'
    } else {
        '9'
    }
}

/// The digits of `n` in base ten, most significant first, without leading
/// zeros; zero is the single digit `0`.
pub open spec fn decimal_digits(n: nat) -> Seq<char>
    decreases n,
{
    if n < 10 {
        seq![digit_char(n)]
    } else {
        decimal_digits(n / 10).push(digit_char(n % 10))
    }
}

/// The last `width` digits of `n` in base ten, most significant first, with
/// zeros in front where `n` has fewer digits.
pub open spec fn padded_digits(n: nat, width: nat) -> Seq<char>
    decreases width,
{
    if width == 0 {
        Seq::empty()
    } else {
        padded_digits(n / 10, (width - 1) as nat).push(digit_char(n % 10))
    }
}

/// A number of hundredths written with two decimal places: 1250 is `12.50`.
pub open spec fn hundredths_text(hundredths: nat) -> Seq<char> {
    decimal_digits(hundredths / 100) + seq!['.'] + padded_digits(hundredths % 100, 2)
}

/// The one-character text of a digit.
pub fn digit_text(d: u8) -> (text: &'static str)
    requires
        d < 10,
    ensures
        text@ == seq![digit_char(d as nat)],
{
    proof {
        reveal_strlit("0");
        reveal_strlit("1");
        reveal_strlit("2");
        reveal_strlit("3");
        reveal_strlit("4");
        reveal_strlit("5");
        reveal_strlit("6");
        reveal_strlit("7");
        reveal_strlit("8");
        reveal_strlit("9");
    }
    let text: &'static str = match d {
        0 => "0",
        1 => "1",
        2 => "2",
        3 => "3",
        4 => "4",
        5 => "5",
        6 => "6",
        7 => "7",
        8 => "8",
        _ => "9",
    };
    assert(text@ =~= seq![digit_char(d as nat)]);
    text
}

/// Appends the decimal digits of `n` to `text`.
pub fn append_decimal(text: &mut String, n: u128)
    ensures
        final(text)@ == old(text)@ + decimal_digits(n as nat),
    decreases n,
{
    if n >= 10 {
        append_decimal(text, n / 10);
    }
    text.append(digit_text((n % 10) as u8));
    assert(final(text)@ =~= old(text)@ + decimal_digits(n as nat));
}

/// Appends the last `width` decimal digits of `n` to `text`, with zeros in
/// front where `n` has fewer.
pub fn append_padded(text: &mut String, n: u128, width: u8)
    ensures
        final(text)@ == old(text)@ + padded_digits(n as nat, width as nat),
    decreases width,
{
    if width > 0 {
        append_padded(text, n / 10, width - 1);
        text.append(digit_text((n % 10) as u8));
    }
    assert(final(text)@ =~= old(text)@ + padded_digits(n as nat, width as nat));
}

/// Appends `hundredths` to `text`, written with two decimal places.
pub fn append_hundredths(text: &mut String, hundredths: u128)
    ensures
        final(text)@ == old(text)@ + hundredths_text(hundredths as nat),
{
    proof {
        reveal_strlit(".");
    }
    append_decimal(text, hundredths / 100);
    text.append(".");
    append_padded(text, hundredths % 100, 2);
    assert(final(text)@ =~= old(text)@ + hundredths_text(hundredths as nat));
}

/// Writes `n` in decimal digits.
pub fn to_decimal(n: u128) -> (text: String)
    ensures
        text@ == decimal_digits(n as nat),
{
    let mut text: String = String::new();
    append_decimal(&mut text, n);
    assert(text@ =~= decimal_digits(n as nat));
    text
}

} // verus!
