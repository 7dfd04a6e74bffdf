//! English ordinals: 1st, 2nd, 3rd, 4th, ...

use vstd::prelude::*;
use vstd::string::*;

use crate::decimal::{append_decimal, decimal_digits};

verus! {

/// The two letters that turn the number `n` into an ordinal.
///
/// Numbers that end in 11, 12 or 13 take `th`; otherwise a last digit of
/// 1, 2 or 3 takes `st`, `nd` or `rd`, and every other number takes `th`.
pub open spec fn ordinal_suffix(n: nat) -> Seq<char> {
    if 11 <= n % 100 <= 13 {
        seq!['t', 'h']
    } else if n % 10 == 1 {
        seq!['s', 't']
    } else if n % 10 == 2 {
        seq!['n', 'd']
    } else if n % 10 == 3 {
        seq!['r', 'd']
    } else {
        seq!['t', 'h']
    }
}

/// The ordinal of `n` written out: its decimal digits, then its suffix.
pub open spec fn ordinal_text(n: nat) -> Seq<char> {
    decimal_digits(n) + ordinal_suffix(n)
}

/// The suffix that turns `number` into an ordinal.
pub fn get_ordinal_suffix(number: u8) -> (suffix: &'static str)
    ensures
        suffix@ == ordinal_suffix(number as nat),
{
    proof {
        reveal_strlit("th");
        reveal_strlit("st");
        reveal_strlit("nd");
        reveal_strlit("rd");
    }
    let last_two: u8 = number % 100;
    let suffix: &'static str = if 11 <= last_two && last_two <= 13 {
        "th"
    } else {
        match number % 10 {
            1 => "st",
            2 => "nd",
            3 => "rd",
            _ => "th",
        }
    };
    assert(suffix@ =~= ordinal_suffix(number as nat));
    suffix
}

/// Writes `number` as an ordinal, as in `21st`.
pub fn ordinal(number: u8) -> (text: String)
    ensures
        text@ == ordinal_text(number as nat),
{
    let mut text: String = String::new();
    append_decimal(&mut text, number as u128);
    text.append(get_ordinal_suffix(number));
    assert(text@ =~= ordinal_text(number as nat));
    text
}

} // verus!
