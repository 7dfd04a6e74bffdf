//! From a line of text to the index that the computations are run for.

use vstd::prelude::*;
use vstd::string::*;

use crate::decimal::{append_decimal, decimal_digits, digit_char};
use crate::sequence::{valid_index, MAX_INDEX, MIN_INDEX};

verus! {

/// The index used whenever the input gives none.
pub const DEFAULT_NTH: u8 = 30;

/// Why a text does not write a number.
#[derive(Clone, Copy, Debug, PartialEq, Eq, Structural)]
pub enum ParseFault {
    /// The text has no characters at all.
    Empty,
    /// A character is not a decimal digit, or the text is a lone sign.
    InvalidDigit,
}

/// Whether `c` is one of the digits `0` to `9`.
pub open spec fn is_digit(c: char) -> bool {
    '0' <= c <= '9'
}

/// The number that the digit `c` stands for.
pub open spec fn digit_value(c: char) -> nat {
    (c as nat - '0' as nat) as nat
}

/// Whether `digits` holds decimal digits only.
pub open spec fn all_digits(digits: Seq<char>) -> bool {
    forall|i: int| 0 <= i < digits.len() ==> is_digit(#[trigger] digits[i])
}

/// The number that a row of decimal digits writes; the empty row writes zero.
pub open spec fn digits_value(digits: Seq<char>) -> nat
    decreases digits.len(),
{
    if digits.len() == 0 {
        0
    } else {
        digits_value(digits.drop_last()) * 10 + digit_value(digits.last())
    }
}

/// The text without the `+` that may stand in front of a number.
pub open spec fn without_sign(text: Seq<char>) -> Seq<char> {
    if text.len() > 0 && text[0] == '+' {
        text.drop_first()
    } else {
        text
    }
}

/// The number that `text` writes: decimal digits, at least one, with an
/// optional `+` in front. Leading zeros are fine and the number may be of any
/// size; nothing else may stand in the text, not even blanks.
pub open spec fn parse_number(text: Seq<char>) -> Result<nat, ParseFault> {
    if text.len() == 0 {
        Err(ParseFault::Empty)
    } else if without_sign(text).len() == 0 || !all_digits(without_sign(text)) {
        Err(ParseFault::InvalidDigit)
    } else {
        Ok(digits_value(without_sign(text)))
    }
}

/// What `parse_number_text` gives for a text: the number itself where it
/// fits in eight bits, and `None` in its place where it does not.
pub open spec fn parse_small_number(text: Seq<char>) -> Result<Option<u8>, ParseFault> {
    match parse_number(text) {
        Err(fault) => Err(fault),
        Ok(number) => if number <= u8::MAX {
            Ok(Some(number as u8))
        } else {
            Ok(None)
        },
    }
}

/// One more digit behind a row of digits: ten times the number, and the digit.
pub proof fn lemma_digits_value_push(digits: Seq<char>, c: char)
    ensures
        digits_value(digits.push(c)) == digits_value(digits) * 10 + digit_value(c),
{
    assert(digits.push(c).drop_last() =~= digits);
}

/// The decimal digits of a number are digits, at least one, and write that
/// number.
pub proof fn lemma_decimal_digits_write_number(n: nat)
    ensures
        decimal_digits(n).len() > 0,
        all_digits(decimal_digits(n)),
        digits_value(decimal_digits(n)) == n,
    decreases n,
{
    let last: char = digit_char(n % 10);
    assert(is_digit(last) && digit_value(last) == n % 10);
    if n < 10 {
        assert(decimal_digits(n) =~= Seq::<char>::empty().push(last));
        lemma_digits_value_push(Seq::empty(), last);
    } else {
        lemma_decimal_digits_write_number(n / 10);
        lemma_digits_value_push(decimal_digits(n / 10), last);
    }
}

/// Reading back what was written in decimal digits gives the number that
/// was written.
pub proof fn lemma_written_number_reads_back(n: nat)
    ensures
        parse_number(decimal_digits(n)) == Ok::<nat, ParseFault>(n),
{
    lemma_decimal_digits_write_number(n);
    assert(is_digit(decimal_digits(n)[0]));
}

/// Reads the number that `text` writes. A number beyond 255 is read to its
/// end, but comes back as `None`.
pub fn parse_number_text(text: &str) -> (parsed: Result<Option<u8>, ParseFault>)
    ensures
        parsed == parse_small_number(text@),
{
    if text.is_empty() {
        return Err(ParseFault::Empty);
    }
    if !text.is_ascii() {
        proof {
            let i = choose|i: int| 0 <= i < text@.len() && !('\0' <= #[trigger] text@[i] <= '\u{7f}');
            if text@[0] == '+' {
                assert(without_sign(text@)[i - 1] == text@[i]);
            }
        }
        return Err(ParseFault::InvalidDigit);
    }
    let bytes: &[u8] = text.as_bytes();
    proof {
        is_ascii_spec_bytes(text);
    }
    let length: usize = bytes.len();
    let start: usize = if bytes[0] == 43u8 {
        1
    } else {
        0
    };
    assert(bytes[0] == 43u8 <==> text@[0] == '+');
    let ghost digits: Seq<char> = without_sign(text@);
    assert(digits =~= text@.subrange(start as int, length as int));
    if start == length {
        return Err(ParseFault::InvalidDigit);
    }
    let mut at: usize = start;
    let mut value: Option<u8> = Some(0);
    while at < length
        invariant
            start <= at <= length,
            length == text@.len(),
            length == bytes@.len(),
            0 < length,
            digits == without_sign(text@),
            digits == text@.subrange(start as int, length as int),
            forall|i: int| 0 <= i < length ==> bytes@[i] == (#[trigger] text@[i]) as u8,
            forall|i: int| 0 <= i < length ==> '\0' <= #[trigger] text@[i] <= '\u{7f}',
            all_digits(digits.take(at - start)),
            match value {
                Some(small) => small == digits_value(digits.take(at - start)),
                None => digits_value(digits.take(at - start)) > u8::MAX,
            },
        decreases length - at,
    {
        let byte: u8 = bytes[at];
        let ghost c: char = text@[at as int];
        assert(digits[at - start] == c);
        assert(byte == c as u8);
        if byte < 48u8 || byte > 57u8 {
            assert(!is_digit(c));
            return Err(ParseFault::InvalidDigit);
        }
        let digit: u8 = byte - 48u8;
        assert(is_digit(c) && digit == digit_value(c));
        proof {
            assert(digits.take(at - start + 1) =~= digits.take(at - start).push(c));
            lemma_digits_value_push(digits.take(at - start), c);
        }
        value = match value {
            Some(small) => if small > 25 || (small == 25 && digit > 5) {
                None
            } else {
                Some(small * 10 + digit)
            },
            None => None,
        };
        at = at + 1;
    }
    assert(digits.take(length - start) =~= digits);
    Ok(value)
}

/// Why the default index is used in place of one from the input.
#[derive(Clone, Copy, Debug, PartialEq, Eq, Structural)]
pub enum DefaultReason {
    /// The input ended before it gave a line.
    NotProvided,
    /// Reading the line failed.
    ReadFailed,
    /// The line does not write a number.
    Unparseable(ParseFault),
    /// The line writes a number outside `MIN_INDEX..=MAX_INDEX`.
    OutOfRange,
}

/// The index to compute with, and why it is the default where it is.
#[derive(Clone, Copy, Debug, PartialEq, Eq, Structural)]
pub struct Resolution {
    /// The index to compute with.
    pub index: u8,
    /// `None` where the input gave the index, else why it did not.
    pub defaulted: Option<DefaultReason>,
}

/// The resolution that falls back to `DEFAULT_NTH` for `reason`.
pub open spec fn fallback(reason: DefaultReason) -> Resolution {
    Resolution { index: DEFAULT_NTH, defaulted: Some(reason) }
}

/// What a line of input resolves to: its number where it writes one within
/// `MIN_INDEX..=MAX_INDEX`, else the default with the reason.
pub open spec fn resolve_text(text: Seq<char>) -> Resolution {
    match parse_number(text) {
        Err(fault) => fallback(DefaultReason::Unparseable(fault)),
        Ok(number) => if MIN_INDEX <= number <= MAX_INDEX {
            Resolution { index: number as u8, defaulted: None }
        } else {
            fallback(DefaultReason::OutOfRange)
        },
    }
}

/// What the input resolves to, where `None` stands for an input that ended
/// without a line.
pub open spec fn resolve(line: Option<Seq<char>>) -> Resolution {
    match line {
        None => fallback(DefaultReason::NotProvided),
        Some(text) => resolve_text(text),
    }
}

/// Whatever the input holds, the index it resolves to can be computed with.
pub proof fn lemma_resolved_index_valid(line: Option<Seq<char>>)
    ensures
        valid_index(resolve(line).index),
        resolve(line).defaulted is Some ==> resolve(line).index == DEFAULT_NTH,
{
}

/// Resolves the index from the line that was read, if one was.
pub fn resolve_index(line: Option<&str>) -> (resolution: Resolution)
    ensures
        resolution == resolve(
            match line {
                Some(text) => Some(text@),
                None => None,
            },
        ),
        valid_index(resolution.index),
{
    match line {
        None => Resolution { index: DEFAULT_NTH, defaulted: Some(DefaultReason::NotProvided) },
        Some(text) => match parse_number_text(text) {
            Err(fault) => Resolution {
                index: DEFAULT_NTH,
                defaulted: Some(DefaultReason::Unparseable(fault)),
            },
            Ok(Some(number)) => if MIN_INDEX <= number && number <= MAX_INDEX {
                Resolution { index: number, defaulted: None }
            } else {
                Resolution { index: DEFAULT_NTH, defaulted: Some(DefaultReason::OutOfRange) }
            },
            Ok(None) => Resolution {
                index: DEFAULT_NTH,
                defaulted: Some(DefaultReason::OutOfRange),
            },
        },
    }
}

/// The resolution for an input that could not be read.
pub fn resolve_unreadable() -> (resolution: Resolution)
    ensures
        resolution == fallback(DefaultReason::ReadFailed),
        valid_index(resolution.index),
{
    Resolution { index: DEFAULT_NTH, defaulted: Some(DefaultReason::ReadFailed) }
}

/// What is said of a fault in a notice.
pub open spec fn fault_text(fault: ParseFault) -> Seq<char> {
    match fault {
        ParseFault::Empty => "cannot parse integer from empty string"@,
        ParseFault::InvalidDigit => "invalid digit found in string"@,
    }
}

/// The words with which every notice ends, before the default itself.
pub open spec fn defaulting_to() -> Seq<char> {
    ", defaulting to "@ + decimal_digits(DEFAULT_NTH as nat)
}

/// The notice shown to the user when the default is used. `detail` is what
/// the reader of the line reported; only the notice for `ReadFailed` shows it.
pub open spec fn notice_text(reason: DefaultReason, detail: Seq<char>) -> Seq<char> {
    match reason {
        DefaultReason::NotProvided => "Fibonacci Number is not provided"@ + defaulting_to(),
        DefaultReason::ReadFailed => "Something has gone terribly wrong: ("@ + detail + ")"@
            + defaulting_to(),
        DefaultReason::Unparseable(fault) => "Error processing number from the given input: ("@
            + fault_text(fault) + ")"@ + defaulting_to(),
        DefaultReason::OutOfRange => "Provided number is outside of "@ + decimal_digits(
            MIN_INDEX as nat,
        ) + "-"@ + decimal_digits(MAX_INDEX as nat) + " range"@ + defaulting_to(),
    }
}

/// The question put to the user.
pub open spec fn prompt_text() -> Seq<char> {
    "Enter which Fibonacci Number to calculate ("@ + decimal_digits(MIN_INDEX as nat) + "-"@
        + decimal_digits(MAX_INDEX as nat) + "): "@
}

/// Writes the question put to the user.
pub fn prompt() -> (text: String)
    ensures
        text@ == prompt_text(),
{
    let mut text: String = String::new();
    text.append("Enter which Fibonacci Number to calculate (");
    append_decimal(&mut text, MIN_INDEX as u128);
    text.append("-");
    append_decimal(&mut text, MAX_INDEX as u128);
    text.append("): ");
    assert(text@ =~= prompt_text());
    text
}

/// Writes the notice for `reason`.
pub fn notice(reason: DefaultReason, detail: &str) -> (text: String)
    ensures
        text@ == notice_text(reason, detail@),
{
    let mut text: String = String::new();
    match reason {
        DefaultReason::NotProvided => {
            text.append("Fibonacci Number is not provided");
        },
        DefaultReason::ReadFailed => {
            text.append("Something has gone terribly wrong: (");
            text.append(detail);
            text.append(")");
        },
        DefaultReason::Unparseable(fault) => {
            text.append("Error processing number from the given input: (");
            match fault {
                ParseFault::Empty => text.append("cannot parse integer from empty string"),
                ParseFault::InvalidDigit => text.append("invalid digit found in string"),
            }
            text.append(")");
        },
        DefaultReason::OutOfRange => {
            text.append("Provided number is outside of ");
            append_decimal(&mut text, MIN_INDEX as u128);
            text.append("-");
            append_decimal(&mut text, MAX_INDEX as u128);
            text.append(" range");
        },
    }
    text.append(", defaulting to ");
    append_decimal(&mut text, DEFAULT_NTH as u128);
    assert(text@ =~= notice_text(reason, detail@));
    text
}

} // verus!
