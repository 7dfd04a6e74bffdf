//! The lines that tell the user what was computed and how long it took.

use vstd::prelude::*;
use vstd::string::*;

use crate::decimal::{
    append_decimal,
    append_hundredths,
    append_padded,
    decimal_digits,
    hundredths_text,
    padded_digits,
};
use crate::ordinal::{get_ordinal_suffix, ordinal_text};

verus! {

/// The number of nanoseconds in a second.
pub const NANOS_PER_SECOND: u64 = 1_000_000_000;

/// The way a term was computed.
#[derive(Clone, Copy, Debug, PartialEq, Eq, Structural)]
pub enum Method {
    /// With two running values.
    Iterative,
    /// By the defining recurrence.
    Recursive,
}

/// The adverb that names a method in a result line.
pub open spec fn method_text(method: Method) -> Seq<char> {
    match method {
        Method::Iterative => "iteratively"@,
        Method::Recursive => "recursively"@,
    }
}

/// A time span in seconds, with all nine decimal places of the nanoseconds.
pub open spec fn seconds_text(nanos: nat) -> Seq<char> {
    decimal_digits(nanos / (NANOS_PER_SECOND as nat)) + seq!['.'] + padded_digits(
        nanos % (NANOS_PER_SECOND as nat),
        9,
    )
}

/// The line that reports one result: the index as an ordinal, the term, the
/// method and the time it took.
pub open spec fn result_text(index: u8, value: u128, method: Method, nanos: u64) -> Seq<char> {
    "The "@ + ordinal_text(index as nat) + " fibonacci number is "@ + decimal_digits(value as nat)
        + ", calculated "@ + method_text(method) + " in "@ + seconds_text(nanos as nat)
        + " seconds"@
}

/// How many times longer `recursive_nanos` is than `iterative_nanos`, in
/// hundredths and rounded down.
pub open spec fn slowdown_hundredths(iterative_nanos: nat, recursive_nanos: nat) -> nat {
    (recursive_nanos * 100) / iterative_nanos
}

/// The ratio of the two times as it is shown: two decimal places, or `inf`
/// where the iterative time is too short to have been measured.
pub open spec fn ratio_text(iterative_nanos: nat, recursive_nanos: nat) -> Seq<char> {
    if iterative_nanos == 0 {
        "inf"@
    } else {
        hundredths_text(slowdown_hundredths(iterative_nanos, recursive_nanos))
    }
}

/// The line that says how much slower the recursion was.
pub open spec fn slowdown_text(iterative_nanos: nat, recursive_nanos: nat) -> Seq<char> {
    "The recursive implementation was "@ + ratio_text(iterative_nanos, recursive_nanos)
        + " times slower, than iterative!"@
}

/// The words that ask the user to end the program.
pub open spec fn exit_prompt_text() -> Seq<char> {
    "Press Enter to exit..."@
}

/// Appends a time span in seconds to `text`.
pub fn append_seconds(text: &mut String, nanos: u64)
    ensures
        final(text)@ == old(text)@ + seconds_text(nanos as nat),
{
    proof {
        reveal_strlit(".");
    }
    append_decimal(text, (nanos / NANOS_PER_SECOND) as u128);
    text.append(".");
    append_padded(text, (nanos % NANOS_PER_SECOND) as u128, 9);
    assert(final(text)@ =~= old(text)@ + seconds_text(nanos as nat));
}

/// Writes the line that reports one result.
pub fn result_line(index: u8, value: u128, method: Method, nanos: u64) -> (line: String)
    ensures
        line@ == result_text(index, value, method, nanos),
{
    let mut line: String = String::new();
    line.append("The ");
    append_decimal(&mut line, index as u128);
    line.append(get_ordinal_suffix(index));
    line.append(" fibonacci number is ");
    append_decimal(&mut line, value);
    line.append(", calculated ");
    match method {
        Method::Iterative => line.append("iteratively"),
        Method::Recursive => line.append("recursively"),
    }
    line.append(" in ");
    append_seconds(&mut line, nanos);
    line.append(" seconds");
    assert(line@ =~= result_text(index, value, method, nanos));
    line
}

/// Writes the line that says how much slower the recursion was, if it took
/// longer than the iteration at all.
pub fn slowdown_line(iterative_nanos: u64, recursive_nanos: u64) -> (line: Option<String>)
    ensures
        line is Some <==> recursive_nanos > iterative_nanos,
        line matches Some(text) ==> text@ == slowdown_text(
            iterative_nanos as nat,
            recursive_nanos as nat,
        ),
{
    if recursive_nanos <= iterative_nanos {
        return None;
    }
    let mut text: String = String::new();
    text.append("The recursive implementation was ");
    if iterative_nanos == 0 {
        text.append("inf");
    } else {
        let scaled: u128 = (recursive_nanos as u128) * 100;
        append_hundredths(&mut text, scaled / (iterative_nanos as u128));
    }
    text.append(" times slower, than iterative!");
    assert(text@ =~= slowdown_text(iterative_nanos as nat, recursive_nanos as nat));
    Some(text)
}

/// Writes the words that ask the user to end the program.
pub fn exit_prompt() -> (text: String)
    ensures
        text@ == exit_prompt_text(),
{
    String::from_str("Press Enter to exit...")
}

} // verus!
