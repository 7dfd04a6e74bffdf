//! How far a count has come towards its maximum, and the one-line display of
//! that.

use vstd::arithmetic::div_mod::lemma_fundamental_div_mod_converse;
use vstd::prelude::*;
use vstd::string::*;

use crate::decimal::{append_decimal, append_hundredths, decimal_digits, hundredths_text};

verus! {

/// The whole number of `parts` that `current` out of `maximum` amounts to:
/// `current / maximum * parts`, rounded down.
pub open spec fn scaled_share(current: nat, maximum: nat, parts: nat) -> nat {
    (current * parts) / maximum
}

/// The share of a count never exceeds the number of parts, and is all of
/// them exactly when the count has reached a maximum that is not zero.
pub proof fn lemma_scaled_share_bounds(current: nat, maximum: nat, parts: nat)
    requires
        current <= maximum,
        0 < maximum,
    ensures
        scaled_share(current, maximum, parts) <= parts,
        current == maximum ==> scaled_share(current, maximum, parts) == parts,
        current == 0 ==> scaled_share(current, maximum, parts) == 0,
        current < maximum && 0 < parts ==> scaled_share(current, maximum, parts) < parts,
{
    let c = current as int;
    let m = maximum as int;
    let p = parts as int;
    assert((c * p) / m <= p) by (nonlinear_arith)
        requires
            0 <= c <= m,
            0 < m,
            0 <= p,
    ;
    assert(c == m ==> (c * p) / m == p) by (nonlinear_arith)
        requires
            0 < m,
            0 <= p,
    ;
    assert(c == 0 ==> (c * p) / m == 0) by (nonlinear_arith)
        requires
            0 < m,
    ;
    assert(c < m && 0 < p ==> (c * p) / m < p) by (nonlinear_arith)
        requires
            0 <= c,
            0 < m,
            0 <= p,
    ;
}

/// Computes `current / maximum * parts`, rounded down, without losing
/// anything to overflow.
pub fn scale_to_parts(current: u128, maximum: u128, parts: usize) -> (share: usize)
    requires
        0 < maximum,
        current <= maximum,
    ensures
        share == scaled_share(current as nat, maximum as nat, parts as nat),
        share <= parts,
{
    proof {
        lemma_scaled_share_bounds(current as nat, maximum as nat, parts as nat);
    }
    match current.checked_mul(parts as u128) {
        Some(product) => (product / maximum) as usize,
        None => {
            // The product does not fit: add `current` up `parts` times and
            // count how often the sum passes a multiple of `maximum`.
            let step_down: u128 = maximum - current;
            let mut quotient: usize = 0;
            let mut remainder: u128 = 0;
            let mut taken: usize = 0;
            while taken < parts
                invariant
                    taken <= parts,
                    quotient <= taken,
                    remainder < maximum,
                    current <= maximum,
                    step_down == maximum - current,
                    taken * current == quotient * maximum + remainder,
                decreases parts - taken,
            {
                if remainder >= step_down {
                    assert((quotient + 1) * maximum == quotient * maximum + maximum)
                        by (nonlinear_arith);
                    remainder = remainder - step_down;
                    quotient = quotient + 1;
                } else {
                    remainder = remainder + current;
                }
                taken = taken + 1;
                assert(taken * current == (taken - 1) * current + current) by (nonlinear_arith);
            }
            proof {
                lemma_fundamental_div_mod_converse(
                    parts * current,
                    maximum as int,
                    quotient as int,
                    remainder as int,
                );
                assert(parts * current == current * parts) by (nonlinear_arith);
            }
            quotient
        },
    }
}

/// The glyph of a segment that is done.
pub const DONE_SEGMENT: char = '#';

/// The glyph of a segment that is still to come.
pub const PENDING_SEGMENT: char = '-';

/// The glyph shown once the count has reached its maximum.
pub const COMPLETE_GLYPH: char = '\u{2713}';

/// How many hundredths of a percent make the whole.
pub const FULL_PERCENT: usize = 10000;

/// The number of segments, out of `segments`, that are drawn as done.
pub open spec fn filled_segments(current: nat, maximum: nat, segments: nat) -> nat {
    scaled_share(current, maximum, segments)
}

/// The percentage reached, in hundredths of a percent, rounded down.
pub open spec fn percent_hundredths(current: nat, maximum: nat) -> nat {
    scaled_share(current, maximum, FULL_PERCENT as nat)
}

/// The glyph that turns with the count, in a cycle of four.
pub open spec fn spinner_glyph(current: nat) -> char {
    if current % 4 == 0 {
        '/'
    } else if current % 4 == 1 {
        '-'
    } else if current % 4 == 2 {
        '\\'
    } else {
        '|'
    }
}

/// The glyph that shows the state of the work: `COMPLETE_GLYPH` exactly when
/// the count has reached its maximum, and the turning glyph before that.
pub open spec fn state_glyph_for(current: nat, maximum: nat) -> char {
    if current == maximum {
        COMPLETE_GLYPH
    } else {
        spinner_glyph(current)
    }
}

/// The bar: `filled` segments done, then the rest of `segments` pending.
pub open spec fn bar_text(filled: nat, segments: nat) -> Seq<char> {
    Seq::new(
        segments,
        |i: int|
            if i < filled {
                DONE_SEGMENT
            } else {
                PENDING_SEGMENT
            },
    )
}

/// The display line for a count of `current` out of `maximum`.
///
/// The line starts with a carriage return, so that it overwrites the line
/// drawn before it, and ends with a line feed only when the count has
/// reached the maximum.
pub open spec fn progress_line(current: nat, maximum: nat, segments: nat, info: Seq<char>) -> Seq<
    char,
> {
    seq!['\r', '['] + bar_text(filled_segments(current, maximum, segments), segments) + seq![
        ']',
        ' ',
    ] + hundredths_text(percent_hundredths(current, maximum)) + seq!['%', ' '] + decimal_digits(current)
        + seq![' ', '/', ' '] + decimal_digits(maximum) + seq![' '] + seq![
        state_glyph_for(current, maximum),
    ] + seq![' '] + info + if current == maximum {
        seq!['\n']
    } else {
        Seq::empty()
    }
}

/// The number of segments drawn as done.
pub fn count_filled_segments(current: u128, maximum: u128, segments: usize) -> (filled: usize)
    requires
        0 < maximum,
        current <= maximum,
    ensures
        filled == filled_segments(current as nat, maximum as nat, segments as nat),
        filled <= segments,
{
    scale_to_parts(current, maximum, segments)
}

/// The percentage reached, in hundredths of a percent.
pub fn count_percent_hundredths(current: u128, maximum: u128) -> (hundredths: usize)
    requires
        0 < maximum,
        current <= maximum,
    ensures
        hundredths == percent_hundredths(current as nat, maximum as nat),
        hundredths <= FULL_PERCENT,
{
    scale_to_parts(current, maximum, FULL_PERCENT)
}

/// The glyph that shows the state of the work.
pub fn state_glyph(current: u128, maximum: u128) -> (glyph: char)
    ensures
        glyph == state_glyph_for(current as nat, maximum as nat),
{
    if current == maximum {
        COMPLETE_GLYPH
    } else {
        match current % 4 {
            0 => '/',
            1 => '-',
            2 => '\\',
            _ => '|',
        }
    }
}

/// Appends the state glyph for `current` out of `maximum` to `text`.
fn append_state_glyph(text: &mut String, current: u128, maximum: u128)
    ensures
        final(text)@ == old(text)@ + seq![state_glyph_for(current as nat, maximum as nat)],
{
    proof {
        reveal_strlit("\u{2713}");
        reveal_strlit("/");
        reveal_strlit("-");
        reveal_strlit("\\");
        reveal_strlit("|");
    }
    let glyph: char = state_glyph(current, maximum);
    let glyph_text: &'static str = if glyph == COMPLETE_GLYPH {
        "\u{2713}"
    } else if glyph == '/' {
        "/"
    } else if glyph == '-' {
        "-"
    } else if glyph == '\\' {
        "\\"
    } else {
        "|"
    };
    assert(glyph_text@ =~= seq![glyph]);
    text.append(glyph_text);
}

/// Appends the bar to `text`.
fn append_bar(text: &mut String, filled: usize, segments: usize)
    requires
        filled <= segments,
    ensures
        final(text)@ == old(text)@ + bar_text(filled as nat, segments as nat),
{
    let mut drawn: usize = 0;
    while drawn < segments
        invariant
            drawn <= segments,
            filled <= segments,
            text@ == old(text)@ + bar_text(filled as nat, segments as nat).take(drawn as int),
        decreases segments - drawn,
    {
        let ghost bar: Seq<char> = bar_text(filled as nat, segments as nat);
        proof {
            reveal_strlit("#");
            reveal_strlit("-");
        }
        if drawn < filled {
            text.append("#");
            assert("#"@ =~= seq![bar[drawn as int]]);
        } else {
            text.append("-");
            assert("-"@ =~= seq![bar[drawn as int]]);
        }
        assert(bar.take(drawn + 1) =~= bar.take(drawn as int) + seq![bar[drawn as int]]);
        drawn = drawn + 1;
    }
    assert(bar_text(filled as nat, segments as nat).take(segments as int) =~= bar_text(
        filled as nat,
        segments as nat,
    ));
}

/// Draws the display line for a count of `current` out of `maximum`: a bar of
/// `segments` segments, the percentage, both numbers, the state glyph and
/// `info`.
pub fn progress_bar(current: u128, maximum: u128, segments: usize, info: &str) -> (line: String)
    requires
        0 < maximum,
        current <= maximum,
    ensures
        line@ == progress_line(current as nat, maximum as nat, segments as nat, info@),
{
    proof {
        reveal_strlit("\r[");
        reveal_strlit("] ");
        reveal_strlit("% ");
        reveal_strlit(" / ");
        reveal_strlit(" ");
        reveal_strlit("\n");
    }
    let filled: usize = count_filled_segments(current, maximum, segments);
    let hundredths: usize = count_percent_hundredths(current, maximum);
    let mut line: String = String::new();
    line.append("\r[");
    append_bar(&mut line, filled, segments);
    line.append("] ");
    append_hundredths(&mut line, hundredths as u128);
    line.append("% ");
    append_decimal(&mut line, current);
    line.append(" / ");
    append_decimal(&mut line, maximum);
    line.append(" ");
    append_state_glyph(&mut line, current, maximum);
    line.append(" ");
    line.append(info);
    if current == maximum {
        line.append("\n");
    }
    assert(line@ =~= progress_line(current as nat, maximum as nat, segments as nat, info@));
    line
}

/// One reading of the count together with the maximum it is heading for.
#[derive(Clone, Copy, Debug, PartialEq, Eq, Structural)]
pub struct ProgressSnapshot {
    /// The count as it was read.
    pub current: u128,
    /// The count at which the work is done.
    pub maximum: u128,
}

impl ProgressSnapshot {
    /// A snapshot can be drawn when its maximum is not zero and its count
    /// is not beyond it.
    pub open spec fn valid(self) -> bool {
        0 < self.maximum && self.current <= self.maximum
    }

    /// Whether the count has reached the maximum.
    pub open spec fn complete(self) -> bool {
        self.current == self.maximum
    }

    /// The snapshot of `current` out of `maximum`, if it can be drawn.
    pub fn new(current: u128, maximum: u128) -> (snapshot: Option<ProgressSnapshot>)
        ensures
            snapshot == if 0 < maximum && current <= maximum {
                Some(ProgressSnapshot { current, maximum })
            } else {
                None
            },
    {
        if 0 < maximum && current <= maximum {
            Some(ProgressSnapshot { current, maximum })
        } else {
            None
        }
    }

    /// Whether the count has reached the maximum.
    pub fn is_complete(&self) -> (done: bool)
        ensures
            done == self.complete(),
    {
        self.current == self.maximum
    }

    /// Draws the display line of this snapshot.
    pub fn render(&self, segments: usize, info: &str) -> (line: String)
        requires
            self.valid(),
        ensures
            line@ == progress_line(
                self.current as nat,
                self.maximum as nat,
                segments as nat,
                info@,
            ),
    {
        progress_bar(self.current, self.maximum, segments, info)
    }
}

/// An empty count fills no segment, and a complete one fills every segment
/// and shows `COMPLETE_GLYPH`, which is none of the glyphs that turn.
pub proof fn lemma_bar_ends(current: nat, maximum: nat, segments: nat)
    requires
        0 < maximum,
        current <= maximum,
    ensures
        current == 0 ==> filled_segments(current, maximum, segments) == 0,
        current == maximum ==> filled_segments(current, maximum, segments) == segments,
        filled_segments(current, maximum, segments) <= segments,
        state_glyph_for(current, maximum) == COMPLETE_GLYPH <==> current == maximum,
        forall|count: nat| spinner_glyph(count) != COMPLETE_GLYPH,
{
    lemma_scaled_share_bounds(current, maximum, segments);
}

} // verus!
