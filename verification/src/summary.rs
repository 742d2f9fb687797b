//! The shareable result summary: a header line `Wordle <n> <attempts>/6`
//! followed by one emoji row per guess, one glyph per board position.

use vstd::prelude::*;
use vstd::string::StrSliceExecFns;
use vstd::string::StringExecFns;

use crate::status::{LetterStatus, Spot};

verus! {

/// The glyph shown for a status in a shared result row.
pub open spec fn spec_emoji(s: LetterStatus) -> Seq<char> {
    match s {
        LetterStatus::Correct => "🟩"@,
        LetterStatus::Incorrect => "🟨"@,
        LetterStatus::NotInWord => "⬛"@,
    }
}

/// Maps a letter status to its square glyph: green for Correct, yellow
/// for Incorrect, black for NotInWord. Each glyph is one character.
pub fn emoji_from_status(status: LetterStatus) -> (glyph: &'static str)
    ensures
        glyph@ == spec_emoji(status),
        glyph@.len() == 1,
{
    proof {
        reveal_strlit("🟩");
        reveal_strlit("🟨");
        reveal_strlit("⬛");
    }
    match status {
        LetterStatus::Correct => "🟩",
        LetterStatus::Incorrect => "🟨",
        LetterStatus::NotInWord => "⬛",
    }
}

/// The decimal digit character for a value below ten.
pub open spec fn spec_digit(d: nat) -> char {
    if d == 0 {
        '0'
    } else if d == 1 {
        '1'
    } else if d == 2 {
        '2'
    } else if d == 3 {
        '3'
    } else if d == 4 {
        '4'
    } else if d == 5 {
        '5'
    } else if d == 6 {
        '6'
    } else if d == 7 {
        '7'
    } else if d == 8 {
        '8'
    } else {
        '9'
    }
}

/// The decimal notation of a natural number, most significant digit
/// first, with no leading zero except for the number zero itself.
pub open spec fn spec_decimal(n: nat) -> Seq<char>
    decreases n,
{
    if n < 10 {
        seq![spec_digit(n)]
    } else {
        spec_decimal(n / 10).push(spec_digit(n % 10))
    }
}

/// The one-digit string for a value below ten.
fn digit_str(d: usize) -> (s: &'static str)
    requires
        d < 10,
    ensures
        s@ == seq![spec_digit(d as nat)],
{
    proof {
        reveal_strlit("0");
        reveal_strlit("1");
        reveal_strlit("2");
        reveal_strlit("3");
        reveal_strlit("4");
        reveal_strlit("5");
        reveal_strlit("6");
        reveal_strlit("7");
        reveal_strlit("8");
        reveal_strlit("9");
    }
    if d == 0 {
        "0"
    } else if d == 1 {
        "1"
    } else if d == 2 {
        "2"
    } else if d == 3 {
        "3"
    } else if d == 4 {
        "4"
    } else if d == 5 {
        "5"
    } else if d == 6 {
        "6"
    } else if d == 7 {
        "7"
    } else if d == 8 {
        "8"
    } else {
        "9"
    }
}

/// Writes a number in decimal notation.
pub fn decimal_string(n: usize) -> (s: String)
    ensures
        s@ == spec_decimal(n as nat),
    decreases n,
{
    if n < 10 {
        String::from_str(digit_str(n))
    } else {
        let high = decimal_string(n / 10);
        high.concat(digit_str(n % 10))
    }
}

/// The header line of a shared result: the session number (the session
/// index plus one) and how many attempts were used out of six.
pub open spec fn spec_header(index: nat, attempts: nat) -> Seq<char> {
    "Wordle "@ + spec_decimal(index + 1) + " "@ + spec_decimal(attempts) + "/6"@
}

/// The glyphs of the first `k` spots of a row, in board order.
pub open spec fn spec_row_prefix(spots: Seq<Spot>, k: int) -> Seq<char>
    decreases k,
{
    if k <= 0 {
        Seq::empty()
    } else {
        spec_row_prefix(spots, k - 1) + spec_emoji(spots[k - 1].status)
    }
}

/// The emoji row for one guess: one glyph per board position.
pub open spec fn spec_row(spots: Seq<Spot>) -> Seq<char> {
    spec_row_prefix(spots, spots.len() as int)
}

/// An emoji row holds exactly as many glyphs as the guess has spots.
pub proof fn lemma_row_len(spots: Seq<Spot>, k: int)
    requires
        0 <= k <= spots.len(),
    ensures
        spec_row_prefix(spots, k).len() == k,
    decreases k,
{
    reveal_strlit("🟩");
    reveal_strlit("🟨");
    reveal_strlit("⬛");
    if k > 0 {
        lemma_row_len(spots, k - 1);
    }
}

/// Builds the header line of a shared result.
pub fn header_string(index: usize, attempts: usize) -> (s: String)
    requires
        index < usize::MAX,
    ensures
        s@ == spec_header(index as nat, attempts as nat),
{
    let mut s = String::from_str("Wordle ");
    s.append(decimal_string(index + 1).as_str());
    s.append(" ");
    s.append(decimal_string(attempts).as_str());
    s.append("/6");
    proof {
        assert(s@ =~= spec_header(index as nat, attempts as nat));
    }
    s
}

/// Builds the emoji row for one guess.
pub fn row_string(spots: &[Spot; 5]) -> (s: String)
    ensures
        s@ == spec_row(spots@),
        s@.len() == 5,
{
    let mut s = String::new();
    let mut i: usize = 0;
    while i < 5
        invariant
            0 <= i <= 5,
            s@ == spec_row_prefix(spots@, i as int),
        decreases 5 - i,
    {
        s.append(emoji_from_status(spots[i].status));
        i += 1;
    }
    proof {
        lemma_row_len(spots@, 5);
    }
    s
}

/// The row lines of a shared result: the emoji rows of the first `k`
/// guesses, in play order.
pub open spec fn spec_row_lines(guesses: Seq<Seq<Spot>>, k: int) -> Seq<Seq<char>>
    decreases k,
{
    if k <= 0 {
        Seq::empty()
    } else {
        spec_row_lines(guesses, k - 1).push(spec_row(guesses[k - 1]))
    }
}

/// The lines of the shared result: the header first, then one emoji row
/// per guess in play order.
pub fn result_lines(index: usize, guesses: &Vec<[Spot; 5]>) -> (lines: Vec<String>)
    requires
        index < usize::MAX,
    ensures
        lines@.len() == 1 + guesses@.len(),
        lines@[0]@ == spec_header(index as nat, guesses@.len()),
        forall|k: int|
            0 <= k < guesses@.len() ==> lines@[k + 1]@ == spec_row(guesses@[k]@),
{
    let mut lines: Vec<String> = Vec::new();
    lines.push(header_string(index, guesses.len()));
    let mut g: usize = 0;
    while g < guesses.len()
        invariant
            index < usize::MAX,
            0 <= g <= guesses@.len(),
            lines@.len() == 1 + g,
            lines@[0]@ == spec_header(index as nat, guesses@.len()),
            forall|k: int| 0 <= k < g ==> lines@[k + 1]@ == spec_row(guesses@[k]@),
        decreases guesses@.len() - g,
    {
        lines.push(row_string(&guesses[g]));
        g += 1;
    }
    lines
}

/// The flat text of the shared result, as placed on the clipboard: every
/// line ends in a newline, and a blank line separates the header from
/// the rows.
pub open spec fn spec_result_text(index: nat, guesses: Seq<Seq<Spot>>) -> Seq<char> {
    spec_header(index, guesses.len()) + "\n\n"@ + spec_rows_text(guesses, guesses.len() as int)
}

/// The concatenated emoji rows of the first `k` guesses, each ended by a
/// newline.
pub open spec fn spec_rows_text(guesses: Seq<Seq<Spot>>, k: int) -> Seq<char>
    decreases k,
{
    if k <= 0 {
        Seq::empty()
    } else {
        spec_rows_text(guesses, k - 1) + spec_row(guesses[k - 1]) + "\n"@
    }
}

/// Builds the flat clipboard text of the shared result.
pub fn result_text(index: usize, guesses: &Vec<[Spot; 5]>) -> (text: String)
    requires
        index < usize::MAX,
    ensures
        text@ == spec_result_text(index as nat, guesses@.map_values(|g: [Spot; 5]| g@)),
{
    let ghost rows: Seq<Seq<Spot>> = guesses@.map_values(|g: [Spot; 5]| g@);
    let mut text = header_string(index, guesses.len());
    text.append("\n\n");
    let mut g: usize = 0;
    while g < guesses.len()
        invariant
            index < usize::MAX,
            0 <= g <= guesses@.len(),
            rows == guesses@.map_values(|gu: [Spot; 5]| gu@),
            text@ == spec_header(index as nat, guesses@.len()) + "\n\n"@ + spec_rows_text(
                rows,
                g as int,
            ),
        decreases guesses@.len() - g,
    {
        text.append(row_string(&guesses[g]).as_str());
        text.append("\n");
        proof {
            assert(text@ =~= spec_header(index as nat, guesses@.len()) + "\n\n"@
                + spec_rows_text(rows, g + 1));
        }
        g += 1;
    }
    proof {
        assert(text@ =~= spec_result_text(index as nat, rows));
    }
    text
}

} // verus!
