//! Letters of the English alphabet: classification, indexing A–Z, and
//! ASCII uppercasing of characters and words.

use vstd::prelude::*;
use vstd::string::StrSliceExecFns;
use vstd::string::StringExecFns;

verus! {

/// The number of letters in the English alphabet.
pub const ALPHABET_LEN: usize = 26;

/// Whether `c` is an ASCII uppercase letter.
pub open spec fn is_upper_letter(c: char) -> bool {
    'A' <= c && c <= 'Z'
}

/// Whether `c` is an ASCII lowercase letter.
pub open spec fn is_lower_letter(c: char) -> bool {
    'a' <= c && c <= 'z'
}

/// The position of an English letter in the alphabet, starting at zero;
/// case-insensitive.
pub open spec fn spec_letter_index(c: char) -> int {
    if is_upper_letter(c) {
        c as int - 'A' as int
    } else {
        c as int - 'a' as int
    }
}

/// `c` with a lowercase ASCII letter turned uppercase; any other
/// character is left as it is.
pub open spec fn spec_upper(c: char) -> char {
    if is_lower_letter(c) {
        ((c as u32) - 32) as char
    } else {
        c
    }
}

/// A word uppercased character by character.
pub open spec fn spec_upper_word(w: Seq<char>) -> Seq<char> {
    w.map_values(|c: char| spec_upper(c))
}

/// Returns the index of the given letter in the English alphabet.
///
/// Indexing starts at zero and ignores case. Returns `None` if the
/// given character is not a letter of the English alphabet.
pub fn letter_to_index(letter: char) -> (index: Option<usize>)
    ensures
        match index {
            Some(i) => (is_upper_letter(letter) || is_lower_letter(letter)) && i
                == spec_letter_index(letter) && i < ALPHABET_LEN,
            None => !is_upper_letter(letter) && !is_lower_letter(letter),
        },
{
    let u = letter as u32;
    if 'A' <= letter && letter <= 'Z' {
        Some(((u - 65) as u8) as usize)
    } else if 'a' <= letter && letter <= 'z' {
        Some(((u - 97) as u8) as usize)
    } else {
        None
    }
}

/// Uppercases one character: a lowercase ASCII letter is shifted to its
/// uppercase form, anything else is returned unchanged.
pub fn upper_char(c: char) -> (u: char)
    ensures
        u == spec_upper(c),
{
    if 'a' <= c && c <= 'z' {
        let shifted = ((c as u8) - 32) as char;
        proof {
            assert(97 <= c as u32 <= 122);
            assert(shifted as u32 == (c as u32) - 32);
        }
        shifted
    } else {
        c
    }
}

/// Uppercases a word character by character.
pub fn upper_word(w: &str) -> (u: String)
    ensures
        u@ == spec_upper_word(w@),
{
    let n = w.unicode_len();
    let mut out = String::new();
    let mut j: usize = 0;
    while j < n
        invariant
            n == w@.len(),
            0 <= j <= n,
            out@ == w@.take(j as int).map_values(|c: char| spec_upper(c)),
        decreases n - j,
    {
        let c = upper_char(w.get_char(j));
        out = out.concat(char_to_str(c).as_str());
        proof {
            assert(w@.take(j + 1).map_values(|c: char| spec_upper(c)) =~= w@.take(
                j as int,
            ).map_values(|c: char| spec_upper(c)).push(spec_upper(w@[j as int])));
        }
        j += 1;
    }
    proof {
        assert(w@.take(n as int) =~= w@);
    }
    out
}

/// Builds a one-character string.
///
/// Relies on `String::from` for `char`, which the standard library
/// documents as allocating a string holding that one character.
#[verifier::external_body]
pub(crate) fn char_to_str(c: char) -> (s: String)
    ensures
        s@ == seq![c],
{
    String::from(c)
}

} // verus!
