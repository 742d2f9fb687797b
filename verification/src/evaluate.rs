//! The guess evaluator: compares a five-letter guess against the secret
//! word, position by position.

use vstd::prelude::*;
use vstd::string::StrSliceExecFns;

use crate::status::{LetterStatus, Spot};

verus! {

broadcast use vstd::array::group_array_axioms;

/// The number of letters in a playable word.
pub const WORD_LEN: usize = 5;

/// The status the evaluator assigns to position `i`: Correct where the
/// guess letter stands in the secret at the same position, Incorrect
/// where the secret holds it elsewhere, NotInWord otherwise. The check
/// is containment only, not frequency-aware: a repeated guess letter
/// that the secret holds once is marked Incorrect at every occurrence.
pub open spec fn spec_status_at(guess: Seq<char>, secret: Seq<char>, i: int) -> LetterStatus {
    if guess[i] == secret[i] {
        LetterStatus::Correct
    } else if secret.contains(guess[i]) {
        LetterStatus::Incorrect
    } else {
        LetterStatus::NotInWord
    }
}

/// The spot the evaluator produces at position `i`: the guess letter
/// there, with the status it is assigned.
pub open spec fn spec_spot_at(guess: Seq<char>, secret: Seq<char>, i: int) -> Spot {
    Spot { letter: guess[i], status: spec_status_at(guess, secret, i) }
}

/// The full evaluation of a guess: one spot per position, each holding
/// the guess letter there and the status the evaluator assigns to it.
pub open spec fn spec_spots(guess: Seq<char>, secret: Seq<char>) -> Seq<Spot> {
    Seq::new(5, |i: int| spec_spot_at(guess, secret, i))
}

/// Whether `s` holds the character `c`.
pub fn str_contains_char(s: &str, c: char) -> (present: bool)
    ensures
        present == s@.contains(c),
{
    let n = s.unicode_len();
    let mut j: usize = 0;
    while j < n
        invariant
            n == s@.len(),
            0 <= j <= n,
            forall|k: int| 0 <= k < j ==> s@[k] != c,
        decreases n - j,
    {
        if s.get_char(j) == c {
            assert(s@.contains(c));
            return true;
        }
        j += 1;
    }
    assert(forall|k: int| 0 <= k < s@.len() ==> s@[k] != c);
    false
}

/// Builds the spot for one position of the guess.
fn spot_at(guess: &str, secret: &str, i: usize) -> (spot: Spot)
    requires
        guess@.len() == WORD_LEN,
        secret@.len() == WORD_LEN,
        i < WORD_LEN,
    ensures
        spot.letter == guess@[i as int],
        spot.status == spec_status_at(guess@, secret@, i as int),
{
    let letter = guess.get_char(i);
    if letter == secret.get_char(i) {
        Spot::correct(letter)
    } else if str_contains_char(secret, letter) {
        Spot::incorrect(letter)
    } else {
        Spot::not_in_word(letter)
    }
}

/// Evaluates a five-letter guess against the secret word and returns one
/// spot per position.
///
/// A position is Correct exactly when guess and secret agree there; of
/// the disagreeing positions, those whose letter the secret holds
/// somewhere are Incorrect, and the rest are NotInWord.
pub fn get_spots(guess: &str, secret: &str) -> (spots: [Spot; 5])
    requires
        guess@.len() == WORD_LEN,
        secret@.len() == WORD_LEN,
    ensures
        spots@ == spec_spots(guess@, secret@),
        forall|i: int| 0 <= i < WORD_LEN ==> spots@[i].letter == guess@[i],
        forall|i: int|
            0 <= i < WORD_LEN ==> spots@[i].status == spec_status_at(guess@, secret@, i),
        forall|i: int|
            0 <= i < WORD_LEN
                ==> (spots@[i].status == LetterStatus::Correct <==> guess@[i] == secret@[i]),
        forall|i: int|
            0 <= i < WORD_LEN
                ==> (spots@[i].status == LetterStatus::Incorrect <==> (guess@[i] != secret@[i]
                && secret@.contains(guess@[i]))),
        forall|i: int|
            0 <= i < WORD_LEN
                ==> (spots@[i].status == LetterStatus::NotInWord <==> (guess@[i] != secret@[i]
                && !secret@.contains(guess@[i]))),
{
    let s0 = spot_at(guess, secret, 0);
    let s1 = spot_at(guess, secret, 1);
    let s2 = spot_at(guess, secret, 2);
    let s3 = spot_at(guess, secret, 3);
    let s4 = spot_at(guess, secret, 4);
    let spots = [s0, s1, s2, s3, s4];
    proof {
        let expected = spec_spots(guess@, secret@);
        assert(spots@[0] == expected[0]);
        assert(spots@[1] == expected[1]);
        assert(spots@[2] == expected[2]);
        assert(spots@[3] == expected[3]);
        assert(spots@[4] == expected[4]);
        assert(spots@ =~= expected);
    }
    spots
}

} // verus!
