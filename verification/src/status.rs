//! Per-letter feedback statuses and the monotonic merge rule used for
//! the alphabet-wide summary.

use vstd::prelude::*;

verus! {

/// Feedback for one letter of a guess: right letter in the right place,
/// right letter in the wrong place, or a letter the secret does not hold.
#[derive(Copy, Clone, Debug, PartialEq, Eq, Structural)]
pub enum LetterStatus {
    Correct,
    Incorrect,
    NotInWord,
}

/// One board position of a guess: a letter together with its status.
#[derive(Copy, Clone, Debug, PartialEq, Eq, Structural)]
pub struct Spot {
    pub letter: char,
    pub status: LetterStatus,
}

impl Default for Spot {
    /// A placeholder spot: the NUL character, marked as not in the word.
    fn default() -> (s: Spot)
        ensures
            s.letter == '\0',
            s.status == LetterStatus::NotInWord,
    {
        Spot { letter: '\0', status: LetterStatus::NotInWord }
    }
}

impl Spot {
    /// A spot for a letter standing at its position in the secret word.
    pub fn correct(letter: char) -> (s: Spot)
        ensures
            s == (Spot { letter, status: LetterStatus::Correct }),
    {
        Spot { letter, status: LetterStatus::Correct }
    }

    /// A spot for a letter present in the secret word at another position.
    pub fn incorrect(letter: char) -> (s: Spot)
        ensures
            s == (Spot { letter, status: LetterStatus::Incorrect }),
    {
        Spot { letter, status: LetterStatus::Incorrect }
    }

    /// A spot for a letter absent from the secret word.
    pub fn not_in_word(letter: char) -> (s: Spot)
        ensures
            s == (Spot { letter, status: LetterStatus::NotInWord }),
    {
        Spot { letter, status: LetterStatus::NotInWord }
    }
}

/// Display precedence of a status: Correct > Incorrect > NotInWord.
pub open spec fn status_rank(s: LetterStatus) -> int {
    match s {
        LetterStatus::Correct => 2,
        LetterStatus::Incorrect => 1,
        LetterStatus::NotInWord => 0,
    }
}

/// The best-known status of a letter after one more observation: an
/// observation upgrades the summary entry but never downgrades it.
pub open spec fn spec_merge(prior: Option<LetterStatus>, seen: LetterStatus) -> LetterStatus {
    match prior {
        Option::None => seen,
        Option::Some(p) => if status_rank(p) >= status_rank(seen) {
            p
        } else {
            seen
        },
    }
}

/// Merges a newly seen status into a letter's summary entry, keeping
/// whichever of the two ranks higher.
pub fn merge_status(prior: Option<LetterStatus>, seen: LetterStatus) -> (merged: LetterStatus)
    ensures
        merged == spec_merge(prior, seen),
{
    match prior {
        Option::None => seen,
        Option::Some(p) => {
            if rank(p) >= rank(seen) {
                p
            } else {
                seen
            }
        },
    }
}

/// Computes the display precedence of a status.
pub fn rank(s: LetterStatus) -> (r: u8)
    ensures
        r as int == status_rank(s),
{
    match s {
        LetterStatus::Correct => 2,
        LetterStatus::Incorrect => 1,
        LetterStatus::NotInWord => 0,
    }
}

/// Merging the same status into a summary entry twice gives the same
/// entry as merging it once.
pub proof fn lemma_merge_idempotent(prior: Option<LetterStatus>, seen: LetterStatus)
    ensures
        spec_merge(Some(spec_merge(prior, seen)), seen) == spec_merge(prior, seen),
{
}

/// Once a letter's summary entry is Correct, no later observation can
/// change it: a merge never downgrades a Correct entry.
pub proof fn lemma_merge_keeps_correct(seen: LetterStatus)
    ensures
        spec_merge(Some(LetterStatus::Correct), seen) == LetterStatus::Correct,
{
}

/// A merge never lowers the rank of a letter's summary entry.
pub proof fn lemma_merge_monotonic(prior: LetterStatus, seen: LetterStatus)
    ensures
        status_rank(spec_merge(Some(prior), seen)) >= status_rank(prior),
{
}

} // verus!
