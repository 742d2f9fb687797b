//! Word lists: the allow-list of valid guesses and the selection of the
//! session's secret word.

use vstd::prelude::*;
use vstd::string::StringExecFns;

use crate::letters::{spec_upper_word, upper_word};

verus! {

/// Whether the list holds a word whose characters are `w`.
pub open spec fn list_contains(list: Seq<String>, w: Seq<char>) -> bool {
    exists|i: int| 0 <= i < list.len() && list[i]@ == w
}

/// Whether the list holds `w`, by linear search.
pub fn contains_word(list: &Vec<String>, w: &String) -> (present: bool)
    ensures
        present == list_contains(list@, w@),
{
    let mut i: usize = 0;
    while i < list.len()
        invariant
            0 <= i <= list@.len(),
            forall|k: int| 0 <= k < i ==> list@[k]@ != w@,
        decreases list@.len() - i,
    {
        if list[i].eq(w) {
            assert(list_contains(list@, w@));
            return true;
        }
        i += 1;
    }
    false
}

/// The allow-list of a session: every configured guess and every word of
/// the full word list, each uppercased, so that any secret word is
/// always itself a valid guess.
pub open spec fn spec_allow_list(guesses: Seq<String>, words: Seq<String>) -> Seq<Seq<char>> {
    (guesses + words).map_values(|w: String| spec_upper_word(w@))
}

/// Builds the allow-list: the configured guesses unioned with the full
/// word list, all uppercased.
pub fn build_allow_list(guesses: &Vec<String>, words: &Vec<String>) -> (allow: Vec<String>)
    ensures
        allow@.map_values(|w: String| w@) == spec_allow_list(guesses@, words@),
        allow@.len() == guesses@.len() + words@.len(),
{
    let mut allow: Vec<String> = Vec::new();
    let mut i: usize = 0;
    while i < guesses.len()
        invariant
            0 <= i <= guesses@.len(),
            allow@.len() == i,
            forall|k: int| 0 <= k < i ==> allow@[k]@ == spec_upper_word(guesses@[k]@),
        decreases guesses@.len() - i,
    {
        allow.push(upper_word(guesses[i].as_str()));
        i += 1;
    }
    let mut j: usize = 0;
    while j < words.len()
        invariant
            0 <= j <= words@.len(),
            allow@.len() == guesses@.len() + j,
            forall|k: int| 0 <= k < guesses@.len() ==> allow@[k]@ == spec_upper_word(guesses@[k]@),
            forall|k: int|
                0 <= k < j ==> allow@[guesses@.len() + k]@ == spec_upper_word(words@[k]@),
        decreases words@.len() - j,
    {
        allow.push(upper_word(words[j].as_str()));
        j += 1;
    }
    proof {
        assert(allow@.map_values(|w: String| w@) =~= spec_allow_list(guesses@, words@));
    }
    allow
}

/// Picks the session's secret word: the word at the session index,
/// uppercased. Returns `None` exactly when the index is past the end of
/// the list, which means every available word has been used.
pub fn select_secret(words: &Vec<String>, index: usize) -> (secret: Option<String>)
    ensures
        match secret {
            Some(w) => index < words@.len() && w@ == spec_upper_word(words@[index as int]@),
            None => index >= words@.len(),
        },
{
    if index < words.len() {
        Some(upper_word(words[index].as_str()))
    } else {
        None
    }
}

} // verus!
