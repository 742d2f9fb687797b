//! The persistent record kept between sessions: which word to play
//! next, and optional overrides for the word and allow-list sources.
//!
//! Reading and writing the record on disk is the surrounding program's
//! work; this type only carries the values.

use vstd::prelude::*;

verus! {

/// The persistent state of the player: the index of the next secret
/// word, and optional paths to replacement word lists.
#[derive(Clone, Debug)]
pub struct Data {
    /// The index of the next word to play in the word list.
    pub index: usize,
    /// A path to a replacement word list, if one was configured.
    pub words_path: Option<String>,
    /// A path to a replacement allow-list, if one was configured.
    pub allowed_guesses_path: Option<String>,
}

impl Default for Data {
    /// A fresh record: play from the start of the built-in lists.
    fn default() -> (d: Data)
        ensures
            d.index == 0,
            d.words_path is None,
            d.allowed_guesses_path is None,
    {
        Data { index: 0, words_path: None, allowed_guesses_path: None }
    }
}

impl Data {
    /// Points the record back at the first word, keeping the list
    /// overrides.
    pub fn reset(&mut self)
        ensures
            final (self).index == 0,
            final (self).words_path == old(self).words_path,
            final (self).allowed_guesses_path == old(self).allowed_guesses_path,
    {
        self.index = 0;
    }

    /// Moves the record to the next word, keeping the list overrides.
    /// The index saturates at the largest representable value rather
    /// than wrapping.
    pub fn advance(&mut self)
        ensures
            final (self).index == (if old(self).index < usize::MAX {
                old(self).index + 1
            } else {
                old(self).index as int
            }),
            final (self).words_path == old(self).words_path,
            final (self).allowed_guesses_path == old(self).allowed_guesses_path,
    {
        if self.index < usize::MAX {
            self.index = self.index + 1;
        }
    }
}

} // verus!
