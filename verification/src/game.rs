//! The game state machine: the session state, the commands that drive
//! it, and the submit transition that evaluates a guess.

use vstd::prelude::*;
use vstd::string::StrSliceExecFns;
use vstd::string::StringExecFns;

use crate::evaluate::{get_spots, spec_spots, WORD_LEN};
use crate::letters::{
    char_to_str,
    is_lower_letter,
    is_upper_letter,
    letter_to_index,
    spec_letter_index,
    spec_upper,
    upper_char,
    ALPHABET_LEN,
};
use crate::status::{merge_status, spec_merge, LetterStatus, Spot};
use crate::summary::{result_lines, result_text, spec_header, spec_result_text, spec_row};
use crate::words::{contains_word, list_contains};

verus! {

broadcast use vstd::array::group_array_axioms;

/// The number of attempts a session allows.
pub const MAX_ATTEMPTS: usize = 6;

/// The phase of a session: still guessing, secret found, or attempts
/// exhausted.
#[derive(Copy, Clone, Debug, PartialEq, Eq, Structural)]
pub enum GameStatus {
    InProgress,
    Won,
    Lost,
}

/// A command the player can give the state machine.
#[derive(Copy, Clone, Debug, PartialEq, Eq, Structural)]
pub enum Command {
    TypeChar(char),
    Backspace,
    Submit,
    Quit,
    Copy,
    Ignore,
}

/// A key event, reduced to what the game distinguishes.
#[derive(Copy, Clone, Debug, PartialEq, Eq, Structural)]
pub enum KeyInput {
    Char(char),
    Enter,
    Backspace,
    Esc,
    Other,
}

/// What the surrounding program must do after a command was applied:
/// keep reading events, end the session, or place the shared result on
/// the clipboard.
#[derive(Copy, Clone, Debug, PartialEq, Eq, Structural)]
pub enum Action {
    Continue,
    Exit,
    CopyResult,
}

/// The command a key stands for. While the game is in progress, typing,
/// backspace, enter and escape drive the board; in a terminal phase the
/// letter `c` asks for the result to be copied and any other key ends
/// the session.
pub open spec fn spec_translate(key: KeyInput, terminal: bool) -> Command {
    if terminal {
        match key {
            KeyInput::Char(c) => if c == 'c' {
                Command::Copy
            } else {
                Command::Quit
            },
            _ => Command::Quit,
        }
    } else {
        match key {
            KeyInput::Char(c) => Command::TypeChar(c),
            KeyInput::Enter => Command::Submit,
            KeyInput::Backspace => Command::Backspace,
            KeyInput::Esc => Command::Quit,
            KeyInput::Other => Command::Ignore,
        }
    }
}

/// Translates a key event into a command, given whether the session is
/// in a terminal phase.
pub fn translate(key: KeyInput, terminal: bool) -> (cmd: Command)
    ensures
        cmd == spec_translate(key, terminal),
{
    if terminal {
        match key {
            KeyInput::Char(c) => if c == 'c' {
                Command::Copy
            } else {
                Command::Quit
            },
            _ => Command::Quit,
        }
    } else {
        match key {
            KeyInput::Char(c) => Command::TypeChar(c),
            KeyInput::Enter => Command::Submit,
            KeyInput::Backspace => Command::Backspace,
            KeyInput::Esc => Command::Quit,
            KeyInput::Other => Command::Ignore,
        }
    }
}

/// The message shown when a submitted input is not a valid guess.
pub open spec fn invalid_guess_message() -> Seq<char> {
    "Not a valid five letter word. Try again... "@
}

/// The alphabet summary after the first `k` spots of a guess were
/// merged in: each spot upgrades the entry of its letter, and a spot
/// whose character is not an English letter changes nothing.
pub open spec fn spec_merge_spots(
    summary: Seq<Option<LetterStatus>>,
    spots: Seq<Spot>,
    k: int,
) -> Seq<Option<LetterStatus>>
    decreases k,
{
    if k <= 0 {
        summary
    } else {
        let prev = spec_merge_spots(summary, spots, k - 1);
        let sp = spots[k - 1];
        if is_upper_letter(sp.letter) || is_lower_letter(sp.letter) {
            let idx = spec_letter_index(sp.letter);
            prev.update(idx, Some(spec_merge(prev[idx], sp.status)))
        } else {
            prev
        }
    }
}

/// Merging spots never changes how many entries the summary has.
pub proof fn lemma_merge_spots_len(summary: Seq<Option<LetterStatus>>, spots: Seq<Spot>, k: int)
    requires
        summary.len() == ALPHABET_LEN,
    ensures
        spec_merge_spots(summary, spots, k).len() == summary.len(),
    decreases k,
{
    if k > 0 {
        lemma_merge_spots_len(summary, spots, k - 1);
        let sp = spots[k - 1];
        if is_upper_letter(sp.letter) || is_lower_letter(sp.letter) {
            assert(0 <= spec_letter_index(sp.letter) < ALPHABET_LEN);
        }
    }
}

/// Once a letter's summary entry is Correct, merging any spots leaves
/// it Correct: no guess can downgrade a letter already known to stand
/// in its place.
pub proof fn lemma_merge_spots_keeps_correct(
    summary: Seq<Option<LetterStatus>>,
    spots: Seq<Spot>,
    k: int,
    j: int,
)
    requires
        summary.len() == ALPHABET_LEN,
        0 <= j < summary.len(),
        summary[j] == Some(LetterStatus::Correct),
    ensures
        spec_merge_spots(summary, spots, k)[j] == Some(LetterStatus::Correct),
    decreases k,
{
    if k > 0 {
        lemma_merge_spots_keeps_correct(summary, spots, k - 1, j);
        lemma_merge_spots_len(summary, spots, k - 1);
        let sp = spots[k - 1];
        if is_upper_letter(sp.letter) || is_lower_letter(sp.letter) {
            assert(0 <= spec_letter_index(sp.letter) < ALPHABET_LEN);
        }
    }
}

/// The state of one game session.
pub struct App {
    /// The input buffer being typed, at most five characters.
    pub input: String,
    /// A transient, user-visible rejection message.
    pub message: Option<String>,
    /// The evaluated guesses so far, in play order.
    pub guesses: Vec<[Spot; 5]>,
    /// The best-known status of each letter A–Z, by alphabet index.
    pub alphabet_statuses: [Option<LetterStatus>; 26],
    /// How many guesses were submitted and accepted.
    pub attempts: usize,
    /// The secret word: five uppercase letters, fixed for the session.
    pub word: String,
    /// The words accepted as guesses.
    pub allowed_guesses: Vec<String>,
    /// The session index, used only for the result header.
    pub index: usize,
    /// The phase of the session.
    pub status: GameStatus,
}

impl App {
    /// The structural invariant of a session.
    pub open spec fn wf(self) -> bool {
        &&& self.word@.len() == WORD_LEN
        &&& self.attempts == self.guesses@.len()
        &&& self.guesses@.len() <= MAX_ATTEMPTS
        &&& self.input@.len() <= WORD_LEN
        &&& (self.status == GameStatus::InProgress ==> self.guesses@.len() < MAX_ATTEMPTS)
        &&& self.index < usize::MAX
    }

    /// Whether the session has ended, by a win or by running out of
    /// attempts.
    pub open spec fn spec_terminal(self) -> bool {
        self.status != GameStatus::InProgress
    }

    /// Whether the current input buffer would be accepted by a submit:
    /// exactly five characters, and present in the allow-list.
    pub open spec fn spec_input_valid(self) -> bool {
        self.input@.len() == WORD_LEN && list_contains(self.allowed_guesses@, self.input@)
    }

    /// Starts a session on the given secret word, allow-list and
    /// session index: empty input, no guesses, every letter unknown.
    pub fn new(word: String, allowed_guesses: Vec<String>, index: usize) -> (app: App)
        requires
            word@.len() == WORD_LEN,
            index < usize::MAX,
        ensures
            app.wf(),
            app.input@ == Seq::<char>::empty(),
            app.message is None,
            app.guesses@ == Seq::<[Spot; 5]>::empty(),
            forall|j: int| 0 <= j < ALPHABET_LEN ==> app.alphabet_statuses@[j] is None,
            app.attempts == 0,
            app.word == word,
            app.allowed_guesses == allowed_guesses,
            app.index == index,
            app.status == GameStatus::InProgress,
    {
        App {
            input: String::new(),
            message: None,
            guesses: Vec::new(),
            alphabet_statuses: [None;26],
            attempts: 0,
            word,
            allowed_guesses,
            index,
            status: GameStatus::InProgress,
        }
    }

    /// Reports whether the session has ended.
    pub fn terminal(&self) -> (t: bool)
        ensures
            t == self.spec_terminal(),
    {
        !matches!(self.status, GameStatus::InProgress)
    }
}

/// Whether two session states agree on everything but the input buffer.
pub open spec fn same_except_input(pre: App, post: App) -> bool {
    &&& post.message == pre.message
    &&& post.guesses == pre.guesses
    &&& post.alphabet_statuses == pre.alphabet_statuses
    &&& post.attempts == pre.attempts
    &&& post.word == pre.word
    &&& post.allowed_guesses == pre.allowed_guesses
    &&& post.index == pre.index
    &&& post.status == pre.status
}

/// Whether two session states agree on everything but the alphabet
/// summary.
pub open spec fn same_except_summary(pre: App, post: App) -> bool {
    &&& post.input == pre.input
    &&& post.message == pre.message
    &&& post.guesses == pre.guesses
    &&& post.attempts == pre.attempts
    &&& post.word == pre.word
    &&& post.allowed_guesses == pre.allowed_guesses
    &&& post.index == pre.index
    &&& post.status == pre.status
}

/// Whether two session states agree on everything but the message.
pub open spec fn same_except_message(pre: App, post: App) -> bool {
    &&& post.input == pre.input
    &&& post.guesses == pre.guesses
    &&& post.alphabet_statuses == pre.alphabet_statuses
    &&& post.attempts == pre.attempts
    &&& post.word == pre.word
    &&& post.allowed_guesses == pre.allowed_guesses
    &&& post.index == pre.index
    &&& post.status == pre.status
}

/// What typing one character does: while the game is in progress and
/// the buffer is shorter than a word, the character is uppercased and
/// appended; otherwise nothing changes.
pub open spec fn spec_type_char_post(pre: App, post: App, c: char) -> bool {
    if pre.status == GameStatus::InProgress && pre.input@.len() < WORD_LEN {
        same_except_input(pre, post) && post.input@ == pre.input@.push(spec_upper(c))
    } else {
        post == pre
    }
}

/// What backspace does: while the game is in progress and the buffer is
/// not empty, its last character is removed; otherwise nothing changes.
pub open spec fn spec_backspace_post(pre: App, post: App) -> bool {
    if pre.status == GameStatus::InProgress && pre.input@.len() > 0 {
        same_except_input(pre, post) && post.input@ == pre.input@.drop_last()
    } else {
        post == pre
    }
}

/// What submit does. Outside the in-progress phase it is a no-op. An
/// input of the wrong length or outside the allow-list is rejected:
/// only the message changes, to the rejection text. A valid input is
/// evaluated against the secret: the spots are appended to the guess
/// history, the attempt count grows by one, the buffer and message are
/// cleared, every spot upgrades its letter's summary entry, and the
/// phase becomes Won on a match, Lost on the sixth miss, and stays
/// InProgress otherwise.
pub open spec fn spec_submit_post(pre: App, post: App) -> bool {
    if pre.status != GameStatus::InProgress {
        post == pre
    } else if !pre.spec_input_valid() {
        &&& same_except_message(pre, post)
        &&& match post.message {
            Some(m) => m@ == invalid_guess_message(),
            None => false,
        }
    } else {
        let spots = spec_spots(pre.input@, pre.word@);
        &&& post.word == pre.word
        &&& post.allowed_guesses == pre.allowed_guesses
        &&& post.index == pre.index
        &&& post.message is None
        &&& post.input@ == Seq::<char>::empty()
        &&& post.guesses@.len() == pre.guesses@.len() + 1
        &&& forall|k: int| 0 <= k < pre.guesses@.len() ==> post.guesses@[k] == pre.guesses@[k]
        &&& post.guesses@.last()@ == spots
        &&& post.attempts == pre.attempts + 1
        &&& post.alphabet_statuses@ == spec_merge_spots(
            pre.alphabet_statuses@,
            spots,
            WORD_LEN as int,
        )
        &&& post.status == (if pre.input@ == pre.word@ {
            GameStatus::Won
        } else if pre.attempts + 1 == MAX_ATTEMPTS {
            GameStatus::Lost
        } else {
            GameStatus::InProgress
        })
    }
}

impl App {
    /// Appends an uppercased character to the input buffer, if the game
    /// is in progress and the buffer has room.
    pub fn type_char(&mut self, c: char)
        requires
            old(self).wf(),
        ensures
            final (self).wf(),
            spec_type_char_post(*old(self), *final (self), c),
    {
        if matches!(self.status, GameStatus::InProgress) && self.input.as_str().unicode_len()
            < WORD_LEN {
            let up = upper_char(c);
            let one = char_to_str(up);
            self.input.append(one.as_str());
            proof {
                assert(self.input@ =~= old(self).input@.push(spec_upper(c)));
            }
        }
    }

    /// Removes the last character of the input buffer, if the game is
    /// in progress and the buffer is not empty.
    pub fn backspace(&mut self)
        requires
            old(self).wf(),
        ensures
            final (self).wf(),
            spec_backspace_post(*old(self), *final (self)),
    {
        let n = self.input.as_str().unicode_len();
        if matches!(self.status, GameStatus::InProgress) && n > 0 {
            let shorter = self.input.as_str().substring_char(0, n - 1).to_owned();
            self.input = shorter;
            proof {
                assert(self.input@ =~= old(self).input@.drop_last());
            }
        }
    }

    /// Submits the input buffer as a guess.
    ///
    /// Beyond the full transition relation, the contract states the
    /// summary's monotonicity directly: a letter whose entry was
    /// Correct before the call still has a Correct entry after it.
    pub fn submit(&mut self)
        requires
            old(self).wf(),
        ensures
            final (self).wf(),
            spec_submit_post(*old(self), *final (self)),
            forall|j: int|
                0 <= j < ALPHABET_LEN && old(self).alphabet_statuses@[j] == Some(
                    LetterStatus::Correct,
                ) ==> final (self).alphabet_statuses@[j] == Some(LetterStatus::Correct),
    {
        if !matches!(self.status, GameStatus::InProgress) {
            return ;
        }
        if self.input.as_str().unicode_len() != WORD_LEN || !contains_word(
            &self.allowed_guesses,
            &self.input,
        ) {
            self.message = Some(String::from_str("Not a valid five letter word. Try again... "));
            return ;
        }
        self.message = None;

        let spots = get_spots(self.input.as_str(), self.word.as_str());
        self.guesses.push(spots);
        self.attempts = self.attempts + 1;

        let is_win = self.input.eq(&self.word);

        let ghost pre_summary = self.alphabet_statuses@;
        let ghost pre_loop = *self;
        let mut k: usize = 0;
        while k < WORD_LEN
            invariant
                0 <= k <= WORD_LEN,
                spots@.len() == WORD_LEN,
                self.alphabet_statuses@ == spec_merge_spots(pre_summary, spots@, k as int),
                same_except_summary(pre_loop, *self),
            decreases WORD_LEN - k,
        {
            let sp = spots[k];
            if let Some(idx) = letter_to_index(sp.letter) {
                let merged = merge_status(self.alphabet_statuses[idx], sp.status);
                self.alphabet_statuses[idx] = Some(merged);
            }
            k += 1;
        }

        self.input = String::new();

        if is_win {
            self.status = GameStatus::Won;
        } else if self.attempts == MAX_ATTEMPTS {
            self.status = GameStatus::Lost;
        }

        proof {
            assert forall|j: int|
                0 <= j < ALPHABET_LEN && old(self).alphabet_statuses@[j] == Some(
                    LetterStatus::Correct,
                ) implies self.alphabet_statuses@[j] == Some(LetterStatus::Correct) by {
                lemma_merge_spots_keeps_correct(pre_summary, spots@, WORD_LEN as int, j);
            }
        }
    }

    /// Applies one translated command and says what the surrounding
    /// program must do next. Quit always ends the session; Copy, given
    /// only in a terminal phase, asks for the result to be copied; the
    /// editing and submit commands change the session as their
    /// transition relations state.
    pub fn apply_command(&mut self, cmd: Command) -> (action: Action)
        requires
            old(self).wf(),
        ensures
            final (self).wf(),
            match cmd {
                Command::TypeChar(c) => spec_type_char_post(*old(self), *final (self), c)
                    && action == Action::Continue,
                Command::Backspace => spec_backspace_post(*old(self), *final (self)) && action
                    == Action::Continue,
                Command::Submit => spec_submit_post(*old(self), *final (self)) && action
                    == Action::Continue,
                Command::Quit => *final (self) == *old(self) && action == Action::Exit,
                Command::Copy => *final (self) == *old(self) && action == (if old(
                    self,
                ).spec_terminal() {
                    Action::CopyResult
                } else {
                    Action::Continue
                }),
                Command::Ignore => *final (self) == *old(self) && action == Action::Continue,
            },
    {
        match cmd {
            Command::TypeChar(c) => {
                self.type_char(c);
                Action::Continue
            },
            Command::Backspace => {
                self.backspace();
                Action::Continue
            },
            Command::Submit => {
                self.submit();
                Action::Continue
            },
            Command::Quit => Action::Exit,
            Command::Copy => {
                if self.terminal() {
                    Action::CopyResult
                } else {
                    Action::Continue
                }
            },
            Command::Ignore => Action::Continue,
        }
    }

    /// The lines of the shared result for this session: the header,
    /// then one emoji row per guess.
    pub fn result_lines(&self) -> (lines: Vec<String>)
        requires
            self.wf(),
        ensures
            lines@.len() == 1 + self.guesses@.len(),
            lines@[0]@ == spec_header(self.index as nat, self.guesses@.len()),
            forall|k: int|
                0 <= k < self.guesses@.len() ==> lines@[k + 1]@ == spec_row(self.guesses@[k]@),
    {
        result_lines(self.index, &self.guesses)
    }

    /// The flat clipboard text of the shared result for this session.
    pub fn result_text(&self) -> (text: String)
        requires
            self.wf(),
        ensures
            text@ == spec_result_text(
                self.index as nat,
                self.guesses@.map_values(|g: [Spot; 5]| g@),
            ),
    {
        result_text(self.index, &self.guesses)
    }
}

} // verus!
