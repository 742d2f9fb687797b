use wordle_cli::game::{translate, Action, App, Command, GameStatus, KeyInput};
use wordle_cli::letters::letter_to_index;
use wordle_cli::status::LetterStatus;

fn allow(words: &[&str]) -> Vec<String> {
    words.iter().map(|w| w.to_string()).collect()
}

fn type_word(app: &mut App, word: &str) {
    for c in word.chars() {
        app.type_char(c);
    }
}

fn new_crane_app() -> App {
    App::new(
        "CRANE".to_string(),
        allow(&["CRANE", "SLATE", "CRATE", "NACRE", "TACOS", "CHILL", "EERIE"]),
        0,
    )
}

#[test]
fn typing_uppercases_and_caps_at_five() {
    let mut app = new_crane_app();
    type_word(&mut app, "crane");
    assert_eq!(app.input, "CRANE");
    app.type_char('x');
    assert_eq!(app.input, "CRANE", "a sixth character is ignored");
}

#[test]
fn backspace_removes_last_and_ignores_empty() {
    let mut app = new_crane_app();
    app.backspace();
    assert_eq!(app.input, "");
    type_word(&mut app, "AB");
    app.backspace();
    assert_eq!(app.input, "A");
    app.backspace();
    app.backspace();
    assert_eq!(app.input, "");
}

#[test]
fn short_input_is_rejected() {
    // Submitting "CAT" leaves the game unchanged but sets a message.
    let mut app = new_crane_app();
    type_word(&mut app, "CAT");
    app.submit();
    assert_eq!(app.guesses.len(), 0);
    assert_eq!(app.attempts, 0);
    assert_eq!(app.status, GameStatus::InProgress);
    assert_eq!(app.message.as_deref(), Some("Not a valid five letter word. Try again... "));
}

#[test]
fn word_outside_allow_list_is_rejected() {
    let mut app = App::new("CRANE".to_string(), allow(&["CRANE", "SLATE"]), 0);
    type_word(&mut app, "ZZZZZ");
    app.submit();
    assert_eq!(app.guesses.len(), 0);
    assert_eq!(app.attempts, 0);
    assert_eq!(app.status, GameStatus::InProgress);
    assert!(app.message.is_some());
}

#[test]
fn accepted_guess_clears_input_and_message() {
    let mut app = new_crane_app();
    type_word(&mut app, "CAT");
    app.submit();
    assert!(app.message.is_some());
    type_word(&mut app, "TE");
    assert_eq!(app.input, "CATTE");
    app.backspace();
    app.backspace();
    app.backspace();
    app.backspace();
    assert_eq!(app.input, "C");
    type_word(&mut app, "RATE");
    assert_eq!(app.input, "CRATE");
    app.submit();
    assert!(app.message.is_none());
    assert_eq!(app.input, "");
    assert_eq!(app.attempts, 1);
    assert_eq!(app.guesses.len(), 1);
}

#[test]
fn six_misses_lose_and_a_seventh_submit_is_a_no_op() {
    let mut app = new_crane_app();
    for round in 1..=6 {
        type_word(&mut app, "SLATE");
        app.submit();
        assert_eq!(app.attempts, round);
    }
    assert_eq!(app.status, GameStatus::Lost);
    assert_eq!(app.attempts, 6);

    // A further submit changes nothing.
    let guesses_before = app.guesses.clone();
    app.submit();
    assert_eq!(app.status, GameStatus::Lost);
    assert_eq!(app.attempts, 6);
    assert_eq!(app.guesses, guesses_before);

    // Typing is ignored in a terminal phase too.
    app.type_char('a');
    assert_eq!(app.input, "");
}

#[test]
fn matching_guess_on_third_attempt_wins() {
    let mut app = new_crane_app();
    type_word(&mut app, "SLATE");
    app.submit();
    type_word(&mut app, "CRATE");
    app.submit();
    assert_eq!(app.status, GameStatus::InProgress);
    type_word(&mut app, "CRANE");
    app.submit();
    assert_eq!(app.status, GameStatus::Won);
    assert_eq!(app.attempts, 3);
    assert_eq!(app.guesses.len(), 3);
}

#[test]
fn alphabet_summary_merges_guess_statuses() {
    let mut app = new_crane_app();
    type_word(&mut app, "SLATE");
    app.submit();
    let a = letter_to_index('A').unwrap();
    let s = letter_to_index('S').unwrap();
    let e = letter_to_index('E').unwrap();
    assert_eq!(app.alphabet_statuses[a], Some(LetterStatus::Correct));
    assert_eq!(app.alphabet_statuses[s], Some(LetterStatus::NotInWord));
    assert_eq!(app.alphabet_statuses[e], Some(LetterStatus::Correct));
    let q = letter_to_index('Q').unwrap();
    assert_eq!(app.alphabet_statuses[q], None);
}

#[test]
fn correct_summary_entry_is_never_downgraded() {
    // CHILL marks C Correct; TACOS then sees C misplaced, but the
    // summary keeps the better status.
    let mut app = new_crane_app();
    type_word(&mut app, "CHILL");
    app.submit();
    let c = letter_to_index('C').unwrap();
    assert_eq!(app.alphabet_statuses[c], Some(LetterStatus::Correct));
    type_word(&mut app, "TACOS");
    app.submit();
    assert_eq!(app.alphabet_statuses[c], Some(LetterStatus::Correct));
}

#[test]
fn translate_maps_keys_to_commands() {
    assert_eq!(translate(KeyInput::Char('a'), false), Command::TypeChar('a'));
    assert_eq!(translate(KeyInput::Enter, false), Command::Submit);
    assert_eq!(translate(KeyInput::Backspace, false), Command::Backspace);
    assert_eq!(translate(KeyInput::Esc, false), Command::Quit);
    assert_eq!(translate(KeyInput::Other, false), Command::Ignore);
    // In a terminal phase only `c` copies; any other key ends the
    // session.
    assert_eq!(translate(KeyInput::Char('c'), true), Command::Copy);
    assert_eq!(translate(KeyInput::Char('x'), true), Command::Quit);
    assert_eq!(translate(KeyInput::Enter, true), Command::Quit);
}

#[test]
fn apply_command_drives_a_whole_session() {
    let mut app = new_crane_app();
    for c in "CRANE".chars() {
        let action = app.apply_command(Command::TypeChar(c));
        assert_eq!(action, Action::Continue);
    }
    let action = app.apply_command(Command::Submit);
    assert_eq!(action, Action::Continue);
    assert_eq!(app.status, GameStatus::Won);
    assert!(app.terminal());

    let action = app.apply_command(Command::Copy);
    assert_eq!(action, Action::CopyResult);
    let action = app.apply_command(Command::Quit);
    assert_eq!(action, Action::Exit);
}

#[test]
fn copy_before_the_end_is_ignored() {
    let mut app = new_crane_app();
    let action = app.apply_command(Command::Copy);
    assert_eq!(action, Action::Continue);
    assert_eq!(app.status, GameStatus::InProgress);
}

#[test]
fn winning_on_the_sixth_attempt_is_a_win() {
    let mut app = new_crane_app();
    for _ in 0..5 {
        type_word(&mut app, "SLATE");
        app.submit();
    }
    assert_eq!(app.status, GameStatus::InProgress);
    type_word(&mut app, "CRANE");
    app.submit();
    assert_eq!(app.status, GameStatus::Won);
    assert_eq!(app.attempts, 6);
}
