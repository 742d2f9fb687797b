use wordle_cli::evaluate::get_spots;
use wordle_cli::letters::{letter_to_index, upper_char, upper_word};
use wordle_cli::status::{merge_status, LetterStatus, Spot};

#[test]
fn correct_exactly_at_matching_positions() {
    // Every matching position is Correct, every other is not.
    let spots = get_spots("CRANE", "CRANE");
    for spot in spots.iter() {
        assert_eq!(spot.status, LetterStatus::Correct);
    }
    let spots = get_spots("SLATE", "CRANE");
    // S-L-A-T-E vs C-R-A-N-E: only positions 2 and 4 match.
    assert_eq!(spots[0].status, LetterStatus::NotInWord);
    assert_eq!(spots[1].status, LetterStatus::NotInWord);
    assert_eq!(spots[2].status, LetterStatus::Correct);
    assert_eq!(spots[3].status, LetterStatus::NotInWord);
    assert_eq!(spots[4].status, LetterStatus::Correct);
}

#[test]
fn misplaced_letters_are_incorrect() {
    // N-A-C-R-E vs C-R-A-N-E: every letter of the secret, all but the
    // last in the wrong place.
    let spots = get_spots("NACRE", "CRANE");
    assert_eq!(spots[0].status, LetterStatus::Incorrect);
    assert_eq!(spots[1].status, LetterStatus::Incorrect);
    assert_eq!(spots[2].status, LetterStatus::Incorrect);
    assert_eq!(spots[3].status, LetterStatus::Incorrect);
    assert_eq!(spots[4].status, LetterStatus::Correct);
}

#[test]
fn crate_against_crane_spots() {
    // Secret CRANE, guess CRATE: the secret holds no T, so position 3
    // is NotInWord; every other position stands correct.
    let spots = get_spots("CRATE", "CRANE");
    assert_eq!(spots[0], Spot::correct('C'));
    assert_eq!(spots[1], Spot::correct('R'));
    assert_eq!(spots[2], Spot::correct('A'));
    assert_eq!(spots[3], Spot::not_in_word('T'));
    assert_eq!(spots[4], Spot::correct('E'));
}

#[test]
fn repeated_guess_letter_marked_at_every_occurrence() {
    // The evaluator is containment-based, not frequency-aware: every
    // misplaced E of the guess is Incorrect even though the secret
    // holds one E.
    let spots = get_spots("EERIE", "CRANE");
    assert_eq!(spots[0].status, LetterStatus::Incorrect);
    assert_eq!(spots[1].status, LetterStatus::Incorrect);
    assert_eq!(spots[2].status, LetterStatus::Incorrect);
    assert_eq!(spots[3].status, LetterStatus::NotInWord);
    assert_eq!(spots[4].status, LetterStatus::Correct);
}

#[test]
fn spots_carry_the_guess_letters() {
    let spots = get_spots("SLATE", "CRANE");
    let letters: Vec<char> = spots.iter().map(|s| s.letter).collect();
    assert_eq!(letters, vec!['S', 'L', 'A', 'T', 'E']);
}

#[test]
fn letter_index_spans_the_alphabet() {
    assert_eq!(letter_to_index('A'), Some(0));
    assert_eq!(letter_to_index('Z'), Some(25));
    assert_eq!(letter_to_index('a'), Some(0));
    assert_eq!(letter_to_index('z'), Some(25));
    assert_eq!(letter_to_index('M'), Some(12));
    assert_eq!(letter_to_index('1'), None);
    assert_eq!(letter_to_index(' '), None);
    assert_eq!(letter_to_index('é'), None);
}

#[test]
fn uppercasing_characters_and_words() {
    assert_eq!(upper_char('a'), 'A');
    assert_eq!(upper_char('z'), 'Z');
    assert_eq!(upper_char('Q'), 'Q');
    assert_eq!(upper_char('!'), '!');
    assert_eq!(upper_word("crane"), "CRANE");
    assert_eq!(upper_word("CrAnE"), "CRANE");
    assert_eq!(upper_word("ab!7"), "AB!7");
    assert_eq!(upper_word(""), "");
}

#[test]
fn merge_upgrades_and_never_downgrades() {
    // Correct beats Incorrect beats NotInWord beats unknown.
    assert_eq!(merge_status(None, LetterStatus::NotInWord), LetterStatus::NotInWord);
    assert_eq!(
        merge_status(Some(LetterStatus::NotInWord), LetterStatus::Incorrect),
        LetterStatus::Incorrect
    );
    assert_eq!(
        merge_status(Some(LetterStatus::Incorrect), LetterStatus::Correct),
        LetterStatus::Correct
    );
    assert_eq!(
        merge_status(Some(LetterStatus::Correct), LetterStatus::Incorrect),
        LetterStatus::Correct
    );
    assert_eq!(
        merge_status(Some(LetterStatus::Correct), LetterStatus::NotInWord),
        LetterStatus::Correct
    );
    assert_eq!(
        merge_status(Some(LetterStatus::Incorrect), LetterStatus::NotInWord),
        LetterStatus::Incorrect
    );
}

#[test]
fn merge_is_idempotent() {
    // Merging the same observed status twice gives the same entry as
    // merging it once.
    let priors = [
        None,
        Some(LetterStatus::Correct),
        Some(LetterStatus::Incorrect),
        Some(LetterStatus::NotInWord),
    ];
    let seen = [LetterStatus::Correct, LetterStatus::Incorrect, LetterStatus::NotInWord];
    for prior in priors.iter() {
        for s in seen.iter() {
            let once = merge_status(*prior, *s);
            let twice = merge_status(Some(once), *s);
            assert_eq!(twice, once);
        }
    }
}

#[test]
fn default_spot_is_blank() {
    let spot = Spot::default();
    assert_eq!(spot.letter, '\0');
    assert_eq!(spot.status, LetterStatus::NotInWord);
}
