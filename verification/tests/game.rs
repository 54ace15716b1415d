use hangman::game::{
    fold_letters, replay_choice, reveal_matches, Game, Outcome, Phase, ReplayChoice, Step, Turn,
    EXIT_QUIT, STARTING_GUESSES,
};

fn strings(items: &[&str]) -> Vec<String> {
    items.iter().map(|item| item.to_string()).collect()
}

fn game_of(letters: &[&str], word: &str) -> Game {
    Game::new(strings(letters), word.to_string(), false)
}

#[test]
fn new_game_starts_with_ten_attempts_and_placeholders() {
    let game = game_of(&["A", "p", "p", "l", "e"], "apple");
    assert_eq!(STARTING_GUESSES, 10);
    assert_eq!(game.remaining_guesses(), 10);
    assert_eq!(game.get_word_length(), 5);
    assert_eq!(game.correct_guesses(), &strings(&["_", "_", "_", "_", "_"]));
    assert!(game.wrong_guesses().is_empty());
    assert!(game.correct_record().is_empty());
    assert!(game.guessed_letters().is_empty());
    assert_eq!(game.word(), "apple");
    assert_eq!(game.word_array(), &strings(&["A", "p", "p", "l", "e"]));
    assert!(!game.is_won());
    assert!(!game.is_replay());
    assert!(!game.cheat_mode());
}

#[test]
fn new_game_keeps_cheat_mode() {
    let game = Game::new(strings(&["C", "a", "t"]), "cat".to_string(), true);
    assert!(game.cheat_mode());
}

#[test]
fn letter_in_word_is_revealed_in_every_slot() {
    let mut game = game_of(&["A", "p", "p", "l", "e"], "apple");
    assert_eq!(game.play("p\r\n"), Turn::Played(Outcome::Correct));
    assert_eq!(game.correct_guesses(), &strings(&["_", "p", "p", "_", "_"]));
    assert_eq!(game.guessed_letters(), &strings(&["p"]));
    assert_eq!(game.correct_record(), &strings(&["p"]));
    assert!(game.wrong_guesses().is_empty());
    assert_eq!(game.remaining_guesses(), 9);
    assert!(!game.is_won());
}

#[test]
fn first_letter_is_revealed_as_the_word_spells_it() {
    let mut game = game_of(&["A", "p", "p", "l", "e"], "apple");
    assert_eq!(game.play("a\r\n"), Turn::Played(Outcome::Correct));
    assert_eq!(game.correct_guesses(), &strings(&["A", "_", "_", "_", "_"]));
}

#[test]
fn upper_case_guess_is_folded_before_it_is_compared() {
    let mut game = game_of(&["C", "a", "t"], "cat");
    assert_eq!(game.play("T\r\n"), Turn::Played(Outcome::Correct));
    assert_eq!(game.correct_guesses(), &strings(&["_", "_", "t"]));
    assert_eq!(game.guessed_letters(), &strings(&["t"]));
}

#[test]
fn wrong_guess_joins_the_list_and_costs_one_attempt() {
    let mut game = game_of(&["C", "a", "t"], "cat");
    assert_eq!(game.play("x\r\n"), Turn::Played(Outcome::Wrong));
    assert_eq!(game.wrong_guesses(), &strings(&["x"]));
    assert_eq!(game.guessed_letters(), &strings(&["x"]));
    assert!(game.correct_record().is_empty());
    assert_eq!(game.remaining_guesses(), 9);
    assert_eq!(game.correct_guesses(), &strings(&["_", "_", "_"]));
    assert_eq!(game.play("y\r\n"), Turn::Played(Outcome::Wrong));
    assert_eq!(game.wrong_guesses(), &strings(&["x", "y"]));
    assert_eq!(game.remaining_guesses(), 8);
}

#[test]
fn wrong_word_of_the_right_length_is_a_wrong_guess() {
    let mut game = game_of(&["C", "a", "t"], "cat");
    assert_eq!(game.play("cot\r\n"), Turn::Played(Outcome::Wrong));
    assert_eq!(game.wrong_guesses(), &strings(&["cot"]));
    assert_eq!(game.remaining_guesses(), 9);
    assert!(!game.is_won());
}

#[test]
fn repeated_guess_costs_an_attempt_and_nothing_else() {
    let mut game = game_of(&["C", "a", "t"], "cat");
    assert_eq!(game.play("x\r\n"), Turn::Played(Outcome::Wrong));
    assert_eq!(game.play("x\r\n"), Turn::Played(Outcome::AlreadyGuessed));
    assert_eq!(game.wrong_guesses(), &strings(&["x"]));
    assert_eq!(game.guessed_letters(), &strings(&["x"]));
    assert_eq!(game.remaining_guesses(), 8);
    assert_eq!(game.play("a\r\n"), Turn::Played(Outcome::Correct));
    assert_eq!(game.play("A\r\n"), Turn::Played(Outcome::AlreadyGuessed));
    assert_eq!(game.correct_guesses(), &strings(&["_", "a", "_"]));
    assert_eq!(game.remaining_guesses(), 6);
}

#[test]
fn full_word_wins_at_once() {
    let mut game = game_of(&["A", "p", "p", "l", "e"], "apple");
    assert_eq!(game.play("apple\r\n"), Turn::Played(Outcome::WordGuessed));
    assert!(game.is_won());
    assert_eq!(game.remaining_guesses(), 9);
    assert_eq!(game.correct_guesses(), &strings(&["_", "_", "_", "_", "_"]));
    assert!(game.guessed_letters().is_empty());
}

#[test]
fn full_word_wins_with_one_attempt_left() {
    let mut game = game_of(&["C", "a", "t"], "cat");
    for guess in ["b", "d", "e", "f", "g", "h", "i", "j", "k"] {
        assert_eq!(game.play(guess), Turn::Played(Outcome::Wrong));
    }
    assert_eq!(game.remaining_guesses(), 1);
    assert_eq!(game.play("CAT\r\n"), Turn::Played(Outcome::WordGuessed));
    assert!(game.is_won());
    assert_eq!(game.remaining_guesses(), 0);
}

#[test]
fn malformed_lines_are_rejected_and_cost_nothing() {
    let mut game = game_of(&["A", "p", "p", "l", "e"], "apple");
    let lines = [
        "ab\r\n", "ab\n", "ab", "\r\n", "\n", "", "appl\r\n", "apples\n", "4\r\n", "4\n",
        "appl3\r\n", "appl3\n", "a\n\n", "a \n",
    ];
    for line in lines {
        assert_eq!(game.play(line), Turn::Rejected);
        assert_eq!(game.remaining_guesses(), 10);
        assert!(game.guessed_letters().is_empty());
        assert!(game.wrong_guesses().is_empty());
        assert_eq!(game.correct_guesses(), &strings(&["_", "_", "_", "_", "_"]));
        assert!(!game.is_won());
    }
}

#[test]
fn line_without_line_ending_is_a_guess_too() {
    let mut game = game_of(&["C", "a", "t"], "cat");
    assert_eq!(game.play("a"), Turn::Played(Outcome::Correct));
    assert_eq!(game.correct_guesses(), &strings(&["_", "a", "_"]));
}

#[test]
fn cat_is_found_letter_by_letter() {
    let mut game = game_of(&["c", "a", "t"], "cat");
    assert_eq!(game.play("a\r\n"), Turn::Played(Outcome::Correct));
    assert_eq!(game.correct_guesses(), &strings(&["_", "a", "_"]));
    assert!(!game.is_won());
    assert_eq!(game.play("c\r\n"), Turn::Played(Outcome::Correct));
    assert_eq!(game.correct_guesses(), &strings(&["c", "a", "_"]));
    assert!(!game.is_won());
    assert_eq!(game.play("t\r\n"), Turn::Played(Outcome::Correct));
    assert_eq!(game.correct_guesses(), &strings(&["c", "a", "t"]));
    assert!(game.is_won());
    assert_eq!(game.remaining_guesses(), 7);
    assert_eq!(game.correct_record(), &strings(&["a", "c", "t"]));
    assert_eq!(game.guessed_letters(), &strings(&["a", "c", "t"]));
    assert!(game.wrong_guesses().is_empty());
}

#[test]
fn cat_with_a_capital_shows_the_capital() {
    let mut game = game_of(&["C", "a", "t"], "cat");
    game.play("a\r\n");
    game.play("c\r\n");
    game.play("t\r\n");
    assert_eq!(game.correct_guesses(), &strings(&["C", "a", "t"]));
    assert!(game.is_won());
    assert_eq!(game.remaining_guesses(), 7);
}

#[test]
fn eleven_wrong_guesses_stop_at_zero() {
    let mut game = game_of(&["C", "a", "t"], "cat");
    let guesses = ["b", "d", "e", "f", "g", "h", "i", "j", "k", "l"];
    for (made, guess) in guesses.iter().enumerate() {
        assert_eq!(game.play(guess), Turn::Played(Outcome::Wrong));
        assert_eq!(game.remaining_guesses(), 9 - made);
    }
    assert_eq!(game.remaining_guesses(), 0);
    assert_eq!(game.wrong_guesses(), &strings(&guesses));
    assert_eq!(game.phase(), Phase::Terminated);
    assert_eq!(game.play("m\r\n"), Turn::Over);
    assert_eq!(game.remaining_guesses(), 0);
    assert_eq!(game.wrong_guesses(), &strings(&guesses));
    assert_eq!(game.guessed_letters(), &strings(&guesses));
    assert!(!game.is_won());
}

#[test]
fn won_game_does_not_look_at_lines() {
    let mut game = game_of(&["C", "a", "t"], "cat");
    assert_eq!(game.play("cat\r\n"), Turn::Played(Outcome::WordGuessed));
    assert_eq!(game.play("x\r\n"), Turn::Idle);
    assert_eq!(game.remaining_guesses(), 9);
    assert!(game.wrong_guesses().is_empty());
    assert!(game.is_won());
}

#[test]
fn failed_fetch_gives_a_game_that_cannot_be_won_by_letters() {
    let mut game = game_of(&[""], "");
    assert_eq!(game.get_word_length(), 1);
    assert_eq!(game.correct_guesses(), &strings(&["_"]));
    assert_eq!(game.play("\r\n"), Turn::Rejected);
    assert_eq!(game.play("a\r\n"), Turn::Played(Outcome::Wrong));
    assert_eq!(game.wrong_guesses(), &strings(&["a"]));
    assert_eq!(game.remaining_guesses(), 9);
    assert!(!game.is_won());
}

#[test]
fn handle_guess_takes_out_the_line_ending_and_folds() {
    let mut game = game_of(&["C", "a", "t"], "cat");
    assert_eq!(game.handle_guess("C\r\n".to_string()), Outcome::Correct);
    assert_eq!(game.correct_guesses(), &strings(&["C", "_", "_"]));
    assert_eq!(game.guessed_letters(), &strings(&["c"]));
    assert_eq!(game.remaining_guesses(), 9);
    assert_eq!(game.handle_guess("Z".to_string()), Outcome::Wrong);
    assert_eq!(game.wrong_guesses(), &strings(&["z"]));
    assert_eq!(game.handle_guess("CAT".to_string()), Outcome::WordGuessed);
    assert!(game.is_won());
    assert_eq!(game.remaining_guesses(), 7);
}

#[test]
fn handle_guess_records_a_part_of_the_word_without_revealing() {
    let mut game = game_of(&["C", "a", "t"], "cat");
    assert_eq!(game.handle_guess("ca".to_string()), Outcome::Correct);
    assert_eq!(game.correct_guesses(), &strings(&["_", "_", "_"]));
    assert_eq!(game.guessed_letters(), &strings(&["ca"]));
    assert!(game.wrong_guesses().is_empty());
    assert_eq!(game.remaining_guesses(), 9);
}

#[test]
fn evaluate_compares_the_guess_as_it_is() {
    let mut game = game_of(&["C", "a", "t"], "cat");
    assert_eq!(game.evaluate("A".to_string()), Outcome::Wrong);
    assert_eq!(game.wrong_guesses(), &strings(&["A"]));
    assert_eq!(game.evaluate("a".to_string()), Outcome::Correct);
    assert_eq!(game.correct_guesses(), &strings(&["_", "a", "_"]));
    assert_eq!(game.evaluate("a".to_string()), Outcome::AlreadyGuessed);
    assert_eq!(game.evaluate("cat".to_string()), Outcome::WordGuessed);
    assert_eq!(game.remaining_guesses(), 6);
}

#[test]
fn insert_correct_letter_reveals_without_cost() {
    let mut game = game_of(&["A", "p", "p", "l", "e"], "apple");
    game.insert_correct_letter(&"p\r\n".to_string());
    assert_eq!(game.correct_guesses(), &strings(&["_", "p", "p", "_", "_"]));
    game.insert_correct_letter(&"a".to_string());
    assert_eq!(game.correct_guesses(), &strings(&["A", "p", "p", "_", "_"]));
    game.insert_correct_letter(&"A".to_string());
    game.insert_correct_letter(&"z".to_string());
    assert_eq!(game.correct_guesses(), &strings(&["A", "p", "p", "_", "_"]));
    assert_eq!(game.remaining_guesses(), 10);
    assert!(game.guessed_letters().is_empty());
    assert!(!game.is_won());
}

#[test]
fn reveal_matches_sets_the_slots_that_match() {
    let mut buffer = strings(&["_", "x", "_", "_"]);
    let letters = strings(&["A", "b", "a", "c"]);
    let folded = strings(&["a", "b", "a", "c"]);
    reveal_matches(&mut buffer, &letters, &folded, &"a".to_string());
    assert_eq!(buffer, strings(&["A", "x", "a", "_"]));
    reveal_matches(&mut buffer, &letters, &folded, &"q".to_string());
    assert_eq!(buffer, strings(&["A", "x", "a", "_"]));
}

#[test]
fn fold_letters_folds_each_letter() {
    assert_eq!(fold_letters(&strings(&["A", "p", "É", ""])), strings(&["a", "p", "é", ""]));
    assert!(fold_letters(&Vec::new()).is_empty());
}

#[test]
fn game_won_marks_the_game_and_reads_the_answer() {
    let mut game = game_of(&["C", "a", "t"], "cat");
    assert_eq!(game.game_won("yes\r\n"), ReplayChoice::Again);
    assert!(game.is_won());
    assert_eq!(game.remaining_guesses(), 10);
    assert_eq!(game.game_won("YES\r\n"), ReplayChoice::Again);
    assert_eq!(game.game_won("Yes"), ReplayChoice::Again);
    assert_eq!(game.game_won("no\r\n"), ReplayChoice::Quit);
    assert_eq!(game.game_won("No\r\n"), ReplayChoice::Quit);
    assert_eq!(game.game_won("maybe\r\n"), ReplayChoice::Stay);
    assert_eq!(game.game_won("\r\n"), ReplayChoice::Stay);
    assert_eq!(game.game_won("yes \r\n"), ReplayChoice::Stay);
    assert_eq!(game.game_won("yes\n"), ReplayChoice::Again);
    assert_eq!(game.game_won("NO\n"), ReplayChoice::Quit);
    assert_eq!(game.game_won("no"), ReplayChoice::Quit);
    assert_eq!(game.game_won("\n"), ReplayChoice::Stay);
    assert!(game.is_won());
}

#[test]
fn replay_choice_knows_yes_and_no_only() {
    assert_eq!(replay_choice(&"yes".to_string()), ReplayChoice::Again);
    assert_eq!(replay_choice(&"no".to_string()), ReplayChoice::Quit);
    assert_eq!(EXIT_QUIT, 0);
    assert_eq!(replay_choice(&"YES".to_string()), ReplayChoice::Stay);
    assert_eq!(replay_choice(&"".to_string()), ReplayChoice::Stay);
    assert_eq!(replay_choice(&"y".to_string()), ReplayChoice::Stay);
}

#[test]
fn reset_starts_over_with_the_new_word() {
    let mut game = Game::new(strings(&["C", "a", "t"]), "cat".to_string(), true);
    game.play("x\r\n");
    game.play("a\r\n");
    game.play("cat\r\n");
    assert!(game.is_won());
    game.reset(strings(&["H", "o", "u", "s", "e"]), "house".to_string());
    assert_eq!(game.word(), "house");
    assert_eq!(game.word_array(), &strings(&["H", "o", "u", "s", "e"]));
    assert_eq!(game.get_word_length(), 5);
    assert_eq!(game.correct_guesses(), &strings(&["_", "_", "_", "_", "_"]));
    assert!(game.wrong_guesses().is_empty());
    assert!(game.correct_record().is_empty());
    assert!(game.guessed_letters().is_empty());
    assert_eq!(game.remaining_guesses(), 10);
    assert!(!game.is_won());
    assert!(game.is_replay());
    assert!(game.cheat_mode());
    assert_eq!(game.play("x\r\n"), Turn::Played(Outcome::Wrong));
    assert_eq!(game.play("a\r\n"), Turn::Played(Outcome::Wrong));
}

#[test]
fn attempts_never_grow_during_a_game() {
    let mut game = game_of(&["C", "a", "t"], "cat");
    let mut before = game.remaining_guesses();
    for line in ["x\r\n", "12\r\n", "x\r\n", "a\r\n", "dog\r\n", "", "c\r\n", "t\r\n", "q\r\n"] {
        game.play(line);
        let after = game.remaining_guesses();
        assert!(after <= before);
        assert!(before - after <= 1);
        before = after;
    }
    assert_eq!(before, 4);
    assert!(game.is_won());
}

#[test]
fn phase_follows_the_attempts_and_the_win() {
    let mut game = game_of(&["C", "a", "t"], "cat");
    assert_eq!(game.phase(), Phase::AwaitingGuess);
    game.play("x\r\n");
    assert_eq!(game.phase(), Phase::AwaitingGuess);
    game.play("cat\r\n");
    assert_eq!(game.phase(), Phase::Won);
    game.reset(strings(&["D", "o", "g"]), "dog".to_string());
    assert_eq!(game.phase(), Phase::AwaitingGuess);
    for guess in ["a", "b", "c", "e", "f", "h", "i", "j", "k"] {
        game.play(guess);
    }
    assert_eq!(game.remaining_guesses(), 1);
    assert_eq!(game.phase(), Phase::AwaitingGuess);
    game.play("dog\r\n");
    assert!(game.is_won());
    assert_eq!(game.remaining_guesses(), 0);
    assert_eq!(game.phase(), Phase::Terminated);
    assert_eq!(game.play("x\r\n"), Turn::Over);
}

#[test]
fn one_letter_word_is_won_by_its_letter_without_revealing() {
    let mut game = game_of(&["A"], "a");
    assert_eq!(game.play("a\r\n"), Turn::Played(Outcome::WordGuessed));
    assert!(game.is_won());
    assert_eq!(game.correct_guesses(), &strings(&["_"]));
    assert_eq!(game.remaining_guesses(), 9);
}

#[test]
fn game_without_letters_is_won_by_its_first_guess() {
    let mut game = game_of(&[], "");
    assert_eq!(game.get_word_length(), 0);
    assert!(!game.is_won());
    assert_eq!(game.play("x\r\n"), Turn::Played(Outcome::Wrong));
    assert_eq!(game.wrong_guesses(), &strings(&["x"]));
    assert!(game.is_won());
    assert_eq!(game.phase(), Phase::Won);
}

#[test]
fn lines_that_end_in_a_line_feed_alone_are_played() {
    let mut game = game_of(&["C", "a", "t"], "cat");
    for line in ["a\n", "b\n", "d\n", "e\n", "f\n", "g\n", "h\n", "i\n", "j\n", "k\n"] {
        assert!(matches!(game.play(line), Turn::Played(_)));
    }
    assert_eq!(game.remaining_guesses(), 0);
    assert_eq!(game.correct_guesses(), &strings(&["_", "a", "_"]));
    assert_eq!(
        game.wrong_guesses(),
        &strings(&["b", "d", "e", "f", "g", "h", "i", "j", "k"])
    );
    assert_eq!(game.phase(), Phase::Terminated);
}

#[test]
fn two_letters_and_a_line_feed_are_rejected_by_a_word_of_three() {
    let mut game = game_of(&["C", "a", "t"], "cat");
    assert_eq!(game.play("ab\n"), Turn::Rejected);
    assert_eq!(game.remaining_guesses(), 10);
    assert!(game.guessed_letters().is_empty());
    assert!(game.wrong_guesses().is_empty());
    assert_eq!(game.play("cat\n"), Turn::Played(Outcome::WordGuessed));
}

#[test]
fn every_line_ending_gives_the_same_turn() {
    for ending in ["\r\n", "\n", ""] {
        let mut game = game_of(&["C", "a", "t"], "cat");
        assert_eq!(game.play(&format!("T{ending}")), Turn::Played(Outcome::Correct));
        assert_eq!(game.play(&format!("x{ending}")), Turn::Played(Outcome::Wrong));
        assert_eq!(game.play(&format!("x{ending}")), Turn::Played(Outcome::AlreadyGuessed));
        assert_eq!(game.play(&format!("xy{ending}")), Turn::Rejected);
        assert_eq!(game.play(&format!("Cat{ending}")), Turn::Played(Outcome::WordGuessed));
        assert_eq!(game.correct_guesses(), &strings(&["_", "_", "t"]));
        assert_eq!(game.wrong_guesses(), &strings(&["x"]));
        assert_eq!(game.remaining_guesses(), 6);
    }
}

#[test]
fn game_from_parts_compares_with_the_folded_letters_given() {
    let made = Game::from_parts(
        strings(&["C", "a", "t"]),
        strings(&["c", "a", "t"]),
        "cat".to_string(),
        false,
    );
    let mut game = made.unwrap();
    assert_eq!(game.folded_letters(), &strings(&["c", "a", "t"]));
    assert_eq!(game.evaluate("a".to_string()), Outcome::Correct);
    assert_eq!(game.correct_guesses(), &strings(&["_", "a", "_"]));
    assert_eq!(game.evaluate("c".to_string()), Outcome::Correct);
    assert_eq!(game.correct_guesses(), &strings(&["C", "a", "_"]));
    assert!(!game.is_won());
    assert_eq!(game.evaluate("t".to_string()), Outcome::Correct);
    assert_eq!(game.correct_guesses(), &strings(&["C", "a", "t"]));
    assert_eq!(game.correct_record(), &strings(&["a", "c", "t"]));
    assert!(game.is_won());
    assert_eq!(game.remaining_guesses(), 7);
}

#[test]
fn game_from_parts_needs_one_folded_letter_per_letter() {
    let short = Game::from_parts(
        strings(&["C", "a", "t"]),
        strings(&["c", "a"]),
        "cat".to_string(),
        false,
    );
    assert!(short.is_none());
    let long = Game::from_parts(strings(&[]), strings(&["c"]), String::new(), true);
    assert!(long.is_none());
    let empty = Game::from_parts(strings(&[]), strings(&[]), String::new(), true);
    assert!(empty.is_some());
}

#[test]
fn new_game_folds_its_letters() {
    let game = game_of(&["A", "p", "É"], "apé");
    assert_eq!(game.folded_letters(), &strings(&["a", "p", "é"]));
    let mut again = game_of(&["C"], "c");
    again.reset(strings(&["D", "O", "g"]), "dog".to_string());
    assert_eq!(again.folded_letters(), &strings(&["d", "o", "g"]));
}

#[test]
fn step_after_a_turn_asks_or_shows_or_does_nothing() {
    let mut game = game_of(&["C", "a", "t"], "cat");
    let turn = game.play("ab\n");
    assert_eq!(game.step_after(turn), Step::Nothing);
    let turn = game.play("x\n");
    assert_eq!(game.step_after(turn), Step::ShowStatus);
    let turn = game.play("x\n");
    assert_eq!(game.step_after(turn), Step::ShowStatus);
    let turn = game.play("a\n");
    assert_eq!(game.step_after(turn), Step::ShowStatus);
    let turn = game.play("cat\n");
    assert_eq!(game.step_after(turn), Step::AskReplay);
    let turn = game.play("t\n");
    assert_eq!(turn, Turn::Idle);
    assert_eq!(game.step_after(turn), Step::Nothing);

    let mut letters = game_of(&["A", "t"], "at");
    let turn = letters.play("a\n");
    assert_eq!(letters.step_after(turn), Step::ShowStatus);
    let turn = letters.play("t\n");
    assert_eq!(letters.step_after(turn), Step::AskReplay);
}
