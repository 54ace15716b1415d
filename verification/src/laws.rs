//! What holds of every game, proved from the rules.

use crate::game::{placeholder, GameState, Outcome, Phase, Turn, STARTING_GUESSES};
use crate::text::{has_digit, normalized, occurs_at, occurs_in, without_ending};
use crate::word::parsed;
use vstd::prelude::*;

verus! {

/// A guess that occurs in the word, and is not the word itself, shows in
/// every slot whose folded letter it is: after the guess each such slot holds
/// its letter. This holds of a repeated guess too, whose slots were revealed
/// when it was first made. A guess that is no repeat joins the record of
/// correct guesses, and the wrong guesses stay as they were.
pub proof fn law_guess_in_word_is_revealed(state: GameState, guess: Seq<char>)
    requires
        state.wf(),
        occurs_in(guess, state.word),
        guess != state.word,
    ensures
        forall|i: int|
            0 <= i < state.letters.len() && #[trigger] state.folded[i] == guess
                ==> state.after_guess(guess).revealed[i] == state.letters[i],
        state.after_guess(guess).wrong == state.wrong,
        !state.guessed.contains(guess) ==> state.outcome_of(guess) == Outcome::Correct
            && state.after_guess(guess).correct == state.correct.push(guess),
{
    if state.guessed.contains(guess) {
        let k = choose|k: int| 0 <= k < state.guessed.len() && state.guessed[k] == guess;
        assert forall|i: int|
            0 <= i < state.letters.len() && #[trigger] state.folded[i]
                == guess implies state.after_guess(guess).revealed[i] == state.letters[i] by {
            assert(state.guessed[k] == guess);
        }
    }
}

/// A guess that does not occur in the word, and was not made before, joins
/// the end of the wrong guesses and costs exactly one attempt; the reveal
/// buffer stays as it was.
pub proof fn law_wrong_guess_costs_one(state: GameState, guess: Seq<char>)
    requires
        state.remaining > 0,
        !occurs_in(guess, state.word),
        !state.guessed.contains(guess),
    ensures
        state.outcome_of(guess) == Outcome::Wrong,
        state.after_guess(guess).wrong == state.wrong.push(guess),
        state.after_guess(guess).wrong.len() == state.wrong.len() + 1,
        state.after_guess(guess).remaining == state.remaining - 1,
        state.after_guess(guess).revealed == state.revealed,
        state.after_guess(guess).correct == state.correct,
{
    if guess == state.word {
        assert(state.word.subrange(0, state.word.len() as int) =~= state.word);
        assert(occurs_at(guess, state.word, 0));
    }
}

/// The word itself wins at once, whatever was guessed before and however few
/// attempts are left, as long as one is left; it costs that attempt.
pub proof fn law_word_wins(state: GameState)
    requires
        state.wf(),
        state.remaining > 0,
    ensures
        state.outcome_of(state.word) == Outcome::WordGuessed,
        state.after_guess(state.word).won,
        state.after_guess(state.word).remaining == state.remaining - 1,
{
}

/// A line that is no well-formed guess changes nothing: not the recorded
/// guesses, not the wrong guesses, not the attempts that are left.
pub proof fn law_malformed_line_changes_nothing(state: GameState, line: Seq<char>)
    requires
        ({
            let guess = without_ending(line);
            ||| guess.len() != 1 && guess.len() != state.word_length()
            ||| has_digit(guess)
        }),
    ensures
        !(state.turn_of(line) is Played),
        state.after_turn(line) == state,
{
}

/// A line that is evaluated does to the state what its guess does: the line
/// without its line ending, folded to lower case.
pub proof fn law_turn_evaluates_guess(state: GameState, line: Seq<char>)
    requires
        state.remaining > 0,
        !state.won,
        state.accepts(line),
    ensures
        state.turn_of(line) == Turn::Played(
            state.outcome_of(normalized(line)),
        ),
        state.after_turn(line) == state.after_guess(normalized(line)),
{
}

/// The attempts that are left never grow in a turn, and never fall by more
/// than one.
pub proof fn law_attempts_never_grow(state: GameState, line: Seq<char>)
    ensures
        state.after_turn(line).remaining <= state.remaining,
        state.remaining <= state.after_turn(line).remaining + 1,
{
}

/// The game is over exactly when no attempt is left, and then no line
/// changes anything: the attempts stay at zero.
pub proof fn law_game_ends_at_zero(state: GameState, line: Seq<char>)
    ensures
        state.phase() == Phase::Terminated <==> state.remaining == 0,
        state.remaining == 0 ==> state.turn_of(line) == Turn::Over && state.after_turn(line)
            == state,
{
}

/// While the game is won, no line is looked at.
pub proof fn law_won_game_reads_no_guess(state: GameState, line: Seq<char>)
    requires
        state.won,
    ensures
        !(state.turn_of(line) is Played),
        !(state.turn_of(line) is Rejected),
        state.after_turn(line) == state,
{
}

/// A guess that was made before costs an attempt and changes nothing else.
pub proof fn law_repeat_costs_an_attempt_only(state: GameState, guess: Seq<char>)
    requires
        state.remaining > 0,
        state.guessed.contains(guess),
    ensures
        state.outcome_of(guess) == Outcome::AlreadyGuessed,
        state.after_guess(guess) == (GameState {
            remaining: (state.remaining - 1) as nat,
            ..state
        }),
{
}

/// The state in which a game starts is valid, whatever the letters and the
/// word are, as long as there is one folded letter per letter.
pub proof fn law_fresh_state_is_valid(
    letters: Seq<Seq<char>>,
    folded: Seq<Seq<char>>,
    word: Seq<char>,
    cheat: bool,
)
    requires
        folded.len() == letters.len(),
    ensures
        GameState::fresh(letters, folded, word, cheat).wf(),
{
}

/// A replay starts over, whatever state the game before it ended in: the
/// state is valid, all attempts are back, nothing is guessed, every slot is a
/// placeholder, and the game is not won. The replay flag is set, and cheat
/// mode stays as it was.
pub proof fn law_replay_starts_over(
    state: GameState,
    letters: Seq<Seq<char>>,
    folded: Seq<Seq<char>>,
    word: Seq<char>,
)
    requires
        folded.len() == letters.len(),
    ensures
        state.replayed(letters, folded, word).wf(),
        state.replayed(letters, folded, word).letters == letters,
        state.replayed(letters, folded, word).folded == folded,
        state.replayed(letters, folded, word).word == word,
        state.replayed(letters, folded, word).remaining == STARTING_GUESSES,
        state.replayed(letters, folded, word).guessed.len() == 0,
        state.replayed(letters, folded, word).wrong.len() == 0,
        state.replayed(letters, folded, word).correct.len() == 0,
        state.replayed(letters, folded, word).revealed.len() == letters.len(),
        forall|i: int|
            0 <= i < letters.len() ==> #[trigger] state.replayed(
                letters,
                folded,
                word,
            ).revealed[i] == placeholder(),
        !state.replayed(letters, folded, word).won,
        state.replayed(letters, folded, word).replay,
        state.replayed(letters, folded, word).cheat == state.cheat,
{
}

/// The ending of a line does not matter: a text that ends in neither a
/// carriage return nor a line feed is the same guess whether a carriage
/// return and a line feed follow it, a line feed alone, or nothing.
pub proof fn law_line_ending_does_not_matter(state: GameState, text: Seq<char>)
    requires
        text.len() > 0 ==> text.last() != '\r' && text.last() != '\n',
    ensures
        without_ending(text + seq!['\r', '\n']) == text,
        without_ending(text + seq!['\n']) == text,
        without_ending(text) == text,
        state.turn_of(text + seq!['\r', '\n']) == state.turn_of(text),
        state.turn_of(text + seq!['\n']) == state.turn_of(text),
        state.after_turn(text + seq!['\r', '\n']) == state.after_turn(text),
        state.after_turn(text + seq!['\n']) == state.after_turn(text),
{
    let crlf = text + seq!['\r', '\n'];
    let lf = text + seq!['\n'];
    assert(crlf.take(crlf.len() - 2) =~= text);
    assert(lf.take(lf.len() - 1) =~= text);
    if text.len() > 0 {
        assert(lf[lf.len() - 2] == text.last());
    }
}

/// A valid state stays valid through every turn.
pub proof fn law_turn_keeps_state_valid(state: GameState, line: Seq<char>)
    requires
        state.wf(),
    ensures
        state.after_turn(line).wf(),
{
    if state.turn_of(line) is Played {
        law_guess_keeps_state_valid(state, normalized(line));
    }
}

/// A valid state stays valid through every guess that an attempt is left
/// for.
pub proof fn law_guess_keeps_state_valid(state: GameState, guess: Seq<char>)
    requires
        state.wf(),
        state.remaining > 0,
    ensures
        state.after_guess(guess).wf(),
{
    let after = state.after_guess(guess);
    if !state.guessed.contains(guess) && guess != state.word {
        let last = state.guessed.len() as int;
        assert(after.guessed == state.guessed.push(guess));
        assert(after.guessed[last] == guess);
        assert forall|k: int| 0 <= k < state.guessed.len() implies after.guessed[k]
            == state.guessed[k] && state.guessed[k] != guess by {
            assert(state.guessed.contains(state.guessed[k]));
        }
        assert(!after.guessed.contains(after.word)) by {
            if after.guessed.contains(after.word) {
                let k = choose|k: int|
                    0 <= k < after.guessed.len() && after.guessed[k] == after.word;
                if k < last {
                    assert(state.guessed[k] == state.word);
                }
            }
        }
        assert forall|k: int| 0 <= k < after.wrong.len() implies after.guessed.contains(
            #[trigger] after.wrong[k],
        ) && !occurs_in(after.wrong[k], after.word) by {
            if k < state.wrong.len() {
                assert(after.wrong[k] == state.wrong[k]);
                let j = choose|j: int|
                    0 <= j < state.guessed.len() && state.guessed[j] == state.wrong[k];
                assert(after.guessed[j] == after.wrong[k]);
            } else {
                assert(after.wrong[k] == guess);
                assert(after.guessed[last] == after.wrong[k]);
            }
        }
        assert forall|k: int| 0 <= k < after.correct.len() implies after.guessed.contains(
            #[trigger] after.correct[k],
        ) && occurs_in(after.correct[k], after.word) by {
            if k < state.correct.len() {
                assert(after.correct[k] == state.correct[k]);
                let j = choose|j: int|
                    0 <= j < state.guessed.len() && state.guessed[j] == state.correct[k];
                assert(after.guessed[j] == after.correct[k]);
            } else {
                assert(after.correct[k] == guess);
                assert(after.guessed[last] == after.correct[k]);
            }
        }
        assert forall|k: int, i: int|
            0 <= k < after.guessed.len() && 0 <= i < after.letters.len() && occurs_in(
                after.guessed[k],
                after.word,
            ) && after.folded[i] == after.guessed[k] implies after.revealed[i]
            == after.letters[i] by {
            if k < last {
                assert(state.guessed[k] == after.guessed[k]);
                assert(state.revealed[i] == state.letters[i]);
            }
        }
    }
}

/// A valid state stays valid when a letter is shown.
pub proof fn law_showing_keeps_state_valid(state: GameState, letter: Seq<char>)
    requires
        state.wf(),
    ensures
        state.showing(letter).wf(),
{
    let after = state.showing(letter);
    assert forall|k: int, i: int|
        0 <= k < after.guessed.len() && 0 <= i < after.letters.len() && occurs_in(
            after.guessed[k],
            after.word,
        ) && after.folded[i] == after.guessed[k] implies after.revealed[i]
        == after.letters[i] by {
        assert(state.revealed[i] == state.letters[i]);
    }
}

/// A guess that is neither a repeat nor the word wins exactly when it leaves
/// no placeholder in the reveal buffer, unless the game was won before.
pub proof fn law_complete_buffer_wins(state: GameState, guess: Seq<char>)
    requires
        !state.won,
        !state.guessed.contains(guess),
        guess != state.word,
    ensures
        state.after_guess(guess).won <==> state.after_guess(guess).complete(),
{
}

/// The letters that a body stands for spell its word: the word is not
/// empty, there is one letter per character of it, and each letter but the
/// first holds that character alone.
pub proof fn law_parsed_letters_spell_word(
    body: Seq<char>,
    letters: Seq<Seq<char>>,
    word: Seq<char>,
)
    requires
        parsed(body) == Some((letters, word)),
    ensures
        word.len() > 0,
        letters.len() == word.len(),
        forall|i: int| 0 < i < word.len() ==> #[trigger] letters[i] == seq![word[i]],
{
}

} // verus!
