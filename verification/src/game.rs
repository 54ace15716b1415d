//! The state of a game and what a guess does to it.
//!
//! `GameState` is the mathematical state and carries the rules as spec
//! functions; `Game` is the value a program holds. Every method of `Game`
//! says in its contract which `GameState` it leaves behind.

use crate::display::{
    already_guessed_line, chain, cheat_line, correct_line, guess_line, guesses_left_line,
    hangman_line, show_already_guessed, show_cheat, show_correct, show_guess, show_guesses_left,
    show_hangman, show_word_length, show_wrong, show_wrong_format, show_wrong_guesses,
    word_length_line, wrong_format_line, wrong_guesses_line, wrong_line, Span, SpanText,
};
use crate::laws::{law_guess_keeps_state_valid, law_showing_keeps_state_valid};
use crate::text::{
    contains, contains_digit, has_digit, lowercase, normalize, normalized, occurs_in,
    strip_ending, without_ending,
};
use vstd::prelude::*;
use vstd::string::*;

verus! {

/// The number of attempts a game starts with.
pub const STARTING_GUESSES: usize = 10;

/// The status with which the program ends when the player chooses to leave.
pub const EXIT_QUIT: i32 = 0;

/// What a slot of the reveal buffer holds until its letter is found.
pub open spec fn placeholder() -> Seq<char> {
    seq!['_']
}

/// What became of a guess that was evaluated.
#[derive(Clone, Copy, Debug, PartialEq, Eq, Structural)]
pub enum Outcome {
    /// The guess was made before; it cost an attempt and nothing else happened.
    AlreadyGuessed,
    /// The guess is the whole word: the game is won.
    WordGuessed,
    /// The guess does not occur in the word and joined the wrong guesses.
    Wrong,
    /// The guess occurs in the word; the slots of every matching letter show it.
    Correct,
}

/// Where a game stands between two turns.
#[derive(Clone, Copy, Debug, PartialEq, Eq, Structural)]
pub enum Phase {
    /// An attempt is left and the game is not won: the next line is a guess.
    AwaitingGuess,
    /// The game is won and attempts are left: no guess is read until the game
    /// is started over.
    Won,
    /// No attempt is left: the game is over, won or not.
    Terminated,
}

/// What became of a line that the player entered.
#[derive(Clone, Copy, Debug, PartialEq, Eq, Structural)]
pub enum Turn {
    /// No attempt is left: the line was not looked at.
    Over,
    /// The game is won and reads no guess: the line was not looked at.
    Idle,
    /// The line is not a well-formed guess: it cost nothing.
    Rejected,
    /// The line was evaluated as a guess.
    Played(Outcome),
}

/// What follows a turn.
#[derive(Clone, Copy, Debug, PartialEq, Eq, Structural)]
pub enum Step {
    /// The win is announced and the player is asked whether to play again.
    AskReplay,
    /// The status line is shown: the attempts left and the wrong guesses.
    ShowStatus,
    /// Nothing is shown.
    Nothing,
}

/// The answer to the question whether to play again.
#[derive(Clone, Copy, Debug, PartialEq, Eq, Structural)]
pub enum ReplayChoice {
    /// Play again, with a new word.
    Again,
    /// Leave the program.
    Quit,
    /// Neither: the game stays won, and nothing asks again.
    Stay,
}

/// The reveal buffer after `guess` was shown: each slot whose letter, folded
/// to lower case, is `guess` holds that letter as the word spells it; every
/// other slot is as before.
pub open spec fn unveiled(
    buffer: Seq<Seq<char>>,
    letters: Seq<Seq<char>>,
    folded: Seq<Seq<char>>,
    guess: Seq<char>,
) -> Seq<Seq<char>> {
    Seq::new(
        buffer.len(),
        |i: int|
            if folded[i] == guess {
                letters[i]
            } else {
                buffer[i]
            },
    )
}

/// Each letter folded to lower case.
pub open spec fn folded(letters: Seq<Seq<char>>) -> Seq<Seq<char>> {
    Seq::new(letters.len(), |i: int| lowercase(letters[i]))
}

/// The choice that an answer, already folded to lower case, stands for.
pub open spec fn choice_of(answer: Seq<char>) -> ReplayChoice {
    if answer == "yes"@ {
        ReplayChoice::Again
    } else if answer == "no"@ {
        ReplayChoice::Quit
    } else {
        ReplayChoice::Stay
    }
}

/// The state of a game, as mathematics.
pub struct GameState {
    /// The letters of the word as they are shown, one entry per slot.
    pub letters: Seq<Seq<char>>,
    /// The letters as guesses are compared with them: each letter folded to
    /// lower case.
    pub folded: Seq<Seq<char>>,
    /// The secret word, in lower case.
    pub word: Seq<char>,
    /// The guesses that were evaluated and were neither repeats nor the word,
    /// in the order they were made.
    pub guessed: Seq<Seq<char>>,
    /// The guesses that do not occur in the word, in the order they were made.
    pub wrong: Seq<Seq<char>>,
    /// The record of correct guesses: the recorded guesses that occur in the
    /// word, in the order they were made.
    pub correct: Seq<Seq<char>>,
    /// The reveal buffer: per slot the placeholder or the letter found.
    pub revealed: Seq<Seq<char>>,
    /// The attempts that are left.
    pub remaining: nat,
    /// Whether the game is won.
    pub won: bool,
    /// Whether this is a game after the first one.
    pub replay: bool,
    /// Whether the secret word is shown on every turn.
    pub cheat: bool,
}

impl GameState {
    /// The state in which a game with this word starts.
    pub open spec fn fresh(
        letters: Seq<Seq<char>>,
        folded: Seq<Seq<char>>,
        word: Seq<char>,
        cheat: bool,
    ) -> GameState {
        GameState {
            letters,
            folded,
            word,
            guessed: Seq::empty(),
            wrong: Seq::empty(),
            correct: Seq::empty(),
            revealed: Seq::new(letters.len(), |i: int| placeholder()),
            remaining: STARTING_GUESSES as nat,
            won: false,
            replay: false,
            cheat,
        }
    }

    /// What holds of every state that a game can be in:
    /// - there is one folded letter and one slot of the reveal buffer per
    ///   letter;
    /// - no guess is recorded twice, and each recorded guess cost an attempt;
    /// - the word itself is not among the recorded guesses;
    /// - every recorded guess is either a wrong guess, which does not occur in
    ///   the word, or a correct one, which does;
    /// - a recorded guess that occurs in the word has all its slots revealed.
    pub open spec fn wf(self) -> bool {
        &&& self.folded.len() == self.letters.len()
        &&& self.revealed.len() == self.letters.len()
        &&& self.guessed.no_duplicates()
        &&& self.guessed.len() + self.remaining <= STARTING_GUESSES
        &&& !self.guessed.contains(self.word)
        &&& self.wrong.len() + self.correct.len() == self.guessed.len()
        &&& forall|k: int|
            0 <= k < self.wrong.len() ==> self.guessed.contains(#[trigger] self.wrong[k])
                && !occurs_in(self.wrong[k], self.word)
        &&& forall|k: int|
            0 <= k < self.correct.len() ==> self.guessed.contains(#[trigger] self.correct[k])
                && occurs_in(self.correct[k], self.word)
        &&& forall|k: int, i: int|
            #![trigger self.guessed[k], self.letters[i]]
            0 <= k < self.guessed.len() && 0 <= i < self.letters.len() && occurs_in(
                self.guessed[k],
                self.word,
            ) && self.folded[i] == self.guessed[k] ==> self.revealed[i] == self.letters[i]
    }

    /// The number of slots: the length that the game announces.
    pub open spec fn word_length(self) -> nat {
        self.letters.len()
    }

    /// Whether every slot of the reveal buffer shows something other than the
    /// placeholder.
    pub open spec fn complete(self) -> bool {
        !self.revealed.contains(placeholder())
    }

    /// The state with the slots of `letter` revealed.
    pub open spec fn showing(self, letter: Seq<char>) -> GameState {
        GameState {
            revealed: unveiled(self.revealed, self.letters, self.folded, letter),
            ..self
        }
    }

    /// The state after `guess`, already folded to lower case, was evaluated
    /// with at least one attempt left. The attempt is spent first, whatever
    /// the guess; a repeat changes nothing else; the word itself wins at once;
    /// any other guess is recorded, joins the wrong guesses or joins the
    /// correct ones and reveals its slots, and wins once the buffer is
    /// complete.
    pub open spec fn after_guess(self, guess: Seq<char>) -> GameState {
        let spent = GameState { remaining: (self.remaining - 1) as nat, ..self };
        if self.guessed.contains(guess) {
            spent
        } else if guess == self.word {
            GameState { won: true, ..spent }
        } else {
            let shown = if occurs_in(guess, self.word) {
                GameState { correct: self.correct.push(guess), ..spent.showing(guess) }
            } else {
                GameState { wrong: self.wrong.push(guess), ..spent }
            };
            GameState {
                guessed: self.guessed.push(guess),
                won: self.won || shown.complete(),
                ..shown
            }
        }
    }

    /// What the evaluation of `guess`, already folded to lower case, reports.
    pub open spec fn outcome_of(self, guess: Seq<char>) -> Outcome {
        if self.guessed.contains(guess) {
            Outcome::AlreadyGuessed
        } else if guess == self.word {
            Outcome::WordGuessed
        } else if occurs_in(guess, self.word) {
            Outcome::Correct
        } else {
            Outcome::Wrong
        }
    }

    /// Whether a line is a well-formed guess: without its ending it is one
    /// character long or as long as the word, and holds no decimal digit.
    pub open spec fn accepts(self, line: Seq<char>) -> bool {
        let guess = without_ending(line);
        &&& guess.len() == self.word_length() || guess.len() == 1
        &&& !has_digit(guess)
    }

    /// Where the game stands: over once no attempt is left, else won or
    /// waiting for a guess.
    pub open spec fn phase(self) -> Phase {
        if self.remaining == 0 {
            Phase::Terminated
        } else if self.won {
            Phase::Won
        } else {
            Phase::AwaitingGuess
        }
    }

    /// What a turn with this line reports.
    pub open spec fn turn_of(self, line: Seq<char>) -> Turn {
        match self.phase() {
            Phase::Terminated => Turn::Over,
            Phase::Won => Turn::Idle,
            Phase::AwaitingGuess => if self.accepts(line) {
                Turn::Played(self.outcome_of(normalized(line)))
            } else {
                Turn::Rejected
            },
        }
    }

    /// The state after a turn with this line: unchanged unless the line was
    /// evaluated as a guess.
    pub open spec fn after_turn(self, line: Seq<char>) -> GameState {
        if self.turn_of(line) is Played {
            self.after_guess(normalized(line))
        } else {
            self
        }
    }

    /// What is shown before every turn: in cheat mode the line that gives the
    /// word away, and in a replay the line that announces its length.
    pub open spec fn header(self) -> Seq<SpanText> {
        let cheat = if self.cheat {
            cheat_line(self.word)
        } else {
            Seq::empty()
        };
        let length = if self.replay {
            word_length_line(self.word_length(), true)
        } else {
            Seq::empty()
        };
        cheat + length
    }

    /// What is shown after a turn that left this state, where `guess` is the
    /// line without its ending, folded to lower case. A line that was
    /// not looked at shows nothing, and a rejected one its complaint. A guess
    /// is echoed; then a repeat is told, a guess that is not the word is told
    /// wrong or correct, and the word is shown as far as it is revealed.
    pub open spec fn feedback(self, guess: Seq<char>, turn: Turn) -> Seq<SpanText> {
        match turn {
            Turn::Over => Seq::empty(),
            Turn::Idle => Seq::empty(),
            Turn::Rejected => wrong_format_line(guess),
            Turn::Played(Outcome::AlreadyGuessed) => guess_line(guess) + already_guessed_line(
                guess,
            ),
            Turn::Played(Outcome::WordGuessed) => guess_line(guess),
            Turn::Played(Outcome::Wrong) => guess_line(guess) + wrong_line(guess) + hangman_line(
                self.revealed,
            ),
            Turn::Played(Outcome::Correct) => guess_line(guess) + correct_line() + hangman_line(
                self.revealed,
            ),
        }
    }

    /// The state in which the next game starts after this one: fresh, but for
    /// the replay flag, which is set, and cheat mode, which is kept.
    pub open spec fn replayed(
        self,
        letters: Seq<Seq<char>>,
        folded: Seq<Seq<char>>,
        word: Seq<char>,
    ) -> GameState {
        GameState { replay: true, ..GameState::fresh(letters, folded, word, self.cheat) }
    }

    /// What follows a turn that left this state: after a guess that was
    /// evaluated, the question whether to play again where the game is won,
    /// and the status line where it is not; after any other turn, nothing.
    pub open spec fn step_after(self, turn: Turn) -> Step {
        if !(turn is Played) {
            Step::Nothing
        } else if self.won {
            Step::AskReplay
        } else {
            Step::ShowStatus
        }
    }
}

/// A game of hangman.
pub struct Game {
    word_array: Vec<String>,
    folded_letters: Vec<String>,
    word: String,
    guessed_letters: Vec<String>,
    wrong_guesses: Vec<String>,
    correct_record: Vec<String>,
    correct_guesses: Vec<String>,
    remaining_guesses: usize,
    game_won: bool,
    replay: bool,
    cheat_mode: bool,
}

impl View for Game {
    type V = GameState;

    closed spec fn view(&self) -> GameState {
        GameState {
            letters: self.word_array.deep_view(),
            folded: self.folded_letters.deep_view(),
            word: self.word@,
            guessed: self.guessed_letters.deep_view(),
            wrong: self.wrong_guesses.deep_view(),
            correct: self.correct_record.deep_view(),
            revealed: self.correct_guesses.deep_view(),
            remaining: self.remaining_guesses as nat,
            won: self.game_won,
            replay: self.replay,
            cheat: self.cheat_mode,
        }
    }
}

/// A buffer of `n` placeholders.
fn placeholders(n: usize) -> (buffer: Vec<String>)
    ensures
        buffer.deep_view() == Seq::new(n as nat, |i: int| placeholder()),
{
    let mut buffer: Vec<String> = Vec::new();
    let mut i: usize = 0;
    while i < n
        invariant
            i <= n,
            buffer.len() == i,
            forall|j: int| 0 <= j < i ==> (#[trigger] buffer@[j])@ == placeholder(),
        decreases n - i,
    {
        let mut slot = String::new();
        slot.push('_');
        buffer.push(slot);
        i = i + 1;
    }
    assert(buffer.deep_view() =~= Seq::new(n as nat, |i: int| placeholder()));
    buffer
}

/// Whether `item` is among `list`.
fn holds(list: &Vec<String>, item: &String) -> (found: bool)
    ensures
        found == list.deep_view().contains(item@),
{
    let mut i: usize = 0;
    while i < list.len()
        invariant
            i <= list.len(),
            forall|j: int| 0 <= j < i ==> list.deep_view()[j] != item@,
        decreases list.len() - i,
    {
        if list[i] == *item {
            assert(list.deep_view()[i as int] == item@);
            return true;
        }
        i = i + 1;
    }
    false
}

/// Each of the letters folded to lower case.
pub fn fold_letters(letters: &Vec<String>) -> (lowered: Vec<String>)
    ensures
        lowered.len() == letters.len(),
        lowered.deep_view() == folded(letters.deep_view()),
{
    let mut lowered: Vec<String> = Vec::new();
    let mut i: usize = 0;
    while i < letters.len()
        invariant
            i <= letters.len(),
            lowered.len() == i,
            forall|j: int| 0 <= j < i ==> (#[trigger] lowered@[j])@ == lowercase(letters@[j]@),
        decreases letters.len() - i,
    {
        lowered.push(letters[i].as_str().to_lowercase());
        i = i + 1;
    }
    assert(lowered.deep_view() =~= folded(letters.deep_view()));
    lowered
}

/// Shows `guess` in the buffer: each slot whose folded letter is `guess` gets
/// the letter as the word spells it.
pub fn reveal_matches(
    buffer: &mut Vec<String>,
    letters: &Vec<String>,
    folded: &Vec<String>,
    guess: &String,
)
    requires
        old(buffer).len() == letters.len(),
        folded.len() == letters.len(),
    ensures
        final(buffer).deep_view() == unveiled(
            old(buffer).deep_view(),
            letters.deep_view(),
            folded.deep_view(),
            guess@,
        ),
{
    let ghost before = buffer.deep_view();
    let mut i: usize = 0;
    while i < letters.len()
        invariant
            i <= letters.len(),
            buffer.len() == letters.len(),
            folded.len() == letters.len(),
            before.len() == letters.len(),
            forall|j: int|
                0 <= j < i ==> (#[trigger] buffer@[j])@ == unveiled(
                    before,
                    letters.deep_view(),
                    folded.deep_view(),
                    guess@,
                )[j],
            forall|j: int| i <= j < letters.len() ==> (#[trigger] buffer@[j])@ == before[j],
        decreases letters.len() - i,
    {
        if folded[i] == *guess {
            buffer.set(i, letters[i].clone());
        }
        i = i + 1;
    }
    assert(buffer.deep_view() =~= unveiled(
        before,
        letters.deep_view(),
        folded.deep_view(),
        guess@,
    ));
}

/// The choice that an answer, already folded to lower case, stands for:
/// `yes` to play again, `no` to leave, anything else neither.
pub fn replay_choice(answer: &String) -> (choice: ReplayChoice)
    ensures
        choice == choice_of(answer@),
{
    if *answer == "yes".to_owned() {
        ReplayChoice::Again
    } else if *answer == "no".to_owned() {
        ReplayChoice::Quit
    } else {
        ReplayChoice::Stay
    }
}

impl Game {
    /// Whether the game is in a state that the rules allow.
    pub open spec fn wf(&self) -> bool {
        self@.wf()
    }

    /// A game that starts with the given word: ten attempts, nothing guessed,
    /// every slot a placeholder. Guesses are compared with the letters folded
    /// to lower case.
    pub fn new(word_array: Vec<String>, word: String, cheat_mode: bool) -> (game: Game)
        ensures
            game.wf(),
            game@ == GameState::fresh(
                word_array.deep_view(),
                folded(word_array.deep_view()),
                word@,
                cheat_mode,
            ),
    {
        let folded_letters = fold_letters(&word_array);
        Game::assemble(word_array, folded_letters, word, cheat_mode)
    }

    /// A game that starts with the given word, where the folded letters are
    /// given too, one per letter; there is no game where their number differs
    /// from that of the letters.
    pub fn from_parts(
        word_array: Vec<String>,
        folded_letters: Vec<String>,
        word: String,
        cheat_mode: bool,
    ) -> (made: Option<Game>)
        ensures
            made is Some <==> folded_letters.len() == word_array.len(),
            made matches Some(game) ==> game.wf() && game@ == GameState::fresh(
                word_array.deep_view(),
                folded_letters.deep_view(),
                word@,
                cheat_mode,
            ),
    {
        if folded_letters.len() != word_array.len() {
            return None;
        }
        Some(Game::assemble(word_array, folded_letters, word, cheat_mode))
    }

    fn assemble(
        word_array: Vec<String>,
        folded_letters: Vec<String>,
        word: String,
        cheat_mode: bool,
    ) -> (game: Game)
        requires
            folded_letters.len() == word_array.len(),
        ensures
            game.wf(),
            game@ == GameState::fresh(
                word_array.deep_view(),
                folded_letters.deep_view(),
                word@,
                cheat_mode,
            ),
    {
        let correct_guesses = placeholders(word_array.len());
        let game = Game {
            word_array,
            folded_letters,
            word,
            guessed_letters: Vec::new(),
            wrong_guesses: Vec::new(),
            correct_record: Vec::new(),
            correct_guesses,
            remaining_guesses: STARTING_GUESSES,
            game_won: false,
            replay: false,
            cheat_mode,
        };
        assert(game@.guessed =~= Seq::empty());
        assert(game@.wrong =~= Seq::empty());
        assert(game@.correct =~= Seq::empty());
        game
    }

    /// Starts the next game with a new word: everything is as in a first
    /// game, but the replay flag is set and cheat mode stays as it was.
    pub fn reset(&mut self, word_array: Vec<String>, word: String)
        ensures
            final(self).wf(),
            final(self)@ == old(self)@.replayed(
                word_array.deep_view(),
                folded(word_array.deep_view()),
                word@,
            ),
    {
        let mut next = Game::new(word_array, word, self.cheat_mode);
        next.replay = true;
        *self = next;
    }

    /// Reveals the letter: every slot whose letter, folded to lower case, is
    /// the given text without its ending shows that letter.
    pub fn insert_correct_letter(&mut self, correct_letter: &String)
        requires
            old(self).wf(),
        ensures
            final(self).wf(),
            final(self)@ == old(self)@.showing(without_ending(correct_letter@)),
    {
        let letter = strip_ending(correct_letter.as_str());
        reveal_matches(
            &mut self.correct_guesses,
            &self.word_array,
            &self.folded_letters,
            &letter,
        );
        proof {
            law_showing_keeps_state_valid(old(self)@, letter@);
        }
    }

    /// Evaluates a guess that is already folded to lower case. An attempt
    /// must be left.
    pub fn evaluate(&mut self, guess: String) -> (outcome: Outcome)
        requires
            old(self).wf(),
            old(self)@.remaining > 0,
        ensures
            final(self).wf(),
            final(self)@ == old(self)@.after_guess(guess@),
            outcome == old(self)@.outcome_of(guess@),
    {
        proof {
            law_guess_keeps_state_valid(old(self)@, guess@);
        }
        self.remaining_guesses = self.remaining_guesses - 1;
        if holds(&self.guessed_letters, &guess) {
            return Outcome::AlreadyGuessed;
        }
        if guess == self.word {
            self.game_won = true;
            return Outcome::WordGuessed;
        }
        let outcome = if contains(self.word.as_str(), guess.as_str()) {
            reveal_matches(
                &mut self.correct_guesses,
                &self.word_array,
                &self.folded_letters,
                &guess,
            );
            self.correct_record.push(guess.clone());
            assert(self.correct_record.deep_view() =~= old(self).correct_record.deep_view().push(
                guess@,
            ));
            Outcome::Correct
        } else {
            self.wrong_guesses.push(guess.clone());
            assert(self.wrong_guesses.deep_view() =~= old(self).wrong_guesses.deep_view().push(
                guess@,
            ));
            Outcome::Wrong
        };
        self.guessed_letters.push(guess);
        assert(self.guessed_letters.deep_view() =~= old(self).guessed_letters.deep_view().push(
            guess@,
        ));
        let mut blank = String::new();
        blank.push('_');
        if !holds(&self.correct_guesses, &blank) {
            self.game_won = true;
        }
        outcome
    }

    /// Evaluates a guess: takes off its ending, folds it to lower case, and
    /// applies the rules. An attempt must be left.
    pub fn handle_guess(&mut self, guess: String) -> (outcome: Outcome)
        requires
            old(self).wf(),
            old(self)@.remaining > 0,
        ensures
            final(self).wf(),
            final(self)@ == old(self)@.after_guess(normalized(guess@)),
            outcome == old(self)@.outcome_of(normalized(guess@)),
    {
        let folded_guess = normalize(guess.as_str());
        self.evaluate(folded_guess)
    }

    /// Where the game stands between two turns.
    pub fn phase(&self) -> (phase: Phase)
        ensures
            phase == self@.phase(),
    {
        if self.remaining_guesses == 0 {
            Phase::Terminated
        } else if self.game_won {
            Phase::Won
        } else {
            Phase::AwaitingGuess
        }
    }

    /// One turn of the game with the line that the player entered. With no
    /// attempt left, or while the game is won, the line is not looked at. A
    /// line that is no well-formed guess is rejected and costs nothing. Any
    /// other line is evaluated as a guess.
    pub fn play(&mut self, line: &str) -> (turn: Turn)
        requires
            old(self).wf(),
        ensures
            final(self).wf(),
            final(self)@ == old(self)@.after_turn(line@),
            turn == old(self)@.turn_of(line@),
    {
        match self.phase() {
            Phase::Terminated => {
                return Turn::Over;
            },
            Phase::Won => {
                return Turn::Idle;
            },
            Phase::AwaitingGuess => {},
        }
        let guess = strip_ending(line);
        let length: usize = guess.as_str().unicode_len();
        if (length == self.get_word_length() || length == 1) && !contains_digit(guess.as_str()) {
            Turn::Played(self.evaluate(guess.as_str().to_lowercase()))
        } else {
            Turn::Rejected
        }
    }

    /// Marks the game as won and says what the answer to the question whether
    /// to play again asks for. The answer is compared without its ending and
    /// folded to lower case.
    pub fn game_won(&mut self, answer: &str) -> (choice: ReplayChoice)
        requires
            old(self).wf(),
        ensures
            final(self).wf(),
            final(self)@ == (GameState { won: true, ..old(self)@ }),
            choice == choice_of(normalized(answer@)),
    {
        self.game_won = true;
        let folded_answer = normalize(answer);
        replay_choice(&folded_answer)
    }

    /// What follows a turn: `turn` is what `play` made of the line, and the
    /// game is as `play` left it.
    pub fn step_after(&self, turn: Turn) -> (step: Step)
        ensures
            step == self@.step_after(turn),
    {
        match turn {
            Turn::Played(_) => if self.game_won {
                Step::AskReplay
            } else {
                Step::ShowStatus
            },
            _ => Step::Nothing,
        }
    }

    /// What is shown before every turn.
    pub fn turn_header(&self) -> (lines: Vec<Span>)
        ensures
            lines.deep_view() == self@.header(),
    {
        let cheat = if self.cheat_mode {
            show_cheat(self.word.as_str())
        } else {
            Vec::new()
        };
        let length = if self.replay {
            show_word_length(self.get_word_length(), true)
        } else {
            Vec::new()
        };
        chain(cheat, length)
    }

    /// What is shown after a turn: `line` is the line that the player
    /// entered, `turn` what `play` made of it, and the game is as `play`
    /// left it.
    pub fn feedback(&self, line: &str, turn: Turn) -> (lines: Vec<Span>)
        ensures
            lines.deep_view() == self@.feedback(normalized(line@), turn),
    {
        let guess = normalize(line);
        match turn {
            Turn::Over => Vec::new(),
            Turn::Idle => Vec::new(),
            Turn::Rejected => show_wrong_format(guess.as_str()),
            Turn::Played(Outcome::AlreadyGuessed) => chain(
                show_guess(guess.as_str()),
                show_already_guessed(guess.as_str()),
            ),
            Turn::Played(Outcome::WordGuessed) => show_guess(guess.as_str()),
            Turn::Played(Outcome::Wrong) => chain(
                chain(show_guess(guess.as_str()), show_wrong(guess.as_str())),
                self.print_hangman_output(),
            ),
            Turn::Played(Outcome::Correct) => chain(
                chain(show_guess(guess.as_str()), show_correct()),
                self.print_hangman_output(),
            ),
        }
    }

    /// The line that announces the length of the word.
    pub fn display_word_length(&self) -> (line: Vec<Span>)
        ensures
            line.deep_view() == word_length_line(self@.word_length(), self@.replay),
    {
        show_word_length(self.get_word_length(), self.replay)
    }

    /// The start of the status line: the attempts that are left.
    pub fn display_gusses_left(&self) -> (line: Vec<Span>)
        ensures
            line.deep_view() == guesses_left_line(self@.remaining),
    {
        show_guesses_left(self.remaining_guesses)
    }

    /// The rest of the status line: the wrong guesses.
    pub fn display_wrong_guesses(&self) -> (line: Vec<Span>)
        ensures
            line.deep_view() == wrong_guesses_line(self@.wrong),
    {
        show_wrong_guesses(&self.wrong_guesses)
    }

    /// The line of the word: the reveal buffer, slot by slot.
    pub fn print_hangman_output(&self) -> (line: Vec<Span>)
        ensures
            line.deep_view() == hangman_line(self@.revealed),
    {
        show_hangman(&self.correct_guesses)
    }

    /// The number of slots of the word.
    pub fn get_word_length(&self) -> (length: usize)
        ensures
            length == self@.word_length(),
    {
        self.word_array.len()
    }

    /// The letters of the word as they are shown.
    pub fn word_array(&self) -> (letters: &Vec<String>)
        ensures
            letters.deep_view() == self@.letters,
    {
        &self.word_array
    }

    /// The letters folded to lower case, as guesses are compared with them.
    pub fn folded_letters(&self) -> (letters: &Vec<String>)
        ensures
            letters.deep_view() == self@.folded,
    {
        &self.folded_letters
    }

    /// The secret word.
    pub fn word(&self) -> (word: &String)
        ensures
            word@ == self@.word,
    {
        &self.word
    }

    /// The guesses that were recorded, in the order they were made.
    pub fn guessed_letters(&self) -> (guesses: &Vec<String>)
        ensures
            guesses.deep_view() == self@.guessed,
    {
        &self.guessed_letters
    }

    /// The wrong guesses, in the order they were made.
    pub fn wrong_guesses(&self) -> (guesses: &Vec<String>)
        ensures
            guesses.deep_view() == self@.wrong,
    {
        &self.wrong_guesses
    }

    /// The record of correct guesses, in the order they were made.
    pub fn correct_record(&self) -> (guesses: &Vec<String>)
        ensures
            guesses.deep_view() == self@.correct,
    {
        &self.correct_record
    }

    /// The reveal buffer.
    pub fn correct_guesses(&self) -> (buffer: &Vec<String>)
        ensures
            buffer.deep_view() == self@.revealed,
    {
        &self.correct_guesses
    }

    /// The attempts that are left.
    pub fn remaining_guesses(&self) -> (remaining: usize)
        ensures
            remaining == self@.remaining,
    {
        self.remaining_guesses
    }

    /// Whether the game is won.
    pub fn is_won(&self) -> (won: bool)
        ensures
            won == self@.won,
    {
        self.game_won
    }

    /// Whether this is a game after the first one.
    pub fn is_replay(&self) -> (replay: bool)
        ensures
            replay == self@.replay,
    {
        self.replay
    }

    /// Whether the secret word is shown on every turn.
    pub fn cheat_mode(&self) -> (cheat: bool)
        ensures
            cheat == self@.cheat,
    {
        self.cheat_mode
    }
}

} // verus!
