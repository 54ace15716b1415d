//! Hangman: the rules of a word-guessing game, stated and proved.
//!
//! The library holds everything the game decides and everything it says: how
//! the reply of a word service becomes a secret word (`word`), which lines are
//! well-formed guesses and what a guess does to the state of a game (`game`),
//! which lines of text are shown and in which styles (`display`), and what the
//! arguments of the program ask for (`startup`). What holds of every game is
//! proved in `laws`. Reading lines, fetching the word and writing to the
//! terminal are left to the program around the library.

pub mod display;
pub mod game;
pub mod laws;
pub mod startup;
pub mod text;
pub mod word;
