//! What the game shows, as pieces of text with a style each.
//!
//! A line is a list of spans, which are written one after the other, each in
//! its style; a span that ends a line holds the line feed. Which spans a line
//! has is stated exactly. `render` gives the text that goes to the terminal,
//! with the styles as the `colored` crate paints them: whether it paints at
//! all is for the terminal to say, but the text of a span is shown either
//! way.

use crate::text::{decimal, decimal_string, occurs_in};
use colored::{ColoredString, Colorize};
use vstd::prelude::*;
use vstd::string::*;

verus! {

/// How a piece of text is to be shown.
#[derive(Clone, Copy, Debug, PartialEq, Eq, Structural)]
pub enum Style {
    /// As the terminal shows text by default.
    Plain,
    /// In blue: the numbers.
    Blue,
    /// In red: the wrong guesses.
    Red,
    /// In bold: the slots of the word, and the guess as it is echoed.
    Bold,
    /// In red and underlined: the guess in a complaint.
    RedUnderline,
    /// In green: the announcement of a win.
    Green,
    /// In bright green: the praise for a letter that was found.
    BrightGreen,
    /// In bright blue: the word for playing again.
    BrightBlue,
    /// In bright magenta: the warning that cheat mode is on.
    BrightMagenta,
    /// In bold and bright cyan: the secret word in cheat mode.
    BoldBrightCyan,
}

/// A piece of text and its style.
#[derive(Debug, PartialEq, Eq)]
pub struct Span {
    pub text: String,
    pub style: Style,
}

/// A piece of text and its style, as mathematics.
pub struct SpanText {
    pub text: Seq<char>,
    pub style: Style,
}

impl DeepView for Span {
    type V = SpanText;

    open spec fn deep_view(&self) -> SpanText {
        SpanText { text: self.text@, style: self.style }
    }
}

/// `text` in the default style.
pub open spec fn plain(text: Seq<char>) -> SpanText {
    SpanText { text, style: Style::Plain }
}

/// `text` in blue.
pub open spec fn blue(text: Seq<char>) -> SpanText {
    SpanText { text, style: Style::Blue }
}

/// `text` in red.
pub open spec fn red(text: Seq<char>) -> SpanText {
    SpanText { text, style: Style::Red }
}

/// `text` in bold.
pub open spec fn bold(text: Seq<char>) -> SpanText {
    SpanText { text, style: Style::Bold }
}

/// `text` in the given style.
pub open spec fn styled(style: Style, text: Seq<char>) -> SpanText {
    SpanText { text, style }
}

/// The line that announces the length of the word: a welcome in the first
/// game, a shorter sentence in every later one.
pub open spec fn word_length_line(length: nat, replay: bool) -> Seq<SpanText> {
    if replay {
        seq![plain("This time its "@), blue(decimal(length)), plain(" letters!\n"@)]
    } else {
        seq![
            plain("Welcome to Hangman! The word is "@),
            blue(decimal(length)),
            plain(" letters long\n"@),
        ]
    }
}

/// The start of the status line: the attempts that are left.
pub open spec fn guesses_left_line(remaining: nat) -> Seq<SpanText> {
    seq![blue(decimal(remaining)), plain(" guesses left"@)]
}

/// The spans of the wrong guess at position `i`: a guess that others follow
/// has a space before it and a bar after it; the last one stands between two
/// spaces, unless it is the only one, which stands alone.
pub open spec fn wrong_guess_item(wrong: Seq<Seq<char>>, i: int) -> Seq<SpanText> {
    if i + 1 < wrong.len() {
        seq![plain(" "@), red(wrong[i]), plain(" |"@)]
    } else if i == 0 {
        seq![red(wrong[i])]
    } else {
        seq![plain(" "@), red(wrong[i]), plain(" "@)]
    }
}

/// The rest of the status line up to and with the first `n` wrong guesses.
pub open spec fn wrong_guesses_upto(wrong: Seq<Seq<char>>, n: nat) -> Seq<SpanText>
    decreases n,
{
    if n == 0 {
        seq![plain(" | Wrong guesses: ["@)]
    } else {
        wrong_guesses_upto(wrong, (n - 1) as nat) + wrong_guess_item(wrong, n - 1)
    }
}

/// The rest of the status line: the wrong guesses in the order they were
/// made, in square brackets.
pub open spec fn wrong_guesses_line(wrong: Seq<Seq<char>>) -> Seq<SpanText> {
    wrong_guesses_upto(wrong, wrong.len()).push(plain("]\n"@))
}

/// The line of the word: every slot of the buffer in bold, one after the
/// other.
pub open spec fn hangman_line(buffer: Seq<Seq<char>>) -> Seq<SpanText> {
    Seq::new(buffer.len(), |i: int| bold(buffer[i])).push(plain("\n"@))
}

/// The question for the next guess. No line feed follows it.
pub open spec fn prompt_line() -> Seq<SpanText> {
    seq![plain("Guess a letter or word: "@)]
}

/// The line that gives the secret word away in cheat mode.
pub open spec fn cheat_line(word: Seq<char>) -> Seq<SpanText> {
    seq![
        styled(Style::BrightMagenta, "CHEAT MODE ON!"@),
        plain(" | "@),
        styled(Style::BoldBrightCyan, "WORD IS: "@ + word),
        plain("\n"@),
    ]
}

/// The line that echoes a guess.
pub open spec fn guess_line(guess: Seq<char>) -> Seq<SpanText> {
    seq![plain("You guessed: "@), bold(guess), plain("\n"@)]
}

/// The line that tells of a repeated guess.
pub open spec fn already_guessed_line(guess: Seq<char>) -> Seq<SpanText> {
    seq![
        red("Already guessed "@),
        plain("`"@),
        styled(Style::RedUnderline, guess),
        plain("`\n"@),
    ]
}

/// The line that tells of a guess that is not in the word.
pub open spec fn wrong_line(guess: Seq<char>) -> Seq<SpanText> {
    seq![
        red("Wrong! "@),
        styled(Style::RedUnderline, guess),
        red(" is not in word"@),
        plain("\n"@),
    ]
}

/// The line that tells of a guess that is in the word.
pub open spec fn correct_line() -> Seq<SpanText> {
    seq![styled(Style::BrightGreen, "Correct!"@), plain("\n"@)]
}

/// The two lines that announce a win and ask whether to play again.
pub open spec fn won_lines() -> Seq<SpanText> {
    seq![
        styled(Style::Green, "You won the game!"@),
        plain("\nPlay again? "@),
        styled(Style::BrightBlue, "Yes"@),
        plain(" "@),
        red("No"@),
        plain("\n"@),
    ]
}

/// The line that tells of a line that is no well-formed guess.
pub open spec fn wrong_format_line(guess: Seq<char>) -> Seq<SpanText> {
    seq![
        red("Wrong input format:"@),
        plain(" "@),
        styled(Style::RedUnderline, guess),
        plain("\n"@),
    ]
}

/// The line that tells of too many arguments, with their number.
pub open spec fn too_many_arguments_line(count: nat) -> Seq<SpanText> {
    seq![red("Too many arguments: "@ + decimal(count)), plain("\n"@)]
}

fn span(text: &str, style: Style) -> (piece: Span)
    ensures
        piece.deep_view() == (SpanText { text: text@, style }),
{
    Span { text: text.to_owned(), style }
}

/// The line that announces the length of the word.
pub fn show_word_length(length: usize, replay: bool) -> (line: Vec<Span>)
    ensures
        line.deep_view() == word_length_line(length as nat, replay),
{
    let number = decimal_string(length);
    let mut line: Vec<Span> = Vec::new();
    if replay {
        line.push(span("This time its ", Style::Plain));
        line.push(span(number.as_str(), Style::Blue));
        line.push(span(" letters!\n", Style::Plain));
    } else {
        line.push(span("Welcome to Hangman! The word is ", Style::Plain));
        line.push(span(number.as_str(), Style::Blue));
        line.push(span(" letters long\n", Style::Plain));
    }
    assert(line.deep_view() =~= word_length_line(length as nat, replay));
    line
}

/// The start of the status line.
pub fn show_guesses_left(remaining: usize) -> (line: Vec<Span>)
    ensures
        line.deep_view() == guesses_left_line(remaining as nat),
{
    let number = decimal_string(remaining);
    let mut line: Vec<Span> = Vec::new();
    line.push(span(number.as_str(), Style::Blue));
    line.push(span(" guesses left", Style::Plain));
    assert(line.deep_view() =~= guesses_left_line(remaining as nat));
    line
}

/// The rest of the status line.
pub fn show_wrong_guesses(wrong: &Vec<String>) -> (line: Vec<Span>)
    ensures
        line.deep_view() == wrong_guesses_line(wrong.deep_view()),
{
    let ghost guesses = wrong.deep_view();
    let n: usize = wrong.len();
    let mut line: Vec<Span> = Vec::new();
    line.push(span(" | Wrong guesses: [", Style::Plain));
    assert(line.deep_view() =~= wrong_guesses_upto(guesses, 0));
    let mut i: usize = 0;
    while i < n
        invariant
            n == wrong.len(),
            i <= n,
            guesses == wrong.deep_view(),
            line.deep_view() == wrong_guesses_upto(guesses, i as nat),
        decreases n - i,
    {
        let ghost before = line.deep_view();
        if i + 1 < n {
            line.push(span(" ", Style::Plain));
            line.push(span(wrong[i].as_str(), Style::Red));
            line.push(span(" |", Style::Plain));
        } else if i == 0 {
            line.push(span(wrong[i].as_str(), Style::Red));
        } else {
            line.push(span(" ", Style::Plain));
            line.push(span(wrong[i].as_str(), Style::Red));
            line.push(span(" ", Style::Plain));
        }
        assert(line.deep_view() =~= before + wrong_guess_item(guesses, i as int));
        i = i + 1;
    }
    let ghost before = line.deep_view();
    line.push(span("]\n", Style::Plain));
    assert(line.deep_view() =~= before.push(plain("]\n"@)));
    line
}

/// The line of the word.
pub fn show_hangman(buffer: &Vec<String>) -> (line: Vec<Span>)
    ensures
        line.deep_view() == hangman_line(buffer.deep_view()),
{
    let mut line: Vec<Span> = Vec::new();
    let mut i: usize = 0;
    while i < buffer.len()
        invariant
            i <= buffer.len(),
            line.len() == i,
            forall|j: int| 0 <= j < i ==> (#[trigger] line@[j]).deep_view() == bold(buffer@[j]@),
        decreases buffer.len() - i,
    {
        line.push(span(buffer[i].as_str(), Style::Bold));
        i = i + 1;
    }
    line.push(span("\n", Style::Plain));
    assert(line.deep_view() =~= hangman_line(buffer.deep_view()));
    line
}

/// The question for the next guess.
pub fn show_prompt() -> (line: Vec<Span>)
    ensures
        line.deep_view() == prompt_line(),
{
    let mut line: Vec<Span> = Vec::new();
    line.push(span("Guess a letter or word: ", Style::Plain));
    assert(line.deep_view() =~= prompt_line());
    line
}

/// The line that gives the secret word away in cheat mode.
pub fn show_cheat(word: &str) -> (line: Vec<Span>)
    ensures
        line.deep_view() == cheat_line(word@),
{
    let mut secret = "WORD IS: ".to_owned();
    secret.append(word);
    let mut line: Vec<Span> = Vec::new();
    line.push(span("CHEAT MODE ON!", Style::BrightMagenta));
    line.push(span(" | ", Style::Plain));
    line.push(span(secret.as_str(), Style::BoldBrightCyan));
    line.push(span("\n", Style::Plain));
    assert(line.deep_view() =~= cheat_line(word@));
    line
}

/// The line that echoes a guess.
pub fn show_guess(guess: &str) -> (line: Vec<Span>)
    ensures
        line.deep_view() == guess_line(guess@),
{
    let mut line: Vec<Span> = Vec::new();
    line.push(span("You guessed: ", Style::Plain));
    line.push(span(guess, Style::Bold));
    line.push(span("\n", Style::Plain));
    assert(line.deep_view() =~= guess_line(guess@));
    line
}

/// The line that tells of a repeated guess.
pub fn show_already_guessed(guess: &str) -> (line: Vec<Span>)
    ensures
        line.deep_view() == already_guessed_line(guess@),
{
    let mut line: Vec<Span> = Vec::new();
    line.push(span("Already guessed ", Style::Red));
    line.push(span("`", Style::Plain));
    line.push(span(guess, Style::RedUnderline));
    line.push(span("`\n", Style::Plain));
    assert(line.deep_view() =~= already_guessed_line(guess@));
    line
}

/// The line that tells of a guess that is not in the word.
pub fn show_wrong(guess: &str) -> (line: Vec<Span>)
    ensures
        line.deep_view() == wrong_line(guess@),
{
    let mut line: Vec<Span> = Vec::new();
    line.push(span("Wrong! ", Style::Red));
    line.push(span(guess, Style::RedUnderline));
    line.push(span(" is not in word", Style::Red));
    line.push(span("\n", Style::Plain));
    assert(line.deep_view() =~= wrong_line(guess@));
    line
}

/// The line that tells of a guess that is in the word.
pub fn show_correct() -> (line: Vec<Span>)
    ensures
        line.deep_view() == correct_line(),
{
    let mut line: Vec<Span> = Vec::new();
    line.push(span("Correct!", Style::BrightGreen));
    line.push(span("\n", Style::Plain));
    assert(line.deep_view() =~= correct_line());
    line
}

/// The two lines that announce a win and ask whether to play again.
pub fn show_won() -> (line: Vec<Span>)
    ensures
        line.deep_view() == won_lines(),
{
    let mut line: Vec<Span> = Vec::new();
    line.push(span("You won the game!", Style::Green));
    line.push(span("\nPlay again? ", Style::Plain));
    line.push(span("Yes", Style::BrightBlue));
    line.push(span(" ", Style::Plain));
    line.push(span("No", Style::Red));
    line.push(span("\n", Style::Plain));
    assert(line.deep_view() =~= won_lines());
    line
}

/// The line that tells of a line that is no well-formed guess.
pub fn show_wrong_format(guess: &str) -> (line: Vec<Span>)
    ensures
        line.deep_view() == wrong_format_line(guess@),
{
    let mut line: Vec<Span> = Vec::new();
    line.push(span("Wrong input format:", Style::Red));
    line.push(span(" ", Style::Plain));
    line.push(span(guess, Style::RedUnderline));
    line.push(span("\n", Style::Plain));
    assert(line.deep_view() =~= wrong_format_line(guess@));
    line
}

/// The line that tells of too many arguments, with their number.
pub fn show_too_many_arguments(count: usize) -> (line: Vec<Span>)
    ensures
        line.deep_view() == too_many_arguments_line(count as nat),
{
    let mut complaint = "Too many arguments: ".to_owned();
    complaint.append(decimal_string(count).as_str());
    let mut line: Vec<Span> = Vec::new();
    line.push(span(complaint.as_str(), Style::Red));
    line.push(span("\n", Style::Plain));
    assert(line.deep_view() =~= too_many_arguments_line(count as nat));
    line
}

/// One line after the other.
pub fn chain(first: Vec<Span>, second: Vec<Span>) -> (both: Vec<Span>)
    ensures
        both.deep_view() == first.deep_view() + second.deep_view(),
{
    let mut both = first;
    let mut rest = second;
    both.append(&mut rest);
    assert(both.deep_view() =~= first.deep_view() + second.deep_view());
    both
}

/// The pieces of text written one after the other.
pub open spec fn joined(pieces: Seq<Seq<char>>) -> Seq<char>
    decreases pieces.len(),
{
    if pieces.len() == 0 {
        Seq::empty()
    } else {
        joined(pieces.drop_last()) + pieces.last()
    }
}

/// The escape sequence that ends every style.
pub open spec fn reset_sequence() -> Seq<char> {
    seq!['\x1B', '[', '0', 'm']
}

/// Whether `out` shows `text`: it is the text itself, as with colours off, or
/// it ends with the text and the reset sequence after it, as with colours on.
/// Nothing is said of a text that holds a reset sequence itself.
pub open spec fn shows(text: Seq<char>, out: Seq<char>) -> bool {
    ||| out == text
    ||| occurs_in(reset_sequence(), text)
    ||| out.len() >= text.len() + reset_sequence().len() && out.subrange(
        out.len() - text.len() - reset_sequence().len(),
        out.len() as int,
    ) == text + reset_sequence()
}

/// Whether `pieces` can be what the spans of `line` look like when painted:
/// there is one piece per span, each piece shows the text of its span, and a
/// span in the default style is its own text.
pub open spec fn paints(line: Seq<SpanText>, pieces: Seq<Seq<char>>) -> bool {
    &&& pieces.len() == line.len()
    &&& forall|i: int| 0 <= i < line.len() ==> shows((#[trigger] line[i]).text, pieces[i])
    &&& forall|i: int|
        0 <= i < line.len() && (#[trigger] line[i]).style == Style::Plain ==> pieces[i]
            == line[i].text
}

/// The text that a `colored::ColoredString` holds: its field `input`.
pub uninterp spec fn held_text(piece: ColoredString) -> Seq<char>;

/// `colored::ColoredString`: a text together with the colour and the style
/// that the crate is to show it in. Of a value of it only the text that it
/// holds is spoken of here; it is made by one call into the crate and handed
/// to the next.
#[verifier::external_type_specification]
#[verifier::external_body]
pub struct ExColoredString(colored::ColoredString);

/// `Colorize::blue` on a text: the piece holds the text.
#[verifier::external_body]
fn in_blue(text: &str) -> (piece: ColoredString)
    ensures
        held_text(piece) == text@,
{
    text.blue()
}

/// `Colorize::red` on a text: the piece holds the text.
#[verifier::external_body]
fn in_red(text: &str) -> (piece: ColoredString)
    ensures
        held_text(piece) == text@,
{
    text.red()
}

/// `Colorize::bold` on a text: the piece holds the text.
#[verifier::external_body]
fn in_bold(text: &str) -> (piece: ColoredString)
    ensures
        held_text(piece) == text@,
{
    text.bold()
}

/// `Colorize::green` on a text: the piece holds the text.
#[verifier::external_body]
fn in_green(text: &str) -> (piece: ColoredString)
    ensures
        held_text(piece) == text@,
{
    text.green()
}

/// `Colorize::bright_green` on a text: the piece holds the text.
#[verifier::external_body]
fn in_bright_green(text: &str) -> (piece: ColoredString)
    ensures
        held_text(piece) == text@,
{
    text.bright_green()
}

/// `Colorize::bright_blue` on a text: the piece holds the text.
#[verifier::external_body]
fn in_bright_blue(text: &str) -> (piece: ColoredString)
    ensures
        held_text(piece) == text@,
{
    text.bright_blue()
}

/// `Colorize::bright_magenta` on a text: the piece holds the text.
#[verifier::external_body]
fn in_bright_magenta(text: &str) -> (piece: ColoredString)
    ensures
        held_text(piece) == text@,
{
    text.bright_magenta()
}

/// `Colorize::underline` on a piece that has its colour: the text that the
/// piece holds stays.
#[verifier::external_body]
fn underlined(piece: ColoredString) -> (lined: ColoredString)
    ensures
        held_text(lined) == held_text(piece),
{
    piece.underline()
}

/// `Colorize::bright_cyan` on a piece that has its style: the text that the
/// piece holds stays.
#[verifier::external_body]
fn in_bright_cyan(piece: ColoredString) -> (tinted: ColoredString)
    ensures
        held_text(tinted) == held_text(piece),
{
    piece.bright_cyan()
}

/// The `Display` of `ColoredString`, through `to_string`. With colours off,
/// the crate writes the text as it is; with colours on, it writes one escape
/// sequence before the text and the reset sequence after it, and repeats the
/// first after every reset sequence that the text itself holds. Which it does
/// depends on the terminal and the environment; either way the result shows
/// the text that the piece holds.
#[verifier::external_body]
fn written(piece: &ColoredString) -> (text: String)
    ensures
        shows(held_text(*piece), text@),
{
    piece.to_string()
}

/// The span as it goes to the terminal. In the default style that is its
/// text; in any other style it is what `colored` writes for the text in that
/// style, which shows the text.
pub fn paint(piece: &Span) -> (painted: String)
    ensures
        shows(piece.text@, painted@),
        piece.style == Style::Plain ==> painted@ == piece.text@,
{
    let text = piece.text.as_str();
    match piece.style {
        Style::Plain => piece.text.clone(),
        Style::Blue => written(&in_blue(text)),
        Style::Red => written(&in_red(text)),
        Style::Bold => written(&in_bold(text)),
        Style::RedUnderline => written(&underlined(in_red(text))),
        Style::Green => written(&in_green(text)),
        Style::BrightGreen => written(&in_bright_green(text)),
        Style::BrightBlue => written(&in_bright_blue(text)),
        Style::BrightMagenta => written(&in_bright_magenta(text)),
        Style::BoldBrightCyan => written(&in_bright_cyan(in_bold(text))),
    }
}

/// The pieces of text written one after the other.
pub fn join(pieces: &Vec<String>) -> (text: String)
    ensures
        text@ == joined(pieces.deep_view()),
{
    let mut text = String::new();
    let mut i: usize = 0;
    while i < pieces.len()
        invariant
            i <= pieces.len(),
            text@ == joined(pieces.deep_view().take(i as int)),
        decreases pieces.len() - i,
    {
        assert(pieces.deep_view().take(i + 1).drop_last() == pieces.deep_view().take(i as int));
        text.append(pieces[i].as_str());
        i = i + 1;
    }
    assert(pieces.deep_view().take(pieces.len() as int) == pieces.deep_view());
    text
}

/// The line as it goes to the terminal: its spans, painted, one after the
/// other.
pub fn render(line: &Vec<Span>) -> (text: String)
    ensures
        exists|pieces: Seq<Seq<char>>|
            #[trigger] paints(line.deep_view(), pieces) && text@ == joined(pieces),
{
    let mut pieces: Vec<String> = Vec::new();
    let mut i: usize = 0;
    while i < line.len()
        invariant
            i <= line.len(),
            pieces.len() == i,
            forall|j: int| 0 <= j < i ==> shows((#[trigger] line@[j]).text@, pieces@[j]@),
            forall|j: int|
                0 <= j < i && (#[trigger] line@[j]).style == Style::Plain ==> pieces@[j]@
                    == line@[j].text@,
        decreases line.len() - i,
    {
        pieces.push(paint(&line[i]));
        i = i + 1;
    }
    assert(paints(line.deep_view(), pieces.deep_view()));
    join(&pieces)
}

} // verus!
