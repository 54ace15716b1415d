//! From the reply of the word service to the secret word.
//!
//! The service answers with a small body that holds one `word` field. The word
//! is what stands between the first colon of the body and the next one, or the
//! end; quotes, closing braces and spaces in it are noise.

use crate::text::{chars_of, lowercase, string_of, uppercase};
use vstd::prelude::*;
use vstd::string::*;

verus! {

/// The status code with which the service hands out a word.
pub const STATUS_OK: u16 = 200;

/// The number of characters of `s` before its first colon; the length of `s`
/// where it holds none.
pub open spec fn first_colon(s: Seq<char>) -> nat
    decreases s.len(),
{
    if s.len() == 0 || s[0] == ':' {
        0
    } else {
        1 + first_colon(s.skip(1))
    }
}

/// What stands between the first colon of `body` and the next one, or the end
/// of `body`; nothing where `body` holds no colon.
pub open spec fn word_field(body: Seq<char>) -> Option<Seq<char>> {
    let colon = first_colon(body);
    if colon >= body.len() {
        None
    } else {
        let rest = body.skip(colon as int + 1);
        Some(rest.take(first_colon(rest) as int))
    }
}

/// Whether `c` is noise around the word: a double quote, a closing brace or a
/// space.
pub open spec fn is_noise(c: char) -> bool {
    c == '"' || c == '}' || c == ' '
}

/// `s` without its noise characters; the others stay, in order.
pub open spec fn without_noise(s: Seq<char>) -> Seq<char>
    decreases s.len(),
{
    if s.len() == 0 {
        s
    } else if is_noise(s.last()) {
        without_noise(s.drop_last())
    } else {
        without_noise(s.drop_last()).push(s.last())
    }
}

/// The word field of `body` without its noise; nothing where `body` holds no
/// colon.
pub open spec fn word_text(body: Seq<char>) -> Option<Seq<char>> {
    match word_field(body) {
        Some(field) => Some(without_noise(field)),
        None => None,
    }
}

/// One entry per character of `word`, each holding that character alone.
pub open spec fn spelled(word: Seq<char>) -> Seq<Seq<char>> {
    Seq::new(word.len(), |i: int| seq![word[i]])
}

/// The first character of `word` alone; nothing where `word` is empty.
pub open spec fn initial(word: Seq<char>) -> Seq<char> {
    if word.len() == 0 {
        word
    } else {
        word.take(1)
    }
}

/// The letters and the word that a word, already folded to lower case,
/// stands for, where `capital` is its first letter raised to upper case: the
/// letters spell the word, with the capital in place of the first. An empty
/// word stands for nothing.
pub open spec fn paired(word: Seq<char>, capital: Seq<char>) -> Option<
    (Seq<Seq<char>>, Seq<char>),
> {
    if word.len() == 0 {
        None
    } else {
        Some((spelled(word).update(0, capital), word))
    }
}

/// The letters and the word that a body stands for: the word is the body's
/// word text folded to lower case, the letters spell it with a capital first
/// letter. A body without a colon, or with an empty word, stands for nothing.
pub open spec fn parsed(body: Seq<char>) -> Option<(Seq<Seq<char>>, Seq<char>)> {
    match word_text(body) {
        None => None,
        Some(text) => paired(lowercase(text), uppercase(initial(lowercase(text)))),
    }
}

/// The pair that stands for a failed fetch: one empty letter, and the empty
/// word.
pub open spec fn failed() -> (Seq<Seq<char>>, Seq<char>) {
    (seq![Seq::<char>::empty()], Seq::<char>::empty())
}

/// What a reply of the service stands for: with the status of success, what
/// its body holds; with any other status, the pair of a failed fetch.
pub open spec fn fetched(status: u16, body: Seq<char>) -> Option<(Seq<Seq<char>>, Seq<char>)> {
    if status == STATUS_OK {
        parsed(body)
    } else {
        Some(failed())
    }
}

/// What came of asking the word service for a word.
#[derive(Debug, PartialEq, Eq)]
pub enum Fetch {
    /// No reply came: the request failed on the way.
    NoReply,
    /// A reply came, with this status and this body. The body counts only
    /// where the status is that of success.
    Reply { status: u16, body: String },
}

/// What the outcome of a fetch stands for: without a reply, the pair of a
/// failed fetch; with one, what the reply stands for.
pub open spec fn fetched_from(fetch: Fetch) -> Option<(Seq<Seq<char>>, Seq<char>)> {
    match fetch {
        Fetch::NoReply => Some(failed()),
        Fetch::Reply { status, body } => fetched(status, body@),
    }
}

/// The characters of a pair of letters and word.
pub open spec fn pair_view(pair: (Vec<String>, String)) -> (Seq<Seq<char>>, Seq<char>) {
    (pair.0.deep_view(), pair.1@)
}

/// The characters of a pair of letters and word, where there is one.
pub open spec fn word_view(pair: Option<(Vec<String>, String)>) -> Option<
    (Seq<Seq<char>>, Seq<char>),
> {
    match pair {
        Some(p) => Some(pair_view(p)),
        None => None,
    }
}

/// The characters of a text, where there is one.
pub open spec fn text_view(text: Option<String>) -> Option<Seq<char>> {
    match text {
        Some(t) => Some(t@),
        None => None,
    }
}

proof fn lemma_first_colon(s: Seq<char>, at: int)
    requires
        0 <= at <= s.len(),
        forall|j: int| 0 <= j < at ==> s[j] != ':',
        at < s.len() ==> s[at] == ':',
    ensures
        first_colon(s) == at,
    decreases at,
{
    if at > 0 {
        lemma_first_colon(s.skip(1), at - 1);
    }
}

/// The position of the first colon at or after `from`; the length where there
/// is none.
fn find_colon(chars: &Vec<char>, from: usize) -> (at: usize)
    requires
        from <= chars.len(),
    ensures
        from <= at <= chars.len(),
        first_colon(chars@.skip(from as int)) == at - from,
{
    let mut at: usize = from;
    while at < chars.len() && chars[at] != ':'
        invariant
            from <= at <= chars.len(),
            forall|j: int| from <= j < at ==> chars@[j] != ':',
        decreases chars.len() - at,
    {
        at = at + 1;
    }
    proof {
        lemma_first_colon(chars@.skip(from as int), at - from);
    }
    at
}

/// Whether the service handed out a word with this status code.
pub fn accepts_status(status: u16) -> (accepted: bool)
    ensures
        accepted == (status == STATUS_OK),
{
    status == STATUS_OK
}

/// The word text of a body: what stands between its first colon and the next
/// one, or the end, without quotes, closing braces and spaces.
pub fn word_value(body: &str) -> (text: Option<String>)
    ensures
        text_view(text) == word_text(body@),
{
    let chars = chars_of(body);
    let colon = find_colon(&chars, 0);
    assert(chars@.skip(0) == chars@);
    if colon >= chars.len() {
        return None;
    }
    let start: usize = colon + 1;
    let end = find_colon(&chars, start);
    let ghost field = body@.skip(start as int).take(end - start);
    let mut kept: Vec<char> = Vec::new();
    let mut i: usize = start;
    while i < end
        invariant
            start <= i <= end <= chars.len(),
            chars@ == body@,
            kept@ == without_noise(body@.subrange(start as int, i as int)),
        decreases end - i,
    {
        let c: char = chars[i];
        assert(body@.subrange(start as int, i + 1).drop_last() == body@.subrange(
            start as int,
            i as int,
        ));
        if !(c == '"' || c == '}' || c == ' ') {
            kept.push(c);
        }
        i = i + 1;
    }
    assert(field == body@.subrange(start as int, end as int));
    Some(string_of(&kept))
}

/// One text per character of `word`, each holding that character alone.
pub fn spell(word: &str) -> (letters: Vec<String>)
    ensures
        letters.deep_view() == spelled(word@),
{
    let chars = chars_of(word);
    let mut letters: Vec<String> = Vec::new();
    let mut i: usize = 0;
    while i < chars.len()
        invariant
            i <= chars.len(),
            letters.len() == i,
            forall|j: int| 0 <= j < i ==> (#[trigger] letters@[j])@ == seq![chars@[j]],
        decreases chars.len() - i,
    {
        let mut letter = String::new();
        letter.push(chars[i]);
        letters.push(letter);
        i = i + 1;
    }
    assert(letters.deep_view() =~= spelled(word@));
    letters
}

/// The first character of `word` as a text of its own; the empty text where
/// `word` is empty.
pub fn first_letter(word: &str) -> (letter: String)
    ensures
        letter@ == initial(word@),
{
    let mut chars = chars_of(word);
    if chars.len() > 1 {
        chars.truncate(1);
    }
    assert(chars@ =~= initial(word@));
    string_of(&chars)
}

/// The letters and the word that a word, already folded to lower case,
/// stands for, where `capital` is its first letter raised to upper case.
pub fn word_pair(word: String, capital: String) -> (pair: Option<(Vec<String>, String)>)
    ensures
        word_view(pair) == paired(word@, capital@),
{
    let mut letters = spell(word.as_str());
    assert(letters.deep_view().len() == word@.len());
    if letters.len() == 0 {
        return None;
    }
    letters.set(0, capital);
    assert(letters.deep_view() =~= spelled(word@).update(0, capital@));
    Some((letters, word))
}

/// The letters and the word that a body of the service stands for.
pub fn parse_word(body: &str) -> (pair: Option<(Vec<String>, String)>)
    ensures
        word_view(pair) == parsed(body@),
{
    match word_value(body) {
        None => None,
        Some(text) => {
            let word = text.as_str().to_lowercase();
            let capital = first_letter(word.as_str()).as_str().to_uppercase();
            word_pair(word, capital)
        },
    }
}

/// The pair that stands for a failed fetch.
pub fn failed_word() -> (pair: (Vec<String>, String))
    ensures
        pair_view(pair) == failed(),
{
    let mut letters: Vec<String> = Vec::new();
    letters.push(String::new());
    assert(letters.deep_view() =~= seq![Seq::<char>::empty()]);
    (letters, String::new())
}

/// The letters and the word that a reply of the service stands for. The body
/// is looked at only where the status is that of success; nothing comes back
/// where the body of a successful reply holds no word.
pub fn word_of_reply(status: u16, body: &str) -> (pair: Option<(Vec<String>, String)>)
    ensures
        word_view(pair) == fetched(status, body@),
{
    if accepts_status(status) {
        parse_word(body)
    } else {
        Some(failed_word())
    }
}

/// Whether the fetch brought a word: a reply came, with the status of
/// success.
pub fn brought_word(fetch: &Fetch) -> (brought: bool)
    ensures
        brought == (fetch matches Fetch::Reply { status, .. } && status == STATUS_OK),
{
    match fetch {
        Fetch::NoReply => false,
        Fetch::Reply { status, .. } => accepts_status(*status),
    }
}

/// The letters and the word that the outcome of a fetch stands for. A fetch
/// without a reply, or with a reply of another status than success, gives the
/// pair of a failed fetch. Nothing comes back where the body of a successful
/// reply holds no word.
pub fn get_random_word(fetch: &Fetch) -> (pair: Option<(Vec<String>, String)>)
    ensures
        word_view(pair) == fetched_from(*fetch),
{
    match fetch {
        Fetch::NoReply => Some(failed_word()),
        Fetch::Reply { status, body } => word_of_reply(*status, body.as_str()),
    }
}

} // verus!
