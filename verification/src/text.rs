//! Text helpers over the characters of a string.

use vstd::prelude::*;
use vstd::string::*;

verus! {

/// The characters that `str::to_lowercase` returns for a string of the
/// characters `s`.
pub uninterp spec fn lowercase(s: Seq<char>) -> Seq<char>;

/// The characters that `str::to_uppercase` returns for a string of the
/// characters `s`.
pub uninterp spec fn uppercase(s: Seq<char>) -> Seq<char>;

/// `str::to_lowercase` is trusted to be a function of the characters of its
/// argument; the result is known only as `lowercase` of them.
pub assume_specification[ str::to_lowercase ](s: &str) -> (lowered: String)
    ensures
        lowered@ == lowercase(s@),
;

/// `str::to_uppercase` is trusted to be a function of the characters of its
/// argument; the result is known only as `uppercase` of them.
pub assume_specification[ str::to_uppercase ](s: &str) -> (raised: String)
    ensures
        raised@ == uppercase(s@),
;

/// `String::push` is trusted to append the given character, and nothing else,
/// to the end of the string.
pub assume_specification[ String::push ](s: &mut String, ch: char)
    ensures
        final(s)@ == old(s)@.push(ch),
;

/// The characters of `s`, in order.
pub fn chars_of(s: &str) -> (chars: Vec<char>)
    ensures
        chars@ == s@,
{
    broadcast use vstd::string::group_string_axioms;

    let mut chars: Vec<char> = Vec::new();
    for c in it: s.chars()
        invariant
            it.seq() == s@,
            chars@ == it.seq().take(it.index() as int),
    {
        chars.push(c);
    }
    assert(chars@ =~= s@);
    chars
}

/// The string whose characters are `chars`, in order.
pub fn string_of(chars: &Vec<char>) -> (s: String)
    ensures
        s@ == chars@,
{
    let mut s = String::new();
    let mut i: usize = 0;
    while i < chars.len()
        invariant
            i <= chars.len(),
            s@ == chars@.take(i as int),
        decreases chars.len() - i,
    {
        s.push(chars[i]);
        i = i + 1;
    }
    s
}

/// Whether `c` is one of the ten decimal digits `0` to `9`.
pub open spec fn is_digit(c: char) -> bool {
    '0' <= c <= '9'
}

/// Whether some character of `s` is a decimal digit.
pub open spec fn has_digit(s: Seq<char>) -> bool {
    exists|i: int| 0 <= i < s.len() && is_digit(#[trigger] s[i])
}

/// Whether the text holds a decimal digit anywhere.
pub fn contains_digit(s: &str) -> (found: bool)
    ensures
        found == has_digit(s@),
{
    let chars = chars_of(s);
    let mut i: usize = 0;
    while i < chars.len()
        invariant
            i <= chars.len(),
            chars@ == s@,
            forall|j: int| 0 <= j < i ==> !is_digit(#[trigger] s@[j]),
        decreases chars.len() - i,
    {
        let c: char = chars[i];
        if '0' <= c && c <= '9' {
            return true;
        }
        i = i + 1;
    }
    false
}

/// The line without its ending: without the carriage return and line feed
/// that it ends with, or else without the line feed that it ends with. A line
/// that ends with neither is left as it is.
pub open spec fn without_ending(line: Seq<char>) -> Seq<char> {
    if line.len() >= 2 && line[line.len() - 2] == '\r' && line[line.len() - 1] == '\n' {
        line.take(line.len() - 2)
    } else if line.len() >= 1 && line[line.len() - 1] == '\n' {
        line.take(line.len() - 1)
    } else {
        line
    }
}

/// The line without its ending.
pub fn strip_ending(line: &str) -> (stripped: String)
    ensures
        stripped@ == without_ending(line@),
{
    let mut chars = chars_of(line);
    let n: usize = chars.len();
    if n >= 2 && chars[n - 2] == '\r' && chars[n - 1] == '\n' {
        chars.truncate(n - 2);
    } else if n >= 1 && chars[n - 1] == '\n' {
        chars.truncate(n - 1);
    }
    assert(chars@ =~= without_ending(line@));
    string_of(&chars)
}

/// Whether `needle` stands in `hay` from position `at` on.
pub open spec fn occurs_at(needle: Seq<char>, hay: Seq<char>, at: int) -> bool {
    &&& 0 <= at
    &&& at + needle.len() <= hay.len()
    &&& hay.subrange(at, at + needle.len()) == needle
}

/// Whether `needle` stands somewhere in `hay` as a run of neighbouring
/// characters. The empty sequence stands in every sequence.
pub open spec fn occurs_in(needle: Seq<char>, hay: Seq<char>) -> bool {
    exists|at: int| occurs_at(needle, hay, at)
}

fn matches_at(hay: &Vec<char>, needle: &Vec<char>, at: usize) -> (same: bool)
    requires
        at + needle.len() <= hay.len(),
    ensures
        same == occurs_at(needle@, hay@, at as int),
{
    let mut j: usize = 0;
    while j < needle.len()
        invariant
            j <= needle.len(),
            at + needle.len() <= hay.len(),
            forall|k: int| 0 <= k < j ==> hay@[at + k] == needle@[k],
        decreases needle.len() - j,
    {
        if hay[at + j] != needle[j] {
            assert(hay@.subrange(at as int, at + needle.len())[j as int] == hay@[at + j]);
            return false;
        }
        j = j + 1;
    }
    assert(hay@.subrange(at as int, at + needle.len()) =~= needle@);
    true
}

/// Whether `needle` stands somewhere in `hay`.
pub fn contains(hay: &str, needle: &str) -> (found: bool)
    ensures
        found == occurs_in(needle@, hay@),
{
    let h = chars_of(hay);
    let n = chars_of(needle);
    if n.len() > h.len() {
        return false;
    }
    let last: usize = h.len() - n.len();
    let mut at: usize = 0;
    loop
        invariant
            h@ == hay@,
            n@ == needle@,
            last + n.len() == h.len(),
            at <= last,
            forall|k: int| 0 <= k < at ==> !occurs_at(needle@, hay@, k),
        decreases last - at,
    {
        if matches_at(&h, &n, at) {
            return true;
        }
        if at == last {
            return false;
        }
        at = at + 1;
    }
}

/// The character that writes the digit `d`.
pub open spec fn digit(d: nat) -> char {
    seq!['0', '1', '2', '3', '4', '5', '6', '7', '8', '9'][d as int]
}

/// The decimal numeral of `n`: its digits from the most significant one down,
/// with no leading zero except for zero itself.
pub open spec fn decimal(n: nat) -> Seq<char>
    decreases n,
{
    if n < 10 {
        seq![digit(n)]
    } else {
        decimal(n / 10).push(digit(n % 10))
    }
}

fn digit_char(d: usize) -> (c: char)
    requires
        d < 10,
    ensures
        c == digit(d as nat),
{
    if d == 0 {
        '0'
    } else if d == 1 {
        '1'
    } else if d == 2 {
        '2'
    } else if d == 3 {
        '3'
    } else if d == 4 {
        '4'
    } else if d == 5 {
        '5'
    } else if d == 6 {
        '6'
    } else if d == 7 {
        '7'
    } else if d == 8 {
        '8'
    } else {
        '9'
    }
}

/// The decimal numeral of `n` as text.
pub fn decimal_string(n: usize) -> (numeral: String)
    ensures
        numeral@ == decimal(n as nat),
    decreases n,
{
    if n < 10 {
        let mut numeral = String::new();
        numeral.push(digit_char(n));
        numeral
    } else {
        let mut numeral = decimal_string(n / 10);
        numeral.push(digit_char(n % 10));
        numeral
    }
}

/// A line as the game compares it: without its ending, then folded to lower
/// case.
pub open spec fn normalized(line: Seq<char>) -> Seq<char> {
    lowercase(without_ending(line))
}

/// The line as the game compares it.
pub fn normalize(line: &str) -> (text: String)
    ensures
        text@ == normalized(line@),
{
    strip_ending(line).as_str().to_lowercase()
}

} // verus!
