//! Character classes and small operations on string slices, stated over
//! the slices' character sequences.

use vstd::prelude::*;

verus! {

/// Whether `c` has the Unicode `Alphabetic` property.
pub uninterp spec fn alphabetic(c: char) -> bool;

/// Whether `c` has the Unicode `Uppercase` property.
pub uninterp spec fn uppercase(c: char) -> bool;

/// Whether `c` has the Unicode `Lowercase` property.
pub uninterp spec fn lowercase(c: char) -> bool;

/// Whether `c` is in one of the Unicode numeric general categories.
pub uninterp spec fn numeric(c: char) -> bool;

/// Relies on `char::is_alphabetic`: true exactly for characters with the
/// Unicode `Alphabetic` property.
#[verifier::external_body]
pub(crate) fn is_alphabetic(c: char) -> (r: bool)
    ensures
        r == alphabetic(c),
{
    c.is_alphabetic()
}

/// Relies on `char::is_uppercase`: true exactly for characters with the
/// Unicode `Uppercase` property.
#[verifier::external_body]
pub(crate) fn is_uppercase(c: char) -> (r: bool)
    ensures
        r == uppercase(c),
{
    c.is_uppercase()
}

/// Relies on `char::is_lowercase`: true exactly for characters with the
/// Unicode `Lowercase` property.
#[verifier::external_body]
pub(crate) fn is_lowercase(c: char) -> (r: bool)
    ensures
        r == lowercase(c),
{
    c.is_lowercase()
}

/// Relies on `char::is_numeric`: true exactly for characters in the numeric
/// general categories (`Nd`, `Nl`, `No`).
#[verifier::external_body]
pub(crate) fn is_numeric(c: char) -> (r: bool)
    ensures
        r == numeric(c),
{
    c.is_numeric()
}

/// A blank inside a line: space or tab.
pub open spec fn is_space(c: char) -> bool {
    c == ' ' || c == '\t'
}

/// Any blank: space, tab, carriage return or line feed.
pub open spec fn is_multispace(c: char) -> bool {
    c == ' ' || c == '\t' || c == '\r' || c == '\n'
}

/// An ASCII letter or digit.
pub open spec fn is_ascii_alphanumeric(c: char) -> bool {
    ('a' <= c && c <= 'z') || ('A' <= c && c <= 'Z') || ('0' <= c && c <= '9')
}

/// The first character of a type, aggregate or event name.
pub open spec fn is_camel_start(c: char) -> bool {
    alphabetic(c) && uppercase(c)
}

/// The first character of a field, parameter or command name.
pub open spec fn is_snake_start(c: char) -> bool {
    (alphabetic(c) && lowercase(c)) || c == '_'
}

/// A later character of a field, parameter or command name.
pub open spec fn is_snake_continue(c: char) -> bool {
    (if alphabetic(c) {
        lowercase(c)
    } else {
        numeric(c)
    }) || c == '_'
}

/// The character classes that the grammar skips or collects in runs.
pub enum CharClass {
    /// Space or tab.
    Space,
    /// Space, tab, carriage return or line feed.
    Multispace,
    /// ASCII letter or digit.
    AsciiAlphanumeric,
    /// A later character of a field, parameter or command name.
    SnakeContinue,
    /// Anything but a double quote.
    NotQuote,
}

/// Whether `c` belongs to the class `k`.
pub open spec fn in_class(k: CharClass, c: char) -> bool {
    match k {
        CharClass::Space => is_space(c),
        CharClass::Multispace => is_multispace(c),
        CharClass::AsciiAlphanumeric => is_ascii_alphanumeric(c),
        CharClass::SnakeContinue => is_snake_continue(c),
        CharClass::NotQuote => c != '"',
    }
}

/// Decides `in_class(k, c)`.
pub fn char_in_class(k: &CharClass, c: char) -> (r: bool)
    ensures
        r == in_class(*k, c),
{
    match k {
        CharClass::Space => c == ' ' || c == '\t',
        CharClass::Multispace => c == ' ' || c == '\t' || c == '\r' || c == '\n',
        CharClass::AsciiAlphanumeric => ('a' <= c && c <= 'z') || ('A' <= c && c <= 'Z') || (
        '0' <= c && c <= '9'),
        CharClass::SnakeContinue => {
            let letter_or_digit = if is_alphabetic(c) {
                is_lowercase(c)
            } else {
                is_numeric(c)
            };
            letter_or_digit || c == '_'
        },
        CharClass::NotQuote => c != '"',
    }
}

/// The length of the longest prefix of `s` whose characters all lie in `k`.
pub open spec fn run_len(s: Seq<char>, k: CharClass) -> nat
    decreases s.len(),
{
    if s.len() > 0 && in_class(k, s[0]) {
        1 + run_len(s.drop_first(), k)
    } else {
        0
    }
}

/// A prefix of `i` characters of class `k`, followed by the end or by a
/// character outside `k`, is the longest such prefix.
pub proof fn lemma_run_len(s: Seq<char>, k: CharClass, i: int)
    requires
        0 <= i <= s.len(),
        forall|j: int| 0 <= j < i ==> in_class(k, #[trigger] s[j]),
        i == s.len() || !in_class(k, s[i]),
    ensures
        run_len(s, k) == i,
    decreases i,
{
    if i > 0 {
        let t = s.drop_first();
        assert forall|j: int| 0 <= j < i - 1 implies in_class(k, #[trigger] t[j]) by {
            assert(t[j] == s[j + 1]);
        }
        if i < s.len() {
            assert(t[i - 1] == s[i]);
        }
        lemma_run_len(t, k, i - 1);
    }
}

/// Counts the characters at the start of `s` that lie in `k`.
pub fn run_length(s: &str, k: CharClass) -> (n: usize)
    ensures
        n == run_len(s@, k),
        n <= s@.len(),
{
    let len = s.unicode_len();
    let mut i: usize = 0;
    while i < len && char_in_class(&k, s.get_char(i))
        invariant
            i <= len,
            len == s@.len(),
            forall|j: int| 0 <= j < i ==> in_class(k, #[trigger] s@[j]),
        decreases len - i,
    {
        i = i + 1;
    }
    proof {
        lemma_run_len(s@, k, i as int);
    }
    i
}

/// The number of characters in `s`.
pub fn char_count(s: &str) -> (n: usize)
    ensures
        n == s@.len(),
{
    s.unicode_len()
}

/// The first character of `s`, if there is one.
pub fn first_char(s: &str) -> (r: Option<char>)
    ensures
        r == (if s@.len() > 0 {
            Some(s@[0])
        } else {
            None
        }),
{
    if s.is_empty() {
        None
    } else {
        Some(s.get_char(0))
    }
}

/// `s` split after its first `k` characters.
pub fn split_at_char<'a>(s: &'a str, k: usize) -> (r: (&'a str, &'a str))
    requires
        k <= s@.len(),
    ensures
        r.0@ == s@.take(k as int),
        r.1@ == s@.skip(k as int),
        s@.len() <= usize::MAX,
{
    let n = s.unicode_len();
    (s.substring_char(0, k), s.substring_char(k, n))
}

} // verus!
