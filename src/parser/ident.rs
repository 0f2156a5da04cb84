//! Names: `CamelCase` for types, aggregates and events, `snake_case` for
//! fields, parameters and commands.

use vstd::prelude::*;

use super::{agrees, error_at, Expected, PResult, Span};
use crate::text::{
    first_char, is_alphabetic, is_camel_start, is_lowercase, is_snake_start, is_uppercase,
    run_len, run_length, split_at_char, CharClass,
};

verus! {

/// A type, aggregate or event name: an upper case letter, then ASCII letters
/// and digits. Yields the rest and the name.
pub open spec fn spec_camel_ident(s: Seq<char>) -> Option<(Seq<char>, Seq<char>)> {
    if s.len() > 0 && is_camel_start(s[0]) {
        let n = 1 + run_len(s.drop_first(), CharClass::AsciiAlphanumeric) as int;
        Some((s.skip(n), s.take(n)))
    } else {
        None
    }
}

/// A field, parameter or command name: a lower case letter or underscore,
/// then lower case letters, digits and underscores; any other character
/// ends it. Yields the rest and the name.
pub open spec fn spec_snake_ident(s: Seq<char>) -> Option<(Seq<char>, Seq<char>)> {
    if s.len() > 0 && is_snake_start(s[0]) {
        let n = 1 + run_len(s.drop_first(), CharClass::SnakeContinue) as int;
        Some((s.skip(n), s.take(n)))
    } else {
        None
    }
}

/// Splits `input` after its first character and the run of class `k` that
/// follows it.
fn split_name<'i>(input: Span<'i>, k: CharClass) -> (r: (Span<'i>, Span<'i>))
    requires
        input@.len() > 0,
    ensures
        ({
            let n = 1 + run_len(input@.drop_first(), k) as int;
            &&& r.0@ == input@.skip(n)
            &&& r.1@ == input@.take(n)
            &&& n <= input@.len()
        }),
{
    let tail = split_at_char(input, 1).1;
    assert(tail@ =~= input@.drop_first());
    let n = run_length(tail, k);
    let (name, rest) = split_at_char(input, n + 1);
    (rest, name)
}

/// Recognises a type, aggregate or event name.
pub fn parse_camel_ident<'i>(input: Span<'i>) -> (r: PResult<'i, Span<'i>>)
    ensures
        agrees(r, input@, spec_camel_ident(input@)),
{
    if let Some(c) = first_char(input) {
        if is_alphabetic(c) && is_uppercase(c) {
            return Ok(split_name(input, CharClass::AsciiAlphanumeric));
        }
    }
    Err(error_at(input, Expected::CamelIdent))
}

/// Recognises a field, parameter or command name.
pub fn parse_snake_ident<'i>(input: Span<'i>) -> (r: PResult<'i, Span<'i>>)
    ensures
        agrees(r, input@, spec_snake_ident(input@)),
{
    if let Some(c) = first_char(input) {
        if (is_alphabetic(c) && is_lowercase(c)) || c == '_' {
            return Ok(split_name(input, CharClass::SnakeContinue));
        }
    }
    Err(error_at(input, Expected::SnakeIdent))
}

} // verus!
