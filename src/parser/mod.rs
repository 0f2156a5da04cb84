//! The grammar: from source text to a syntax tree whose names are slices
//! of that text.
//!
//! Every production is a function from the unread input to either the
//! input left after it and what it recognised, or a `ParseError`. Beside
//! each stands a spec function on character sequences that gives the same
//! answer; the production's contract says that it agrees with it.

use vstd::prelude::*;

pub mod aggregate;
pub mod event;
pub mod ident;
pub mod parsers;
pub mod schema;
pub mod types;
pub mod version;

use crate::text::char_count;
use self::schema::{parse_schema, spec_schema, RawSchema, Schema};

verus! {

/// A slice of the source text.
pub type Span<'i> = &'i str;

/// What a production found where it failed.
#[derive(Clone, Copy, Debug, PartialEq, Eq)]
pub enum Expected {
    /// A literal word.
    Tag(&'static str),
    /// A single character.
    Char(char),
    /// A name that starts with an upper case letter.
    CamelIdent,
    /// A name that starts with a lower case letter or an underscore.
    SnakeIdent,
    /// Blank space.
    Space,
    /// A semantic version between the quotes.
    SemVer,
    /// The end of the input.
    End,
}

/// A syntax error: how much input was left where the parse failed, and the
/// alternatives that were tried there.
#[derive(Clone, Debug, PartialEq, Eq)]
pub struct ParseError {
    pub rest: usize,
    pub expected: Vec<Expected>,
}

/// The outcome of a production that yields a value.
pub type PResult<'i, T> = Result<(Span<'i>, T), ParseError>;

/// The outcome of a production that only consumes input.
pub type SkipResult<'i> = Result<Span<'i>, ParseError>;

/// `r` is what a production should return on `input` when its spec function
/// gives `expect`: the same rest and value on success, a failure exactly when
/// the spec function gives none.
pub open spec fn agrees<T: View>(
    r: PResult<'_, T>,
    input: Seq<char>,
    expect: Option<(Seq<char>, T::V)>,
) -> bool {
    match r {
        Ok((rest, v)) => expect == Some((rest@, v@)) && rest@.len() <= input.len(),
        Err(e) => expect is None && e.rest <= input.len(),
    }
}

/// As `agrees`, for a production that yields nothing but its rest.
pub open spec fn agrees_skip(r: SkipResult<'_>, input: Seq<char>, expect: Option<Seq<char>>) -> bool {
    match r {
        Ok(rest) => expect == Some(rest@) && rest@.len() <= input.len(),
        Err(e) => expect is None && e.rest <= input.len(),
    }
}

/// The views of the items of `v`, in order.
pub open spec fn views<T: View>(v: Seq<T>) -> Seq<T::V> {
    v.map_values(|x: T| x@)
}

/// Pushing an item pushes its view.
pub proof fn lemma_views_push<T: View>(v: Seq<T>, x: T)
    ensures
        views(v.push(x)) == views(v).push(x@),
{
    assert(views(v.push(x)) =~= views(v).push(x@));
}

/// A failure at the start of `input`.
pub fn error_at(input: &str, expected: Expected) -> (e: ParseError)
    ensures
        e.rest == input@.len(),
{
    ParseError { rest: char_count(input), expected: vec![expected] }
}

/// The failure to report when two alternatives both failed: the one that got
/// further, or both sets of expectations where they failed at one place.
pub fn either(a: ParseError, b: ParseError) -> (e: ParseError)
    ensures
        e.rest == if a.rest <= b.rest {
            a.rest
        } else {
            b.rest
        },
{
    if a.rest < b.rest {
        a
    } else if b.rest < a.rest {
        b
    } else {
        let mut expected = a.expected;
        let mut more = b.expected;
        expected.append(&mut more);
        ParseError { rest: a.rest, expected }
    }
}

/// The declarations of a document, if the grammar reads the whole of it.
pub open spec fn spec_document(s: Seq<char>) -> Option<RawSchema> {
    let (rest, schema) = spec_schema(s);
    if rest.len() == 0 {
        Some(schema)
    } else {
        None
    }
}

/// Parses a whole document into its syntax tree. Input that no top-level
/// item matches, a construct that breaks off included, fails where it starts.
pub fn parse<'i>(input: Span<'i>) -> (r: Result<Schema<'i>, ParseError>)
    ensures
        match r {
            Ok(schema) => spec_document(input@) == Some(schema@),
            Err(e) => spec_document(input@) is None && e.rest == spec_schema(input@).0.len()
                && e.rest <= input@.len(),
        },
{
    let (rest, schema) = parse_schema(input);
    if rest.is_empty() {
        Ok(schema)
    } else {
        Err(error_at(rest, Expected::End))
    }
}

} // verus!
