//! Parsing and validation of ESDL schemas: aggregates, their commands, the
//! events those commands emit, shared record types and a schema version.
//!
//! `parse` reads a document with the grammar of `parser` and resolves the
//! syntax tree into a `schema::Schema` by the rules of `schema::rules`.

use vstd::prelude::*;

pub mod error;
pub mod parser;
pub mod schema;
pub mod text;
pub mod theorems;

pub use error::Error;

use error::SpecError;
use parser::spec_document;
use schema::resolve::agrees_result;
use schema::rules::resolve_schema;
use schema::SpecSchema;
use text::char_count;

verus! {

/// What a document comes to: `None` where the grammar does not read it,
/// else the resolution of its syntax tree.
pub open spec fn document_outcome(text: Seq<char>) -> Option<Result<SpecSchema, SpecError>> {
    match spec_document(text) {
        Some(raw) => Some(resolve_schema(raw)),
        None => None,
    }
}

/// Parses and validates an ESDL document.
///
/// A syntax error comes back as `Error::Parse` with the character offset
/// where the grammar stopped; a document that parses comes back as its
/// resolution, schema or first semantic error.
pub fn parse(input: &str) -> (r: Result<schema::Schema, Error>)
    ensures
        match document_outcome(input@) {
            Some(outcome) => agrees_result(r, outcome),
            None => r matches Err(Error::Parse { position, .. }) && position == input@.len()
                - parser::schema::spec_schema(input@).0.len(),
        },
        r matches Ok(s) ==> schema::rules::schema_wf(s@),
{
    match parser::parse(input) {
        Ok(raw) => schema::Schema::validate_parsed_schema(raw),
        Err(e) => {
            let len = char_count(input);
            Err(Error::Parse { position: len - e.rest, expected: e.expected })
        },
    }
}

} // verus!
