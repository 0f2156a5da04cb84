//! Fields and `event` blocks.

use vstd::prelude::*;

use super::ident::{parse_snake_ident, spec_snake_ident};
use super::parsers::{keyword_ident_structure, one_char, space0, spec_char, spec_keyword_ident_structure, spec_space0};
use super::types::{parse_type, spec_type, RawType, Type};
use super::{agrees, views, PResult, Span};

verus! {

/// A `name: Type` member of an `event` or `type` block.
#[derive(Clone, Debug, PartialEq, Eq)]
pub struct Field<'i> {
    pub ident: Span<'i>,
    pub ty: Type<'i>,
}

/// An `event` block: a name and its fields, in the order written.
#[derive(Clone, Debug, PartialEq, Eq)]
pub struct Event<'i> {
    pub ident: Span<'i>,
    pub fields: Vec<Field<'i>>,
}

/// What `Field` holds.
pub struct RawField {
    pub ident: Seq<char>,
    pub ty: RawType,
}

/// What `Event` holds.
pub struct RawEvent {
    pub ident: Seq<char>,
    pub fields: Seq<RawField>,
}

impl<'i> View for Field<'i> {
    type V = RawField;

    open spec fn view(&self) -> RawField {
        RawField { ident: self.ident@, ty: self.ty@ }
    }
}

impl<'i> View for Event<'i> {
    type V = RawEvent;

    open spec fn view(&self) -> RawEvent {
        RawEvent { ident: self.ident@, fields: views(self.fields@) }
    }
}

/// A field: its name, a colon with spaces or tabs around it, and its type.
pub open spec fn spec_field(s: Seq<char>) -> Option<(Seq<char>, RawField)> {
    match spec_snake_ident(s) {
        Some((r1, ident)) => match spec_char(spec_space0(r1), ':') {
            Some(r2) => match spec_type(spec_space0(r2)) {
                Some((r3, ty)) => Some((r3, RawField { ident, ty })),
                None => None,
            },
            None => None,
        },
        None => None,
    }
}

/// An `event` block.
pub open spec fn spec_event(s: Seq<char>) -> Option<(Seq<char>, RawEvent)> {
    match spec_keyword_ident_structure(s, "event"@) {
        Some((r, (ident, fields))) => Some((r, RawEvent { ident, fields })),
        None => None,
    }
}

/// Recognises a field.
pub fn parse_field<'i>(input: Span<'i>) -> (r: PResult<'i, Field<'i>>)
    ensures
        agrees(r, input@, spec_field(input@)),
{
    let (r1, ident) = parse_snake_ident(input)?;
    let r2 = one_char(space0(r1), ':')?;
    let (r3, ty) = parse_type(space0(r2))?;
    Ok((r3, Field { ident, ty }))
}

/// Recognises an `event` block.
pub fn parse_event<'i>(input: Span<'i>) -> (r: PResult<'i, Event<'i>>)
    ensures
        agrees(r, input@, spec_event(input@)),
{
    let (rest, (ident, fields)) = keyword_ident_structure(input, "event")?;
    Ok((rest, Event { ident, fields }))
}

} // verus!
