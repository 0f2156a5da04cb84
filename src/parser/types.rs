//! Type expressions and `type` blocks.

use vstd::prelude::*;

use super::event::{Field, RawField};
use super::ident::{parse_camel_ident, spec_camel_ident};
use super::parsers::{
    keyword_ident_structure, one_char, space0, spec_char, spec_keyword_ident_structure,
    spec_space0, spec_tag, tag,
};
use super::{agrees, either, views, PResult, Span};

verus! {

/// A built-in scalar type.
#[derive(Clone, Copy, Debug, PartialEq, Eq)]
pub enum Scalar {
    String,
    Int,
    Float,
    Bool,
    Timestamp,
}

/// A scalar keyword or the name of a user type.
#[derive(Clone, Debug, PartialEq, Eq)]
pub enum ScalarOrUserType<'i> {
    Scalar(Scalar),
    UserDefined(Span<'i>),
}

/// A type reference with its optionality marker resolved: a trailing `?`
/// makes it optional, no marker leaves it required.
#[derive(Clone, Debug, PartialEq, Eq)]
pub enum OptionalOrRequiredType<'i> {
    Optional(ScalarOrUserType<'i>),
    Required(ScalarOrUserType<'i>),
}

/// A single type, or an array of one (`[T]`, optional as a whole with a
/// trailing `?`).
#[derive(Clone, Debug, PartialEq, Eq)]
pub enum Type<'i> {
    Single(OptionalOrRequiredType<'i>),
    Array { inner: OptionalOrRequiredType<'i>, optional: bool },
}

/// A `type` block: a name and its fields, in the order written.
#[derive(Clone, Debug, PartialEq, Eq)]
pub struct CustomType<'i> {
    pub ident: Span<'i>,
    pub fields: Vec<Field<'i>>,
}

/// What `ScalarOrUserType` holds, with the name as a character sequence.
pub enum RawTypeRef {
    Scalar(Scalar),
    UserDefined(Seq<char>),
}

/// What `OptionalOrRequiredType` holds.
pub enum RawTypeOpt {
    Optional(RawTypeRef),
    Required(RawTypeRef),
}

/// What `Type` holds.
pub enum RawType {
    Single(RawTypeOpt),
    Array { inner: RawTypeOpt, optional: bool },
}

/// What `CustomType` holds.
pub struct RawCustomType {
    pub ident: Seq<char>,
    pub fields: Seq<RawField>,
}

impl View for Scalar {
    type V = Scalar;

    open spec fn view(&self) -> Scalar {
        *self
    }
}

impl<'i> View for ScalarOrUserType<'i> {
    type V = RawTypeRef;

    open spec fn view(&self) -> RawTypeRef {
        match *self {
            ScalarOrUserType::Scalar(s) => RawTypeRef::Scalar(s),
            ScalarOrUserType::UserDefined(n) => RawTypeRef::UserDefined(n@),
        }
    }
}

impl<'i> View for OptionalOrRequiredType<'i> {
    type V = RawTypeOpt;

    open spec fn view(&self) -> RawTypeOpt {
        match *self {
            OptionalOrRequiredType::Optional(t) => RawTypeOpt::Optional(t@),
            OptionalOrRequiredType::Required(t) => RawTypeOpt::Required(t@),
        }
    }
}

impl<'i> View for Type<'i> {
    type V = RawType;

    open spec fn view(&self) -> RawType {
        match *self {
            Type::Single(t) => RawType::Single(t@),
            Type::Array { inner, optional } => RawType::Array { inner: inner@, optional },
        }
    }
}

impl<'i> View for CustomType<'i> {
    type V = RawCustomType;

    open spec fn view(&self) -> RawCustomType {
        RawCustomType { ident: self.ident@, fields: views(self.fields@) }
    }
}

/// The scalar `k`, written as the word `w`.
pub open spec fn spec_scalar_keyword(s: Seq<char>, w: Seq<char>, k: Scalar) -> Option<
    (Seq<char>, Scalar),
> {
    match spec_tag(s, w) {
        Some(r) => Some((r, k)),
        None => None,
    }
}

/// A scalar keyword, matched literally and case-sensitively; the keywords
/// are tried in the order `String`, `Int`, `Float`, `Bool`, `Timestamp`.
pub open spec fn spec_scalar(s: Seq<char>) -> Option<(Seq<char>, Scalar)> {
    if let Some(x) = spec_scalar_keyword(s, "String"@, Scalar::String) {
        Some(x)
    } else if let Some(x) = spec_scalar_keyword(s, "Int"@, Scalar::Int) {
        Some(x)
    } else if let Some(x) = spec_scalar_keyword(s, "Float"@, Scalar::Float) {
        Some(x)
    } else if let Some(x) = spec_scalar_keyword(s, "Bool"@, Scalar::Bool) {
        Some(x)
    } else {
        spec_scalar_keyword(s, "Timestamp"@, Scalar::Timestamp)
    }
}

/// A scalar keyword, else a user type's name.
pub open spec fn spec_scalar_or_user_type(s: Seq<char>) -> Option<(Seq<char>, RawTypeRef)> {
    match spec_scalar(s) {
        Some((r, k)) => Some((r, RawTypeRef::Scalar(k))),
        None => match spec_camel_ident(s) {
            Some((r, n)) => Some((r, RawTypeRef::UserDefined(n))),
            None => None,
        },
    }
}

/// A type reference and its optionality marker.
pub open spec fn spec_optional_or_required_type(s: Seq<char>) -> Option<(Seq<char>, RawTypeOpt)> {
    match spec_scalar_or_user_type(s) {
        Some((r, t)) => match spec_char(r, '?') {
            Some(r2) => Some((r2, RawTypeOpt::Optional(t))),
            None => Some((r, RawTypeOpt::Required(t))),
        },
        None => None,
    }
}

/// A single type, else an array type.
pub open spec fn spec_type(s: Seq<char>) -> Option<(Seq<char>, RawType)> {
    match spec_optional_or_required_type(s) {
        Some((r, t)) => Some((r, RawType::Single(t))),
        None => match spec_char(s, '[') {
            Some(r1) => match spec_optional_or_required_type(spec_space0(r1)) {
                Some((r2, inner)) => match spec_char(spec_space0(r2), ']') {
                    Some(r3) => match spec_char(r3, '?') {
                        Some(r4) => Some((r4, RawType::Array { inner, optional: true })),
                        None => Some((r3, RawType::Array { inner, optional: false })),
                    },
                    None => None,
                },
                None => None,
            },
            None => None,
        },
    }
}

/// A `type` block.
pub open spec fn spec_custom_type(s: Seq<char>) -> Option<(Seq<char>, RawCustomType)> {
    match spec_keyword_ident_structure(s, "type"@) {
        Some((r, (ident, fields))) => Some((r, RawCustomType { ident, fields })),
        None => None,
    }
}

/// Recognises `String`.
pub fn parse_scalar_string<'i>(input: Span<'i>) -> (r: PResult<'i, Scalar>)
    ensures
        agrees(r, input@, spec_scalar_keyword(input@, "String"@, Scalar::String)),
{
    let rest = tag(input, "String")?;
    Ok((rest, Scalar::String))
}

/// Recognises `Int`.
pub fn parse_scalar_int<'i>(input: Span<'i>) -> (r: PResult<'i, Scalar>)
    ensures
        agrees(r, input@, spec_scalar_keyword(input@, "Int"@, Scalar::Int)),
{
    let rest = tag(input, "Int")?;
    Ok((rest, Scalar::Int))
}

/// Recognises `Float`.
pub fn parse_scalar_float<'i>(input: Span<'i>) -> (r: PResult<'i, Scalar>)
    ensures
        agrees(r, input@, spec_scalar_keyword(input@, "Float"@, Scalar::Float)),
{
    let rest = tag(input, "Float")?;
    Ok((rest, Scalar::Float))
}

/// Recognises `Bool`.
pub fn parse_scalar_bool<'i>(input: Span<'i>) -> (r: PResult<'i, Scalar>)
    ensures
        agrees(r, input@, spec_scalar_keyword(input@, "Bool"@, Scalar::Bool)),
{
    let rest = tag(input, "Bool")?;
    Ok((rest, Scalar::Bool))
}

/// Recognises `Timestamp`.
pub fn parse_scalar_timestamp<'i>(input: Span<'i>) -> (r: PResult<'i, Scalar>)
    ensures
        agrees(r, input@, spec_scalar_keyword(input@, "Timestamp"@, Scalar::Timestamp)),
{
    let rest = tag(input, "Timestamp")?;
    Ok((rest, Scalar::Timestamp))
}

/// Recognises a scalar keyword.
pub fn parse_scalar<'i>(input: Span<'i>) -> (r: PResult<'i, Scalar>)
    ensures
        agrees(r, input@, spec_scalar(input@)),
{
    let e = match parse_scalar_string(input) {
        Ok(x) => return Ok(x),
        Err(e) => e,
    };
    let e = match parse_scalar_int(input) {
        Ok(x) => return Ok(x),
        Err(e2) => either(e, e2),
    };
    let e = match parse_scalar_float(input) {
        Ok(x) => return Ok(x),
        Err(e2) => either(e, e2),
    };
    let e = match parse_scalar_bool(input) {
        Ok(x) => return Ok(x),
        Err(e2) => either(e, e2),
    };
    match parse_scalar_timestamp(input) {
        Ok(x) => Ok(x),
        Err(e2) => Err(either(e, e2)),
    }
}

/// Recognises a scalar keyword or, failing that, a user type's name.
pub fn parse_scalar_or_user_type<'i>(input: Span<'i>) -> (r: PResult<'i, ScalarOrUserType<'i>>)
    ensures
        agrees(r, input@, spec_scalar_or_user_type(input@)),
{
    match parse_scalar(input) {
        Ok((rest, k)) => Ok((rest, ScalarOrUserType::Scalar(k))),
        Err(e) => match parse_camel_ident(input) {
            Ok((rest, name)) => Ok((rest, ScalarOrUserType::UserDefined(name))),
            Err(e2) => Err(either(e, e2)),
        },
    }
}

/// Recognises a type reference with an optional trailing `?`.
pub fn parse_optional_or_required_type<'i>(input: Span<'i>) -> (r: PResult<
    'i,
    OptionalOrRequiredType<'i>,
>)
    ensures
        agrees(r, input@, spec_optional_or_required_type(input@)),
{
    let (rest, t) = parse_scalar_or_user_type(input)?;
    match one_char(rest, '?') {
        Ok(rest2) => Ok((rest2, OptionalOrRequiredType::Optional(t))),
        Err(_) => Ok((rest, OptionalOrRequiredType::Required(t))),
    }
}

/// Recognises a single type or an array type.
pub fn parse_type<'i>(input: Span<'i>) -> (r: PResult<'i, Type<'i>>)
    ensures
        agrees(r, input@, spec_type(input@)),
{
    let e = match parse_optional_or_required_type(input) {
        Ok((rest, t)) => return Ok((rest, Type::Single(t))),
        Err(e) => e,
    };
    let r1 = match one_char(input, '[') {
        Ok(r1) => r1,
        Err(e2) => return Err(either(e, e2)),
    };
    let (r2, inner) = match parse_optional_or_required_type(space0(r1)) {
        Ok(x) => x,
        Err(e2) => return Err(either(e, e2)),
    };
    let r3 = match one_char(space0(r2), ']') {
        Ok(r3) => r3,
        Err(e2) => return Err(either(e, e2)),
    };
    match one_char(r3, '?') {
        Ok(r4) => Ok((r4, Type::Array { inner, optional: true })),
        Err(_) => Ok((r3, Type::Array { inner, optional: false })),
    }
}

/// Recognises a `type` block.
pub fn parse_custom_type<'i>(input: Span<'i>) -> (r: PResult<'i, CustomType<'i>>)
    ensures
        agrees(r, input@, spec_custom_type(input@)),
{
    let (rest, (ident, fields)) = keyword_ident_structure(input, "type")?;
    Ok((rest, CustomType { ident, fields }))
}

} // verus!
