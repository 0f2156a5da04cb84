//! `aggregate` blocks and the command signatures inside them.

use vstd::prelude::*;

use super::ident::{parse_camel_ident, parse_snake_ident, spec_camel_ident, spec_snake_ident};
use super::parsers::{
    multinewline1, multispace0, one_char, space0, space1, spec_char, spec_multinewline1,
    spec_multispace0, spec_space0, spec_space1, spec_tag, tag,
};
use super::types::{parse_type, spec_type, RawType, Type};
use super::{agrees, either, lemma_views_push, views, PResult, SkipResult, Span, agrees_skip};

verus! {

/// An `aggregate` block: a name and its commands, in the order written.
#[derive(Clone, Debug, PartialEq, Eq)]
pub struct Aggregate<'i> {
    pub ident: Span<'i>,
    pub commands: Vec<Command<'i>>,
}

/// A command signature: `name(param: Type, ...): ReturnType`.
#[derive(Clone, Debug, PartialEq, Eq)]
pub struct Command<'i> {
    pub ident: Span<'i>,
    pub params: Vec<Param<'i>>,
    pub return_type: ReturnType<'i>,
}

/// A `name: Type` parameter of a command.
#[derive(Clone, Debug, PartialEq, Eq)]
pub struct Param<'i> {
    pub ident: Span<'i>,
    pub ty: Type<'i>,
}

/// The events a command returns: one, or a parenthesised `|`-separated list
/// of which exactly one is emitted.
#[derive(Clone, Debug, PartialEq, Eq)]
pub enum ReturnType<'i> {
    Single(ReturnTypeOptionalOrRequired<'i>),
    Tuple(Vec<ReturnTypeOptionalOrRequired<'i>>),
}

/// An event name with its optionality marker resolved: a trailing `?` makes
/// it optional, no marker leaves it required.
#[derive(Clone, Debug, PartialEq, Eq)]
pub enum ReturnTypeOptionalOrRequired<'i> {
    Optional(Span<'i>),
    Required(Span<'i>),
}

/// What `Aggregate` holds.
pub struct RawAggregate {
    pub ident: Seq<char>,
    pub commands: Seq<RawCommand>,
}

/// What `Command` holds.
pub struct RawCommand {
    pub ident: Seq<char>,
    pub params: Seq<RawParam>,
    pub return_type: RawReturnType,
}

/// What `Param` holds.
pub struct RawParam {
    pub ident: Seq<char>,
    pub ty: RawType,
}

/// What `ReturnType` holds.
pub enum RawReturnType {
    Single(RawEventRef),
    Tuple(Seq<RawEventRef>),
}

/// What `ReturnTypeOptionalOrRequired` holds.
pub enum RawEventRef {
    Optional(Seq<char>),
    Required(Seq<char>),
}

impl<'i> View for Aggregate<'i> {
    type V = RawAggregate;

    open spec fn view(&self) -> RawAggregate {
        RawAggregate { ident: self.ident@, commands: views(self.commands@) }
    }
}

impl<'i> View for Command<'i> {
    type V = RawCommand;

    open spec fn view(&self) -> RawCommand {
        RawCommand {
            ident: self.ident@,
            params: views(self.params@),
            return_type: self.return_type@,
        }
    }
}

impl<'i> View for Param<'i> {
    type V = RawParam;

    open spec fn view(&self) -> RawParam {
        RawParam { ident: self.ident@, ty: self.ty@ }
    }
}

impl<'i> View for ReturnType<'i> {
    type V = RawReturnType;

    open spec fn view(&self) -> RawReturnType {
        match *self {
            ReturnType::Single(e) => RawReturnType::Single(e@),
            ReturnType::Tuple(es) => RawReturnType::Tuple(views(es@)),
        }
    }
}

impl<'i> View for ReturnTypeOptionalOrRequired<'i> {
    type V = RawEventRef;

    open spec fn view(&self) -> RawEventRef {
        match *self {
            ReturnTypeOptionalOrRequired::Optional(n) => RawEventRef::Optional(n@),
            ReturnTypeOptionalOrRequired::Required(n) => RawEventRef::Required(n@),
        }
    }
}

/// The character `c` with any blanks around it.
pub open spec fn spec_separator(s: Seq<char>, c: char) -> Option<Seq<char>> {
    match spec_char(spec_multispace0(s), c) {
        Some(r) => Some(spec_multispace0(r)),
        None => None,
    }
}

/// Consumes the character `c` with any blanks around it.
pub fn separator<'i>(input: Span<'i>, c: char) -> (r: SkipResult<'i>)
    ensures
        agrees_skip(r, input@, spec_separator(input@, c)),
        r is Ok ==> r->Ok_0@.len() < input@.len(),
{
    let r = one_char(multispace0(input), c)?;
    Ok(multispace0(r))
}

/// An event name and its optionality marker.
pub open spec fn spec_return_type_optional_or_required(s: Seq<char>) -> Option<
    (Seq<char>, RawEventRef),
> {
    match spec_camel_ident(s) {
        Some((r, n)) => match spec_char(r, '?') {
            Some(r2) => Some((r2, RawEventRef::Optional(n))),
            None => Some((r, RawEventRef::Required(n))),
        },
        None => None,
    }
}

/// A parameter: its name, a colon with spaces or tabs around it, its type.
pub open spec fn spec_param(s: Seq<char>) -> Option<(Seq<char>, RawParam)> {
    match spec_snake_ident(s) {
        Some((r1, ident)) => match spec_char(spec_space0(r1), ':') {
            Some(r2) => match spec_type(spec_space0(r2)) {
                Some((r3, ty)) => Some((r3, RawParam { ident, ty })),
                None => None,
            },
            None => None,
        },
        None => None,
    }
}

/// The parameters after the first one: each behind a comma, until a
/// separator is not followed by one.
pub open spec fn spec_param_list_tail(s: Seq<char>) -> (Seq<char>, Seq<RawParam>)
    decreases s.len(),
{
    match spec_separator(s, ',') {
        Some(r1) => match spec_param(r1) {
            Some((r2, x)) => if r2.len() < s.len() {
                let (r3, xs) = spec_param_list_tail(r2);
                (r3, seq![x] + xs)
            } else {
                (s, seq![])
            },
            None => (s, seq![]),
        },
        None => (s, seq![]),
    }
}

/// The parameters, each behind a comma; none if the first is missing.
pub open spec fn spec_param_list(s: Seq<char>) -> (Seq<char>, Seq<RawParam>) {
    match spec_param(s) {
        Some((r1, x)) => {
            let (r2, xs) = spec_param_list_tail(r1);
            (r2, seq![x] + xs)
        },
        None => (s, seq![]),
    }
}

/// Recognises the parameters, each behind a comma.
pub fn parse_param_list<'i>(input: Span<'i>) -> (r: (Span<'i>, Vec<Param<'i>>))
    ensures
        (r.0@, views(r.1@)) == spec_param_list(input@),
        r.0@.len() <= input@.len(),
{
    let mut params: Vec<Param<'i>> = Vec::new();
    let mut cur = match parse_param(input) {
        Ok((rest, x)) => {
            params.push(x);
            rest
        },
        Err(_) => return (input, params),
    };
    assert(views(params@) =~= seq![params@[0]@]);
    loop
        invariant
            cur@.len() <= input@.len(),
            spec_param_list(input@) == ({
                let (r, xs) = spec_param_list_tail(cur@);
                (r, views(params@) + xs)
            }),
        decreases cur@.len(),
    {
        let r1 = match separator(cur, ',') {
            Ok(r1) => r1,
            Err(_) => {
                assert(views(params@) + seq![] =~= views(params@));
                return (cur, params);
            },
        };
        match parse_param(r1) {
            Ok((r2, x)) => {
                let ghost before = params@;
                let ghost tail = spec_param_list_tail(r2@);
                params.push(x);
                proof {
                    lemma_views_push(before, x);
                    assert(views(before) + (seq![x@] + tail.1) =~= views(params@) + tail.1);
                }
                cur = r2;
            },
            Err(_) => {
                assert(views(params@) + seq![] =~= views(params@));
                return (cur, params);
            },
        }
    }
}

/// The event names after the first one: each behind a bar, until a
/// separator is not followed by one.
pub open spec fn spec_event_ref_list_tail(s: Seq<char>) -> (Seq<char>, Seq<RawEventRef>)
    decreases s.len(),
{
    match spec_separator(s, '|') {
        Some(r1) => match spec_return_type_optional_or_required(r1) {
            Some((r2, x)) => if r2.len() < s.len() {
                let (r3, xs) = spec_event_ref_list_tail(r2);
                (r3, seq![x] + xs)
            } else {
                (s, seq![])
            },
            None => (s, seq![]),
        },
        None => (s, seq![]),
    }
}

/// The event names, each behind a bar; none if the first is missing.
pub open spec fn spec_event_ref_list(s: Seq<char>) -> (Seq<char>, Seq<RawEventRef>) {
    match spec_return_type_optional_or_required(s) {
        Some((r1, x)) => {
            let (r2, xs) = spec_event_ref_list_tail(r1);
            (r2, seq![x] + xs)
        },
        None => (s, seq![]),
    }
}

/// Recognises the event names, each behind a bar.
pub fn parse_event_ref_list<'i>(input: Span<'i>) -> (r: (Span<'i>, Vec<ReturnTypeOptionalOrRequired<'i>>))
    ensures
        (r.0@, views(r.1@)) == spec_event_ref_list(input@),
        r.0@.len() <= input@.len(),
{
    let mut events: Vec<ReturnTypeOptionalOrRequired<'i>> = Vec::new();
    let mut cur = match parse_return_type_optional_or_required(input) {
        Ok((rest, x)) => {
            events.push(x);
            rest
        },
        Err(_) => return (input, events),
    };
    assert(views(events@) =~= seq![events@[0]@]);
    loop
        invariant
            cur@.len() <= input@.len(),
            spec_event_ref_list(input@) == ({
                let (r, xs) = spec_event_ref_list_tail(cur@);
                (r, views(events@) + xs)
            }),
        decreases cur@.len(),
    {
        let r1 = match separator(cur, '|') {
            Ok(r1) => r1,
            Err(_) => {
                assert(views(events@) + seq![] =~= views(events@));
                return (cur, events);
            },
        };
        match parse_return_type_optional_or_required(r1) {
            Ok((r2, x)) => {
                let ghost before = events@;
                let ghost tail = spec_event_ref_list_tail(r2@);
                events.push(x);
                proof {
                    lemma_views_push(before, x);
                    assert(views(before) + (seq![x@] + tail.1) =~= views(events@) + tail.1);
                }
                cur = r2;
            },
            Err(_) => {
                assert(views(events@) + seq![] =~= views(events@));
                return (cur, events);
            },
        }
    }
}

/// The commands after the first one: each behind a line break, until a
/// separator is not followed by one.
pub open spec fn spec_command_list_tail(s: Seq<char>) -> (Seq<char>, Seq<RawCommand>)
    decreases s.len(),
{
    match spec_multinewline1(s) {
        Some(r1) => match spec_command(r1) {
            Some((r2, x)) => if r2.len() < s.len() {
                let (r3, xs) = spec_command_list_tail(r2);
                (r3, seq![x] + xs)
            } else {
                (s, seq![])
            },
            None => (s, seq![]),
        },
        None => (s, seq![]),
    }
}

/// The commands, each behind a line break; none if the first is missing.
pub open spec fn spec_command_list(s: Seq<char>) -> (Seq<char>, Seq<RawCommand>) {
    match spec_command(s) {
        Some((r1, x)) => {
            let (r2, xs) = spec_command_list_tail(r1);
            (r2, seq![x] + xs)
        },
        None => (s, seq![]),
    }
}

/// Recognises the commands, each behind a line break.
pub fn parse_command_list<'i>(input: Span<'i>) -> (r: (Span<'i>, Vec<Command<'i>>))
    ensures
        (r.0@, views(r.1@)) == spec_command_list(input@),
        r.0@.len() <= input@.len(),
{
    let mut commands: Vec<Command<'i>> = Vec::new();
    let mut cur = match parse_command(input) {
        Ok((rest, x)) => {
            commands.push(x);
            rest
        },
        Err(_) => return (input, commands),
    };
    assert(views(commands@) =~= seq![commands@[0]@]);
    loop
        invariant
            cur@.len() <= input@.len(),
            spec_command_list(input@) == ({
                let (r, xs) = spec_command_list_tail(cur@);
                (r, views(commands@) + xs)
            }),
        decreases cur@.len(),
    {
        let r1 = match multinewline1(cur) {
            Ok(r1) => r1,
            Err(_) => {
                assert(views(commands@) + seq![] =~= views(commands@));
                return (cur, commands);
            },
        };
        match parse_command(r1) {
            Ok((r2, x)) => {
                let ghost before = commands@;
                let ghost tail = spec_command_list_tail(r2@);
                commands.push(x);
                proof {
                    lemma_views_push(before, x);
                    assert(views(before) + (seq![x@] + tail.1) =~= views(commands@) + tail.1);
                }
                cur = r2;
            },
            Err(_) => {
                assert(views(commands@) + seq![] =~= views(commands@));
                return (cur, commands);
            },
        }
    }
}

/// The parameter list: parentheses around comma-separated parameters.
pub open spec fn spec_params(s: Seq<char>) -> Option<(Seq<char>, Seq<RawParam>)> {
    match spec_char(s, '(') {
        Some(r1) => {
            let (r2, ps) = spec_param_list(spec_multispace0(r1));
            match spec_char(spec_multispace0(r2), ')') {
                Some(r3) => Some((r3, ps)),
                None => None,
            }
        },
        None => None,
    }
}

/// A single event reference, else a parenthesised `|`-separated list.
pub open spec fn spec_return_type(s: Seq<char>) -> Option<(Seq<char>, RawReturnType)> {
    match spec_return_type_optional_or_required(s) {
        Some((r, e)) => Some((r, RawReturnType::Single(e))),
        None => match spec_char(s, '(') {
            Some(r1) => {
                let (r2, es) = spec_event_ref_list(spec_multispace0(r1));
                match spec_char(spec_multispace0(r2), ')') {
                    Some(r3) => Some((r3, RawReturnType::Tuple(es))),
                    None => None,
                }
            },
            None => None,
        },
    }
}

/// A command: its name, any blanks, its parameters, a colon with any blanks
/// around it, and its return type.
pub open spec fn spec_command(s: Seq<char>) -> Option<(Seq<char>, RawCommand)> {
    match spec_snake_ident(s) {
        Some((r1, ident)) => match spec_params(spec_multispace0(r1)) {
            Some((r2, params)) => match spec_separator(r2, ':') {
                Some(r3) => match spec_return_type(r3) {
                    Some((r4, return_type)) => Some((r4, RawCommand { ident, params, return_type })),
                    None => None,
                },
                None => None,
            },
            None => None,
        },
        None => None,
    }
}

/// A block of commands, laid out as a block of fields is.
pub open spec fn spec_command_block(s: Seq<char>) -> Option<(Seq<char>, Seq<RawCommand>)> {
    match spec_char(s, '{') {
        Some(r1) => match spec_char(spec_multispace0(r1), '}') {
            Some(r2) => Some((r2, seq![])),
            None => match spec_multinewline1(r1) {
                Some(r3) => {
                    let (r4, cs) = spec_command_list(r3);
                    match spec_multinewline1(r4) {
                        Some(r5) => match spec_char(r5, '}') {
                            Some(r6) => Some((r6, cs)),
                            None => None,
                        },
                        None => None,
                    }
                },
                None => None,
            },
        },
        None => None,
    }
}

/// An `aggregate` block: the keyword, spaces or tabs, the name, any blanks,
/// and a block of commands.
pub open spec fn spec_aggregate(s: Seq<char>) -> Option<(Seq<char>, RawAggregate)> {
    match spec_tag(s, "aggregate"@) {
        Some(r1) => match spec_space1(r1) {
            Some(r2) => match spec_camel_ident(r2) {
                Some((r3, ident)) => match spec_command_block(spec_multispace0(r3)) {
                    Some((r4, commands)) => Some((r4, RawAggregate { ident, commands })),
                    None => None,
                },
                None => None,
            },
            None => None,
        },
        None => None,
    }
}

/// Recognises an event name with an optional trailing `?`.
pub fn parse_return_type_optional_or_required<'i>(input: Span<'i>) -> (r: PResult<
    'i,
    ReturnTypeOptionalOrRequired<'i>,
>)
    ensures
        agrees(r, input@, spec_return_type_optional_or_required(input@)),
{
    let (rest, name) = parse_camel_ident(input)?;
    match one_char(rest, '?') {
        Ok(rest2) => Ok((rest2, ReturnTypeOptionalOrRequired::Optional(name))),
        Err(_) => Ok((rest, ReturnTypeOptionalOrRequired::Required(name))),
    }
}

/// Recognises a parameter.
pub fn parse_param<'i>(input: Span<'i>) -> (r: PResult<'i, Param<'i>>)
    ensures
        agrees(r, input@, spec_param(input@)),
{
    let (r1, ident) = parse_snake_ident(input)?;
    let r2 = one_char(space0(r1), ':')?;
    let (r3, ty) = parse_type(space0(r2))?;
    Ok((r3, Param { ident, ty }))
}

/// Recognises a parenthesised parameter list.
pub fn parse_params<'i>(input: Span<'i>) -> (r: PResult<'i, Vec<Param<'i>>>)
    ensures
        match r {
            Ok((rest, params)) => spec_params(input@) == Some((rest@, views(params@)))
                && rest@.len() <= input@.len(),
            Err(e) => spec_params(input@) is None && e.rest <= input@.len(),
        },
{
    let r1 = one_char(input, '(')?;
    let (r2, params) = parse_param_list(multispace0(r1));
    let r3 = one_char(multispace0(r2), ')')?;
    Ok((r3, params))
}

/// Recognises a return type.
pub fn parse_return_type<'i>(input: Span<'i>) -> (r: PResult<'i, ReturnType<'i>>)
    ensures
        agrees(r, input@, spec_return_type(input@)),
{
    let e = match parse_return_type_optional_or_required(input) {
        Ok((rest, ev)) => return Ok((rest, ReturnType::Single(ev))),
        Err(e) => e,
    };
    let r1 = match one_char(input, '(') {
        Ok(r1) => r1,
        Err(e2) => return Err(either(e, e2)),
    };
    let (r2, events) = parse_event_ref_list(multispace0(r1));
    match one_char(multispace0(r2), ')') {
        Ok(r3) => Ok((r3, ReturnType::Tuple(events))),
        Err(e2) => Err(either(e, e2)),
    }
}

/// Recognises a command signature.
pub fn parse_command<'i>(input: Span<'i>) -> (r: PResult<'i, Command<'i>>)
    ensures
        agrees(r, input@, spec_command(input@)),
{
    let (r1, ident) = parse_snake_ident(input)?;
    let (r2, params) = parse_params(multispace0(r1))?;
    let r3 = separator(r2, ':')?;
    let (r4, return_type) = parse_return_type(r3)?;
    Ok((r4, Command { ident, params, return_type }))
}

/// Recognises a block of commands.
pub fn parse_command_block<'i>(input: Span<'i>) -> (r: PResult<'i, Vec<Command<'i>>>)
    ensures
        match r {
            Ok((rest, commands)) => spec_command_block(input@) == Some((rest@, views(commands@)))
                && rest@.len() <= input@.len(),
            Err(e) => spec_command_block(input@) is None && e.rest <= input@.len(),
        },
{
    let r1 = one_char(input, '{')?;
    if let Ok(r2) = one_char(multispace0(r1), '}') {
        let none: Vec<Command<'i>> = Vec::new();
        assert(views(none@) =~= seq![]);
        return Ok((r2, none));
    }
    let r3 = multinewline1(r1)?;
    let (r4, commands) = parse_command_list(r3);
    let r5 = multinewline1(r4)?;
    let r6 = one_char(r5, '}')?;
    Ok((r6, commands))
}

/// Recognises an `aggregate` block.
pub fn parse_aggregate<'i>(input: Span<'i>) -> (r: PResult<'i, Aggregate<'i>>)
    ensures
        agrees(r, input@, spec_aggregate(input@)),
{
    let r1 = tag(input, "aggregate")?;
    let r2 = space1(r1)?;
    let (r3, ident) = parse_camel_ident(r2)?;
    let (r4, commands) = parse_command_block(multispace0(r3))?;
    Ok((r4, Aggregate { ident, commands }))
}

} // verus!
