//! What resolution yields, stated over the syntax tree's views.
//!
//! Each list is resolved front to back; the first error met ends the whole
//! resolution. `*_from` functions resolve the rest of a list after the part
//! already resolved into `acc`.

use vstd::prelude::*;

use super::{
    SpecAggregate, SpecCommand, SpecCommandEvents, SpecCustomType, SpecEvent, SpecEventOpt, SpecField,
    SpecParam, SpecRepeatableType, SpecSchema, SpecTypeOpt, SpecTypeRef,
};
use crate::error::SpecError;
use crate::parser::aggregate::{RawAggregate, RawCommand, RawEventRef, RawParam, RawReturnType};
use crate::parser::event::{RawEvent, RawField};
use crate::parser::schema::RawSchema;
use crate::parser::types::{RawCustomType, RawType, RawTypeOpt, RawTypeRef};

verus! {

/// Some `type` block of `types` is named `n`.
pub open spec fn type_declared(types: Seq<RawCustomType>, n: Seq<char>) -> bool {
    exists|i: int| 0 <= i < types.len() && #[trigger] types[i].ident == n
}

/// Some field of `fields` is named `n`.
pub open spec fn field_named(fields: Seq<SpecField>, n: Seq<char>) -> bool {
    exists|i: int| 0 <= i < fields.len() && #[trigger] fields[i].0 == n
}

/// Some custom type of `types` is named `n`.
pub open spec fn custom_type_named(types: Seq<SpecCustomType>, n: Seq<char>) -> bool {
    exists|i: int| 0 <= i < types.len() && #[trigger] types[i].name == n
}

/// Some event of `events` is named `n`.
pub open spec fn event_named(events: Seq<SpecEvent>, n: Seq<char>) -> bool {
    exists|i: int| 0 <= i < events.len() && #[trigger] events[i].name == n
}

/// Some parameter of `params` is named `n`.
pub open spec fn param_named(params: Seq<SpecParam>, n: Seq<char>) -> bool {
    exists|i: int| 0 <= i < params.len() && #[trigger] params[i].name == n
}

/// Some command of `commands` is named `n`.
pub open spec fn command_named(commands: Seq<SpecCommand>, n: Seq<char>) -> bool {
    exists|i: int| 0 <= i < commands.len() && #[trigger] commands[i].name == n
}

/// The first event of `events` named `n`.
pub open spec fn lookup_event(events: Seq<SpecEvent>, n: Seq<char>) -> Option<SpecEvent>
    decreases events.len(),
{
    if events.len() == 0 {
        None
    } else if events[0].name == n {
        Some(events[0])
    } else {
        lookup_event(events.drop_first(), n)
    }
}

/// A scalar stays a scalar; a user type's name must be declared by a `type`
/// block.
pub open spec fn resolve_type_ref(types: Seq<RawCustomType>, t: RawTypeRef) -> Result<
    SpecTypeRef,
    SpecError,
> {
    match t {
        RawTypeRef::Scalar(k) => Ok(SpecTypeRef::Scalar(k)),
        RawTypeRef::UserDefined(n) => if type_declared(types, n) {
            Ok(SpecTypeRef::Custom(n))
        } else {
            Err(SpecError::TypeNotDefined(n))
        },
    }
}

/// The marker carries over: optional stays optional, required stays required.
pub open spec fn resolve_type_opt(types: Seq<RawCustomType>, t: RawTypeOpt) -> Result<
    SpecTypeOpt,
    SpecError,
> {
    match t {
        RawTypeOpt::Optional(r) => match resolve_type_ref(types, r) {
            Ok(x) => Ok(SpecTypeOpt::Optional(x)),
            Err(e) => Err(e),
        },
        RawTypeOpt::Required(r) => match resolve_type_ref(types, r) {
            Ok(x) => Ok(SpecTypeOpt::Required(x)),
            Err(e) => Err(e),
        },
    }
}

/// A single type stays single; an array becomes an optional or a required
/// array after its own marker.
pub open spec fn resolve_type(types: Seq<RawCustomType>, t: RawType) -> Result<
    SpecRepeatableType,
    SpecError,
> {
    match t {
        RawType::Single(x) => match resolve_type_opt(types, x) {
            Ok(y) => Ok(SpecRepeatableType::Single(y)),
            Err(e) => Err(e),
        },
        RawType::Array { inner, optional } => match resolve_type_opt(types, inner) {
            Ok(y) => if optional {
                Ok(SpecRepeatableType::OptionalArray(y))
            } else {
                Ok(SpecRepeatableType::RequiredArray(y))
            },
            Err(e) => Err(e),
        },
    }
}

/// The error for a second field named `field` in the event or custom type
/// named `owner`.
pub open spec fn duplicate_field(in_event: bool, owner: Seq<char>, field: Seq<char>) -> SpecError {
    if in_event {
        SpecError::DuplicateEventField { event: owner, field }
    } else {
        SpecError::DuplicateCustomTypeField { ty: owner, field }
    }
}

/// Each field's type is resolved, then its name must be new.
pub open spec fn resolve_fields_from(
    types: Seq<RawCustomType>,
    owner: Seq<char>,
    in_event: bool,
    fields: Seq<RawField>,
    acc: Seq<SpecField>,
) -> Result<Seq<SpecField>, SpecError>
    decreases fields.len(),
{
    if fields.len() == 0 {
        Ok(acc)
    } else {
        let f = fields[0];
        match resolve_type(types, f.ty) {
            Ok(t) => if field_named(acc, f.ident) {
                Err(duplicate_field(in_event, owner, f.ident))
            } else {
                resolve_fields_from(types, owner, in_event, fields.drop_first(), acc.push((f.ident, t)))
            },
            Err(e) => Err(e),
        }
    }
}

/// The fields of the event or custom type named `owner`.
pub open spec fn resolve_fields(
    types: Seq<RawCustomType>,
    owner: Seq<char>,
    in_event: bool,
    fields: Seq<RawField>,
) -> Result<Seq<SpecField>, SpecError> {
    resolve_fields_from(types, owner, in_event, fields, Seq::empty())
}

/// A `type` block with its fields resolved.
pub open spec fn resolve_custom_type(types: Seq<RawCustomType>, t: RawCustomType) -> Result<
    SpecCustomType,
    SpecError,
> {
    match resolve_fields(types, t.ident, false, t.fields) {
        Ok(fields) => Ok(SpecCustomType { name: t.ident, fields }),
        Err(e) => Err(e),
    }
}

/// An `event` block with its fields resolved.
pub open spec fn resolve_event(types: Seq<RawCustomType>, e: RawEvent) -> Result<
    SpecEvent,
    SpecError,
> {
    match resolve_fields(types, e.ident, true, e.fields) {
        Ok(fields) => Ok(SpecEvent { name: e.ident, fields }),
        Err(err) => Err(err),
    }
}

/// Each custom type is resolved, then its name must be new.
pub open spec fn resolve_custom_types_from(
    types: Seq<RawCustomType>,
    rest: Seq<RawCustomType>,
    acc: Seq<SpecCustomType>,
) -> Result<Seq<SpecCustomType>, SpecError>
    decreases rest.len(),
{
    if rest.len() == 0 {
        Ok(acc)
    } else {
        match resolve_custom_type(types, rest[0]) {
            Ok(t) => if custom_type_named(acc, t.name) {
                Err(SpecError::DuplicateCustomType(t.name))
            } else {
                resolve_custom_types_from(types, rest.drop_first(), acc.push(t))
            },
            Err(e) => Err(e),
        }
    }
}

/// The custom types of a document.
pub open spec fn resolve_custom_types(types: Seq<RawCustomType>) -> Result<
    Seq<SpecCustomType>,
    SpecError,
> {
    resolve_custom_types_from(types, types, Seq::empty())
}

/// Each event is resolved, then its name must be new.
pub open spec fn resolve_events_from(
    types: Seq<RawCustomType>,
    rest: Seq<RawEvent>,
    acc: Seq<SpecEvent>,
) -> Result<Seq<SpecEvent>, SpecError>
    decreases rest.len(),
{
    if rest.len() == 0 {
        Ok(acc)
    } else {
        match resolve_event(types, rest[0]) {
            Ok(e) => if event_named(acc, e.name) {
                Err(SpecError::DuplicateEvent(e.name))
            } else {
                resolve_events_from(types, rest.drop_first(), acc.push(e))
            },
            Err(err) => Err(err),
        }
    }
}

/// The events of a document.
pub open spec fn resolve_events(types: Seq<RawCustomType>, events: Seq<RawEvent>) -> Result<
    Seq<SpecEvent>,
    SpecError,
> {
    resolve_events_from(types, events, Seq::empty())
}

/// A returned event must be among the resolved events; the marker carries
/// over.
pub open spec fn resolve_event_ref(events: Seq<SpecEvent>, r: RawEventRef) -> Result<
    SpecEventOpt,
    SpecError,
> {
    match r {
        RawEventRef::Optional(n) => match lookup_event(events, n) {
            Some(e) => Ok(SpecEventOpt::Optional(e)),
            None => Err(SpecError::EventNotDefined(n)),
        },
        RawEventRef::Required(n) => match lookup_event(events, n) {
            Some(e) => Ok(SpecEventOpt::Required(e)),
            None => Err(SpecError::EventNotDefined(n)),
        },
    }
}

/// The events of a list, in order, up to the first that is not defined.
pub open spec fn resolve_event_refs_from(
    events: Seq<SpecEvent>,
    rest: Seq<RawEventRef>,
    acc: Seq<SpecEventOpt>,
) -> Result<Seq<SpecEventOpt>, SpecError>
    decreases rest.len(),
{
    if rest.len() == 0 {
        Ok(acc)
    } else {
        match resolve_event_ref(events, rest[0]) {
            Ok(e) => resolve_event_refs_from(events, rest.drop_first(), acc.push(e)),
            Err(err) => Err(err),
        }
    }
}

/// A command's return type.
pub open spec fn resolve_return_type(events: Seq<SpecEvent>, r: RawReturnType) -> Result<
    SpecCommandEvents,
    SpecError,
> {
    match r {
        RawReturnType::Single(x) => match resolve_event_ref(events, x) {
            Ok(e) => Ok(SpecCommandEvents::Single(e)),
            Err(err) => Err(err),
        },
        RawReturnType::Tuple(xs) => match resolve_event_refs_from(events, xs, Seq::empty()) {
            Ok(es) => Ok(SpecCommandEvents::Tuple(es)),
            Err(err) => Err(err),
        },
    }
}

/// A parameter with its type resolved.
pub open spec fn resolve_param(types: Seq<RawCustomType>, p: RawParam) -> Result<
    SpecParam,
    SpecError,
> {
    match resolve_type(types, p.ty) {
        Ok(ty) => Ok(SpecParam { name: p.ident, ty }),
        Err(e) => Err(e),
    }
}

/// Each parameter's name must be new, then its type is resolved.
pub open spec fn resolve_params_from(
    types: Seq<RawCustomType>,
    command: Seq<char>,
    rest: Seq<RawParam>,
    acc: Seq<SpecParam>,
) -> Result<Seq<SpecParam>, SpecError>
    decreases rest.len(),
{
    if rest.len() == 0 {
        Ok(acc)
    } else if param_named(acc, rest[0].ident) {
        Err(SpecError::DuplicateParam { command, param: rest[0].ident })
    } else {
        match resolve_param(types, rest[0]) {
            Ok(p) => resolve_params_from(types, command, rest.drop_first(), acc.push(p)),
            Err(e) => Err(e),
        }
    }
}

/// A command: its parameters, then its return type.
pub open spec fn resolve_command(
    types: Seq<RawCustomType>,
    events: Seq<SpecEvent>,
    c: RawCommand,
) -> Result<SpecCommand, SpecError> {
    match resolve_params_from(types, c.ident, c.params, Seq::empty()) {
        Ok(params) => match resolve_return_type(events, c.return_type) {
            Ok(evs) => Ok(SpecCommand { name: c.ident, params, events: evs }),
            Err(e) => Err(e),
        },
        Err(e) => Err(e),
    }
}

/// Each command is resolved, then its name must be new.
pub open spec fn resolve_commands_from(
    types: Seq<RawCustomType>,
    events: Seq<SpecEvent>,
    rest: Seq<RawCommand>,
    acc: Seq<SpecCommand>,
) -> Result<Seq<SpecCommand>, SpecError>
    decreases rest.len(),
{
    if rest.len() == 0 {
        Ok(acc)
    } else {
        match resolve_command(types, events, rest[0]) {
            Ok(c) => if command_named(acc, c.name) {
                Err(SpecError::DuplicateCommand(c.name))
            } else {
                resolve_commands_from(types, events, rest.drop_first(), acc.push(c))
            },
            Err(e) => Err(e),
        }
    }
}

/// An aggregate with its commands resolved.
pub open spec fn resolve_aggregate(
    types: Seq<RawCustomType>,
    events: Seq<SpecEvent>,
    a: RawAggregate,
) -> Result<SpecAggregate, SpecError> {
    match resolve_commands_from(types, events, a.commands, Seq::empty()) {
        Ok(commands) => Ok(SpecAggregate { name: a.ident, commands }),
        Err(e) => Err(e),
    }
}

/// The validated schema of a syntax tree: custom types, then events, then
/// exactly one aggregate, then exactly one version; the first error met is
/// the result.
pub open spec fn resolve_schema(raw: RawSchema) -> Result<SpecSchema, SpecError> {
    match resolve_custom_types(raw.types) {
        Err(e) => Err(e),
        Ok(types) => match resolve_events(raw.types, raw.events) {
            Err(e) => Err(e),
            Ok(events) => if raw.aggregates.len() > 1 {
                Err(SpecError::MultipleAggregates)
            } else if raw.aggregates.len() == 0 {
                Err(SpecError::MissingAggregate)
            } else {
                match resolve_aggregate(raw.types, events, raw.aggregates[0]) {
                    Err(e) => Err(e),
                    Ok(aggregate) => if raw.versions.len() > 1 {
                        Err(SpecError::MultipleVersions)
                    } else if raw.versions.len() == 0 {
                        Err(SpecError::MissingVersion)
                    } else {
                        Ok(SpecSchema { version: raw.versions[0], aggregate, events, types })
                    },
                }
            },
        },
    }
}

/// The custom type a resolved type refers to, if any.
pub open spec fn referenced_type(t: SpecRepeatableType) -> Option<Seq<char>> {
    let opt = match t {
        SpecRepeatableType::Single(x) => x,
        SpecRepeatableType::OptionalArray(x) => x,
        SpecRepeatableType::RequiredArray(x) => x,
    };
    let r = match opt {
        SpecTypeOpt::Optional(r) => r,
        SpecTypeOpt::Required(r) => r,
    };
    match r {
        SpecTypeRef::Scalar(_) => None,
        SpecTypeRef::Custom(n) => Some(n),
    }
}

/// Every field name is used once, and every custom type a field refers to
/// is one of `types`.
pub open spec fn fields_wf(types: Seq<SpecCustomType>, fields: Seq<SpecField>) -> bool {
    &&& forall|i: int, j: int| 0 <= i < j < fields.len() ==> #[trigger] fields[i].0 != #[trigger] fields[j].0
    &&& forall|k: int| 0 <= k < fields.len() ==> (#[trigger] referenced_type(fields[k].1) matches Some(n) ==> custom_type_named(types, n))
}

/// Every parameter name is used once, and every custom type a parameter
/// refers to is one of `types`.
pub open spec fn params_wf(types: Seq<SpecCustomType>, params: Seq<SpecParam>) -> bool {
    &&& forall|i: int, j: int| 0 <= i < j < params.len() ==> #[trigger] params[i].name != #[trigger] params[j].name
    &&& forall|k: int| 0 <= k < params.len() ==> (#[trigger] referenced_type(params[k].ty) matches Some(n) ==> custom_type_named(types, n))
}

/// The event that a returned event stands for.
pub open spec fn returned_event(e: SpecEventOpt) -> SpecEvent {
    match e {
        SpecEventOpt::Optional(x) => x,
        SpecEventOpt::Required(x) => x,
    }
}

/// Every event a command returns is one of `events`.
pub open spec fn command_events_wf(events: Seq<SpecEvent>, c: SpecCommandEvents) -> bool {
    match c {
        SpecCommandEvents::Single(e) => events.contains(returned_event(e)),
        SpecCommandEvents::Tuple(es) => forall|k: int| 0 <= k < es.len() ==> events.contains(returned_event(#[trigger] es[k])),
    }
}

/// What a validated schema guarantees: custom types, events and commands
/// each have distinct names; within each of them field and parameter names
/// are distinct; every custom type referred to is one of the schema's; and
/// every event a command returns is one of the schema's events.
pub open spec fn schema_wf(s: SpecSchema) -> bool {
    &&& forall|i: int, j: int| 0 <= i < j < s.types.len() ==> #[trigger] s.types[i].name != #[trigger] s.types[j].name
    &&& forall|i: int, j: int| 0 <= i < j < s.events.len() ==> #[trigger] s.events[i].name != #[trigger] s.events[j].name
    &&& forall|i: int| 0 <= i < s.types.len() ==> fields_wf(s.types, #[trigger] s.types[i].fields)
    &&& forall|i: int| 0 <= i < s.events.len() ==> fields_wf(s.types, #[trigger] s.events[i].fields)
    &&& forall|i: int, j: int| 0 <= i < j < s.aggregate.commands.len() ==> #[trigger] s.aggregate.commands[i].name != #[trigger] s.aggregate.commands[j].name
    &&& forall|i: int| 0 <= i < s.aggregate.commands.len() ==> params_wf(s.types, #[trigger] s.aggregate.commands[i].params)
    &&& forall|i: int| 0 <= i < s.aggregate.commands.len() ==> command_events_wf(s.events, #[trigger] s.aggregate.commands[i].events)
}

} // verus!
