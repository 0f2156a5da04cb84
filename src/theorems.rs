//! What holds of every document, proved from the grammar's and the
//! resolver's spec functions.

use vstd::prelude::*;

use crate::document_outcome;
use crate::error::SpecError;
use crate::parser::aggregate::{
    spec_return_type_optional_or_required, RawCommand, RawEventRef, RawReturnType,
};
use crate::parser::event::{RawEvent, RawField};
use crate::parser::schema::RawSchema;
use crate::parser::ident::spec_camel_ident;
use crate::parser::types::{
    spec_optional_or_required_type, spec_scalar_or_user_type, RawCustomType,
    RawTypeOpt,
};
use crate::schema::rules::{
    custom_type_named, duplicate_field, event_named, field_named, lookup_event,
    resolve_aggregate, resolve_command, resolve_custom_type, resolve_custom_types, resolve_event,
    resolve_custom_types_from, resolve_event_ref, resolve_events, resolve_events_from,
    resolve_fields, resolve_fields_from, resolve_params_from, resolve_schema, resolve_type,
    resolve_type_opt, resolve_type_ref,
};
use crate::parser::aggregate::RawParam;
use crate::schema::rules::{
    command_events_wf, command_named, fields_wf, param_named, params_wf, referenced_type,
    resolve_commands_from, resolve_event_refs_from, resolve_param, resolve_return_type,
    returned_event, schema_wf, type_declared,
};
use crate::schema::{
    SpecCommand, SpecCommandEvents, SpecCustomType, SpecEvent, SpecEventOpt, SpecField, SpecParam, SpecSchema,
    SpecTypeOpt,
};

verus! {

/// Resolution is a function of the text alone: resolving one valid document
/// twice gives structurally equal schemas.
pub proof fn law_resolution_is_deterministic(first: Seq<char>, second: Seq<char>)
    requires
        first == second,
        document_outcome(first) matches Some(Ok(_)),
    ensures
        document_outcome(second) == document_outcome(first),
{
}

/// A type reference without a trailing `?` is required and one with it is
/// optional, and resolution keeps the marker.
pub proof fn law_types_are_required_by_default(types: Seq<RawCustomType>, s: Seq<char>)
    requires
        spec_scalar_or_user_type(s) is Some,
    ensures
        ({
            let (rest, t) = spec_scalar_or_user_type(s)->Some_0;
            if rest.len() > 0 && rest[0] == '?' {
                &&& spec_optional_or_required_type(s) == Some(
                    (rest.drop_first(), RawTypeOpt::Optional(t)),
                )
                &&& resolve_type_ref(types, t) matches Ok(x) ==> resolve_type_opt(
                    types,
                    RawTypeOpt::Optional(t),
                ) == Ok::<SpecTypeOpt, SpecError>(SpecTypeOpt::Optional(x))
            } else {
                &&& spec_optional_or_required_type(s) == Some((rest, RawTypeOpt::Required(t)))
                &&& resolve_type_ref(types, t) matches Ok(x) ==> resolve_type_opt(
                    types,
                    RawTypeOpt::Required(t),
                ) == Ok::<SpecTypeOpt, SpecError>(SpecTypeOpt::Required(x))
            }
        }),
{
}

/// An event a command returns is required unless its name is followed by
/// `?`, and resolution keeps the marker.
pub proof fn law_events_are_required_by_default(events: Seq<SpecEvent>, s: Seq<char>)
    requires
        spec_camel_ident(s) is Some,
    ensures
        ({
            let (rest, n) = spec_camel_ident(s)->Some_0;
            if rest.len() > 0 && rest[0] == '?' {
                &&& spec_return_type_optional_or_required(s) == Some(
                    (rest.drop_first(), RawEventRef::Optional(n)),
                )
                &&& lookup_event(events, n) matches Some(e) ==> resolve_event_ref(
                    events,
                    RawEventRef::Optional(n),
                ) == Ok::<SpecEventOpt, SpecError>(SpecEventOpt::Optional(e))
            } else {
                &&& spec_return_type_optional_or_required(s) == Some(
                    (rest, RawEventRef::Required(n)),
                )
                &&& lookup_event(events, n) matches Some(e) ==> resolve_event_ref(
                    events,
                    RawEventRef::Required(n),
                ) == Ok::<SpecEventOpt, SpecError>(SpecEventOpt::Required(e))
            }
        }),
{
}

/// Once a name in `rest` is taken, by `acc` or by an earlier entry of
/// `rest`, resolving the custom types of `rest` ends in a duplicate.
proof fn lemma_duplicate_type_from(
    types: Seq<RawCustomType>,
    rest: Seq<RawCustomType>,
    acc: Seq<SpecCustomType>,
)
    requires
        forall|i: int| 0 <= i < rest.len() ==> resolve_custom_type(types, #[trigger] rest[i]) is Ok,
        (exists|k: int| 0 <= k < rest.len() && custom_type_named(acc, #[trigger] rest[k].ident))
            || (exists|i: int, j: int|
            0 <= i < j < rest.len() && #[trigger] rest[i].ident == #[trigger] rest[j].ident),
    ensures
        resolve_custom_types_from(types, rest, acc) matches Err(SpecError::DuplicateCustomType(_)),
    decreases rest.len(),
{
    assert(rest.len() > 0);
    assert(resolve_custom_type(types, rest[0]) is Ok);
    let t = resolve_custom_type(types, rest[0])->Ok_0;
    assert(t.name == rest[0].ident);
    if !custom_type_named(acc, t.name) {
        let acc2 = acc.push(t);
        let rest2 = rest.drop_first();
        assert forall|i: int| 0 <= i < rest2.len() implies resolve_custom_type(
            types,
            #[trigger] rest2[i],
        ) is Ok by {
            assert(rest2[i] == rest[i + 1]);
        }
        if exists|k: int| 0 <= k < rest.len() && custom_type_named(acc, #[trigger] rest[k].ident) {
            let k = choose|k: int| 0 <= k < rest.len() && custom_type_named(acc, #[trigger] rest[k].ident);
            assert(k != 0);
            let w = choose|w: int| 0 <= w < acc.len() && #[trigger] acc[w].name == rest[k].ident;
            assert(acc2[w] == acc[w]);
            assert(rest2[k - 1] == rest[k]);
            assert(custom_type_named(acc2, rest2[k - 1].ident));
        } else {
            let (i, j) = choose|i: int, j: int|
                0 <= i < j < rest.len() && #[trigger] rest[i].ident == #[trigger] rest[j].ident;
            if i == 0 {
                assert(acc2[acc.len() as int] == t);
                assert(rest2[j - 1] == rest[j]);
                assert(custom_type_named(acc2, rest2[j - 1].ident));
            } else {
                assert(rest2[i - 1] == rest[i]);
                assert(rest2[j - 1] == rest[j]);
            }
        }
        lemma_duplicate_type_from(types, rest2, acc2);
    }
}

/// Custom types that each resolve, under names that neither `acc` nor an
/// earlier entry holds, resolve together.
proof fn lemma_distinct_types_from(
    types: Seq<RawCustomType>,
    rest: Seq<RawCustomType>,
    acc: Seq<SpecCustomType>,
)
    requires
        forall|i: int| 0 <= i < rest.len() ==> resolve_custom_type(types, #[trigger] rest[i]) is Ok,
        forall|i: int, j: int|
            0 <= i < j < rest.len() ==> #[trigger] rest[i].ident != #[trigger] rest[j].ident,
        forall|k: int| 0 <= k < rest.len() ==> !custom_type_named(acc, #[trigger] rest[k].ident),
    ensures
        resolve_custom_types_from(types, rest, acc) is Ok,
    decreases rest.len(),
{
    if rest.len() > 0 {
        let t = resolve_custom_type(types, rest[0])->Ok_0;
        let acc2 = acc.push(t);
        let rest2 = rest.drop_first();
        assert forall|i: int| 0 <= i < rest2.len() implies resolve_custom_type(
            types,
            #[trigger] rest2[i],
        ) is Ok by {
            assert(rest2[i] == rest[i + 1]);
        }
        assert forall|i: int, j: int| 0 <= i < j < rest2.len() implies #[trigger] rest2[i].ident
            != #[trigger] rest2[j].ident by {
            assert(rest2[i] == rest[i + 1]);
            assert(rest2[j] == rest[j + 1]);
        }
        assert forall|k: int| 0 <= k < rest2.len() implies !custom_type_named(
            acc2,
            #[trigger] rest2[k].ident,
        ) by {
            assert(rest2[k] == rest[k + 1]);
            assert(rest[0].ident != rest[k + 1].ident);
            if custom_type_named(acc2, rest2[k].ident) {
                let w = choose|w: int| 0 <= w < acc2.len() && #[trigger] acc2[w].name == rest2[k].ident;
                if w < acc.len() {
                    assert(acc[w] == acc2[w]);
                    assert(custom_type_named(acc, rest[k + 1].ident));
                }
            }
        }
        lemma_distinct_types_from(types, rest2, acc2);
    }
}

/// Duplicate custom types are detected by name across the whole document:
/// where every custom type resolves on its own, two of one name end
/// resolution in `DuplicateCustomType`, and pairwise distinct names let all
/// of them resolve, whatever field names they share.
pub proof fn law_duplicate_types_are_name_scoped(raw: RawSchema)
    requires
        forall|i: int|
            0 <= i < raw.types.len() ==> resolve_custom_type(raw.types, #[trigger] raw.types[i]) is Ok,
    ensures
        (exists|i: int, j: int|
            0 <= i < j < raw.types.len() && #[trigger] raw.types[i].ident
                == #[trigger] raw.types[j].ident) ==> resolve_schema(raw) matches Err(
            SpecError::DuplicateCustomType(_),
        ),
        (forall|i: int, j: int|
            0 <= i < j < raw.types.len() ==> #[trigger] raw.types[i].ident
                != #[trigger] raw.types[j].ident) ==> resolve_custom_types(raw.types) is Ok,
{
    if exists|i: int, j: int|
        0 <= i < j < raw.types.len() && #[trigger] raw.types[i].ident == #[trigger] raw.types[j].ident {
        lemma_duplicate_type_from(raw.types, raw.types, Seq::empty());
    }
    if forall|i: int, j: int|
        0 <= i < j < raw.types.len() ==> #[trigger] raw.types[i].ident != #[trigger] raw.types[j].ident {
        lemma_distinct_types_from(raw.types, raw.types, Seq::empty());
    }
}

/// Once a field name in `fields` is taken, by `acc` or by an earlier field,
/// resolving the fields ends in a duplicate field of `owner`.
proof fn lemma_duplicate_field_from(
    types: Seq<RawCustomType>,
    owner: Seq<char>,
    in_event: bool,
    fields: Seq<RawField>,
    acc: Seq<SpecField>,
)
    requires
        forall|i: int| 0 <= i < fields.len() ==> resolve_type(types, #[trigger] fields[i].ty) is Ok,
        (exists|k: int| 0 <= k < fields.len() && field_named(acc, #[trigger] fields[k].ident))
            || (exists|i: int, j: int|
            0 <= i < j < fields.len() && #[trigger] fields[i].ident == #[trigger] fields[j].ident),
    ensures
        exists|f: Seq<char>|
            resolve_fields_from(types, owner, in_event, fields, acc) == Err::<Seq<SpecField>, SpecError>(
                #[trigger] duplicate_field(in_event, owner, f),
            ),
    decreases fields.len(),
{
    assert(fields.len() > 0);
    assert(resolve_type(types, fields[0].ty) is Ok);
    let t = resolve_type(types, fields[0].ty)->Ok_0;
    if field_named(acc, fields[0].ident) {
        assert(resolve_fields_from(types, owner, in_event, fields, acc) == Err::<Seq<SpecField>, SpecError>(
            duplicate_field(in_event, owner, fields[0].ident),
        ));
    } else {
        let acc2 = acc.push((fields[0].ident, t));
        let rest2 = fields.drop_first();
        assert forall|i: int| 0 <= i < rest2.len() implies resolve_type(
            types,
            #[trigger] rest2[i].ty,
        ) is Ok by {
            assert(rest2[i] == fields[i + 1]);
        }
        if exists|k: int| 0 <= k < fields.len() && field_named(acc, #[trigger] fields[k].ident) {
            let k = choose|k: int| 0 <= k < fields.len() && field_named(acc, #[trigger] fields[k].ident);
            assert(k != 0);
            let w = choose|w: int| 0 <= w < acc.len() && #[trigger] acc[w].0 == fields[k].ident;
            assert(acc2[w] == acc[w]);
            assert(rest2[k - 1] == fields[k]);
            assert(field_named(acc2, rest2[k - 1].ident));
        } else {
            let (i, j) = choose|i: int, j: int|
                0 <= i < j < fields.len() && #[trigger] fields[i].ident == #[trigger] fields[j].ident;
            if i == 0 {
                assert(acc2[acc.len() as int].0 == fields[0].ident);
                assert(rest2[j - 1] == fields[j]);
                assert(field_named(acc2, rest2[j - 1].ident));
            } else {
                assert(rest2[i - 1] == fields[i]);
                assert(rest2[j - 1] == fields[j]);
            }
        }
        lemma_duplicate_field_from(types, owner, in_event, rest2, acc2);
    }
}

/// Two fields of one name within one custom type, whose field types all
/// resolve, end its resolution in `DuplicateCustomTypeField` for that type.
pub proof fn law_duplicate_fields_within_a_type(types: Seq<RawCustomType>, t: RawCustomType)
    requires
        forall|i: int| 0 <= i < t.fields.len() ==> resolve_type(types, #[trigger] t.fields[i].ty) is Ok,
        exists|i: int, j: int|
            0 <= i < j < t.fields.len() && #[trigger] t.fields[i].ident == #[trigger] t.fields[j].ident,
    ensures
        resolve_custom_type(types, t) matches Err(SpecError::DuplicateCustomTypeField { ty, .. }) && ty
            == t.ident,
{
    lemma_duplicate_field_from(types, t.ident, false, t.fields, Seq::empty());
    let f = choose|f: Seq<char>|
        resolve_fields(types, t.ident, false, t.fields) == Err::<Seq<SpecField>, SpecError>(
            #[trigger] duplicate_field(false, t.ident, f),
        );
}

/// The resolved events are the declared ones, by name, in declaration order.
proof fn lemma_event_names_from(types: Seq<RawCustomType>, rest: Seq<RawEvent>, acc: Seq<SpecEvent>)
    requires
        resolve_events_from(types, rest, acc) is Ok,
    ensures
        ({
            let out = resolve_events_from(types, rest, acc)->Ok_0;
            &&& out.len() == acc.len() + rest.len()
            &&& forall|i: int| 0 <= i < acc.len() ==> #[trigger] out[i] == acc[i]
            &&& forall|i: int| 0 <= i < rest.len() ==> #[trigger] out[acc.len() + i].name == rest[i].ident
        }),
    decreases rest.len(),
{
    if rest.len() > 0 {
        let e = resolve_event(types, rest[0])->Ok_0;
        let acc2 = acc.push(e);
        let rest2 = rest.drop_first();
        lemma_event_names_from(types, rest2, acc2);
        let out = resolve_events_from(types, rest, acc)->Ok_0;
        assert forall|i: int| 0 <= i < acc.len() implies #[trigger] out[i] == acc[i] by {
            assert(acc2[i] == acc[i]);
        }
        assert forall|i: int| 0 <= i < rest.len() implies #[trigger] out[acc.len() + i].name
            == rest[i].ident by {
            if i == 0 {
                assert(out[acc.len() as int] == acc2[acc.len() as int]);
            } else {
                assert(rest2[i - 1] == rest[i]);
                assert(acc.len() + i == acc2.len() + (i - 1));
            }
        }
    }
}

/// Looking an event up finds one exactly when some event has that name.
proof fn lemma_lookup_event(events: Seq<SpecEvent>, n: Seq<char>)
    ensures
        lookup_event(events, n) is Some <==> event_named(events, n),
    decreases events.len(),
{
    if events.len() > 0 {
        let rest = events.drop_first();
        lemma_lookup_event(rest, n);
        if event_named(rest, n) {
            let w = choose|w: int| 0 <= w < rest.len() && #[trigger] rest[w].name == n;
            assert(events[w + 1] == rest[w]);
        }
        if event_named(events, n) && events[0].name != n {
            let w = choose|w: int| 0 <= w < events.len() && #[trigger] events[w].name == n;
            assert(rest[w - 1] == events[w]);
        }
    }
}

/// The name an event reference holds.
pub open spec fn event_ref_name(r: RawEventRef) -> Seq<char> {
    match r {
        RawEventRef::Optional(n) => n,
        RawEventRef::Required(n) => n,
    }
}

/// An event a command returns is looked up by name among all declared
/// events: it resolves exactly when some `event` block of the document has
/// that name, wherever that block stands in the text.
pub proof fn law_events_resolve_by_name(
    types: Seq<RawCustomType>,
    raw_events: Seq<RawEvent>,
    r: RawEventRef,
)
    requires
        resolve_events(types, raw_events) is Ok,
    ensures
        resolve_event_ref(resolve_events(types, raw_events)->Ok_0, r) is Ok <==> exists|i: int|
            0 <= i < raw_events.len() && #[trigger] raw_events[i].ident == event_ref_name(r),
{
    let events = resolve_events(types, raw_events)->Ok_0;
    let n = event_ref_name(r);
    lemma_event_names_from(types, raw_events, Seq::empty());
    lemma_lookup_event(events, n);
    if event_named(events, n) {
        let w = choose|w: int| 0 <= w < events.len() && #[trigger] events[w].name == n;
        let none = Seq::<SpecEvent>::empty();
        assert(events[none.len() + w].name == raw_events[w].ident);
        assert(raw_events[w].ident == n);
    }
    if exists|i: int| 0 <= i < raw_events.len() && #[trigger] raw_events[i].ident == n {
        let i = choose|i: int| 0 <= i < raw_events.len() && #[trigger] raw_events[i].ident == n;
        let none = Seq::<SpecEvent>::empty();
        assert(events[none.len() + i].name == raw_events[i].ident);
    }
}

/// A command whose parameters resolve and which returns a single event that
/// no `event` block declares fails with `EventNotDefined` naming that event.
pub proof fn law_undefined_event_is_reported(
    types: Seq<RawCustomType>,
    raw_events: Seq<RawEvent>,
    c: RawCommand,
)
    requires
        resolve_events(types, raw_events) is Ok,
        resolve_params_from(types, c.ident, c.params, Seq::empty()) is Ok,
        c.return_type is Single,
        forall|i: int|
            0 <= i < raw_events.len() ==> #[trigger] raw_events[i].ident != event_ref_name(
                c.return_type->Single_0,
            ),
    ensures
        resolve_command(types, resolve_events(types, raw_events)->Ok_0, c) == Err::<
            crate::schema::SpecCommand,
            SpecError,
        >(SpecError::EventNotDefined(event_ref_name(c.return_type->Single_0))),
{
    law_events_resolve_by_name(types, raw_events, c.return_type->Single_0);
}

/// Resolving a list of returned events resolves each in its place.
proof fn lemma_event_refs_in_order(
    events: Seq<SpecEvent>,
    rest: Seq<RawEventRef>,
    acc: Seq<SpecEventOpt>,
)
    requires
        resolve_event_refs_from(events, rest, acc) is Ok,
    ensures
        ({
            let out = resolve_event_refs_from(events, rest, acc)->Ok_0;
            &&& out.len() == acc.len() + rest.len()
            &&& forall|k: int| 0 <= k < acc.len() ==> #[trigger] out[k] == acc[k]
            &&& forall|k: int| 0 <= k < rest.len() ==> resolve_event_ref(events, rest[k])
                == Ok::<SpecEventOpt, SpecError>(#[trigger] out[acc.len() + k])
        }),
    decreases rest.len(),
{
    if rest.len() > 0 {
        let e = resolve_event_ref(events, rest[0])->Ok_0;
        let acc2 = acc.push(e);
        let rest2 = rest.drop_first();
        lemma_event_refs_in_order(events, rest2, acc2);
        let out = resolve_event_refs_from(events, rest, acc)->Ok_0;
        assert forall|k: int| 0 <= k < acc.len() implies #[trigger] out[k] == acc[k] by {
            assert(acc2[k] == acc[k]);
        }
        assert forall|k: int| 0 <= k < rest.len() implies resolve_event_ref(events, rest[k])
            == Ok::<SpecEventOpt, SpecError>(#[trigger] out[acc.len() + k]) by {
            if k == 0 {
                assert(out[acc.len() as int] == acc2[acc.len() as int]);
            } else {
                assert(rest2[k - 1] == rest[k]);
                assert(acc.len() + k == acc2.len() + (k - 1));
            }
        }
    }
}

/// A parenthesised return type resolves to a list of the same length, each
/// entry the resolution of the event named in that place, with its marker.
pub proof fn law_tuple_return_types_keep_order(events: Seq<SpecEvent>, refs: Seq<RawEventRef>)
    requires
        resolve_return_type(events, RawReturnType::Tuple(refs)) is Ok,
    ensures
        resolve_return_type(events, RawReturnType::Tuple(refs)) matches Ok(
            SpecCommandEvents::Tuple(es),
        ) && es.len() == refs.len() && forall|k: int|
            0 <= k < refs.len() ==> resolve_event_ref(events, refs[k]) == Ok::<
                SpecEventOpt,
                SpecError,
            >(#[trigger] es[k]),
{
    lemma_event_refs_in_order(events, refs, Seq::empty());
    let es = resolve_event_refs_from(events, refs, Seq::empty())->Ok_0;
    assert forall|k: int| 0 <= k < refs.len() implies resolve_event_ref(events, refs[k]) == Ok::<
        SpecEventOpt,
        SpecError,
    >(#[trigger] es[k]) by {
        let none = Seq::<SpecEventOpt>::empty();
        assert(es[none.len() + k] == es[k]);
    }
}

/// Where custom types and events resolve, a document with no aggregate fails
/// with `MissingAggregate` and one with several with `MultipleAggregates`;
/// where its one aggregate resolves too, no version gives `MissingVersion`
/// and several give `MultipleVersions`.
pub proof fn law_aggregate_and_version_cardinality(raw: RawSchema)
    requires
        resolve_custom_types(raw.types) is Ok,
        resolve_events(raw.types, raw.events) is Ok,
    ensures
        raw.aggregates.len() == 0 ==> resolve_schema(raw) == Err::<crate::schema::SpecSchema, SpecError>(
            SpecError::MissingAggregate,
        ),
        raw.aggregates.len() > 1 ==> resolve_schema(raw) == Err::<crate::schema::SpecSchema, SpecError>(
            SpecError::MultipleAggregates,
        ),
        raw.aggregates.len() == 1 && resolve_aggregate(
            raw.types,
            resolve_events(raw.types, raw.events)->Ok_0,
            raw.aggregates[0],
        ) is Ok ==> {
            &&& raw.versions.len() == 0 ==> resolve_schema(raw) == Err::<
                crate::schema::SpecSchema,
                SpecError,
            >(SpecError::MissingVersion)
            &&& raw.versions.len() > 1 ==> resolve_schema(raw) == Err::<
                crate::schema::SpecSchema,
                SpecError,
            >(SpecError::MultipleVersions)
        },
{
}

/// Distinct field names, and every custom type referred to declared by a
/// `type` block of `types`.
pub open spec fn fields_declared(types: Seq<RawCustomType>, fields: Seq<SpecField>) -> bool {
    &&& forall|i: int, j: int| 0 <= i < j < fields.len() ==> #[trigger] fields[i].0 != #[trigger] fields[j].0
    &&& forall|k: int| 0 <= k < fields.len() ==> (#[trigger] referenced_type(fields[k].1) matches Some(n) ==> type_declared(types, n))
}

/// Distinct parameter names, and every custom type referred to declared by
/// a `type` block of `types`.
pub open spec fn params_declared(types: Seq<RawCustomType>, params: Seq<SpecParam>) -> bool {
    &&& forall|i: int, j: int| 0 <= i < j < params.len() ==> #[trigger] params[i].name != #[trigger] params[j].name
    &&& forall|k: int| 0 <= k < params.len() ==> (#[trigger] referenced_type(params[k].ty) matches Some(n) ==> type_declared(types, n))
}

/// Resolving a field's fields keeps names distinct and references declared.
proof fn lemma_fields_from_declared(
    types: Seq<RawCustomType>,
    owner: Seq<char>,
    in_event: bool,
    fields: Seq<RawField>,
    acc: Seq<SpecField>,
)
    requires
        resolve_fields_from(types, owner, in_event, fields, acc) is Ok,
        fields_declared(types, acc),
    ensures
        fields_declared(types, resolve_fields_from(types, owner, in_event, fields, acc)->Ok_0),
    decreases fields.len(),
{
    if fields.len() > 0 {
        let f = fields[0];
        let t = resolve_type(types, f.ty)->Ok_0;
        let acc2 = acc.push((f.ident, t));
        assert forall|i: int, j: int| 0 <= i < j < acc2.len() implies #[trigger] acc2[i].0
            != #[trigger] acc2[j].0 by {
            if j == acc.len() {
                assert(acc2[i] == acc[i]);
                if acc[i].0 == f.ident {
                    assert(field_named(acc, f.ident));
                }
            } else {
                assert(acc2[i] == acc[i] && acc2[j] == acc[j]);
            }
        }
        assert forall|k: int| 0 <= k < acc2.len() implies (#[trigger] referenced_type(acc2[k].1) matches Some(n)
            ==> type_declared(types, n)) by {
            if k < acc.len() {
                assert(acc2[k] == acc[k]);
            }
        }
        lemma_fields_from_declared(types, owner, in_event, fields.drop_first(), acc2);
    }
}

/// Resolved custom types, by name, are the declared ones in order.
proof fn lemma_type_names_from(
    types: Seq<RawCustomType>,
    rest: Seq<RawCustomType>,
    acc: Seq<SpecCustomType>,
)
    requires
        resolve_custom_types_from(types, rest, acc) is Ok,
        forall|i: int, j: int| 0 <= i < j < acc.len() ==> #[trigger] acc[i].name != #[trigger] acc[j].name,
        forall|i: int| 0 <= i < acc.len() ==> fields_declared(types, #[trigger] acc[i].fields),
    ensures
        ({
            let out = resolve_custom_types_from(types, rest, acc)->Ok_0;
            &&& out.len() == acc.len() + rest.len()
            &&& forall|i: int| 0 <= i < acc.len() ==> #[trigger] out[i] == acc[i]
            &&& forall|i: int| 0 <= i < rest.len() ==> #[trigger] out[acc.len() + i].name == rest[i].ident
            &&& forall|i: int, j: int| 0 <= i < j < out.len() ==> #[trigger] out[i].name != #[trigger] out[j].name
            &&& forall|i: int| 0 <= i < out.len() ==> fields_declared(types, #[trigger] out[i].fields)
        }),
    decreases rest.len(),
{
    if rest.len() > 0 {
        let t = resolve_custom_type(types, rest[0])->Ok_0;
        let acc2 = acc.push(t);
        let rest2 = rest.drop_first();
        lemma_fields_from_declared(types, rest[0].ident, false, rest[0].fields, Seq::empty());
        assert forall|i: int, j: int| 0 <= i < j < acc2.len() implies #[trigger] acc2[i].name
            != #[trigger] acc2[j].name by {
            if j == acc.len() {
                assert(acc2[i] == acc[i]);
                if acc[i].name == t.name {
                    assert(custom_type_named(acc, t.name));
                }
            } else {
                assert(acc2[i] == acc[i] && acc2[j] == acc[j]);
            }
        }
        assert forall|i: int| 0 <= i < acc2.len() implies fields_declared(types, #[trigger] acc2[i].fields) by {
            if i < acc.len() {
                assert(acc2[i] == acc[i]);
            }
        }
        lemma_type_names_from(types, rest2, acc2);
        let out = resolve_custom_types_from(types, rest, acc)->Ok_0;
        assert forall|i: int| 0 <= i < acc.len() implies #[trigger] out[i] == acc[i] by {
            assert(acc2[i] == acc[i]);
        }
        assert forall|i: int| 0 <= i < rest.len() implies #[trigger] out[acc.len() + i].name
            == rest[i].ident by {
            if i == 0 {
                assert(out[acc.len() as int] == acc2[acc.len() as int]);
            } else {
                assert(rest2[i - 1] == rest[i]);
                assert(acc.len() + i == acc2.len() + (i - 1));
            }
        }
    }
}

/// Resolved events keep distinct names and well-formed fields.
proof fn lemma_events_from_declared(types: Seq<RawCustomType>, rest: Seq<RawEvent>, acc: Seq<SpecEvent>)
    requires
        resolve_events_from(types, rest, acc) is Ok,
        forall|i: int, j: int| 0 <= i < j < acc.len() ==> #[trigger] acc[i].name != #[trigger] acc[j].name,
        forall|i: int| 0 <= i < acc.len() ==> fields_declared(types, #[trigger] acc[i].fields),
    ensures
        ({
            let out = resolve_events_from(types, rest, acc)->Ok_0;
            &&& forall|i: int, j: int| 0 <= i < j < out.len() ==> #[trigger] out[i].name != #[trigger] out[j].name
            &&& forall|i: int| 0 <= i < out.len() ==> fields_declared(types, #[trigger] out[i].fields)
        }),
    decreases rest.len(),
{
    if rest.len() > 0 {
        let e = resolve_event(types, rest[0])->Ok_0;
        let acc2 = acc.push(e);
        lemma_fields_from_declared(types, rest[0].ident, true, rest[0].fields, Seq::empty());
        assert forall|i: int, j: int| 0 <= i < j < acc2.len() implies #[trigger] acc2[i].name
            != #[trigger] acc2[j].name by {
            if j == acc.len() {
                assert(acc2[i] == acc[i]);
                if acc[i].name == e.name {
                    assert(event_named(acc, e.name));
                }
            } else {
                assert(acc2[i] == acc[i] && acc2[j] == acc[j]);
            }
        }
        assert forall|i: int| 0 <= i < acc2.len() implies fields_declared(types, #[trigger] acc2[i].fields) by {
            if i < acc.len() {
                assert(acc2[i] == acc[i]);
            }
        }
        lemma_events_from_declared(types, rest.drop_first(), acc2);
    }
}

/// A looked-up event is one of the events.
proof fn lemma_lookup_event_member(events: Seq<SpecEvent>, n: Seq<char>)
    ensures
        lookup_event(events, n) matches Some(e) ==> events.contains(e),
    decreases events.len(),
{
    if events.len() > 0 && events[0].name != n {
        let rest = events.drop_first();
        lemma_lookup_event_member(rest, n);
        if lookup_event(rest, n) is Some {
            let e = lookup_event(rest, n)->Some_0;
            let w = choose|w: int| 0 <= w < rest.len() && rest[w] == e;
            assert(events[w + 1] == e);
        }
    } else if events.len() > 0 {
        assert(events[0] == events[0]);
    }
}

/// Every event that a list of returned events resolves to is one of the
/// events.
proof fn lemma_event_refs_from_member(
    events: Seq<SpecEvent>,
    rest: Seq<RawEventRef>,
    acc: Seq<SpecEventOpt>,
)
    requires
        resolve_event_refs_from(events, rest, acc) is Ok,
        forall|k: int| 0 <= k < acc.len() ==> events.contains(returned_event(#[trigger] acc[k])),
    ensures
        ({
            let out = resolve_event_refs_from(events, rest, acc)->Ok_0;
            forall|k: int| 0 <= k < out.len() ==> events.contains(returned_event(#[trigger] out[k]))
        }),
    decreases rest.len(),
{
    if rest.len() > 0 {
        let e = resolve_event_ref(events, rest[0])->Ok_0;
        lemma_lookup_event_member(events, event_ref_name(rest[0]));
        let acc2 = acc.push(e);
        assert forall|k: int| 0 <= k < acc2.len() implies events.contains(returned_event(#[trigger] acc2[k])) by {
            if k < acc.len() {
                assert(acc2[k] == acc[k]);
            }
        }
        lemma_event_refs_from_member(events, rest.drop_first(), acc2);
    }
}

/// Resolving parameters keeps names distinct and references declared.
proof fn lemma_params_from_declared(
    types: Seq<RawCustomType>,
    command: Seq<char>,
    rest: Seq<RawParam>,
    acc: Seq<SpecParam>,
)
    requires
        resolve_params_from(types, command, rest, acc) is Ok,
        params_declared(types, acc),
    ensures
        params_declared(types, resolve_params_from(types, command, rest, acc)->Ok_0),
    decreases rest.len(),
{
    if rest.len() > 0 {
        let p = resolve_param(types, rest[0])->Ok_0;
        let acc2 = acc.push(p);
        assert forall|i: int, j: int| 0 <= i < j < acc2.len() implies #[trigger] acc2[i].name
            != #[trigger] acc2[j].name by {
            if j == acc.len() {
                assert(acc2[i] == acc[i]);
                if acc[i].name == p.name {
                    assert(param_named(acc, p.name));
                }
            } else {
                assert(acc2[i] == acc[i] && acc2[j] == acc[j]);
            }
        }
        assert forall|k: int| 0 <= k < acc2.len() implies (#[trigger] referenced_type(acc2[k].ty) matches Some(n)
            ==> type_declared(types, n)) by {
            if k < acc.len() {
                assert(acc2[k] == acc[k]);
            }
        }
        lemma_params_from_declared(types, command, rest.drop_first(), acc2);
    }
}

/// What resolution guarantees of one command.
pub open spec fn command_declared(types: Seq<RawCustomType>, events: Seq<SpecEvent>, c: SpecCommand) -> bool {
    params_declared(types, c.params) && command_events_wf(events, c.events)
}

/// Resolving commands keeps names distinct and each command well-formed.
proof fn lemma_commands_from_declared(
    types: Seq<RawCustomType>,
    events: Seq<SpecEvent>,
    rest: Seq<RawCommand>,
    acc: Seq<SpecCommand>,
)
    requires
        resolve_commands_from(types, events, rest, acc) is Ok,
        forall|i: int, j: int| 0 <= i < j < acc.len() ==> #[trigger] acc[i].name != #[trigger] acc[j].name,
        forall|i: int| 0 <= i < acc.len() ==> command_declared(types, events, #[trigger] acc[i]),
    ensures
        ({
            let out = resolve_commands_from(types, events, rest, acc)->Ok_0;
            &&& forall|i: int, j: int| 0 <= i < j < out.len() ==> #[trigger] out[i].name != #[trigger] out[j].name
            &&& forall|i: int| 0 <= i < out.len() ==> command_declared(types, events, #[trigger] out[i])
        }),
    decreases rest.len(),
{
    if rest.len() > 0 {
        let c = resolve_command(types, events, rest[0])->Ok_0;
        lemma_params_from_declared(types, rest[0].ident, rest[0].params, Seq::empty());
        match rest[0].return_type {
            RawReturnType::Single(x) => {
                lemma_lookup_event_member(events, event_ref_name(x));
            },
            RawReturnType::Tuple(xs) => {
                lemma_event_refs_from_member(events, xs, Seq::empty());
            },
        }
        assert(command_declared(types, events, c));
        let acc2 = acc.push(c);
        assert forall|i: int, j: int| 0 <= i < j < acc2.len() implies #[trigger] acc2[i].name
            != #[trigger] acc2[j].name by {
            if j == acc.len() {
                assert(acc2[i] == acc[i]);
                if acc[i].name == c.name {
                    assert(command_named(acc, c.name));
                }
            } else {
                assert(acc2[i] == acc[i] && acc2[j] == acc[j]);
            }
        }
        assert forall|i: int| 0 <= i < acc2.len() implies command_declared(types, events, #[trigger] acc2[i]) by {
            if i < acc.len() {
                assert(acc2[i] == acc[i]);
            }
        }
        lemma_commands_from_declared(types, events, rest.drop_first(), acc2);
    }
}

/// A type declared by a `type` block is, after resolution, one of the
/// schema's custom types.
proof fn lemma_declared_is_named(types: Seq<RawCustomType>, n: Seq<char>)
    requires
        resolve_custom_types(types) is Ok,
        type_declared(types, n),
    ensures
        custom_type_named(resolve_custom_types(types)->Ok_0, n),
{
    lemma_type_names_from(types, types, Seq::empty());
    let out = resolve_custom_types(types)->Ok_0;
    let i = choose|i: int| 0 <= i < types.len() && #[trigger] types[i].ident == n;
    let none = Seq::<SpecCustomType>::empty();
    assert(out[none.len() + i].name == types[i].ident);
}

/// Every schema that resolution yields is well-formed: names are unique in
/// every scope, every custom type referred to is one of the schema's, and
/// every event a command returns is one of the schema's events.
pub proof fn law_resolved_schemas_are_well_formed(raw: RawSchema)
    requires
        resolve_schema(raw) is Ok,
    ensures
        schema_wf(resolve_schema(raw)->Ok_0),
{
    let s = resolve_schema(raw)->Ok_0;
    let types = raw.types;
    lemma_type_names_from(types, types, Seq::empty());
    lemma_events_from_declared(types, raw.events, Seq::empty());
    lemma_commands_from_declared(types, s.events, raw.aggregates[0].commands, Seq::empty());
    assert forall|i: int| 0 <= i < s.types.len() implies fields_wf(s.types, #[trigger] s.types[i].fields) by {
        let fs = s.types[i].fields;
        assert(fields_declared(types, fs));
        assert forall|k: int| 0 <= k < fs.len() implies (#[trigger] referenced_type(fs[k].1) matches Some(n)
            ==> custom_type_named(s.types, n)) by {
            if let Some(n) = referenced_type(fs[k].1) {
                lemma_declared_is_named(types, n);
            }
        }
    }
    assert forall|i: int| 0 <= i < s.events.len() implies fields_wf(s.types, #[trigger] s.events[i].fields) by {
        let fs = s.events[i].fields;
        assert(fields_declared(types, fs));
        assert forall|k: int| 0 <= k < fs.len() implies (#[trigger] referenced_type(fs[k].1) matches Some(n)
            ==> custom_type_named(s.types, n)) by {
            if let Some(n) = referenced_type(fs[k].1) {
                lemma_declared_is_named(types, n);
            }
        }
    }
    assert forall|i: int| 0 <= i < s.aggregate.commands.len() implies params_wf(s.types, #[trigger] s.aggregate.commands[i].params) by {
        let ps = s.aggregate.commands[i].params;
        assert(command_declared(types, s.events, s.aggregate.commands[i]));
        assert forall|k: int| 0 <= k < ps.len() implies (#[trigger] referenced_type(ps[k].ty) matches Some(n)
            ==> custom_type_named(s.types, n)) by {
            if let Some(n) = referenced_type(ps[k].ty) {
                lemma_declared_is_named(types, n);
            }
        }
    }
    assert forall|i: int| 0 <= i < s.aggregate.commands.len() implies command_events_wf(s.events, #[trigger] s.aggregate.commands[i].events) by {
        assert(command_declared(types, s.events, s.aggregate.commands[i]));
    }
}

} // verus!
