//! A whole document: versions, aggregates, events and types in any order,
//! separated by blank space.

use vstd::prelude::*;

use super::aggregate::{parse_aggregate, spec_aggregate, Aggregate, RawAggregate};
use super::event::{parse_event, spec_event, Event, RawEvent};
use super::parsers::{multispace0, multispace1, spec_multispace0, spec_multispace1};
use super::types::{parse_custom_type, spec_custom_type, CustomType, RawCustomType};
use super::version::{parse_version, spec_version, SpecVersion, Version};
use crate::text::char_count;
use super::{agrees, either, lemma_views_push, views, PResult, Span};

verus! {

/// The declarations of a document, each kind in the order written.
#[derive(Clone, Debug, PartialEq, Eq)]
pub struct Schema<'i> {
    pub versions: Vec<Version>,
    pub aggregates: Vec<Aggregate<'i>>,
    pub events: Vec<Event<'i>>,
    pub types: Vec<CustomType<'i>>,
}

/// What `Schema` holds.
pub struct RawSchema {
    pub versions: Seq<SpecVersion>,
    pub aggregates: Seq<RawAggregate>,
    pub events: Seq<RawEvent>,
    pub types: Seq<RawCustomType>,
}

impl<'i> View for Schema<'i> {
    type V = RawSchema;

    open spec fn view(&self) -> RawSchema {
        RawSchema {
            versions: views(self.versions@),
            aggregates: views(self.aggregates@),
            events: views(self.events@),
            types: views(self.types@),
        }
    }
}

/// One top-level item.
pub enum SchemaType<'i> {
    Aggregate(Aggregate<'i>),
    Event(Event<'i>),
    CustomType(CustomType<'i>),
    Version(Version),
    Noop,
}

/// What `SchemaType` holds.
pub enum RawItem {
    Aggregate(RawAggregate),
    Event(RawEvent),
    CustomType(RawCustomType),
    Version(SpecVersion),
    Noop,
}

impl<'i> View for SchemaType<'i> {
    type V = RawItem;

    open spec fn view(&self) -> RawItem {
        match *self {
            SchemaType::Aggregate(a) => RawItem::Aggregate(a@),
            SchemaType::Event(e) => RawItem::Event(e@),
            SchemaType::CustomType(t) => RawItem::CustomType(t@),
            SchemaType::Version(v) => RawItem::Version(v@),
            SchemaType::Noop => RawItem::Noop,
        }
    }
}

/// The schema with no declarations.
pub open spec fn empty_schema() -> RawSchema {
    RawSchema {
        versions: Seq::empty(),
        aggregates: Seq::empty(),
        events: Seq::empty(),
        types: Seq::empty(),
    }
}

/// `acc` with `item` added at the end of its kind's list.
pub open spec fn add_item(acc: RawSchema, item: RawItem) -> RawSchema {
    match item {
        RawItem::Aggregate(a) => RawSchema { aggregates: acc.aggregates.push(a), ..acc },
        RawItem::Event(e) => RawSchema { events: acc.events.push(e), ..acc },
        RawItem::CustomType(t) => RawSchema { types: acc.types.push(t), ..acc },
        RawItem::Version(v) => RawSchema { versions: acc.versions.push(v), ..acc },
        RawItem::Noop => acc,
    }
}

/// One top-level item: blank space, else an aggregate, a version, an event
/// or a type, tried in that order.
pub open spec fn spec_item(s: Seq<char>) -> Option<(Seq<char>, RawItem)> {
    if let Some(r) = spec_multispace1(s) {
        Some((r, RawItem::Noop))
    } else if let Some((r, a)) = spec_aggregate(s) {
        Some((r, RawItem::Aggregate(a)))
    } else if let Some((r, v)) = spec_version(s) {
        Some((r, RawItem::Version(v)))
    } else if let Some((r, e)) = spec_event(s) {
        Some((r, RawItem::Event(e)))
    } else if let Some((r, t)) = spec_custom_type(s) {
        Some((r, RawItem::CustomType(t)))
    } else {
        None
    }
}

/// Items read one after another and added to `acc`, until none is found.
pub open spec fn spec_items(s: Seq<char>, acc: RawSchema) -> (Seq<char>, RawSchema)
    decreases s.len(),
{
    match spec_item(s) {
        Some((r, item)) => if r.len() < s.len() {
            spec_items(r, add_item(acc, item))
        } else {
            (s, acc)
        },
        None => (s, acc),
    }
}

/// A document's items between leading and trailing blank space; yields the
/// input that no item matched and the declarations found.
pub open spec fn spec_schema(s: Seq<char>) -> (Seq<char>, RawSchema) {
    let (r, schema) = spec_items(spec_multispace0(s), empty_schema());
    (spec_multispace0(r), schema)
}

/// Recognises one top-level item.
pub fn parse_item<'i>(input: Span<'i>) -> (r: PResult<'i, SchemaType<'i>>)
    ensures
        agrees(r, input@, spec_item(input@)),
{
    let e = match multispace1(input) {
        Ok(rest) => return Ok((rest, SchemaType::Noop)),
        Err(e) => e,
    };
    let e = match parse_aggregate(input) {
        Ok((rest, a)) => return Ok((rest, SchemaType::Aggregate(a))),
        Err(e2) => either(e, e2),
    };
    let e = match parse_version(input) {
        Ok((rest, v)) => return Ok((rest, SchemaType::Version(v))),
        Err(e2) => either(e, e2),
    };
    let e = match parse_event(input) {
        Ok((rest, ev)) => return Ok((rest, SchemaType::Event(ev))),
        Err(e2) => either(e, e2),
    };
    match parse_custom_type(input) {
        Ok((rest, t)) => Ok((rest, SchemaType::CustomType(t))),
        Err(e2) => Err(either(e, e2)),
    }
}

/// Adds `item` to the declarations of `schema`.
fn add_to_schema<'i>(schema: &mut Schema<'i>, item: SchemaType<'i>)
    ensures
        final(schema)@ == add_item(old(schema)@, item@),
{
    match item {
        SchemaType::Aggregate(a) => {
            proof { lemma_views_push(schema.aggregates@, a); }
            schema.aggregates.push(a);
        },
        SchemaType::Event(e) => {
            proof { lemma_views_push(schema.events@, e); }
            schema.events.push(e);
        },
        SchemaType::CustomType(t) => {
            proof { lemma_views_push(schema.types@, t); }
            schema.types.push(t);
        },
        SchemaType::Version(v) => {
            proof { lemma_views_push(schema.versions@, v); }
            schema.versions.push(v);
        },
        SchemaType::Noop => {},
    }
}

/// Reads top-level items until none matches; yields the input left and the
/// declarations found, each kind in the order written.
pub fn parse_schema<'i>(input: Span<'i>) -> (r: (Span<'i>, Schema<'i>))
    ensures
        (r.0@, r.1@) == spec_schema(input@),
        r.0@.len() <= input@.len(),
{
    let mut schema = Schema {
        versions: Vec::new(),
        aggregates: Vec::new(),
        events: Vec::new(),
        types: Vec::new(),
    };
    assert(views(schema.versions@) =~= Seq::<SpecVersion>::empty());
    assert(views(schema.aggregates@) =~= Seq::<RawAggregate>::empty());
    assert(views(schema.events@) =~= Seq::<RawEvent>::empty());
    assert(views(schema.types@) =~= Seq::<RawCustomType>::empty());
    let mut cur = multispace0(input);
    loop
        invariant
            spec_items(spec_multispace0(input@), empty_schema()) == spec_items(cur@, schema@),
            cur@.len() <= input@.len(),
        ensures
            cur@.len() <= input@.len(),
            spec_items(spec_multispace0(input@), empty_schema()) == (cur@, schema@),
        decreases cur@.len(),
    {
        match parse_item(cur) {
            Ok((rest, item)) => {
                if char_count(rest) < char_count(cur) {
                    add_to_schema(&mut schema, item);
                    cur = rest;
                } else {
                    break;
                }
            },
            Err(_) => break,
        }
    }
    (multispace0(cur), schema)
}

} // verus!
