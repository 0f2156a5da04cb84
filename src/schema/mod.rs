//! The validated schema model: owned, fully resolved, with every name
//! unique within its scope.
//!
//! Keyed collections keep declaration order and hold each name once. A
//! reference to a custom type holds that type's name, which is a key of
//! `Schema::types`; an event a command returns is a copy of the declared
//! event.

use vstd::prelude::*;

pub mod resolve;
pub mod rules;

pub use crate::error::Error;
pub use crate::parser::types::Scalar;
pub use crate::parser::version::{SpecVersion, Version};

use crate::parser::views;

verus! {

/// A validated schema: its version, its aggregate, and its events and custom
/// types keyed by name.
#[derive(Clone, Debug, PartialEq, Eq)]
pub struct Schema {
    pub version: Version,
    pub aggregate: Aggregate,
    pub events: Vec<Event>,
    pub types: Vec<CustomType>,
}

/// An aggregate: its name and its commands keyed by name.
#[derive(Clone, Debug, PartialEq, Eq)]
pub struct Aggregate {
    pub name: String,
    pub commands: Vec<Command>,
}

/// A command: its name, its parameters in order, and the events it returns.
#[derive(Clone, Debug, PartialEq, Eq)]
pub struct Command {
    pub name: String,
    pub params: Vec<Param>,
    pub events: CommandEvents,
}

/// A command parameter.
#[derive(Clone, Debug, PartialEq, Eq)]
pub struct Param {
    pub name: String,
    pub ty: RepeatableType,
}

/// The events a command returns: one, or one of a list kept in order.
#[derive(Clone, Debug, PartialEq, Eq)]
pub enum CommandEvents {
    Single(EventOpt),
    Tuple(Vec<EventOpt>),
}

/// An event a command returns, optional or required.
#[derive(Clone, Debug, PartialEq, Eq)]
pub enum EventOpt {
    Optional(Event),
    Required(Event),
}

/// An event: its name and its field types keyed by field name.
#[derive(Clone, Debug, PartialEq, Eq)]
pub struct Event {
    pub name: String,
    pub fields: Vec<(String, RepeatableType)>,
}

/// A custom type: its name and its field types keyed by field name.
#[derive(Clone, Debug, PartialEq, Eq)]
pub struct CustomType {
    pub name: String,
    pub fields: Vec<(String, RepeatableType)>,
}

/// A single value, an optional array or a required array.
#[derive(Clone, Debug, PartialEq, Eq)]
pub enum RepeatableType {
    Single(TypeOpt),
    OptionalArray(TypeOpt),
    RequiredArray(TypeOpt),
}

/// An optional or required type.
#[derive(Clone, Debug, PartialEq, Eq)]
pub enum TypeOpt {
    Optional(TypeRef),
    Required(TypeRef),
}

/// A scalar, or the name of a custom type of the schema.
#[derive(Clone, Debug, PartialEq, Eq)]
pub enum TypeRef {
    Scalar(Scalar),
    Custom(String),
}

/// What `TypeRef` holds.
pub enum SpecTypeRef {
    Scalar(Scalar),
    Custom(Seq<char>),
}

/// What `TypeOpt` holds.
pub enum SpecTypeOpt {
    Optional(SpecTypeRef),
    Required(SpecTypeRef),
}

/// What `RepeatableType` holds.
pub enum SpecRepeatableType {
    Single(SpecTypeOpt),
    OptionalArray(SpecTypeOpt),
    RequiredArray(SpecTypeOpt),
}

/// A field name and its type.
pub type SpecField = (Seq<char>, SpecRepeatableType);

/// What `CustomType` holds.
pub struct SpecCustomType {
    pub name: Seq<char>,
    pub fields: Seq<SpecField>,
}

/// What `Event` holds.
pub struct SpecEvent {
    pub name: Seq<char>,
    pub fields: Seq<SpecField>,
}

/// What `EventOpt` holds.
pub enum SpecEventOpt {
    Optional(SpecEvent),
    Required(SpecEvent),
}

/// What `CommandEvents` holds.
pub enum SpecCommandEvents {
    Single(SpecEventOpt),
    Tuple(Seq<SpecEventOpt>),
}

/// What `Param` holds.
pub struct SpecParam {
    pub name: Seq<char>,
    pub ty: SpecRepeatableType,
}

/// What `Command` holds.
pub struct SpecCommand {
    pub name: Seq<char>,
    pub params: Seq<SpecParam>,
    pub events: SpecCommandEvents,
}

/// What `Aggregate` holds.
pub struct SpecAggregate {
    pub name: Seq<char>,
    pub commands: Seq<SpecCommand>,
}

/// What `Schema` holds.
pub struct SpecSchema {
    pub version: SpecVersion,
    pub aggregate: SpecAggregate,
    pub events: Seq<SpecEvent>,
    pub types: Seq<SpecCustomType>,
}

impl View for TypeRef {
    type V = SpecTypeRef;

    open spec fn view(&self) -> SpecTypeRef {
        match self {
            TypeRef::Scalar(k) => SpecTypeRef::Scalar(*k),
            TypeRef::Custom(n) => SpecTypeRef::Custom(n@),
        }
    }
}

impl View for TypeOpt {
    type V = SpecTypeOpt;

    open spec fn view(&self) -> SpecTypeOpt {
        match self {
            TypeOpt::Optional(t) => SpecTypeOpt::Optional(t@),
            TypeOpt::Required(t) => SpecTypeOpt::Required(t@),
        }
    }
}

impl View for RepeatableType {
    type V = SpecRepeatableType;

    open spec fn view(&self) -> SpecRepeatableType {
        match self {
            RepeatableType::Single(t) => SpecRepeatableType::Single(t@),
            RepeatableType::OptionalArray(t) => SpecRepeatableType::OptionalArray(t@),
            RepeatableType::RequiredArray(t) => SpecRepeatableType::RequiredArray(t@),
        }
    }
}

impl View for CustomType {
    type V = SpecCustomType;

    open spec fn view(&self) -> SpecCustomType {
        SpecCustomType { name: self.name@, fields: views(self.fields@) }
    }
}

impl View for Event {
    type V = SpecEvent;

    open spec fn view(&self) -> SpecEvent {
        SpecEvent { name: self.name@, fields: views(self.fields@) }
    }
}

impl View for EventOpt {
    type V = SpecEventOpt;

    open spec fn view(&self) -> SpecEventOpt {
        match self {
            EventOpt::Optional(e) => SpecEventOpt::Optional(e@),
            EventOpt::Required(e) => SpecEventOpt::Required(e@),
        }
    }
}

impl View for CommandEvents {
    type V = SpecCommandEvents;

    open spec fn view(&self) -> SpecCommandEvents {
        match self {
            CommandEvents::Single(e) => SpecCommandEvents::Single(e@),
            CommandEvents::Tuple(es) => SpecCommandEvents::Tuple(views(es@)),
        }
    }
}

impl View for Param {
    type V = SpecParam;

    open spec fn view(&self) -> SpecParam {
        SpecParam { name: self.name@, ty: self.ty@ }
    }
}

impl View for Command {
    type V = SpecCommand;

    open spec fn view(&self) -> SpecCommand {
        SpecCommand { name: self.name@, params: views(self.params@), events: self.events@ }
    }
}

impl View for Aggregate {
    type V = SpecAggregate;

    open spec fn view(&self) -> SpecAggregate {
        SpecAggregate { name: self.name@, commands: views(self.commands@) }
    }
}

impl View for Schema {
    type V = SpecSchema;

    open spec fn view(&self) -> SpecSchema {
        SpecSchema {
            version: self.version@,
            aggregate: self.aggregate@,
            events: views(self.events@),
            types: views(self.types@),
        }
    }
}

} // verus!
