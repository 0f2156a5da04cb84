//! The errors that parsing and validating a schema can end in.

use vstd::prelude::*;

use crate::parser::Expected;

verus! {

/// Why a document was rejected: a syntax error, or the first semantic
/// error that resolution met.
#[derive(Debug, PartialEq, Eq)]
pub enum Error {
    /// Two commands of the aggregate share a name.
    DuplicateCommand(String),
    /// Two custom types share a name.
    DuplicateCustomType(String),
    /// Two fields of one custom type share a name.
    DuplicateCustomTypeField { ty: String, field: String },
    /// Two events share a name.
    DuplicateEvent(String),
    /// Two fields of one event share a name.
    DuplicateEventField { event: String, field: String },
    /// Two parameters of one command share a name.
    DuplicateParam { command: String, param: String },
    /// A command returns an event that no `event` block declares.
    EventNotDefined(String),
    /// The document declares no aggregate.
    MissingAggregate,
    /// The document declares no version.
    MissingVersion,
    /// The document declares more than one aggregate.
    MultipleAggregates,
    /// The document declares more than one version.
    MultipleVersions,
    /// The grammar does not read the document: the character offset where it
    /// failed, and what was expected there.
    Parse { position: usize, expected: Vec<Expected> },
    /// A field or parameter has a type that no `type` block declares.
    TypeNotDefined(String),
}

/// What `Error` holds, with names as character sequences.
pub enum SpecError {
    DuplicateCommand(Seq<char>),
    DuplicateCustomType(Seq<char>),
    DuplicateCustomTypeField { ty: Seq<char>, field: Seq<char> },
    DuplicateEvent(Seq<char>),
    DuplicateEventField { event: Seq<char>, field: Seq<char> },
    DuplicateParam { command: Seq<char>, param: Seq<char> },
    EventNotDefined(Seq<char>),
    MissingAggregate,
    MissingVersion,
    MultipleAggregates,
    MultipleVersions,
    Parse { position: usize },
    TypeNotDefined(Seq<char>),
}

impl View for Error {
    type V = SpecError;

    open spec fn view(&self) -> SpecError {
        match self {
            Error::DuplicateCommand(n) => SpecError::DuplicateCommand(n@),
            Error::DuplicateCustomType(n) => SpecError::DuplicateCustomType(n@),
            Error::DuplicateCustomTypeField { ty, field } => SpecError::DuplicateCustomTypeField {
                ty: ty@,
                field: field@,
            },
            Error::DuplicateEvent(n) => SpecError::DuplicateEvent(n@),
            Error::DuplicateEventField { event, field } => SpecError::DuplicateEventField {
                event: event@,
                field: field@,
            },
            Error::DuplicateParam { command, param } => SpecError::DuplicateParam {
                command: command@,
                param: param@,
            },
            Error::EventNotDefined(n) => SpecError::EventNotDefined(n@),
            Error::MissingAggregate => SpecError::MissingAggregate,
            Error::MissingVersion => SpecError::MissingVersion,
            Error::MultipleAggregates => SpecError::MultipleAggregates,
            Error::MultipleVersions => SpecError::MultipleVersions,
            Error::Parse { position, .. } => SpecError::Parse { position: *position },
            Error::TypeNotDefined(n) => SpecError::TypeNotDefined(n@),
        }
    }
}

} // verus!
