//! Error taxonomy. Definition-time errors ([`DefinitionError`]) cover the
//! annotation grammar, value coercion and declaration shape checks; they are
//! fatal and carry the span (and, where relevant, the name) of the offending
//! annotation. Runtime errors ([`SlashCommandError`]) cover dispatch and
//! registration: an event whose name no callback was registered under, or a
//! failure reported by the platform.

use vstd::prelude::*;

use crate::ast::Span;
use crate::attributes::ValueKind;

verus! {

/// A fatal error raised while a command is being defined. Each variant names
/// the check that failed and the source span it failed at, so a command is
/// either fully defined or not defined at all.
#[derive(Debug, Clone, PartialEq)]
pub enum DefinitionError {
    /// An annotation path with no segments cannot name an annotation.
    EmptyPath { span: Span },
    /// An annotation path must consist of a single segment.
    MultiSegmentPath { span: Span },
    /// An annotation path segment must not carry generic arguments.
    PathArguments { span: Span },
    /// A parenthesized annotation group cannot be empty.
    EmptyList { span: Span },
    /// A group may hold only literals and identifiers, not a nested group or
    /// a `name = value` pair.
    NestedList { span: Span },
    /// The annotation's form is not one of the forms its target type accepts.
    UnacceptableForm { span: Span, found: ValueKind },
    /// A literal was required but the annotation carries none.
    MissingLiteral { span: Span },
    /// The literal must be a string.
    NotStringLiteral { span: Span },
    /// The literal must be a boolean, or a string spelling one.
    NotBoolLiteral { span: Span },
    /// The literal must be an unsigned integer, or a string parsing as one.
    InvalidInteger { span: Span },
    /// The string literal does not spell a valid identifier.
    InvalidIdentifier { span: Span },
    /// The annotation's name is not one of the recognized keys.
    UnknownAttribute { span: Span, name: String },
    /// The declaration has more parameters than the callback signature takes.
    TooManyArguments { span: Span },
    /// A parameter pattern the shape validator does not accept.
    UnsupportedPattern { span: Span },
    /// A `self` parameter is prohibited in a command declaration.
    SelfArgument { span: Span },
    /// The declaration must spell out the platform's result type.
    MissingReturnType { span: Span },
}

impl DefinitionError {
    /// The source span the error points at.
    pub open spec fn span_spec(self) -> Span {
        match self {
            DefinitionError::EmptyPath { span } => span,
            DefinitionError::MultiSegmentPath { span } => span,
            DefinitionError::PathArguments { span } => span,
            DefinitionError::EmptyList { span } => span,
            DefinitionError::NestedList { span } => span,
            DefinitionError::UnacceptableForm { span, .. } => span,
            DefinitionError::MissingLiteral { span } => span,
            DefinitionError::NotStringLiteral { span } => span,
            DefinitionError::NotBoolLiteral { span } => span,
            DefinitionError::InvalidInteger { span } => span,
            DefinitionError::InvalidIdentifier { span } => span,
            DefinitionError::UnknownAttribute { span, .. } => span,
            DefinitionError::TooManyArguments { span } => span,
            DefinitionError::UnsupportedPattern { span } => span,
            DefinitionError::SelfArgument { span } => span,
            DefinitionError::MissingReturnType { span } => span,
        }
    }

    /// The source span, as an executable accessor.
    pub fn span(&self) -> (s: Span)
        ensures
            s == self.span_spec(),
    {
        match self {
            DefinitionError::EmptyPath { span } => *span,
            DefinitionError::MultiSegmentPath { span } => *span,
            DefinitionError::PathArguments { span } => *span,
            DefinitionError::EmptyList { span } => *span,
            DefinitionError::NestedList { span } => *span,
            DefinitionError::UnacceptableForm { span, .. } => *span,
            DefinitionError::MissingLiteral { span } => *span,
            DefinitionError::NotStringLiteral { span } => *span,
            DefinitionError::NotBoolLiteral { span } => *span,
            DefinitionError::InvalidInteger { span } => *span,
            DefinitionError::InvalidIdentifier { span } => *span,
            DefinitionError::UnknownAttribute { span, .. } => *span,
            DefinitionError::TooManyArguments { span } => *span,
            DefinitionError::UnsupportedPattern { span } => *span,
            DefinitionError::SelfArgument { span } => *span,
            DefinitionError::MissingReturnType { span } => *span,
        }
    }
}

/// A failure reported by the platform while a registration action was being
/// performed; the message is the platform's own.
#[derive(Debug, Clone, PartialEq)]
pub struct PlatformError {
    pub message: String,
}

/// The registry's umbrella error: an inbound event named a command nobody
/// registered, or the platform rejected a registration, in which case the
/// platform's failure is propagated unchanged.
#[derive(Debug, Clone, PartialEq)]
pub enum SlashCommandError {
    /// Dispatch found no callback registered under this name; the name is
    /// carried so the caller can report it.
    UnhandledSlashCommand(String),
    /// A platform failure, convertible into this type at the dispatch and
    /// registration boundaries.
    Platform(PlatformError),
}

impl From<PlatformError> for SlashCommandError {
    fn from(e: PlatformError) -> (r: SlashCommandError) {
        SlashCommandError::Platform(e)
    }
}

impl vstd::std_specs::convert::FromSpecImpl<PlatformError> for SlashCommandError {
    open spec fn obeys_from_spec() -> bool {
        true
    }

    open spec fn from_spec(e: PlatformError) -> SlashCommandError {
        SlashCommandError::Platform(e)
    }
}

} // verus!
