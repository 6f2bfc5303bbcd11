//! Errors that are raised while compiling.

use vstd::prelude::*;
use crate::ast::{Number, NumberSize};
use crate::hash::Hash64;
use crate::list::List;
use crate::query::{GenericsParameters, Id, ItemId, MetaInfo, QueryError};
use crate::span::Span;

verus! {

/// Why a token could not be resolved to the text or value that it stands for.
#[derive(Debug, Clone, Copy, PartialEq, Eq, Structural)]
pub enum ResolveError {
    /// The token points outside of its source.
    BadSlice,
    /// The token holds an escape sequence which is not one.
    BadEscape,
    /// The token holds digits that do not make a number.
    BadNumber,
    /// The token is not closed.
    Unterminated,
}

/// Why a constant value cannot be used.
#[derive(Debug, Clone, Copy, PartialEq, Eq, Structural)]
pub enum ConstError {
    /// A pair was expected.
    ExpectedPair,
    /// A string was expected.
    ExpectedString,
}

/// The kind of a compile error.
#[derive(Debug, PartialEq, Eq)]
#[allow(inconsistent_fields)]
pub enum ErrorKind {
    /// A plain message.
    Msg(&'static str),
    /// Something else was expected in this place.
    Expected { expected: &'static str },
    /// A token could not be resolved.
    Resolve(ResolveError),
    /// The query engine refused a request.
    Query(QueryError),
    /// A constant value is of the wrong sort.
    Const(ConstError),
    /// Something that should have an id has none.
    MissingId { what: &'static str, id: Id },
    /// There is no such item.
    MissingItem { item: ItemId },
    /// There is no such item with the given parameters.
    MissingItemParameters { item: ItemId, parameters: GenericsParameters },
    /// There is no constant value for a hash.
    MissingConstant { hash: Hash64 },
    /// An item is of the wrong kind.
    ExpectedMeta { meta: MetaInfo, expected: &'static str },
    /// There is no such variable.
    MissingLocal { name: String },
    /// There is no `self` here.
    MissingSelf,
    /// There is no enclosing loop or block with the label.
    MissingLabel { label: String },
    /// A closure in a constant context.
    ClosureInConst,
    /// An asynchronous block in a constant context.
    AsyncBlockInConst,
    /// A key occurs twice in an object.
    DuplicateObjectKey { existing: Span, object: Span },
    /// An object literal or pattern names a field that the type does not have.
    LitObjectNotField { field: String, item: ItemId },
    /// An object literal lacks a field.
    LitObjectMissingField { field: String, item: ItemId },
    /// An item that cannot be built by an object literal.
    UnsupportedLitObject { meta: MetaInfo },
    /// A `select` has more than one default branch.
    SelectMultipleDefaults,
    /// An unsigned number is out of bounds.
    BadUnsignedOutOfBounds { size: NumberSize },
    /// A signed number is out of bounds.
    BadSignedOutOfBounds { size: NumberSize },
    /// Taking a reference.
    UnsupportedRef,
    /// A `break` outside of a loop.
    BreakUnsupported,
    /// A `continue` outside of a loop.
    ContinueUnsupported,
    /// A path that cannot be bound.
    UnsupportedBinding,
    /// The wrong number of arguments.
    BadArgumentCount { expected: usize, actual: usize },
    /// A pattern that is not supported in this place.
    UnsupportedPatternExpr,
    /// `..` in a place where it is not supported.
    UnsupportedPatternRest,
    /// A struct pattern lacks fields.
    PatternMissingFields { item: ItemId, fields: List<String> },
    /// Generics that are not supported in this place.
    UnsupportedGenerics,
    /// Too many generic parameters.
    TooManyParameters,
    /// A number that cannot be used as an index into a tuple.
    UnsupportedTupleIndex { number: Number },
    /// A field access that is not one.
    BadFieldAccess,
}

/// A compile error: what went wrong, and where.
#[derive(Debug, PartialEq, Eq)]
pub struct CompileError {
    /// Where the error is.
    pub span: Span,
    /// What the error is.
    pub kind: ErrorKind,
}

/// The error of the given kind at `span`.
pub open spec fn error(span: Span, kind: ErrorKind) -> CompileError {
    CompileError { span, kind }
}

impl CompileError {
    /// Construct an error.
    pub fn new(span: Span, kind: ErrorKind) -> (e: CompileError)
        ensures
            e == error(span, kind),
    {
        CompileError { span, kind }
    }
}

} // verus!
