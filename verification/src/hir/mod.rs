//! The intermediate representation of expressions.

use vstd::prelude::*;
use crate::ast::{BinOp, Float, FormatSpec, UnOp};
use crate::hash::Hash64;
use crate::list::List;
use crate::query::{Call as FnCall, ItemId, ItemMeta};
use crate::runtime::Type;
use crate::span::Span;

pub mod block_laws;
pub mod const_laws;
pub mod control_laws;
pub mod ctxt;
pub mod drop_laws;
pub mod expr_laws;
pub mod field_laws;
pub mod frame;
pub mod item_laws;
pub mod lowering;
pub mod lowering_laws;
pub mod model;
pub mod pat_laws;
pub mod rules;
pub mod scope_laws;
pub mod scopes;

verus! {

/// A variable.
#[derive(Debug, Clone, Copy, PartialEq, Eq, Structural)]
pub struct Variable(pub u64);

/// The name of a variable.
#[derive(Debug, PartialEq, Eq)]
pub enum Name {
    /// `self`.
    SelfValue,
    /// A named variable.
    Str(String),
}

/// A literal.
#[derive(Debug, PartialEq, Eq)]
pub enum Lit {
    /// A boolean.
    Bool(bool),
    /// An unsigned integer.
    Unsigned(u64),
    /// A signed integer.
    Signed(i64),
    /// A floating point number.
    Float(Float),
    /// A character.
    Char(char),
    /// A string.
    Str(String),
    /// A byte string.
    ByteStr(List<u8>),
}

/// The type that a sequence pattern matches.
#[derive(Debug, Clone, Copy, PartialEq, Eq, Structural)]
pub enum PatSequenceKind {
    /// A type or a variant.
    Type {
        /// The hash of the type.
        hash: Hash64,
        /// The hash of the variant.
        variant_hash: Hash64,
    },
    /// A sequence.
    Sequence {
        /// The hash of the type of the sequence.
        hash: Hash64,
        /// The number of items.
        count: usize,
        /// Whether there may be more items.
        is_open: bool,
    },
}

/// A pattern.
#[derive(Debug, PartialEq, Eq)]
pub struct Pat {
    /// Where the pattern is.
    pub span: Span,
    /// The kind of the pattern.
    pub kind: PatKind,
}

/// The kind of a pattern.
#[derive(Debug, PartialEq, Eq)]
pub enum PatKind {
    /// Anything.
    Ignore,
    /// A path.
    Path(PatPathKind),
    /// A literal.
    Lit(Box<Expr>),
    /// A sequence.
    Sequence(PatSequence),
    /// An object.
    Object(PatObject),
}

/// The kind of a path pattern.
#[derive(Debug, Clone, Copy, PartialEq, Eq, Structural)]
pub enum PatPathKind {
    /// A type without fields.
    Kind(PatSequenceKind),
    /// A variable that is bound.
    Ident(Variable),
}

/// A sequence pattern.
#[derive(Debug, PartialEq, Eq)]
pub struct PatSequence {
    /// What is matched.
    pub kind: PatSequenceKind,
    /// The patterns of the items.
    pub items: List<Pat>,
}

/// An object pattern.
#[derive(Debug, PartialEq, Eq)]
pub struct PatObject {
    /// What is matched.
    pub kind: PatSequenceKind,
    /// The patterns of the fields.
    pub bindings: List<Binding>,
}

/// A field in an object pattern.
#[derive(Debug, PartialEq, Eq)]
pub enum Binding {
    /// A field that a pattern is matched against.
    Binding(Span, String, Box<Pat>),
    /// A field that is bound to a variable.
    Ident(Span, String, Variable),
}

impl Binding {
    /// The key of the field.
    pub open spec fn key_of(self) -> String {
        match self {
            Binding::Binding(_, key, _) => key,
            Binding::Ident(_, key, _) => key,
        }
    }

    /// The key of the field.
    pub fn key(&self) -> (key: &String)
        ensures
            *key == self.key_of(),
    {
        match self {
            Binding::Binding(_, key, _) => key,
            Binding::Ident(_, key, _) => key,
        }
    }
}

/// A pattern with the variables that it binds.
#[derive(Debug, PartialEq, Eq)]
pub struct PatBinding {
    /// The pattern.
    pub pat: Pat,
    /// The variables.
    pub names: List<Variable>,
}

/// An expression.
#[derive(Debug, PartialEq, Eq)]
pub struct Expr {
    /// Where the expression is.
    pub span: Span,
    /// The kind of the expression.
    pub kind: ExprKind,
}

/// The kind of an expression.
#[derive(Debug, PartialEq, Eq)]
pub enum ExprKind {
    /// A variable.
    Variable(Variable),
    /// A type.
    Type(Type),
    /// A function.
    Fn(Hash64),
    /// A path that its user resolves.
    Path,
    /// An assignment.
    Assign(Box<ExprAssign>),
    /// A loop.
    Loop(Box<ExprLoop>),
    /// A `for` loop.
    For(Box<ExprFor>),
    /// A `let`.
    Let(Box<ExprLet>),
    /// An `if`.
    If(Box<Conditional>),
    /// A `match`.
    Match(Box<ExprMatch>),
    /// A call.
    Call(Box<ExprCall>),
    /// A field access.
    FieldAccess(Box<ExprFieldAccess>),
    /// A binary operation.
    Binary(Box<ExprBinary>),
    /// A unary operation.
    Unary(Box<ExprUnary>),
    /// An index.
    Index(Box<ExprIndex>),
    /// An asynchronous block.
    AsyncBlock(Box<ExprAsyncBlock>),
    /// A block.
    Block(Box<Block>),
    /// A `break`.
    Break(Box<ExprBreak>),
    /// A `continue`.
    Continue(Box<ExprContinue>),
    /// A `yield`.
    Yield(Option<Box<Expr>>),
    /// A `return`.
    Return(Option<Box<Expr>>),
    /// An `.await`.
    Await(Box<Expr>),
    /// A `?`.
    Try(Box<Expr>),
    /// A `select`.
    Select(Box<ExprSelect>),
    /// A closure with captures.
    CallClosure(Box<ExprCallClosure>),
    /// A literal.
    Lit(Lit),
    /// An object.
    Object(Box<ExprObject>),
    /// A tuple.
    Tuple(List<Expr>),
    /// A vector.
    Vec(List<Expr>),
    /// A range.
    Range(Box<ExprRange>),
    /// An expression in delimiters.
    Group(Box<Expr>),
    /// A template.
    Template(Box<BuiltInTemplate>),
    /// A formatted value.
    Format(Box<BuiltInFormat>),
    /// A constant.
    Const(Hash64),
}

/// A template.
#[derive(Debug, PartialEq, Eq)]
pub struct BuiltInTemplate {
    /// Where the template is.
    pub span: Span,
    /// Whether the template is a template literal.
    pub from_literal: bool,
    /// The parts of the template.
    pub exprs: List<Expr>,
}

/// A formatted value.
#[derive(Debug, PartialEq, Eq)]
pub struct BuiltInFormat {
    /// How the value is formatted.
    pub spec: FormatSpec,
    /// The value.
    pub value: Expr,
}

/// An assignment.
#[derive(Debug, PartialEq, Eq)]
pub struct ExprAssign {
    /// What is assigned to.
    pub lhs: Expr,
    /// What is assigned.
    pub rhs: Expr,
}

/// A loop.
#[derive(Debug, PartialEq, Eq)]
pub struct ExprLoop {
    /// The label of the loop.
    pub label: Option<String>,
    /// The condition of the loop, if it has one.
    pub condition: Option<Condition>,
    /// The body of the loop.
    pub body: Block,
    /// The variables that the loop drops.
    pub drop: List<Variable>,
}

/// A `for` loop.
#[derive(Debug, PartialEq, Eq)]
pub struct ExprFor {
    /// The label of the loop.
    pub label: Option<String>,
    /// The pattern that each item is bound to.
    pub binding: PatBinding,
    /// What is iterated over.
    pub iter: Expr,
    /// The body of the loop.
    pub body: Block,
    /// The variables that the loop drops.
    pub drop: List<Variable>,
}

/// A `let`.
#[derive(Debug, PartialEq, Eq)]
pub struct ExprLet {
    /// The pattern.
    pub pat: PatBinding,
    /// What is bound.
    pub expr: Expr,
}

/// A condition.
#[derive(Debug, PartialEq, Eq)]
pub enum Condition {
    /// An expression.
    Expr(Expr),
    /// A `let`.
    ExprLet(ExprLet),
}

/// An `if` with all of its branches.
#[derive(Debug, PartialEq, Eq)]
pub struct Conditional {
    /// The branches with a condition.
    pub branches: List<ConditionalBranch>,
    /// The branch without one.
    pub fallback: Option<Block>,
}

/// A branch with a condition.
#[derive(Debug, PartialEq, Eq)]
pub struct ConditionalBranch {
    /// Where the branch is.
    pub span: Span,
    /// The condition.
    pub condition: Condition,
    /// The block that is run.
    pub block: Block,
    /// The variables that the branch drops.
    pub drop: List<Variable>,
}

/// A `match`.
#[derive(Debug, PartialEq, Eq)]
pub struct ExprMatch {
    /// What is matched.
    pub expr: Expr,
    /// The branches.
    pub branches: List<ExprMatchBranch>,
}

/// A branch of a `match`.
#[derive(Debug, PartialEq, Eq)]
pub struct ExprMatchBranch {
    /// Where the branch is.
    pub span: Span,
    /// The pattern.
    pub pat: PatBinding,
    /// The further condition.
    pub condition: Option<Box<Expr>>,
    /// The body.
    pub body: Expr,
    /// The variables that the branch drops.
    pub drop: List<Variable>,
}

/// What is called.
#[derive(Debug, PartialEq, Eq)]
pub enum Call {
    /// A variable.
    Var {
        /// The variable.
        name: Variable,
    },
    /// An associated function of a value.
    Associated {
        /// The value.
        target: Expr,
        /// The hash of the function.
        hash: Hash64,
    },
    /// An item.
    Meta {
        /// The hash of the item.
        hash: Hash64,
    },
    /// An expression.
    Expr {
        /// The expression.
        expr: Expr,
    },
    /// A constant function.
    ConstFn {
        /// The module that it is called from.
        from_module: ItemId,
        /// The item that it is called from.
        from_item: ItemId,
        /// The constant function.
        id: ItemId,
    },
}

/// A call.
#[derive(Debug, PartialEq, Eq)]
pub struct ExprCall {
    /// What is called.
    pub call: Call,
    /// The arguments.
    pub args: List<Expr>,
}

/// The field of a field access.
#[derive(Debug, PartialEq, Eq)]
pub enum ExprField {
    /// An index.
    Index(usize),
    /// A name.
    Ident(String),
    /// A name with the hash of its generic arguments.
    IdentGenerics(String, Hash64),
}

/// A field access.
#[derive(Debug, PartialEq, Eq)]
pub struct ExprFieldAccess {
    /// What the field is of.
    pub expr: Expr,
    /// The field.
    pub expr_field: ExprField,
}

/// A binary operation.
#[derive(Debug, PartialEq, Eq)]
pub struct ExprBinary {
    /// The left hand side.
    pub lhs: Expr,
    /// The operator.
    pub op: BinOp,
    /// The right hand side.
    pub rhs: Expr,
}

/// A unary operation.
#[derive(Debug, PartialEq, Eq)]
pub struct ExprUnary {
    /// The operator.
    pub op: UnOp,
    /// The operand.
    pub expr: Expr,
}

/// An index.
#[derive(Debug, PartialEq, Eq)]
pub struct ExprIndex {
    /// What is indexed.
    pub target: Expr,
    /// The index.
    pub index: Expr,
}

/// The use of an asynchronous block.
#[derive(Debug, PartialEq, Eq)]
pub struct ExprAsyncBlock {
    /// The hash of the block.
    pub hash: Hash64,
    /// Whether the block moves its environment.
    pub do_move: bool,
    /// The variables that the block captures.
    pub captures: List<Variable>,
}

/// The use of a closure.
#[derive(Debug, PartialEq, Eq)]
pub struct ExprCallClosure {
    /// The hash of the closure.
    pub hash: Hash64,
    /// Whether the closure moves its environment.
    pub do_move: bool,
    /// The variables that the closure captures.
    pub captures: List<Variable>,
}

/// A block.
#[derive(Debug, PartialEq, Eq)]
pub struct Block {
    /// Where the block is.
    pub span: Span,
    /// The label of the block.
    pub label: Option<String>,
    /// The statements of the block.
    pub statements: List<Stmt>,
    /// The value of the block.
    pub value: Option<Box<Expr>>,
    /// The variables that the block drops.
    pub drop: List<Variable>,
}

/// A statement.
#[derive(Debug, PartialEq, Eq)]
pub enum Stmt {
    /// A local.
    Local(Box<Local>),
    /// An expression.
    Expr(Box<Expr>),
}

/// A local.
#[derive(Debug, PartialEq, Eq)]
pub struct Local {
    /// Where the local is.
    pub span: Span,
    /// The pattern.
    pub pat: PatBinding,
    /// What is bound.
    pub expr: Expr,
}

/// A `break`.
#[derive(Debug, PartialEq, Eq)]
pub struct ExprBreak {
    /// The label to break out of.
    pub label: Option<String>,
    /// The value to break with.
    pub expr: Option<Box<Expr>>,
    /// The variables to drop.
    pub drop: List<Variable>,
}

/// A `continue`.
#[derive(Debug, PartialEq, Eq)]
pub struct ExprContinue {
    /// The label to continue at.
    pub label: Option<String>,
    /// The variables to drop.
    pub drop: List<Variable>,
}

/// A `select`.
#[derive(Debug, PartialEq, Eq)]
pub struct ExprSelect {
    /// The branches.
    pub branches: List<ExprSelectBranch>,
    /// What each branch waits for.
    pub exprs: List<Expr>,
    /// The default branch.
    pub default: Option<Box<Expr>>,
}

/// A branch of a `select`.
#[derive(Debug, PartialEq, Eq)]
pub struct ExprSelectBranch {
    /// The pattern that the value is bound to.
    pub pat: PatBinding,
    /// The body.
    pub body: Expr,
    /// The variables that the branch drops.
    pub drop: List<Variable>,
}

/// The kind of an object literal.
#[derive(Debug, Clone, Copy, PartialEq, Eq, Structural)]
pub enum ExprObjectKind {
    /// A struct or variant of the program.
    Struct {
        /// The hash of the struct.
        hash: Hash64,
    },
    /// A native type that has a constructor.
    ExternalType {
        /// The hash of the type.
        hash: Hash64,
        /// The number of arguments of the constructor.
        args: usize,
    },
    /// An object without a type.
    Anonymous,
}

/// An object literal.
#[derive(Debug, PartialEq, Eq)]
pub struct ExprObject {
    /// The kind of the object.
    pub kind: ExprObjectKind,
    /// The assignments to its keys.
    pub assignments: List<FieldAssign>,
}

/// An assignment to a key in an object literal.
#[derive(Debug, PartialEq, Eq)]
pub struct FieldAssign {
    /// The key, and where it is.
    pub key: (Span, String),
    /// What is assigned.
    pub assign: Expr,
    /// The position of the field, for an object of a type.
    pub position: Option<usize>,
}

/// A range.
#[derive(Debug, PartialEq, Eq)]
pub enum ExprRange {
    /// `start..`.
    RangeFrom {
        /// The start.
        start: Expr,
    },
    /// `..`.
    RangeFull,
    /// `start..=end`.
    RangeInclusive {
        /// The start.
        start: Expr,
        /// The end.
        end: Expr,
    },
    /// `..=end`.
    RangeToInclusive {
        /// The end.
        end: Expr,
    },
    /// `..end`.
    RangeTo {
        /// The end.
        end: Expr,
    },
    /// `start..end`.
    Range {
        /// The start.
        start: Expr,
        /// The end.
        end: Expr,
    },
}

/// An argument of a function or closure.
#[derive(Debug, PartialEq, Eq)]
pub enum FnArg {
    /// `self`.
    SelfValue(Span, Variable),
    /// A pattern.
    Pat(Box<PatBinding>),
}

/// A function.
#[derive(Debug, PartialEq, Eq)]
pub struct ItemFn {
    /// Where the function is.
    pub span: Span,
    /// The arguments.
    pub args: List<FnArg>,
    /// The body.
    pub body: Block,
}

/// The body of a closure, which is built on its own.
#[derive(Debug, PartialEq, Eq)]
pub struct ExprClosure {
    /// The arguments.
    pub args: List<FnArg>,
    /// The body.
    pub body: Expr,
    /// The variables that the closure captures.
    pub captures: List<Variable>,
}

/// The body of an asynchronous block, which is built on its own.
#[derive(Debug, PartialEq, Eq)]
pub struct AsyncBlock {
    /// The block.
    pub block: Block,
    /// The variables that the block captures.
    pub captures: List<Variable>,
}

/// Something that is built on its own.
#[derive(Debug, PartialEq, Eq)]
#[allow(inconsistent_fields)]
pub enum SecondaryBuild {
    /// A closure.
    Closure {
        /// The closure.
        hir: Box<ExprClosure>,
        /// How the closure is called.
        call: FnCall,
    },
    /// An asynchronous block.
    AsyncBlock {
        /// The block.
        hir: Box<AsyncBlock>,
        /// How the block is called.
        call: FnCall,
    },
}

/// Something that is built on its own, and the item that it belongs to.
#[derive(Debug, PartialEq, Eq)]
pub struct SecondaryBuildEntry {
    /// The item.
    pub item_meta: ItemMeta,
    /// What is built.
    pub build: SecondaryBuild,
}

} // verus!
