//! The syntax tree.
//!
//! A token that stands for a text or a value holds what it resolves to, or the
//! reason for which it does not resolve.

use vstd::prelude::*;
use crate::compile::error::{error, CompileError, ErrorKind, ResolveError};
use crate::integer::Integer;
use crate::list::List;
use crate::query::Id;
use crate::span::Span;

verus! {

/// A floating point number, held by its bits.
#[derive(Debug, Clone, Copy, PartialEq, Eq, Structural)]
pub struct Float {
    /// The bits of the number: sign, exponent and fraction.
    pub bits: u64,
}

/// The bit that holds the sign of a [`Float`].
pub const SIGN_BIT: u64 = 0x8000_0000_0000_0000;

impl Float {
    /// The number with its sign flipped.
    pub open spec fn negated(self) -> Float {
        Float { bits: self.bits ^ SIGN_BIT }
    }

    /// Flip the sign of the number.
    pub fn neg(self) -> (r: Float)
        ensures
            r == self.negated(),
    {
        Float { bits: self.bits ^ SIGN_BIT }
    }
}

/// The size of a number in bits.
#[derive(Debug, Clone, Copy, PartialEq, Eq, Structural)]
pub enum NumberSize {
    /// 8 bits.
    S8,
    /// 16 bits.
    S16,
    /// 32 bits.
    S32,
    /// 64 bits.
    S64,
}

impl NumberSize {
    /// The largest unsigned number of this size.
    pub open spec fn unsigned_max(self) -> int {
        match self {
            NumberSize::S8 => 0xff,
            NumberSize::S16 => 0xffff,
            NumberSize::S32 => 0xffff_ffff,
            NumberSize::S64 => 0xffff_ffff_ffff_ffff,
        }
    }

    /// The largest signed number of this size.
    pub open spec fn signed_max(self) -> int {
        match self {
            NumberSize::S8 => 0x7f,
            NumberSize::S16 => 0x7fff,
            NumberSize::S32 => 0x7fff_ffff,
            NumberSize::S64 => 0x7fff_ffff_ffff_ffff,
        }
    }

    /// Test if an unsigned number is in the range of this size.
    pub fn unsigned_in(self, n: u64) -> (r: bool)
        ensures
            r == (n <= self.unsigned_max()),
    {
        match self {
            NumberSize::S8 => n <= 0xff,
            NumberSize::S16 => n <= 0xffff,
            NumberSize::S32 => n <= 0xffff_ffff,
            NumberSize::S64 => true,
        }
    }

    /// Test if a signed number is in the range of this size.
    pub fn signed_in(self, n: i64) -> (r: bool)
        ensures
            r == (-self.signed_max() - 1 <= n <= self.signed_max()),
    {
        match self {
            NumberSize::S8 => -0x80 <= n && n <= 0x7f,
            NumberSize::S16 => -0x8000 <= n && n <= 0x7fff,
            NumberSize::S32 => -0x8000_0000 <= n && n <= 0x7fff_ffff,
            NumberSize::S64 => true,
        }
    }
}

/// The value of a number literal.
#[derive(Debug, PartialEq, Eq)]
pub enum NumberValue {
    /// A floating point number.
    Float(Float),
    /// An integer.
    Integer(Integer),
}

/// The suffix of a number literal.
#[derive(Debug, Clone, Copy, PartialEq, Eq, Structural)]
pub enum NumberSuffix {
    /// An unsigned integer of a size, like `u8`.
    Unsigned(Span, NumberSize),
    /// A signed integer of a size, like `i8`.
    Signed(Span, NumberSize),
    /// A floating point number.
    Float(Span),
}

/// A number with its suffix.
#[derive(Debug, PartialEq, Eq)]
pub struct Number {
    /// The value of the number.
    pub value: NumberValue,
    /// The suffix of the number, if it has one.
    pub suffix: Option<NumberSuffix>,
}

impl Number {
    /// The index into a tuple that the number stands for, if it is one.
    pub open spec fn tuple_index(self) -> Option<usize> {
        match self.value {
            NumberValue::Float(_) => None,
            NumberValue::Integer(n) => if 0 <= n.value() <= usize::MAX {
                Some(n.value() as usize)
            } else {
                None
            },
        }
    }

    /// The index into a tuple that the number stands for, if it is one.
    pub fn as_tuple_index(&self) -> (r: Option<usize>)
        ensures
            r == self.tuple_index(),
    {
        match &self.value {
            NumberValue::Float(_) => None,
            NumberValue::Integer(n) => n.to_usize(),
        }
    }

    /// Copy the number.
    pub fn copy(&self) -> (r: Number)
        ensures
            r == *self,
    {
        let value = match &self.value {
            NumberValue::Float(n) => NumberValue::Float(*n),
            NumberValue::Integer(n) => NumberValue::Integer(n.copy()),
        };

        Number { value, suffix: self.suffix }
    }
}

/// What the text of a token is, or the error for not having one.
pub open spec fn resolved_text(
    text: Result<String, ResolveError>,
    span: Span,
) -> Result<String, CompileError> {
    match text {
        Ok(text) => Ok(text),
        Err(e) => Err(error(span, ErrorKind::Resolve(e))),
    }
}

/// Copy the text of a token.
fn resolve_text(text: &Result<String, ResolveError>, span: Span) -> (r: Result<
    String,
    CompileError,
>)
    ensures
        r == resolved_text(*text, span),
{
    match text {
        Ok(text) => Ok(text.clone()),
        Err(e) => Err(CompileError::new(span, ErrorKind::Resolve(*e))),
    }
}

/// An identifier.
#[derive(Debug, PartialEq, Eq)]
pub struct Ident {
    /// Where the identifier is.
    pub span: Span,
    /// The text of the identifier.
    pub text: Result<String, ResolveError>,
}

impl Ident {
    /// The text of the identifier.
    pub open spec fn resolved(self) -> Result<String, CompileError> {
        resolved_text(self.text, self.span)
    }

    /// Resolve the text of the identifier.
    pub fn resolve(&self) -> (r: Result<String, CompileError>)
        ensures
            r == self.resolved(),
    {
        resolve_text(&self.text, self.span)
    }
}

/// A label.
#[derive(Debug, PartialEq, Eq)]
pub struct Label {
    /// Where the label is.
    pub span: Span,
    /// The text of the label.
    pub text: Result<String, ResolveError>,
}

impl Label {
    /// The text of the label.
    pub open spec fn resolved(self) -> Result<String, CompileError> {
        resolved_text(self.text, self.span)
    }

    /// Resolve the text of the label.
    pub fn resolve(&self) -> (r: Result<String, CompileError>)
        ensures
            r == self.resolved(),
    {
        resolve_text(&self.text, self.span)
    }
}

/// A boolean literal.
#[derive(Debug, PartialEq, Eq)]
pub struct LitBool {
    /// Where the literal is.
    pub span: Span,
    /// The value of the literal.
    pub value: bool,
}

/// A byte literal.
#[derive(Debug, PartialEq, Eq)]
pub struct LitByte {
    /// Where the literal is.
    pub span: Span,
    /// The value of the literal.
    pub value: Result<u8, ResolveError>,
}

/// A character literal.
#[derive(Debug, PartialEq, Eq)]
pub struct LitChar {
    /// Where the literal is.
    pub span: Span,
    /// The value of the literal.
    pub value: Result<char, ResolveError>,
}

/// A number literal.
#[derive(Debug, PartialEq, Eq)]
pub struct LitNumber {
    /// Where the literal is.
    pub span: Span,
    /// The value of the literal.
    pub number: Result<Number, ResolveError>,
}

/// A string literal.
#[derive(Debug, PartialEq, Eq)]
pub struct LitStr {
    /// Where the literal is.
    pub span: Span,
    /// The text of the literal, read as a string.
    pub string: Result<String, ResolveError>,
    /// The text of the literal, read as a part of a template.
    pub template: Result<String, ResolveError>,
}

impl LitStr {
    /// The text of the literal, read as a string.
    pub open spec fn resolved(self) -> Result<String, CompileError> {
        resolved_text(self.string, self.span)
    }

    /// The text of the literal, read as a part of a template.
    pub open spec fn resolved_template(self) -> Result<String, CompileError> {
        resolved_text(self.template, self.span)
    }

    /// Resolve the text of the literal as a string.
    pub fn resolve_string(&self) -> (r: Result<String, CompileError>)
        ensures
            r == self.resolved(),
    {
        resolve_text(&self.string, self.span)
    }

    /// Resolve the text of the literal as a part of a template.
    pub fn resolve_template_string(&self) -> (r: Result<String, CompileError>)
        ensures
            r == self.resolved_template(),
    {
        resolve_text(&self.template, self.span)
    }
}

/// A byte string literal.
#[derive(Debug, PartialEq, Eq)]
pub struct LitByteStr {
    /// Where the literal is.
    pub span: Span,
    /// The value of the literal.
    pub value: Result<List<u8>, ResolveError>,
}

/// A literal.
#[derive(Debug, PartialEq, Eq)]
pub enum Lit {
    /// A boolean.
    Bool(LitBool),
    /// A byte.
    Byte(LitByte),
    /// A string.
    Str(LitStr),
    /// A byte string.
    ByteStr(LitByteStr),
    /// A character.
    Char(LitChar),
    /// A number.
    Number(LitNumber),
}

/// The generic arguments of a path, like `::<A, B>`.
#[derive(Debug, PartialEq, Eq)]
pub struct Generics {
    /// Where the arguments are.
    pub span: Span,
    /// The arguments.
    pub args: Vec<Expr>,
}

/// A segment of a path.
#[derive(Debug, PartialEq, Eq)]
pub enum PathSegment {
    /// `Self`.
    SelfType(Span),
    /// `self`.
    SelfValue(Span),
    /// An identifier.
    Ident(Ident),
    /// `crate`.
    Crate(Span),
    /// `super`.
    Super(Span),
    /// Generic arguments.
    Generics(Generics),
}

/// A path.
#[derive(Debug, PartialEq, Eq)]
pub struct Path {
    /// Where the path is.
    pub span: Span,
    /// The id of the path.
    pub id: Id,
    /// Whether the path starts with `::`.
    pub global: bool,
    /// The first segment.
    pub first: PathSegment,
    /// The other segments.
    pub rest: Vec<PathSegment>,
    /// Whether the path ends with `::`.
    pub trailing: bool,
}

impl Path {
    /// Test if the path is its first segment and nothing else.
    pub open spec fn single(self) -> bool {
        self.rest@.len() == 0 && !self.trailing && !self.global
    }

    /// Test if the path is `self`.
    pub open spec fn self_value(self) -> bool {
        self.single() && self.first is SelfValue
    }

    /// The identifier that the path is, if it is one.
    pub open spec fn ident(self) -> Option<Ident> {
        if self.single() && self.first is Ident {
            Some(self.first->Ident_0)
        } else {
            None
        }
    }

    /// The identifier that the path is, with the generic arguments behind it.
    pub open spec fn ident_generics(self) -> Option<(Ident, Option<Generics>)> {
        if self.trailing || self.global || !(self.first is Ident) {
            None
        } else if self.rest@.len() == 0 {
            Some((self.first->Ident_0, None))
        } else if self.rest@.len() == 1 && self.rest@[0] is Generics {
            Some((self.first->Ident_0, Some(self.rest@[0]->Generics_0)))
        } else {
            None
        }
    }

    /// Test if the path is its first segment and nothing else.
    fn is_single(&self) -> (r: bool)
        ensures
            r == self.single(),
    {
        self.rest.len() == 0 && !self.trailing && !self.global
    }

    /// Test if the path is `self`.
    pub fn is_self_value(&self) -> (r: bool)
        ensures
            r == self.self_value(),
    {
        match &self.first {
            PathSegment::SelfValue(_) => self.is_single(),
            _ => false,
        }
    }

    /// The identifier that the path is, if it is one.
    pub fn try_as_ident(&self) -> (r: Option<&Ident>)
        ensures
            match r {
                Some(ident) => self.ident() == Some(*ident),
                None => self.ident() is None,
            },
    {
        match &self.first {
            PathSegment::Ident(ident) => if self.is_single() {
                Some(ident)
            } else {
                None
            },
            _ => None,
        }
    }

    /// The identifier that the path is, with the generic arguments behind it.
    pub fn try_as_ident_generics(&self) -> (r: Option<(&Ident, Option<&Generics>)>)
        ensures
            match r {
                Some((ident, Some(generics))) => self.ident_generics() == Some(
                    (*ident, Some(*generics)),
                ) && self.rest@.len() == 1 && self.rest@[0] == PathSegment::Generics(*generics),
                Some((ident, None)) => self.ident_generics() == Some((*ident, None::<Generics>)),
                None => self.ident_generics() is None,
            },
    {
        if self.trailing || self.global {
            return None;
        }

        let ident = match &self.first {
            PathSegment::Ident(ident) => ident,
            _ => return None,
        };

        if self.rest.len() == 0 {
            return Some((ident, None));
        }

        if self.rest.len() != 1 {
            return None;
        }

        match &self.rest[0] {
            PathSegment::Generics(generics) => Some((ident, Some(generics))),
            _ => None,
        }
    }
}

/// The key of an object.
#[derive(Debug, PartialEq, Eq)]
pub enum ObjectKey {
    /// A string.
    LitStr(LitStr),
    /// A path, which has to be an identifier.
    Path(Path),
}

/// What an object literal or pattern is of.
#[derive(Debug, PartialEq, Eq)]
pub enum ObjectIdent {
    /// An object without a type, like `#{}`.
    Anonymous(Span),
    /// An object of a type.
    Named(Path),
}

/// A pattern.
#[derive(Debug, PartialEq, Eq)]
pub enum Pat {
    /// `_`.
    Ignore(Span),
    /// A path.
    Path(PatPath),
    /// A literal.
    Lit(PatLit),
    /// A vector.
    Vec(PatVec),
    /// A tuple, possibly of a type.
    Tuple(PatTuple),
    /// An object, possibly of a type.
    Object(PatObject),
    /// A key of an object with its pattern.
    Binding(PatBinding),
    /// `..`.
    Rest(Span),
}

/// A path pattern.
#[derive(Debug, PartialEq, Eq)]
pub struct PatPath {
    /// Where the pattern is.
    pub span: Span,
    /// The path.
    pub path: Path,
}

/// A literal pattern.
#[derive(Debug, PartialEq, Eq)]
pub struct PatLit {
    /// Where the pattern is.
    pub span: Span,
    /// The literal.
    pub expr: Box<Expr>,
}

/// A vector pattern.
#[derive(Debug, PartialEq, Eq)]
pub struct PatVec {
    /// Where the pattern is.
    pub span: Span,
    /// The patterns of the items.
    pub items: Vec<Pat>,
}

/// A tuple pattern.
#[derive(Debug, PartialEq, Eq)]
pub struct PatTuple {
    /// Where the pattern is.
    pub span: Span,
    /// The type of the tuple.
    pub path: Option<Path>,
    /// The patterns of the items.
    pub items: Vec<Pat>,
}

/// An object pattern.
#[derive(Debug, PartialEq, Eq)]
pub struct PatObject {
    /// Where the pattern is.
    pub span: Span,
    /// The type of the object.
    pub ident: ObjectIdent,
    /// The patterns of the fields.
    pub items: Vec<Pat>,
}

/// A key of an object with its pattern.
#[derive(Debug, PartialEq, Eq)]
pub struct PatBinding {
    /// Where the pattern is.
    pub span: Span,
    /// The key.
    pub key: ObjectKey,
    /// The pattern.
    pub pat: Box<Pat>,
}

/// A binary operator.
#[derive(Debug, Clone, Copy, PartialEq, Eq, Structural)]
pub enum BinOp {
    /// `+`.
    Plus,
    /// `-`.
    Minus,
    /// `*`.
    Times,
    /// `/`.
    Divide,
    /// `%`.
    Remainder,
    /// `==`.
    Eq,
    /// `!=`.
    Neq,
    /// `>`.
    Gt,
    /// `<`.
    Lt,
    /// `>=`.
    Gte,
    /// `<=`.
    Lte,
    /// `&&`.
    And,
    /// `||`.
    Or,
    /// `as`.
    As,
    /// `is`.
    Is,
    /// `is not`.
    IsNot,
    /// `&`.
    BitAnd,
    /// `^`.
    BitXor,
    /// `|`.
    BitOr,
    /// `<<`.
    Shl,
    /// `>>`.
    Shr,
    /// `+=`.
    PlusAssign,
    /// `-=`.
    MinusAssign,
    /// `*=`.
    TimesAssign,
    /// `/=`.
    DivideAssign,
    /// `%=`.
    RemainderAssign,
    /// `&=`.
    BitAndAssign,
    /// `^=`.
    BitXorAssign,
    /// `|=`.
    BitOrAssign,
    /// `<<=`.
    ShlAssign,
    /// `>>=`.
    ShrAssign,
    /// `..`.
    DotDot,
    /// `..=`.
    DotDotEq,
}

impl BinOp {
    /// Test if the right hand side of the operator is a type.
    pub open spec fn takes_type(self) -> bool {
        self == BinOp::As || self == BinOp::Is || self == BinOp::IsNot
    }
}

/// A unary operator.
#[derive(Debug, Clone, Copy, PartialEq, Eq, Structural)]
pub enum UnOp {
    /// `&`.
    BorrowRef,
    /// `*`.
    Deref,
    /// `!`.
    Not,
    /// `-`.
    Neg,
}

/// The limits of a range.
#[derive(Debug, Clone, Copy, PartialEq, Eq, Structural)]
pub enum ExprRangeLimits {
    /// `..`.
    HalfOpen,
    /// `..=`.
    Closed,
}

/// How a formatted value is aligned.
#[derive(Debug, Clone, Copy, PartialEq, Eq, Structural)]
pub enum Alignment {
    /// To the left.
    Left,
    /// In the center.
    Center,
    /// To the right.
    Right,
}

/// How a formatted value is shown.
#[derive(Debug, Clone, Copy, PartialEq, Eq, Structural)]
pub enum FormatType {
    /// For users.
    Display,
    /// For developers.
    Debug,
}

/// The specification of a formatted value.
#[derive(Debug, Clone, Copy, PartialEq, Eq, Structural)]
pub struct FormatSpec {
    /// What to fill with.
    pub fill: Option<char>,
    /// How to align.
    pub align: Option<Alignment>,
    /// The width to fill.
    pub width: Option<usize>,
    /// The precision.
    pub precision: Option<usize>,
    /// Further flags.
    pub flags: Option<u32>,
    /// How the value is shown.
    pub format_type: Option<FormatType>,
}

/// A built-in macro, expanded.
#[derive(Debug, PartialEq, Eq)]
pub enum BuiltInMacro {
    /// A template.
    Template(BuiltInTemplate),
    /// A formatted value.
    Format(BuiltInFormat),
    /// The current file.
    File(Lit),
    /// The current line.
    Line(Lit),
}

/// A template.
#[derive(Debug, PartialEq, Eq)]
pub struct BuiltInTemplate {
    /// Where the template is.
    pub span: Span,
    /// Whether the template is a template literal.
    pub from_literal: bool,
    /// The parts of the template.
    pub exprs: Vec<Expr>,
}

/// A formatted value.
#[derive(Debug, PartialEq, Eq)]
pub struct BuiltInFormat {
    /// How the value is formatted.
    pub spec: FormatSpec,
    /// The value.
    pub value: Expr,
}

/// An expression.
#[derive(Debug, PartialEq, Eq)]
pub enum Expr {
    /// A path.
    Path(Path),
    /// An assignment.
    Assign(Box<ExprAssign>),
    /// A `while` loop.
    While(Box<ExprWhile>),
    /// A `loop`.
    Loop(Box<ExprLoop>),
    /// A `for` loop.
    For(Box<ExprFor>),
    /// A `let`.
    Let(Box<ExprLet>),
    /// An `if`.
    If(Box<ExprIf>),
    /// A `match`.
    Match(Box<ExprMatch>),
    /// A call.
    Call(Box<ExprCall>),
    /// A field access.
    FieldAccess(Box<ExprFieldAccess>),
    /// An expression in invisible delimiters.
    Empty(Box<ExprInner>),
    /// A binary operation.
    Binary(Box<ExprBinary>),
    /// A unary operation.
    Unary(Box<ExprUnary>),
    /// An index.
    Index(Box<ExprIndex>),
    /// A block.
    Block(Box<ExprBlock>),
    /// A `break`.
    Break(Box<ExprBreak>),
    /// A `continue`.
    Continue(Box<ExprContinue>),
    /// A `yield`.
    Yield(Box<ExprOption>),
    /// A `return`.
    Return(Box<ExprOption>),
    /// An `.await`.
    Await(Box<ExprInner>),
    /// A `?`.
    Try(Box<ExprInner>),
    /// A `select`.
    Select(Box<ExprSelect>),
    /// A closure.
    Closure(Box<ExprClosure>),
    /// A literal.
    Lit(Box<ExprLit>),
    /// An object.
    Object(Box<ExprObject>),
    /// A tuple.
    Tuple(Box<ExprItems>),
    /// A vector.
    Vec(Box<ExprItems>),
    /// A range.
    Range(Box<ExprRange>),
    /// An expression in parentheses.
    Group(Box<ExprInner>),
    /// A call of a macro.
    MacroCall(Box<MacroCall>),
}

/// An assignment.
#[derive(Debug, PartialEq, Eq)]
pub struct ExprAssign {
    /// Where the expression is.
    pub span: Span,
    /// What is assigned to.
    pub lhs: Expr,
    /// What is assigned.
    pub rhs: Expr,
}

/// A `while` loop.
#[derive(Debug, PartialEq, Eq)]
pub struct ExprWhile {
    /// Where the expression is.
    pub span: Span,
    /// The label of the loop.
    pub label: Option<Label>,
    /// The condition of the loop.
    pub condition: Condition,
    /// The body of the loop.
    pub body: Block,
}

/// A `loop`.
#[derive(Debug, PartialEq, Eq)]
pub struct ExprLoop {
    /// Where the expression is.
    pub span: Span,
    /// The label of the loop.
    pub label: Option<Label>,
    /// The body of the loop.
    pub body: Block,
}

/// A `for` loop.
#[derive(Debug, PartialEq, Eq)]
pub struct ExprFor {
    /// Where the expression is.
    pub span: Span,
    /// The label of the loop.
    pub label: Option<Label>,
    /// The pattern that each item is bound to.
    pub binding: Pat,
    /// What is iterated over.
    pub iter: Expr,
    /// The body of the loop.
    pub body: Block,
}

/// A `let`.
#[derive(Debug, PartialEq, Eq)]
pub struct ExprLet {
    /// Where the expression is.
    pub span: Span,
    /// The pattern.
    pub pat: Pat,
    /// What is bound.
    pub expr: Expr,
}

/// The condition of an `if` or a `while`.
#[derive(Debug, PartialEq, Eq)]
pub enum Condition {
    /// An expression.
    Expr(Expr),
    /// A `let`.
    ExprLet(ExprLet),
}

/// An `if`.
#[derive(Debug, PartialEq, Eq)]
pub struct ExprIf {
    /// Where the expression is.
    pub span: Span,
    /// Where the `if` token is.
    pub if_: Span,
    /// The condition.
    pub condition: Condition,
    /// The block that is run if the condition holds.
    pub block: Block,
    /// The `else if` branches.
    pub expr_else_ifs: Vec<ExprElseIf>,
    /// The `else` branch.
    pub expr_else: Option<Block>,
}

/// An `else if` branch.
#[derive(Debug, PartialEq, Eq)]
pub struct ExprElseIf {
    /// Where the branch is.
    pub span: Span,
    /// The condition.
    pub condition: Condition,
    /// The block that is run if the condition holds.
    pub block: Block,
}

/// A `match`.
#[derive(Debug, PartialEq, Eq)]
pub struct ExprMatch {
    /// Where the expression is.
    pub span: Span,
    /// What is matched.
    pub expr: Expr,
    /// The branches.
    pub branches: Vec<ExprMatchBranch>,
}

/// A branch of a `match`.
#[derive(Debug, PartialEq, Eq)]
pub struct ExprMatchBranch {
    /// Where the branch is.
    pub span: Span,
    /// The pattern.
    pub pat: Pat,
    /// The further condition.
    pub condition: Option<Expr>,
    /// The body.
    pub body: Expr,
}

/// A call.
#[derive(Debug, PartialEq, Eq)]
pub struct ExprCall {
    /// Where the expression is.
    pub span: Span,
    /// The id of the call.
    pub id: Id,
    /// What is called.
    pub expr: Expr,
    /// Where the arguments are.
    pub args_span: Span,
    /// The arguments.
    pub args: Vec<Expr>,
}

/// The field of a field access.
#[derive(Debug, PartialEq, Eq)]
pub enum ExprField {
    /// An index into a tuple.
    LitNumber(LitNumber),
    /// A name.
    Path(Path),
}

/// A field access.
#[derive(Debug, PartialEq, Eq)]
pub struct ExprFieldAccess {
    /// Where the expression is.
    pub span: Span,
    /// What the field is of.
    pub expr: Expr,
    /// The field.
    pub expr_field: ExprField,
}

/// An expression that is another one in delimiters or with a suffix.
#[derive(Debug, PartialEq, Eq)]
pub struct ExprInner {
    /// Where the expression is.
    pub span: Span,
    /// The inner expression.
    pub expr: Expr,
}

/// An expression with an optional operand.
#[derive(Debug, PartialEq, Eq)]
pub struct ExprOption {
    /// Where the expression is.
    pub span: Span,
    /// The operand.
    pub expr: Option<Expr>,
}

/// An expression that is a sequence of others.
#[derive(Debug, PartialEq, Eq)]
pub struct ExprItems {
    /// Where the expression is.
    pub span: Span,
    /// The items.
    pub items: Vec<Expr>,
}

/// A binary operation.
#[derive(Debug, PartialEq, Eq)]
pub struct ExprBinary {
    /// Where the expression is.
    pub span: Span,
    /// The left hand side.
    pub lhs: Expr,
    /// The operator.
    pub op: BinOp,
    /// The right hand side.
    pub rhs: Expr,
}

/// A unary operation.
#[derive(Debug, PartialEq, Eq)]
pub struct ExprUnary {
    /// Where the expression is.
    pub span: Span,
    /// The operator.
    pub op: UnOp,
    /// The operand.
    pub expr: Expr,
}

/// An index.
#[derive(Debug, PartialEq, Eq)]
pub struct ExprIndex {
    /// Where the expression is.
    pub span: Span,
    /// What is indexed.
    pub target: Expr,
    /// The index.
    pub index: Expr,
}

/// A block expression.
#[derive(Debug, PartialEq, Eq)]
pub struct ExprBlock {
    /// Where the expression is.
    pub span: Span,
    /// Whether the block is marked as asynchronous.
    pub async_token: bool,
    /// Whether the block is marked as constant.
    pub const_token: bool,
    /// The label of the block.
    pub label: Option<Label>,
    /// The block.
    pub block: Block,
}

/// A `break`.
#[derive(Debug, PartialEq, Eq)]
pub struct ExprBreak {
    /// Where the expression is.
    pub span: Span,
    /// The label to break out of.
    pub label: Option<Label>,
    /// The value to break with.
    pub expr: Option<Expr>,
}

/// A `continue`.
#[derive(Debug, PartialEq, Eq)]
pub struct ExprContinue {
    /// Where the expression is.
    pub span: Span,
    /// The label to continue at.
    pub label: Option<Label>,
}

/// A `select`.
#[derive(Debug, PartialEq, Eq)]
pub struct ExprSelect {
    /// Where the expression is.
    pub span: Span,
    /// The branches.
    pub branches: Vec<ExprSelectBranch>,
}

/// A branch of a `select`.
#[derive(Debug, PartialEq, Eq)]
pub enum ExprSelectBranch {
    /// A branch with a pattern.
    Pat(ExprSelectPatBranch),
    /// The default branch.
    Default(ExprInner),
}

/// A branch of a `select` with a pattern.
#[derive(Debug, PartialEq, Eq)]
pub struct ExprSelectPatBranch {
    /// Where the branch is.
    pub span: Span,
    /// The pattern that the value is bound to.
    pub pat: Pat,
    /// What is waited for.
    pub expr: Expr,
    /// The body.
    pub body: Expr,
}

/// A closure.
#[derive(Debug, PartialEq, Eq)]
pub struct ExprClosure {
    /// Where the expression is.
    pub span: Span,
    /// The id of the closure.
    pub id: Id,
    /// The arguments.
    pub args: Vec<FnArg>,
    /// The body.
    pub body: Expr,
}

/// A literal expression.
#[derive(Debug, PartialEq, Eq)]
pub struct ExprLit {
    /// Where the expression is.
    pub span: Span,
    /// The literal.
    pub lit: Lit,
}

/// An object literal.
#[derive(Debug, PartialEq, Eq)]
pub struct ExprObject {
    /// Where the expression is.
    pub span: Span,
    /// The type of the object.
    pub ident: ObjectIdent,
    /// The assignments to its keys.
    pub assignments: Vec<FieldAssign>,
}

/// An assignment to a key in an object literal.
#[derive(Debug, PartialEq, Eq)]
pub struct FieldAssign {
    /// Where the assignment is.
    pub span: Span,
    /// The key.
    pub key: ObjectKey,
    /// What is assigned; without it, the variable with the name of the key.
    pub assign: Option<Expr>,
}

/// A range.
#[derive(Debug, PartialEq, Eq)]
pub struct ExprRange {
    /// Where the expression is.
    pub span: Span,
    /// The start of the range.
    pub start: Option<Expr>,
    /// The limits of the range.
    pub limits: ExprRangeLimits,
    /// The end of the range.
    pub end: Option<Expr>,
}

/// A call of a macro.
#[derive(Debug, PartialEq, Eq)]
pub struct MacroCall {
    /// Where the call is.
    pub span: Span,
    /// The id of the expanded macro.
    pub id: Option<Id>,
    /// The built-in macro that the call expanded to.
    pub expanded: Option<BuiltInMacro>,
}

/// An argument of a function or closure.
#[derive(Debug, PartialEq, Eq)]
pub enum FnArg {
    /// `self`.
    SelfValue(Span),
    /// A pattern.
    Pat(Pat),
}

/// A block.
#[derive(Debug, PartialEq, Eq)]
pub struct Block {
    /// Where the block is.
    pub span: Span,
    /// The id of the block.
    pub id: Id,
    /// The statements of the block.
    pub statements: Vec<Stmt>,
}

/// A block without delimiters.
#[derive(Debug, PartialEq, Eq)]
pub struct EmptyBlock {
    /// The statements of the block.
    pub statements: Vec<Stmt>,
}

/// A statement.
#[derive(Debug, PartialEq, Eq)]
pub enum Stmt {
    /// A local.
    Local(Box<Local>),
    /// An item.
    Item(Span),
    /// An expression without a semicolon.
    Expr(Expr),
    /// An expression with a semicolon.
    Semi(Expr),
}

/// A local.
#[derive(Debug, PartialEq, Eq)]
pub struct Local {
    /// Where the local is.
    pub span: Span,
    /// Whether the local has attributes.
    pub attributes: bool,
    /// The pattern.
    pub pat: Pat,
    /// What is bound.
    pub expr: Expr,
}

/// A function.
#[derive(Debug, PartialEq, Eq)]
pub struct ItemFn {
    /// Where the function is.
    pub span: Span,
    /// The arguments.
    pub args: Vec<FnArg>,
    /// The body.
    pub body: Block,
}

/// Where an expression is.
#[verifier::opaque]
pub open spec fn expr_span(ast: Expr) -> Span {
    match ast {
        Expr::Path(ast) => ast.span,
        Expr::Assign(ast) => ast.span,
        Expr::While(ast) => ast.span,
        Expr::Loop(ast) => ast.span,
        Expr::For(ast) => ast.span,
        Expr::Let(ast) => ast.span,
        Expr::If(ast) => ast.span,
        Expr::Match(ast) => ast.span,
        Expr::Call(ast) => ast.span,
        Expr::FieldAccess(ast) => ast.span,
        Expr::Empty(ast) => ast.span,
        Expr::Binary(ast) => ast.span,
        Expr::Unary(ast) => ast.span,
        Expr::Index(ast) => ast.span,
        Expr::Block(ast) => ast.span,
        Expr::Break(ast) => ast.span,
        Expr::Continue(ast) => ast.span,
        Expr::Yield(ast) => ast.span,
        Expr::Return(ast) => ast.span,
        Expr::Await(ast) => ast.span,
        Expr::Try(ast) => ast.span,
        Expr::Select(ast) => ast.span,
        Expr::Closure(ast) => ast.span,
        Expr::Lit(ast) => ast.span,
        Expr::Object(ast) => ast.span,
        Expr::Tuple(ast) => ast.span,
        Expr::Vec(ast) => ast.span,
        Expr::Range(ast) => ast.span,
        Expr::Group(ast) => ast.span,
        Expr::MacroCall(ast) => ast.span,
    }
}

/// Where a pattern is.
#[verifier::opaque]
pub open spec fn pat_span(ast: Pat) -> Span {
    match ast {
        Pat::Ignore(span) => span,
        Pat::Path(ast) => ast.span,
        Pat::Lit(ast) => ast.span,
        Pat::Vec(ast) => ast.span,
        Pat::Tuple(ast) => ast.span,
        Pat::Object(ast) => ast.span,
        Pat::Binding(ast) => ast.span,
        Pat::Rest(span) => span,
    }
}

/// Where a literal is.
#[verifier::opaque]
pub open spec fn lit_span(ast: Lit) -> Span {
    match ast {
        Lit::Bool(lit) => lit.span,
        Lit::Byte(lit) => lit.span,
        Lit::Str(lit) => lit.span,
        Lit::ByteStr(lit) => lit.span,
        Lit::Char(lit) => lit.span,
        Lit::Number(lit) => lit.span,
    }
}

impl Expr {
    /// Where the expression is.
    pub fn span(&self) -> (span: Span)
        ensures
            span == expr_span(*self),
    {
        proof {
            reveal(expr_span);
        }
        match self {
            Expr::Path(ast) => ast.span,
            Expr::Assign(ast) => ast.span,
            Expr::While(ast) => ast.span,
            Expr::Loop(ast) => ast.span,
            Expr::For(ast) => ast.span,
            Expr::Let(ast) => ast.span,
            Expr::If(ast) => ast.span,
            Expr::Match(ast) => ast.span,
            Expr::Call(ast) => ast.span,
            Expr::FieldAccess(ast) => ast.span,
            Expr::Empty(ast) => ast.span,
            Expr::Binary(ast) => ast.span,
            Expr::Unary(ast) => ast.span,
            Expr::Index(ast) => ast.span,
            Expr::Block(ast) => ast.span,
            Expr::Break(ast) => ast.span,
            Expr::Continue(ast) => ast.span,
            Expr::Yield(ast) => ast.span,
            Expr::Return(ast) => ast.span,
            Expr::Await(ast) => ast.span,
            Expr::Try(ast) => ast.span,
            Expr::Select(ast) => ast.span,
            Expr::Closure(ast) => ast.span,
            Expr::Lit(ast) => ast.span,
            Expr::Object(ast) => ast.span,
            Expr::Tuple(ast) => ast.span,
            Expr::Vec(ast) => ast.span,
            Expr::Range(ast) => ast.span,
            Expr::Group(ast) => ast.span,
            Expr::MacroCall(ast) => ast.span,
        }
    }
}

impl Pat {
    /// Where the pattern is.
    pub fn span(&self) -> (span: Span)
        ensures
            span == pat_span(*self),
    {
        proof {
            reveal(pat_span);
        }
        match self {
            Pat::Ignore(span) => *span,
            Pat::Path(ast) => ast.span,
            Pat::Lit(ast) => ast.span,
            Pat::Vec(ast) => ast.span,
            Pat::Tuple(ast) => ast.span,
            Pat::Object(ast) => ast.span,
            Pat::Binding(ast) => ast.span,
            Pat::Rest(span) => *span,
        }
    }
}

impl Lit {
    /// Where the literal is.
    pub fn span(&self) -> (span: Span)
        ensures
            span == lit_span(*self),
    {
        proof {
            reveal(lit_span);
        }
        match self {
            Lit::Bool(lit) => lit.span,
            Lit::Byte(lit) => lit.span,
            Lit::Str(lit) => lit.span,
            Lit::ByteStr(lit) => lit.span,
            Lit::Char(lit) => lit.span,
            Lit::Number(lit) => lit.span,
        }
    }
}

} // verus!
