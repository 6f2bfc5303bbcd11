//! Laws of the syntax of a program.

use vstd::prelude::*;
use crate::ast::{
    expr_span, lit_span, pat_span, BinOp, Expr, Generics, Ident, Label, Lit, LitStr, Number,
    NumberSize, NumberValue, Pat, Path, PathSegment,
};
use crate::compile::error::{CompileError, ErrorKind, ResolveError};
use crate::span::Span;

verus! {

/// The sizes of numbers have the ranges of the primitive integers of their bits.
pub proof fn lemma_number_sizes()
    ensures
        NumberSize::S8.unsigned_max() == u8::MAX,
        NumberSize::S16.unsigned_max() == u16::MAX,
        NumberSize::S32.unsigned_max() == u32::MAX,
        NumberSize::S64.unsigned_max() == u64::MAX,
        NumberSize::S8.signed_max() == i8::MAX,
        NumberSize::S16.signed_max() == i16::MAX,
        NumberSize::S32.signed_max() == i32::MAX,
        NumberSize::S64.signed_max() == i64::MAX,
{
}

/// Of a size, there are as many signed numbers as unsigned ones, and half of them
/// are negative.
pub proof fn lemma_signed_half(size: NumberSize)
    ensures
        size.unsigned_max() + 1 == 2 * (size.signed_max() + 1),
{
}

/// A number is an index exactly if it is an integer that an index can be. The index
/// is that integer, whatever its suffix is.
pub proof fn lemma_tuple_index(number: Number, index: usize)
    ensures
        number.tuple_index() == Some(index) <==> (number.value matches NumberValue::Integer(n)
            && n.value() == index),
        number.tuple_index() is None <==> match number.value {
            NumberValue::Float(_) => true,
            NumberValue::Integer(n) => n.value() < 0 || n.value() > usize::MAX,
        },
{
}

/// Test if a text is what it is resolved to, or the reason why there is none is the
/// error at its place.
pub open spec fn is_resolved(
    text: Result<String, ResolveError>,
    span: Span,
    r: Result<String, CompileError>,
) -> bool {
    match (text, r) {
        (Ok(text), Ok(resolved)) => resolved == text,
        (Err(reason), Err(e)) => e.span == span && e.kind == ErrorKind::Resolve(reason),
        _ => false,
    }
}

/// Identifiers, labels and strings are resolved to their texts. A string has one
/// text as a string, and one as a part of a template.
pub proof fn lemma_resolved(ident: Ident, label: Label, string: LitStr)
    ensures
        is_resolved(ident.text, ident.span, ident.resolved()),
        is_resolved(label.text, label.span, label.resolved()),
        is_resolved(string.string, string.span, string.resolved()),
        is_resolved(string.template, string.span, string.resolved_template()),
{
}

/// Test if a path has one segment, and no colons at its ends.
pub open spec fn is_bare(path: Path) -> bool {
    !path.global && !path.trailing && path.rest@.len() == 0
}

/// A path is an identifier exactly if it has one segment that is one, and no colons
/// at its ends. It is `self` exactly if that segment is.
pub proof fn lemma_path_ident(path: Path, ident: Ident)
    ensures
        path.ident() == Some(ident) <==> is_bare(path) && path.first == PathSegment::Ident(ident),
        path.ident() is None <==> !(is_bare(path) && path.first is Ident),
        path.self_value() <==> is_bare(path) && path.first is SelfValue,
        path.self_value() ==> path.ident() is None,
{
}

/// A path is an identifier with generic arguments if it has two segments, the
/// identifier and the arguments, and no colons at its ends. If it is an identifier,
/// it is one without generic arguments.
pub proof fn lemma_path_ident_generics(path: Path)
    ensures
        path.ident_generics() matches Some((ident, Some(generics))) ==> path.rest@ == seq![
            PathSegment::Generics(generics),
        ] && path.first == PathSegment::Ident(ident) && !path.global && !path.trailing,
        path.ident_generics() matches Some((ident, None)) ==> path.ident() == Some(ident),
        path.ident() matches Some(ident) ==> path.ident_generics() == Some((ident, None::<Generics>)),
        path.ident_generics() is None <==> path.global || path.trailing || !(path.first is Ident)
            || path.rest@.len() > 1 || (path.rest@.len() == 1 && !(path.rest@[0] is Generics)),
{
    if path.rest@.len() == 1 && path.rest@[0] is Generics {
        assert(path.rest@ =~= seq![PathSegment::Generics(path.rest@[0]->Generics_0)]);
    }
}

/// Only behind `as`, `is` and `is not` comes a type.
pub proof fn lemma_takes_type(op: BinOp)
    ensures
        op.takes_type() <==> match op {
            BinOp::As => true,
            BinOp::Is => true,
            BinOp::IsNot => true,
            _ => false,
        },
{
}

/// Test if an expression that is of one of the kinds that bind or branch is at a
/// place.
pub open spec fn is_control_at(ast: Expr, span: Span) -> bool {
    match ast {
        Expr::Assign(x) => x.span == span,
        Expr::While(x) => x.span == span,
        Expr::Loop(x) => x.span == span,
        Expr::For(x) => x.span == span,
        Expr::Let(x) => x.span == span,
        Expr::If(x) => x.span == span,
        Expr::Match(x) => x.span == span,
        Expr::Break(x) => x.span == span,
        Expr::Continue(x) => x.span == span,
        Expr::Yield(x) => x.span == span,
        Expr::Return(x) => x.span == span,
        Expr::Select(x) => x.span == span,
        _ => true,
    }
}

/// Test if an expression that is of one of the other kinds is at a place.
pub open spec fn is_operand_at(ast: Expr, span: Span) -> bool {
    match ast {
        Expr::Path(x) => x.span == span,
        Expr::Call(x) => x.span == span,
        Expr::FieldAccess(x) => x.span == span,
        Expr::Empty(x) => x.span == span,
        Expr::Binary(x) => x.span == span,
        Expr::Unary(x) => x.span == span,
        Expr::Index(x) => x.span == span,
        Expr::Block(x) => x.span == span,
        Expr::Await(x) => x.span == span,
        Expr::Try(x) => x.span == span,
        Expr::Closure(x) => x.span == span,
        Expr::Lit(x) => x.span == span,
        Expr::Object(x) => x.span == span,
        Expr::Tuple(x) => x.span == span,
        Expr::Vec(x) => x.span == span,
        Expr::Range(x) => x.span == span,
        Expr::Group(x) => x.span == span,
        Expr::MacroCall(x) => x.span == span,
        _ => true,
    }
}

/// An expression is where what it consists of says.
pub proof fn lemma_expr_span(ast: Expr)
    ensures
        is_control_at(ast, expr_span(ast)),
        is_operand_at(ast, expr_span(ast)),
{
    reveal(expr_span);
}

/// Patterns and literals are where what they consist of says.
pub proof fn lemma_leaf_span(pat: Pat, lit: Lit)
    ensures
        match pat {
            Pat::Ignore(span) => pat_span(pat) == span,
            Pat::Rest(span) => pat_span(pat) == span,
            Pat::Path(x) => pat_span(pat) == x.span,
            Pat::Lit(x) => pat_span(pat) == x.span,
            Pat::Vec(x) => pat_span(pat) == x.span,
            Pat::Tuple(x) => pat_span(pat) == x.span,
            Pat::Object(x) => pat_span(pat) == x.span,
            Pat::Binding(x) => pat_span(pat) == x.span,
        },
        match lit {
            Lit::Bool(x) => lit_span(lit) == x.span,
            Lit::Byte(x) => lit_span(lit) == x.span,
            Lit::Char(x) => lit_span(lit) == x.span,
            Lit::Number(x) => lit_span(lit) == x.span,
            Lit::Str(x) => lit_span(lit) == x.span,
            Lit::ByteStr(x) => lit_span(lit) == x.span,
        },
{
    reveal(pat_span);
    reveal(lit_span);
}

} // verus!
