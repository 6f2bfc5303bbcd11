//! Lowering of expressions.

use vstd::prelude::*;
use crate::ast;
use crate::compile::error::{CompileError, ErrorKind};
use crate::hir;
use crate::hir::ctxt::{Ctxt, Needs, State};
use crate::hir::lowering::calls::{expr_call, expr_field_access, expr_object};
use crate::hir::lowering::closures::{expr_block, expr_call_closure};
use crate::hir::lowering::control::{
    expr_break, expr_continue, expr_for, expr_if, expr_let, expr_loop, expr_match, expr_select,
    expr_while,
};
use crate::hir::lowering::leaf::{gives, lit, negated, number_token, viewed};
use crate::hir::lowering::paths::expr_path;
use crate::hir::model;
use crate::list::List;

verus! {

broadcast use crate::hir::frame::group_follows;

/// Lower an expression.
#[verifier::spinoff_prover]
pub fn expr(cx: &mut Ctxt<'_>, ast: &ast::Expr) -> (r: Result<hir::Expr, CompileError>)
    ensures
        final(cx).kept(*old(cx), r is Ok),
        gives(final(cx).st(), r, model::expr(old(cx).env(), old(cx).st(), *ast)),
        r is Ok ==> !final(cx).in_path,
    decreases ast, 1nat,
{
    proof {
        reveal(State::follows);
        reveal(model::expr_rule);
        assert(model::expr(cx.env(), cx.st(), *ast) == model::expr_rule(cx.env(), cx.st(), *ast));
    }
    let in_path = cx.in_path;
    cx.in_path = false;
    let kind = expr_kind(cx, ast, in_path)?;
    Ok(hir::Expr { span: ast.span(), kind })
}

/// Lower an expression to its kind.
#[verifier::spinoff_prover]
pub(crate) fn expr_kind(cx: &mut Ctxt<'_>, ast: &ast::Expr, in_path: bool) -> (r: Result<
    hir::ExprKind,
    CompileError,
>)
    ensures
        final(cx).kept(*old(cx), r is Ok),
        gives(final(cx).st(), r, model::expr_kind(old(cx).env(), old(cx).st(), *ast, in_path)),
    decreases ast, 0nat,
{
    match ast {
        ast::Expr::Path(ast) => expr_path(cx, ast, in_path),
        ast::Expr::Assign(ast) => expr_assign(cx, ast),
        ast::Expr::While(ast) => expr_while(cx, ast),
        ast::Expr::Loop(ast) => expr_loop(cx, ast),
        ast::Expr::For(ast) => expr_for(cx, ast),
        ast::Expr::Let(ast) => Ok(hir::ExprKind::Let(Box::new(expr_let(cx, ast)?))),
        ast::Expr::If(ast) => Ok(hir::ExprKind::If(Box::new(expr_if(cx, ast)?))),
        ast::Expr::Match(ast) => expr_match(cx, ast),
        ast::Expr::Call(ast) => Ok(hir::ExprKind::Call(Box::new(expr_call(cx, ast)?))),
        ast::Expr::FieldAccess(ast) => Ok(
            hir::ExprKind::FieldAccess(Box::new(expr_field_access(cx, ast)?)),
        ),
        ast::Expr::Empty(ast) => {
            proof {
                reveal(State::follows);
            }
            cx.in_path = in_path;
            Ok(hir::ExprKind::Group(Box::new(expr(cx, &ast.expr)?)))
        },
        ast::Expr::Binary(ast) => expr_binary(cx, ast),
        ast::Expr::Unary(ast) => expr_unary(cx, ast),
        ast::Expr::Index(ast) => expr_index(cx, ast),
        ast::Expr::Block(ast) => expr_block(cx, ast),
        ast::Expr::Break(ast) => Ok(hir::ExprKind::Break(Box::new(expr_break(cx, ast)?))),
        ast::Expr::Continue(ast) => Ok(hir::ExprKind::Continue(Box::new(expr_continue(cx, ast)?))),
        ast::Expr::Yield(ast) => Ok(hir::ExprKind::Yield(optional(cx, &ast.expr)?)),
        ast::Expr::Return(ast) => Ok(hir::ExprKind::Return(optional(cx, &ast.expr)?)),
        ast::Expr::Await(ast) => Ok(hir::ExprKind::Await(Box::new(expr(cx, &ast.expr)?))),
        ast::Expr::Try(ast) => Ok(hir::ExprKind::Try(Box::new(expr(cx, &ast.expr)?))),
        ast::Expr::Select(ast) => expr_select(cx, ast),
        ast::Expr::Closure(ast) => expr_call_closure(cx, ast),
        ast::Expr::Lit(ast) => Ok(hir::ExprKind::Lit(lit(cx.in_template, &ast.lit)?)),
        ast::Expr::Object(ast) => expr_object(cx, ast),
        ast::Expr::Tuple(ast) => Ok(
            hir::ExprKind::Tuple(List::from_vec(exprs(cx, &ast.items)?)),
        ),
        ast::Expr::Vec(ast) => Ok(hir::ExprKind::Vec(List::from_vec(exprs(cx, &ast.items)?))),
        ast::Expr::Range(ast) => Ok(hir::ExprKind::Range(Box::new(expr_range(cx, ast)?))),
        ast::Expr::Group(ast) => Ok(hir::ExprKind::Group(Box::new(expr(cx, &ast.expr)?))),
        ast::Expr::MacroCall(ast) => macro_call(cx, ast),
    }
}

/// Lower expressions.
#[verifier::spinoff_prover]
pub(crate) fn exprs(cx: &mut Ctxt<'_>, asts: &Vec<ast::Expr>) -> (r: Result<
    Vec<hir::Expr>,
    CompileError,
>)
    ensures
        final(cx).kept(*old(cx), r is Ok),
        gives(
            final(cx).st(),
            viewed(r),
            model::exprs(old(cx).env(), old(cx).st(), asts@, 0, Seq::empty()),
        ),
        r is Ok ==> r->Ok_0@.len() == asts@.len(),
    decreases asts@, asts@.len() + 1,
{
    let mut items: Vec<hir::Expr> = Vec::new();
    let mut i: usize = 0;

    while i < asts.len()
        invariant
            i <= asts@.len(),
            items@.len() == i,
            cx.kept(*old(cx), true),
            model::exprs(old(cx).env(), old(cx).st(), asts@, 0, Seq::empty()) == model::exprs(
                cx.env(),
                cx.st(),
                asts@,
                i as int,
                items@,
            ),
        decreases asts@.len() - i,
    {
        let item = expr(cx, &asts[i])?;
        items.push(item);
        i += 1;
    }

    Ok(items)
}

/// Lower an expression that need not be there.
#[verifier::spinoff_prover]
pub(crate) fn optional(cx: &mut Ctxt<'_>, ast: &Option<ast::Expr>) -> (r: Result<
    Option<Box<hir::Expr>>,
    CompileError,
>)
    ensures
        final(cx).kept(*old(cx), r is Ok),
        gives(final(cx).st(), r, model::optional(old(cx).env(), old(cx).st(), *ast)),
    decreases ast, 0nat,
{
    proof {
        reveal(model::optional_rule);
        assert(
            model::optional(cx.env(), cx.st(), *ast) == model::optional_rule(
                cx.env(),
                cx.st(),
                *ast,
            )
        );
    }
    match ast {
        Some(ast) => Ok(Some(Box::new(expr(cx, ast)?))),
        None => Ok(None),
    }
}

/// Lower an assignment.
#[verifier::spinoff_prover]
pub(crate) fn expr_assign(cx: &mut Ctxt<'_>, ast: &ast::ExprAssign) -> (r: Result<
    hir::ExprKind,
    CompileError,
>)
    ensures
        final(cx).kept(*old(cx), r is Ok),
        gives(final(cx).st(), r, model::expr_assign(old(cx).env(), old(cx).st(), *ast)),
    decreases ast, 0nat,
{
    let lhs = expr(cx, &ast.lhs)?;
    let rhs = expr(cx, &ast.rhs)?;
    Ok(hir::ExprKind::Assign(Box::new(hir::ExprAssign { lhs, rhs })))
}

/// Lower a binary operation.
#[verifier::spinoff_prover]
pub(crate) fn expr_binary(cx: &mut Ctxt<'_>, ast: &ast::ExprBinary) -> (r: Result<
    hir::ExprKind,
    CompileError,
>)
    ensures
        final(cx).kept(*old(cx), r is Ok),
        gives(final(cx).st(), r, model::expr_binary(old(cx).env(), old(cx).st(), *ast)),
    decreases ast, 0nat,
{
    proof {
        reveal(State::follows);
    }
    let rhs_needs = match ast.op {
        ast::BinOp::As | ast::BinOp::Is | ast::BinOp::IsNot => Needs::Type,
        _ => Needs::Value,
    };

    let lhs = expr(cx, &ast.lhs)?;

    let needs = cx.needs;
    cx.needs = rhs_needs;
    let rhs = expr(cx, &ast.rhs)?;
    cx.needs = needs;

    Ok(hir::ExprKind::Binary(Box::new(hir::ExprBinary { lhs, op: ast.op, rhs })))
}

/// Lower a unary operation.
#[verifier::spinoff_prover]
pub(crate) fn expr_unary(cx: &mut Ctxt<'_>, ast: &ast::ExprUnary) -> (r: Result<
    hir::ExprKind,
    CompileError,
>)
    ensures
        final(cx).kept(*old(cx), r is Ok),
        gives(final(cx).st(), r, model::expr_unary(old(cx).env(), old(cx).st(), *ast)),
    decreases ast, 0nat,
{
    if ast.op == ast::UnOp::BorrowRef {
        return Err(CompileError::new(ast.span, ErrorKind::UnsupportedRef));
    }

    if ast.op == ast::UnOp::Neg {
        if let Some(lit) = number_token(&ast.expr) {
            return Ok(hir::ExprKind::Lit(negated(lit, ast.span)?));
        }
    }

    let expr = expr(cx, &ast.expr)?;
    Ok(hir::ExprKind::Unary(Box::new(hir::ExprUnary { op: ast.op, expr })))
}

/// Lower an index.
#[verifier::spinoff_prover]
pub(crate) fn expr_index(cx: &mut Ctxt<'_>, ast: &ast::ExprIndex) -> (r: Result<
    hir::ExprKind,
    CompileError,
>)
    ensures
        final(cx).kept(*old(cx), r is Ok),
        gives(final(cx).st(), r, model::expr_index(old(cx).env(), old(cx).st(), *ast)),
    decreases ast, 0nat,
{
    let target = expr(cx, &ast.target)?;
    let index = expr(cx, &ast.index)?;
    Ok(hir::ExprKind::Index(Box::new(hir::ExprIndex { target, index })))
}

/// Lower a range.
#[verifier::spinoff_prover]
pub(crate) fn expr_range(cx: &mut Ctxt<'_>, ast: &ast::ExprRange) -> (r: Result<
    hir::ExprRange,
    CompileError,
>)
    ensures
        final(cx).kept(*old(cx), r is Ok),
        gives(final(cx).st(), r, model::expr_range(old(cx).env(), old(cx).st(), *ast)),
    decreases ast, 0nat,
{
    if ast.end.is_none() && ast.limits == ast::ExprRangeLimits::Closed {
        return Err(
            CompileError::new(
                ast.span,
                ErrorKind::Msg("Unsupported range, you probably want `..` instead of `..=`"),
            ),
        );
    }

    let start = optional(cx, &ast.start)?;
    let end = optional(cx, &ast.end)?;

    Ok(
        match (start, end, ast.limits) {
            (None, None, _) => hir::ExprRange::RangeFull,
            (Some(start), None, _) => hir::ExprRange::RangeFrom { start: *start },
            (None, Some(end), ast::ExprRangeLimits::HalfOpen) => hir::ExprRange::RangeTo {
                end: *end,
            },
            (None, Some(end), ast::ExprRangeLimits::Closed) => hir::ExprRange::RangeToInclusive {
                end: *end,
            },
            (Some(start), Some(end), ast::ExprRangeLimits::HalfOpen) => hir::ExprRange::Range {
                start: *start,
                end: *end,
            },
            (Some(start), Some(end), ast::ExprRangeLimits::Closed) =>
                hir::ExprRange::RangeInclusive { start: *start, end: *end },
        },
    )
}

/// Lower a call of a macro.
#[verifier::spinoff_prover]
pub(crate) fn macro_call(cx: &mut Ctxt<'_>, ast: &ast::MacroCall) -> (r: Result<
    hir::ExprKind,
    CompileError,
>)
    ensures
        final(cx).kept(*old(cx), r is Ok),
        gives(final(cx).st(), r, model::macro_call(old(cx).env(), old(cx).st(), *ast)),
    decreases ast, 0nat,
{
    let id = match ast.id {
        Some(id) => id,
        None => return Err(
            CompileError::new(ast.span, ErrorKind::Msg("missing expanded macro id")),
        ),
    };

    match &ast.expanded {
        None => Err(
            CompileError::new(ast.span, ErrorKind::MissingId { what: "built-in macro", id }),
        ),
        Some(ast::BuiltInMacro::Template(template)) => {
            proof {
                reveal(State::follows);
            }
            let old = cx.in_template;
            cx.in_template = true;
            let items = exprs(cx, &template.exprs)?;
            cx.in_template = old;

            Ok(
                hir::ExprKind::Template(
                    Box::new(
                        hir::BuiltInTemplate {
                            span: template.span,
                            from_literal: template.from_literal,
                            exprs: List::from_vec(items),
                        },
                    ),
                ),
            )
        },
        Some(ast::BuiltInMacro::Format(format)) => {
            let value = expr(cx, &format.value)?;
            Ok(
                hir::ExprKind::Format(Box::new(hir::BuiltInFormat { spec: format.spec, value })),
            )
        },
        Some(ast::BuiltInMacro::File(file)) => Ok(hir::ExprKind::Lit(lit(cx.in_template, file)?)),
        Some(ast::BuiltInMacro::Line(line)) => Ok(hir::ExprKind::Lit(lit(cx.in_template, line)?)),
    }
}

} // verus!
