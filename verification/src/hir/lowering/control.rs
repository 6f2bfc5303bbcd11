//! Lowering of loops, conditions and branches.

use vstd::prelude::*;
use crate::ast;
use crate::compile::error::{CompileError, ErrorKind};
use crate::hir;
use crate::hir::ctxt::Ctxt;
use crate::hir::lowering::blocks::block;
use crate::hir::lowering::exprs::{expr, optional};
use crate::hir::lowering::leaf::{copy_label, gives, label_text, viewed};
use crate::hir::lowering::pats::pat_binding;
use crate::hir::model;
use crate::hir::scopes::LayerKind;
use crate::list::List;
use crate::span::Span;

verus! {

broadcast use crate::hir::frame::group_follows;

/// Lower a `while` loop.
#[verifier::spinoff_prover]
pub(crate) fn expr_while(cx: &mut Ctxt<'_>, ast: &ast::ExprWhile) -> (r: Result<
    hir::ExprKind,
    CompileError,
>)
    ensures
        final(cx).kept(*old(cx), r is Ok),
        gives(final(cx).st(), r, model::expr_while(old(cx).env(), old(cx).st(), *ast)),
    decreases ast, 0nat,
{
    let label = label_text(&ast.label)?;
    cx.scopes.push_kind(LayerKind::Loop(copy_label(&label)));
    let condition = condition(cx, &ast.condition)?;
    let body = block(cx, &None, &ast.body)?;
    let layer = cx.scopes.pop(ast.span)?;

    Ok(
        hir::ExprKind::Loop(
            Box::new(
                hir::ExprLoop {
                    label,
                    condition: Some(condition),
                    body,
                    drop: layer.into_drop_order(),
                },
            ),
        ),
    )
}

/// Lower a `loop`.
#[verifier::spinoff_prover]
pub(crate) fn expr_loop(cx: &mut Ctxt<'_>, ast: &ast::ExprLoop) -> (r: Result<
    hir::ExprKind,
    CompileError,
>)
    ensures
        final(cx).kept(*old(cx), r is Ok),
        gives(final(cx).st(), r, model::expr_loop(old(cx).env(), old(cx).st(), *ast)),
    decreases ast, 0nat,
{
    let label = label_text(&ast.label)?;
    cx.scopes.push_kind(LayerKind::Loop(copy_label(&label)));
    let body = block(cx, &None, &ast.body)?;
    let layer = cx.scopes.pop(ast.span)?;

    Ok(
        hir::ExprKind::Loop(
            Box::new(
                hir::ExprLoop { label, condition: None, body, drop: layer.into_drop_order() },
            ),
        ),
    )
}

/// Lower a `for` loop.
#[verifier::spinoff_prover]
pub(crate) fn expr_for(cx: &mut Ctxt<'_>, ast: &ast::ExprFor) -> (r: Result<
    hir::ExprKind,
    CompileError,
>)
    ensures
        final(cx).kept(*old(cx), r is Ok),
        gives(final(cx).st(), r, model::expr_for(old(cx).env(), old(cx).st(), *ast)),
    decreases ast, 0nat,
{
    let iter = expr(cx, &ast.iter)?;
    let label = label_text(&ast.label)?;
    cx.scopes.push_kind(LayerKind::Loop(copy_label(&label)));
    let binding = pat_binding(cx, &ast.binding)?;
    let body = block(cx, &None, &ast.body)?;
    let layer = cx.scopes.pop(ast.span)?;

    Ok(
        hir::ExprKind::For(
            Box::new(
                hir::ExprFor { label, binding, iter, body, drop: layer.into_drop_order() },
            ),
        ),
    )
}

/// Lower a `let`.
#[verifier::spinoff_prover]
pub(crate) fn expr_let(cx: &mut Ctxt<'_>, ast: &ast::ExprLet) -> (r: Result<
    hir::ExprLet,
    CompileError,
>)
    ensures
        final(cx).kept(*old(cx), r is Ok),
        gives(final(cx).st(), r, model::expr_let(old(cx).env(), old(cx).st(), *ast)),
    decreases ast, 0nat,
{
    let pat = pat_binding(cx, &ast.pat)?;
    let expr = expr(cx, &ast.expr)?;
    Ok(hir::ExprLet { pat, expr })
}

/// Lower a condition.
#[verifier::spinoff_prover]
pub(crate) fn condition(cx: &mut Ctxt<'_>, ast: &ast::Condition) -> (r: Result<
    hir::Condition,
    CompileError,
>)
    ensures
        final(cx).kept(*old(cx), r is Ok),
        gives(final(cx).st(), r, model::condition(old(cx).env(), old(cx).st(), *ast)),
    decreases ast, 0nat,
{
    proof {
        reveal(model::condition_rule);
        assert(
            model::condition(cx.env(), cx.st(), *ast) == model::condition_rule(
                cx.env(),
                cx.st(),
                *ast,
            )
        );
    }
    match ast {
        ast::Condition::Expr(ast) => Ok(hir::Condition::Expr(expr(cx, ast)?)),
        ast::Condition::ExprLet(ast) => Ok(hir::Condition::ExprLet(expr_let(cx, ast)?)),
    }
}

/// Lower an `if` with all of its branches.
#[verifier::spinoff_prover]
pub(crate) fn expr_if(cx: &mut Ctxt<'_>, ast: &ast::ExprIf) -> (r: Result<
    hir::Conditional,
    CompileError,
>)
    ensures
        final(cx).kept(*old(cx), r is Ok),
        gives(final(cx).st(), r, model::expr_if(old(cx).env(), old(cx).st(), *ast)),
    decreases ast, 1nat,
{
    let branch = first_branch(cx, ast)?;
    let branches = else_ifs(cx, &ast.expr_else_ifs, ast.span, branch)?;

    let fallback = match &ast.expr_else {
        Some(ast) => Some(block(cx, &None, ast)?),
        None => None,
    };

    Ok(hir::Conditional { branches: List::from_vec(branches), fallback })
}

/// Lower the first branch of an `if`.
#[verifier::spinoff_prover]
pub(crate) fn first_branch(cx: &mut Ctxt<'_>, ast: &ast::ExprIf) -> (r: Result<
    hir::ConditionalBranch,
    CompileError,
>)
    ensures
        final(cx).kept(*old(cx), r is Ok),
        gives(final(cx).st(), r, model::first_branch(old(cx).env(), old(cx).st(), *ast)),
    decreases ast, 0nat,
{
    cx.scopes.push_kind(LayerKind::Block(None));
    let condition = condition(cx, &ast.condition)?;
    let block = block(cx, &None, &ast.block)?;
    let layer = cx.scopes.pop(ast.span)?;

    Ok(
        hir::ConditionalBranch {
            span: ast.if_.join(ast.block.span),
            condition,
            block,
            drop: layer.into_drop_order(),
        },
    )
}

/// Lower an `else if` branch of an `if` at `span`.
#[verifier::spinoff_prover]
pub(crate) fn else_if(cx: &mut Ctxt<'_>, ast: &ast::ExprElseIf, span: Span) -> (r: Result<
    hir::ConditionalBranch,
    CompileError,
>)
    ensures
        final(cx).kept(*old(cx), r is Ok),
        gives(final(cx).st(), r, model::else_if(old(cx).env(), old(cx).st(), *ast, span)),
    decreases ast, 0nat,
{
    cx.scopes.push_kind(LayerKind::Block(None));
    let condition = condition(cx, &ast.condition)?;
    let block = block(cx, &None, &ast.block)?;
    let layer = cx.scopes.pop(span)?;

    Ok(
        hir::ConditionalBranch {
            span: ast.span,
            condition,
            block,
            drop: layer.into_drop_order(),
        },
    )
}

/// Lower the `else if` branches of an `if`, behind its first branch.
#[verifier::spinoff_prover]
pub(crate) fn else_ifs(
    cx: &mut Ctxt<'_>,
    asts: &Vec<ast::ExprElseIf>,
    span: Span,
    first: hir::ConditionalBranch,
) -> (r: Result<Vec<hir::ConditionalBranch>, CompileError>)
    ensures
        final(cx).kept(*old(cx), r is Ok),
        gives(
            final(cx).st(),
            viewed(r),
            model::else_ifs(old(cx).env(), old(cx).st(), asts@, span, 0, seq![first]),
        ),
    decreases asts@, asts@.len() + 1,
{
    let mut branches: Vec<hir::ConditionalBranch> = Vec::new();
    branches.push(first);
    let mut i: usize = 0;

    while i < asts.len()
        invariant
            i <= asts@.len(),
            cx.kept(*old(cx), true),
            model::else_ifs(
                old(cx).env(),
                old(cx).st(),
                asts@,
                span,
                0,
                seq![first],
            ) == model::else_ifs(
                cx.env(),
                cx.st(),
                asts@,
                span,
                i as int,
                branches@,
            ),
        decreases asts@.len() - i,
    {
        let branch = else_if(cx, &asts[i], span)?;
        branches.push(branch);
        i += 1;
    }

    Ok(branches)
}

/// Lower a `match`.
#[verifier::spinoff_prover]
pub(crate) fn expr_match(cx: &mut Ctxt<'_>, ast: &ast::ExprMatch) -> (r: Result<
    hir::ExprKind,
    CompileError,
>)
    ensures
        final(cx).kept(*old(cx), r is Ok),
        gives(final(cx).st(), r, model::expr_match(old(cx).env(), old(cx).st(), *ast)),
    decreases ast, 0nat,
{
    let expr = expr(cx, &ast.expr)?;
    let branches = match_branches(cx, &ast.branches)?;

    Ok(
        hir::ExprKind::Match(
            Box::new(hir::ExprMatch { expr, branches: List::from_vec(branches) }),
        ),
    )
}

/// Lower the branches of a `match`.
#[verifier::spinoff_prover]
pub(crate) fn match_branches(cx: &mut Ctxt<'_>, asts: &Vec<ast::ExprMatchBranch>) -> (r: Result<
    Vec<hir::ExprMatchBranch>,
    CompileError,
>)
    ensures
        final(cx).kept(*old(cx), r is Ok),
        gives(
            final(cx).st(),
            viewed(r),
            model::match_branches(old(cx).env(), old(cx).st(), asts@, 0, Seq::empty()),
        ),
    decreases asts@, asts@.len() + 1,
{
    let mut branches: Vec<hir::ExprMatchBranch> = Vec::new();
    let mut i: usize = 0;

    while i < asts.len()
        invariant
            i <= asts@.len(),
            cx.kept(*old(cx), true),
            model::match_branches(
                old(cx).env(),
                old(cx).st(),
                asts@,
                0,
                Seq::empty(),
            ) == model::match_branches(
                cx.env(),
                cx.st(),
                asts@,
                i as int,
                branches@,
            ),
        decreases asts@.len() - i,
    {
        let branch = match_branch(cx, &asts[i])?;
        branches.push(branch);
        i += 1;
    }

    Ok(branches)
}

/// Lower a branch of a `match`.
#[verifier::spinoff_prover]
pub(crate) fn match_branch(cx: &mut Ctxt<'_>, ast: &ast::ExprMatchBranch) -> (r: Result<
    hir::ExprMatchBranch,
    CompileError,
>)
    ensures
        final(cx).kept(*old(cx), r is Ok),
        gives(final(cx).st(), r, model::match_branch(old(cx).env(), old(cx).st(), *ast)),
    decreases ast, 0nat,
{
    cx.scopes.push_kind(LayerKind::Block(None));
    let pat = pat_binding(cx, &ast.pat)?;
    let condition = optional(cx, &ast.condition)?;
    let body = expr(cx, &ast.body)?;
    let layer = cx.scopes.pop(ast.span)?;

    Ok(
        hir::ExprMatchBranch {
            span: ast.span,
            pat,
            condition,
            body,
            drop: layer.into_drop_order(),
        },
    )
}

/// Lower a `break`.
#[verifier::spinoff_prover]
pub(crate) fn expr_break(cx: &mut Ctxt<'_>, ast: &ast::ExprBreak) -> (r: Result<
    hir::ExprBreak,
    CompileError,
>)
    ensures
        final(cx).kept(*old(cx), r is Ok),
        gives(final(cx).st(), r, model::expr_break(old(cx).env(), old(cx).st(), *ast)),
    decreases ast, 0nat,
{
    let label = label_text(&ast.label)?;

    let drop = match cx.scopes.loop_drop(&label) {
        Some(drop) => drop,
        None => match label {
            Some(label) => return Err(
                CompileError::new(ast.span, ErrorKind::MissingLabel { label }),
            ),
            None => return Err(CompileError::new(ast.span, ErrorKind::BreakUnsupported)),
        },
    };

    let expr = optional(cx, &ast.expr)?;
    Ok(hir::ExprBreak { label, expr, drop })
}

/// Lower a `continue`.
#[verifier::spinoff_prover]
pub(crate) fn expr_continue(cx: &Ctxt<'_>, ast: &ast::ExprContinue) -> (r: Result<
    hir::ExprContinue,
    CompileError,
>)
    ensures
        r == model::expr_continue(cx.st(), *ast),
{
    let label = label_text(&ast.label)?;

    match cx.scopes.loop_drop(&label) {
        Some(drop) => Ok(hir::ExprContinue { label, drop }),
        None => match label {
            Some(label) => Err(CompileError::new(ast.span, ErrorKind::MissingLabel { label })),
            None => Err(CompileError::new(ast.span, ErrorKind::ContinueUnsupported)),
        },
    }
}

/// Lower a `select`.
#[verifier::spinoff_prover]
pub(crate) fn expr_select(cx: &mut Ctxt<'_>, ast: &ast::ExprSelect) -> (r: Result<
    hir::ExprKind,
    CompileError,
>)
    ensures
        final(cx).kept(*old(cx), r is Ok),
        gives(final(cx).st(), r, model::expr_select(old(cx).env(), old(cx).st(), *ast)),
    decreases ast, 1nat,
{
    let mut branches: Vec<hir::ExprSelectBranch> = Vec::new();
    let mut exprs: Vec<hir::Expr> = Vec::new();
    let mut default: Option<Box<hir::Expr>> = None;
    let mut i: usize = 0;

    while i < ast.branches.len()
        invariant
            i <= ast.branches@.len(),
            cx.kept(*old(cx), true),
            model::select_branches(
                old(cx).env(), old(cx).st(),
                ast.branches@,
                0,
                model::SelectParts {
                    branches: Seq::empty(),
                    exprs: Seq::empty(),
                    default: None,
                },
            ) == model::select_branches(
                cx.env(),
                cx.st(),
                ast.branches@,
                i as int,
                model::SelectParts { branches: branches@, exprs: exprs@, default },
            ),
        decreases ast.branches@.len() - i,
    {
        match &ast.branches[i] {
            ast::ExprSelectBranch::Pat(ast) => {
                let (branch, expr) = select_branch(cx, ast)?;
                branches.push(branch);
                exprs.push(expr);
            },
            ast::ExprSelectBranch::Default(ast) => {
                if default.is_some() {
                    return Err(CompileError::new(ast.span, ErrorKind::SelectMultipleDefaults));
                }

                default = Some(Box::new(expr(cx, &ast.expr)?));
            },
        }

        i += 1;
    }

    Ok(
        hir::ExprKind::Select(
            Box::new(
                hir::ExprSelect {
                    branches: List::from_vec(branches),
                    exprs: List::from_vec(exprs),
                    default,
                },
            ),
        ),
    )
}

/// Lower a branch of a `select` with a pattern.
#[verifier::spinoff_prover]
pub(crate) fn select_branch(cx: &mut Ctxt<'_>, ast: &ast::ExprSelectPatBranch) -> (r: Result<
    (hir::ExprSelectBranch, hir::Expr),
    CompileError,
>)
    ensures
        final(cx).kept(*old(cx), r is Ok),
        gives(final(cx).st(), r, model::select_branch(old(cx).env(), old(cx).st(), *ast)),
    decreases ast, 0nat,
{
    cx.scopes.push_kind(LayerKind::Block(None));
    let pat = pat_binding(cx, &ast.pat)?;
    let body = expr(cx, &ast.body)?;
    let layer = cx.scopes.pop(ast.span)?;
    let expr = expr(cx, &ast.expr)?;
    Ok((hir::ExprSelectBranch { pat, body, drop: layer.into_drop_order() }, expr))
}

} // verus!
