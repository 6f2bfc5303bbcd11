//! Lowering of blocks and statements.

use vstd::prelude::*;
use crate::ast;
use crate::compile::error::CompileError;
use crate::hir;
use crate::hir::ctxt::{Ctxt, State};
use crate::hir::frame::{lemma_follows_flushed, lemma_follows_scoped};
use crate::hir::lowering::exprs::{expr, exprs};
use crate::hir::lowering::leaf::{copy_label, gives, has_rest, label_text, unpacked};
use crate::hir::lowering::pats::pat_binding;
use crate::hir::model;
use crate::hir::rules;
use crate::hir::scopes::LayerKind;
use crate::list::List;
use crate::span::Span;

verus! {

broadcast use {crate::hir::frame::group_follows, crate::hir::frame::group_states};

/// Lower a block.
#[verifier::spinoff_prover]
pub fn block(cx: &mut Ctxt<'_>, label: &Option<ast::Label>, ast: &ast::Block) -> (r: Result<
    hir::Block,
    CompileError,
>)
    ensures
        final(cx).kept(*old(cx), r is Ok),
        gives(final(cx).st(), r, model::block(old(cx).env(), old(cx).st(), *label, *ast)),
    decreases ast, 0nat,
{
    proof {
        reveal(model::block_rule);
        assert(
            model::block(cx.env(), cx.st(), *label, *ast) == model::block_rule(
                cx.env(),
                cx.st(),
                *label,
                *ast,
            )
        );
    }
    statements(cx, label, &ast.statements, ast.span)
}

/// Lower the statements of a block.
#[verifier::spinoff_prover]
pub(crate) fn statements(
    cx: &mut Ctxt<'_>,
    label: &Option<ast::Label>,
    asts: &Vec<ast::Stmt>,
    span: Span,
) -> (r: Result<hir::Block, CompileError>)
    ensures
        final(cx).kept(*old(cx), r is Ok),
        gives(
            final(cx).st(),
            r,
            model::statements(old(cx).env(), old(cx).st(), *label, asts@, span),
        ),
    decreases asts@, asts@.len() + 1,
{
    let text = label_text(label)?;
    cx.scopes.push_kind(LayerKind::Block(copy_label(&text)));

    let ghost before = cx.st();
    let at: usize = cx.statements.len();
    let mut value: Option<Box<hir::Expr>> = None;
    let mut i: usize = 0;

    proof {
        assert(cx.statements@.skip(at as int) =~= Seq::<hir::Stmt>::empty());
    }

    while i < asts.len()
        invariant
            i <= asts@.len(),
            cx.env() == old(cx).env(),
            cx.st().follows(before),
            rules::label_text(*label) == Ok::<_, CompileError>(text),
            before == old(cx).st().pushed(LayerKind::Block(text)),
            at == old(cx).statements@.len(),
            at <= cx.statements@.len(),
            cx.statements@.take(at as int) =~= old(cx).statements@,
            model::stmts(old(cx).env(), before, asts@, 0, Seq::empty(), None) == model::stmts(
                cx.env(),
                cx.st(),
                asts@,
                i as int,
                cx.statements@.skip(at as int),
                value,
            ),
        decreases asts@.len() - i,
    {
        let is_item = match &asts[i] {
            ast::Stmt::Item(_) => true,
            _ => false,
        };

        if !is_item {
            let ghost done = cx.statements@;
            let ghost start = cx.st();
            let (last, next) = stmt(cx, &asts[i], value)?;
            value = next;
            let ghost mid = cx.st();

            if let Some(last) = last {
                cx.statements.push(hir::Stmt::Expr(last));
            }

            let ghost buffer = cx.statement_buffer@;
            cx.statements.append(&mut cx.statement_buffer);

            proof {
                assert(cx.statements@.skip(at as int) =~= model::flushed(
                    done.skip(at as int),
                    last,
                    buffer,
                ));
                assert(cx.statements@.take(at as int) =~= done.take(at as int));
                lemma_follows_flushed(before, start, mid);
                assert(cx.st() =~= State { buffer: Seq::empty(), ..mid });
            }
        }

        i += 1;
    }

    let statements = cx.statements.split_off(at);
    let ghost inner = cx.st();
    let layer = cx.scopes.pop(span)?;
    proof {
        lemma_follows_scoped(old(cx).st(), inner, LayerKind::Block(text), span);
    }

    Ok(
        hir::Block {
            span,
            label: text,
            statements: List::from_vec(statements),
            value,
            drop: layer.into_drop_order(),
        },
    )
}

/// Lower one statement which is not an item.
#[verifier::spinoff_prover]
pub(crate) fn stmt(cx: &mut Ctxt<'_>, ast: &ast::Stmt, value: Option<Box<hir::Expr>>) -> (r: Result<
    (Option<Box<hir::Expr>>, Option<Box<hir::Expr>>),
    CompileError,
>)
    ensures
        final(cx).stated(*old(cx), r is Ok),
        gives(final(cx).st(), r, model::stmt(old(cx).env(), old(cx).st(), *ast, value)),
    decreases ast, 0nat,
{
    match ast {
        ast::Stmt::Local(ast) => {
            local_stmt(cx, ast)?;
            Ok((value, None))
        },
        ast::Stmt::Expr(ast) => {
            let hir = expr(cx, ast)?;

            if let Some(value) = value {
                cx.statement_buffer.push(hir::Stmt::Expr(value));
            }

            Ok((None, Some(Box::new(hir))))
        },
        ast::Stmt::Semi(ast) => {
            let hir = expr(cx, ast)?;
            cx.statement_buffer.push(hir::Stmt::Expr(Box::new(hir)));
            Ok((value, None))
        },
        ast::Stmt::Item(_) => Ok((None, value)),
    }
}

/// Lower a local as a statement.
#[verifier::spinoff_prover]
pub(crate) fn local_stmt(cx: &mut Ctxt<'_>, ast: &ast::Local) -> (r: Result<(), CompileError>)
    ensures
        final(cx).stated(*old(cx), r is Ok),
        gives(final(cx).st(), r, model::local_stmt(old(cx).env(), old(cx).st(), *ast)),
    decreases ast, 2nat,
{
    let depacked = if !ast.attributes && cx.lowering > 0 {
        unpack_locals(cx, ast)?
    } else {
        false
    };

    if !depacked {
        let hir = local(cx, ast)?;
        cx.statement_buffer.push(hir::Stmt::Local(Box::new(hir)));
    }

    Ok(())
}

/// Lower a local.
#[verifier::spinoff_prover]
pub(crate) fn local(cx: &mut Ctxt<'_>, ast: &ast::Local) -> (r: Result<hir::Local, CompileError>)
    ensures
        final(cx).kept(*old(cx), r is Ok),
        gives(final(cx).st(), r, model::local(old(cx).env(), old(cx).st(), *ast)),
    decreases ast, 0nat,
{
    let expr = expr(cx, &ast.expr)?;
    let pat = pat_binding(cx, &ast.pat)?;
    Ok(hir::Local { span: ast.span, pat, expr })
}

/// Unpack a local that binds one name, or a tuple whose items are bound one by
/// one. Tells whether the local is one of these.
#[verifier::spinoff_prover]
pub(crate) fn unpack_locals(cx: &mut Ctxt<'_>, ast: &ast::Local) -> (r: Result<bool, CompileError>)
    ensures
        final(cx).stated(*old(cx), r is Ok),
        gives(final(cx).st(), r, model::unpack_locals(old(cx).env(), old(cx).st(), *ast)),
    decreases ast, 0nat,
{
    match (&ast.pat, &ast.expr) {
        (ast::Pat::Path(path), _) => {
            if path.path.try_as_ident().is_none() {
                return Ok(false);
            }

            let expr = expr(cx, &ast.expr)?;
            let pat = pat_binding(cx, &ast.pat)?;
            cx.statement_buffer.push(unpacked(pat, expr));
            Ok(true)
        },
        (ast::Pat::Tuple(pat), ast::Expr::Tuple(items)) => {
            if pat.items.len() != items.items.len() || has_rest(&pat.items) {
                return Ok(false);
            }

            let exprs = exprs(cx, &items.items)?;
            unpack_items(cx, &pat.items, exprs)
        },
        _ => Ok(false),
    }
}

/// Lower the items of an unpacked tuple as locals.
#[verifier::spinoff_prover]
pub(crate) fn unpack_items(
    cx: &mut Ctxt<'_>,
    pats: &Vec<ast::Pat>,
    exprs: Vec<hir::Expr>,
) -> (r: Result<bool, CompileError>)
    requires
        pats@.len() == exprs@.len(),
    ensures
        final(cx).stated(*old(cx), r is Ok),
        gives(
            final(cx).st(),
            r,
            model::unpack_items(old(cx).env(), old(cx).st(), pats@, exprs@, 0),
        ),
    decreases pats@, pats@.len() + 1,
{
    let ghost all = exprs@;
    let mut rest = exprs;
    let mut i: usize = 0;

    while i < pats.len()
        invariant
            i <= pats@.len(),
            all == exprs@,
            pats@.len() == all.len(),
            rest@ =~= all.skip(i as int),
            cx.stated(*old(cx), true),
            model::unpack_items(old(cx).env(), old(cx).st(), pats@, all, 0) == model::unpack_items(
                cx.env(),
                cx.st(),
                pats@,
                all,
                i as int,
            ),
        decreases pats@.len() - i,
    {
        let pat = pat_binding(cx, &pats[i])?;
        let expr = rest.remove(0);
        cx.statement_buffer.push(unpacked(pat, expr));
        i += 1;
    }

    Ok(true)
}

} // verus!
