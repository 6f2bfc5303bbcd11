//! Lowering of functions, closures and block expressions.

use vstd::prelude::*;
use crate::ast;
use crate::compile::error::{CompileError, ErrorKind};
use crate::hir;
use crate::hir::{Name, Variable};
use crate::hir::ctxt::Ctxt;
use crate::hir::lowering::blocks::{block, statements};
use crate::hir::lowering::exprs::expr;
use crate::hir::lowering::leaf::{gives, queue, viewed};
use crate::hir::lowering::pats::pat_binding;
use crate::hir::model;
use crate::hir::scopes::LayerKind;
use crate::list::List;
use crate::query::{Call as FnCall, GenericsParameters, Kind, Meta};
use crate::span::Span;

use crate::hir::frame::lemma_follows_scoped;

verus! {

broadcast use crate::hir::frame::group_follows;

/// Lower a function without arguments.
#[verifier::spinoff_prover]
pub fn empty_fn(cx: &mut Ctxt<'_>, ast: &ast::EmptyBlock, span: Span) -> (r: Result<
    hir::ItemFn,
    CompileError,
>)
    ensures
        final(cx).kept(*old(cx), r is Ok),
        gives(final(cx).st(), r, model::empty_fn(old(cx).env(), old(cx).st(), *ast, span)),
{
    let body = statements(cx, &None, &ast.statements, span)?;
    Ok(hir::ItemFn { span, args: List::Nil, body })
}

/// Lower a function.
#[verifier::spinoff_prover]
pub fn item_fn(cx: &mut Ctxt<'_>, ast: &ast::ItemFn) -> (r: Result<hir::ItemFn, CompileError>)
    ensures
        final(cx).kept(*old(cx), r is Ok),
        gives(final(cx).st(), r, model::item_fn(old(cx).env(), old(cx).st(), *ast)),
{
    let args = fn_args(cx, &ast.args)?;
    let body = block(cx, &None, &ast.body)?;
    Ok(hir::ItemFn { span: ast.span, args: List::from_vec(args), body })
}

/// Lower a block expression.
#[verifier::spinoff_prover]
pub(crate) fn expr_block(cx: &mut Ctxt<'_>, ast: &ast::ExprBlock) -> (r: Result<
    hir::ExprKind,
    CompileError,
>)
    ensures
        final(cx).kept(*old(cx), r is Ok),
        gives(final(cx).st(), r, model::expr_block(old(cx).env(), old(cx).st(), *ast)),
    decreases ast, 2nat,
{
    if ast.async_token == ast.const_token {
        return Ok(hir::ExprKind::Block(Box::new(block(cx, &ast.label, &ast.block)?)));
    }

    if cx.const_eval {
        if ast.async_token {
            return Err(
                CompileError::new(
                    ast.span,
                    ErrorKind::Msg("Only constant blocks are supported in this context"),
                ),
            );
        }

        if let Some(label) = &ast.label {
            return Err(
                CompileError::new(label.span, ErrorKind::Msg("Constant blocks cannot be labelled")),
            );
        }

        return Ok(hir::ExprKind::Block(Box::new(block(cx, &None, &ast.block)?)));
    }

    let db = cx.db;
    let item = db.item_for("lowering block", ast.block.id, ast.block.span)?;
    let meta = db.lookup_meta(
        ast.span,
        item.item,
        GenericsParameters { trailing: 0, first: None, second: None },
    )?;

    match &meta.kind {
        Kind::AsyncBlock { call, do_move } => {
            if ast.async_token {
                return async_block(cx, ast, meta, *call, *do_move);
            }
        },
        Kind::Const => {
            if ast.const_token {
                return Ok(hir::ExprKind::Const(meta.hash));
            }
        },
        _ => {},
    }

    Err(
        CompileError::new(
            ast.span,
            ErrorKind::ExpectedMeta { meta: meta.info(), expected: "async or const block" },
        ),
    )
}

/// Lower an asynchronous block.
#[verifier::spinoff_prover]
pub(crate) fn async_block(
    cx: &mut Ctxt<'_>,
    ast: &ast::ExprBlock,
    meta: &Meta,
    call: FnCall,
    do_move: bool,
) -> (r: Result<hir::ExprKind, CompileError>)
    ensures
        final(cx).kept(*old(cx), r is Ok),
        gives(
            final(cx).st(),
            r,
            model::async_block(old(cx).env(), old(cx).st(), *ast, *meta, call, do_move),
        ),
    decreases ast, 1nat,
{
    if let Some(label) = &ast.label {
        return Err(
            CompileError::new(label.span, ErrorKind::Msg("Async blocks cannot be labelled")),
        );
    }

    let (block, captures) = async_parts(cx, ast)?;
    cx.used.push(meta.item_meta.item);

    let entry = hir::SecondaryBuildEntry {
        item_meta: meta.item_meta,
        build: hir::SecondaryBuild::AsyncBlock {
            hir: Box::new(hir::AsyncBlock { block, captures: captures.copy() }),
            call,
        },
    };

    if !queue(cx, entry) {
        return Err(CompileError::new(ast.span, ErrorKind::AsyncBlockInConst));
    }

    Ok(
        hir::ExprKind::AsyncBlock(
            Box::new(hir::ExprAsyncBlock { hash: meta.hash, do_move, captures }),
        ),
    )
}

/// Lower the body of an asynchronous block.
#[verifier::spinoff_prover]
pub(crate) fn async_parts(cx: &mut Ctxt<'_>, ast: &ast::ExprBlock) -> (r: Result<
    (hir::Block, List<Variable>),
    CompileError,
>)
    ensures
        final(cx).kept(*old(cx), r is Ok),
        gives(final(cx).st(), r, model::async_parts(old(cx).env(), old(cx).st(), *ast)),
    decreases ast, 0nat,
{
    cx.scopes.push_kind(LayerKind::Captures);
    let block = block(cx, &None, &ast.block)?;
    let ghost inner = cx.st();
    let layer = cx.scopes.pop(ast.block.span)?;
    proof {
        lemma_follows_scoped(old(cx).st(), inner, LayerKind::Captures, ast.block.span);
    }
    Ok((block, layer.captures()))
}

/// Lower a closure.
#[verifier::spinoff_prover]
pub(crate) fn expr_call_closure(cx: &mut Ctxt<'_>, ast: &ast::ExprClosure) -> (r: Result<
    hir::ExprKind,
    CompileError,
>)
    ensures
        final(cx).kept(*old(cx), r is Ok),
        gives(final(cx).st(), r, model::expr_call_closure(old(cx).env(), old(cx).st(), *ast)),
    decreases ast, 1nat,
{
    let db = cx.db;
    let item = db.item_for("lowering closure call", ast.id, ast.span)?;

    let meta = match db.query_meta(
        ast.span,
        item.item,
        GenericsParameters { trailing: 0, first: None, second: None },
    )? {
        Some(meta) => meta,
        None => return Err(CompileError::new(ast.span, ErrorKind::MissingItem { item: item.item })),
    };

    let (call, do_move) = match &meta.kind {
        Kind::Closure { call, do_move } => (*call, *do_move),
        _ => return Err(
            CompileError::new(
                ast.span,
                ErrorKind::ExpectedMeta { meta: meta.info(), expected: "a closure" },
            ),
        ),
    };

    let closure = closure_parts(cx, ast)?;
    cx.used.push(meta.item_meta.item);

    let captures = closure.captures.copy();

    let entry = hir::SecondaryBuildEntry {
        item_meta: meta.item_meta,
        build: hir::SecondaryBuild::Closure { hir: Box::new(closure), call },
    };

    if !queue(cx, entry) {
        return Err(CompileError::new(ast.span, ErrorKind::ClosureInConst));
    }

    if captures.is_empty() {
        return Ok(hir::ExprKind::Fn(meta.hash));
    }

    Ok(
        hir::ExprKind::CallClosure(
            Box::new(hir::ExprCallClosure { hash: meta.hash, do_move, captures }),
        ),
    )
}

/// Lower the arguments and the body of a closure.
#[verifier::spinoff_prover]
pub(crate) fn closure_parts(cx: &mut Ctxt<'_>, ast: &ast::ExprClosure) -> (r: Result<
    hir::ExprClosure,
    CompileError,
>)
    ensures
        final(cx).kept(*old(cx), r is Ok),
        gives(final(cx).st(), r, model::closure_parts(old(cx).env(), old(cx).st(), *ast)),
    decreases ast, 0nat,
{
    cx.scopes.push_kind(LayerKind::Captures);
    let args = fn_args(cx, &ast.args)?;
    let body = expr(cx, &ast.body)?;
    let layer = cx.scopes.pop(ast.body.span())?;
    Ok(hir::ExprClosure { args: List::from_vec(args), body, captures: layer.captures() })
}

/// Lower an argument of a function.
#[verifier::spinoff_prover]
pub(crate) fn fn_arg(cx: &mut Ctxt<'_>, ast: &ast::FnArg) -> (r: Result<hir::FnArg, CompileError>)
    ensures
        final(cx).kept(*old(cx), r is Ok),
        gives(final(cx).st(), r, model::fn_arg(old(cx).env(), old(cx).st(), *ast)),
    decreases ast, 0nat,
{
    match ast {
        ast::FnArg::SelfValue(span) => {
            let variable = cx.scopes.define(Name::SelfValue, *span)?;
            Ok(hir::FnArg::SelfValue(*span, variable))
        },
        ast::FnArg::Pat(ast) => Ok(hir::FnArg::Pat(Box::new(pat_binding(cx, ast)?))),
    }
}

/// Lower the arguments of a function.
#[verifier::spinoff_prover]
pub(crate) fn fn_args(cx: &mut Ctxt<'_>, asts: &Vec<ast::FnArg>) -> (r: Result<
    Vec<hir::FnArg>,
    CompileError,
>)
    ensures
        final(cx).kept(*old(cx), r is Ok),
        gives(
            final(cx).st(),
            viewed(r),
            model::fn_args(old(cx).env(), old(cx).st(), asts@, 0, Seq::empty()),
        ),
    decreases asts@, asts@.len() + 1,
{
    let mut args: Vec<hir::FnArg> = Vec::new();
    let mut i: usize = 0;

    while i < asts.len()
        invariant
            i <= asts@.len(),
            cx.kept(*old(cx), true),
            model::fn_args(old(cx).env(), old(cx).st(), asts@, 0, Seq::empty()) == model::fn_args(
                cx.env(),
                cx.st(),
                asts@,
                i as int,
                args@,
            ),
        decreases asts@.len() - i,
    {
        let arg = fn_arg(cx, &asts[i])?;
        args.push(arg);
        i += 1;
    }

    Ok(args)
}

} // verus!
