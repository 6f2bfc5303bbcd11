//! Lowering of patterns.

use vstd::prelude::*;
use crate::ast;
use crate::compile::error::{CompileError, ErrorKind};
use crate::hash::Hash64;
use crate::hir;
use crate::hir::Name;
use crate::hir::ctxt::{Ctxt, State};
use crate::hir::frame::lemma_follows_bound;
use crate::hir::lowering::exprs::expr;
use crate::hir::lowering::leaf::{
    find_binding, gives, object_key, object_pat_kind, pat_const_value, pat_items_count,
    tuple_match_for, tuple_pat_kind, viewed,
};
use crate::hir::lowering::paths::path_parameters;
use crate::hir::model;
use crate::list::List;
use crate::query::Kind;
use crate::runtime::{OBJECT_HASH, TUPLE_HASH, VEC_HASH};
use crate::span::Span;

verus! {

broadcast use crate::hir::frame::group_follows;

/// Lower a pattern with the variables that it binds.
#[verifier::spinoff_prover]
pub(crate) fn pat_binding(cx: &mut Ctxt<'_>, ast: &ast::Pat) -> (r: Result<
    hir::PatBinding,
    CompileError,
>)
    ensures
        final(cx).kept(*old(cx), r is Ok),
        gives(final(cx).st(), r, model::pat_binding(old(cx).env(), old(cx).st(), *ast)),
    decreases ast, 1nat,
{
    proof {
        reveal(State::follows);
        reveal(model::pat_binding_rule);
        assert(
            model::pat_binding(cx.env(), cx.st(), *ast) == model::pat_binding_rule(
                cx.env(),
                cx.st(),
                *ast,
            )
        );
    }
    let pat = pat(cx, ast)?;
    let ghost bindings = cx.pattern_bindings@;
    let names = cx.pattern_bindings.split_off(0);
    assert(names@ =~= bindings);
    assert(cx.pattern_bindings@ =~= Seq::empty());
    Ok(hir::PatBinding { pat, names: List::from_vec(names) })
}

/// Lower a pattern.
#[verifier::spinoff_prover]
pub fn pat(cx: &mut Ctxt<'_>, ast: &ast::Pat) -> (r: Result<hir::Pat, CompileError>)
    ensures
        final(cx).kept(*old(cx), r is Ok),
        gives(final(cx).st(), r, model::pat(old(cx).env(), old(cx).st(), *ast)),
    decreases ast, 0nat,
{
    match ast {
        ast::Pat::Ignore(span) => Ok(hir::Pat { span: *span, kind: hir::PatKind::Ignore }),
        ast::Pat::Path(ast) => pat_path(cx, ast),
        ast::Pat::Lit(ast) => {
            let expr = expr(cx, &ast.expr)?;
            Ok(hir::Pat { span: ast.span, kind: hir::PatKind::Lit(Box::new(expr)) })
        },
        ast::Pat::Vec(ast) => pat_vec(cx, ast),
        ast::Pat::Tuple(ast) => pat_tuple(cx, ast),
        ast::Pat::Object(ast) => pat_object(cx, ast),
        ast::Pat::Binding(_) | ast::Pat::Rest(_) => Err(
            CompileError::new(ast.span(), ErrorKind::UnsupportedPatternExpr),
        ),
    }
}

/// Lower a path pattern.
#[verifier::spinoff_prover]
pub(crate) fn pat_path(cx: &mut Ctxt<'_>, ast: &ast::PatPath) -> (r: Result<hir::Pat, CompileError>)
    ensures
        final(cx).kept(*old(cx), r is Ok),
        gives(final(cx).st(), r, model::pat_path(old(cx).env(), old(cx).st(), *ast)),
    decreases ast, 0nat,
{
    let (named, parameters) = path_parameters(cx, &ast.path)?;
    let db = cx.db;

    if let Some(meta) = db.query_meta(ast.span, named.item, parameters)? {
        if let Kind::Const = &meta.kind {
            return match db.get_const_value(meta.hash) {
                Some(value) => pat_const_value(value, ast.span),
                None => Err(
                    CompileError::new(ast.span, ErrorKind::MissingConstant { hash: meta.hash }),
                ),
            };
        }

        if let Some((args, kind)) = tuple_match_for(meta) {
            if args == 0 {
                return Ok(
                    hir::Pat {
                        span: ast.span,
                        kind: hir::PatKind::Path(hir::PatPathKind::Kind(kind)),
                    },
                );
            }
        }
    }

    pat_ident(cx, ast)
}

/// Lower a pattern that binds a variable.
#[verifier::spinoff_prover]
pub(crate) fn pat_ident(cx: &mut Ctxt<'_>, ast: &ast::PatPath) -> (r: Result<
    hir::Pat,
    CompileError,
>)
    ensures
        final(cx).kept(*old(cx), r is Ok),
        gives(final(cx).st(), r, model::pat_ident(old(cx).st(), *ast)),
{
    match ast.path.try_as_ident() {
        None => Err(CompileError::new(ast.span, ErrorKind::UnsupportedBinding)),
        Some(ident) => {
            let name = ident.resolve()?;
            proof {
                lemma_follows_bound(cx.st(), Name::Str(name), ast.span);
            }
            let variable = cx.scopes.define(Name::Str(name), ast.span)?;
            cx.pattern_bindings.push(variable);

            Ok(
                hir::Pat {
                    span: ast.span,
                    kind: hir::PatKind::Path(hir::PatPathKind::Ident(variable)),
                },
            )
        },
    }
}

/// Lower patterns, without `..` and without keys.
#[verifier::spinoff_prover]
pub(crate) fn pats(cx: &mut Ctxt<'_>, asts: &Vec<ast::Pat>) -> (r: Result<
    Vec<hir::Pat>,
    CompileError,
>)
    ensures
        final(cx).kept(*old(cx), r is Ok),
        gives(
            final(cx).st(),
            viewed(r),
            model::pats(old(cx).env(), old(cx).st(), asts@, 0, Seq::empty()),
        ),
    decreases asts@, asts@.len() + 1,
{
    let mut items: Vec<hir::Pat> = Vec::new();
    let mut i: usize = 0;

    while i < asts.len()
        invariant
            i <= asts@.len(),
            cx.kept(*old(cx), true),
            model::pats(old(cx).env(), old(cx).st(), asts@, 0, Seq::empty()) == model::pats(
                cx.env(),
                cx.st(),
                asts@,
                i as int,
                items@,
            ),
        decreases asts@.len() - i,
    {
        let skip = match &asts[i] {
            ast::Pat::Binding(_) | ast::Pat::Rest(_) => true,
            _ => false,
        };

        if !skip {
            let item = pat(cx, &asts[i])?;
            items.push(item);
        }

        i += 1;
    }

    Ok(items)
}

/// Lower a vector pattern.
#[verifier::spinoff_prover]
pub(crate) fn pat_vec(cx: &mut Ctxt<'_>, ast: &ast::PatVec) -> (r: Result<hir::Pat, CompileError>)
    ensures
        final(cx).kept(*old(cx), r is Ok),
        gives(final(cx).st(), r, model::pat_vec(old(cx).env(), old(cx).st(), *ast)),
    decreases ast, 0nat,
{
    let (is_open, count) = pat_items_count(&ast.items)?;
    let items = pats(cx, &ast.items)?;

    Ok(
        hir::Pat {
            span: ast.span,
            kind: hir::PatKind::Sequence(
                hir::PatSequence {
                    kind: hir::PatSequenceKind::Sequence { hash: Hash64(VEC_HASH), count, is_open },
                    items: List::from_vec(items),
                },
            ),
        },
    )
}

/// Lower a tuple pattern.
#[verifier::spinoff_prover]
pub(crate) fn pat_tuple(cx: &mut Ctxt<'_>, ast: &ast::PatTuple) -> (r: Result<
    hir::Pat,
    CompileError,
>)
    ensures
        final(cx).kept(*old(cx), r is Ok),
        gives(final(cx).st(), r, model::pat_tuple(old(cx).env(), old(cx).st(), *ast)),
    decreases ast, 0nat,
{
    let (is_open, count) = pat_items_count(&ast.items)?;
    let items = pats(cx, &ast.items)?;
    let kind = tuple_type(cx, &ast.path, is_open, count)?;

    Ok(
        hir::Pat {
            span: ast.span,
            kind: hir::PatKind::Sequence(hir::PatSequence { kind, items: List::from_vec(items) }),
        },
    )
}

/// What a tuple pattern matches.
#[verifier::spinoff_prover]
pub(crate) fn tuple_type(
    cx: &mut Ctxt<'_>,
    path: &Option<ast::Path>,
    is_open: bool,
    count: usize,
) -> (r: Result<hir::PatSequenceKind, CompileError>)
    ensures
        final(cx).kept(*old(cx), r is Ok),
        gives(
            final(cx).st(),
            r,
            model::tuple_type(old(cx).env(), old(cx).st(), *path, is_open, count),
        ),
    decreases path, 0nat,
{
    match path {
        None => Ok(
            hir::PatSequenceKind::Sequence { hash: Hash64(TUPLE_HASH), count, is_open },
        ),
        Some(path) => {
            let (named, parameters) = path_parameters(cx, path)?;
            let meta = cx.db.lookup_meta(path.span, named.item, parameters)?;
            tuple_pat_kind(meta, is_open, count, path.span)
        },
    }
}

/// Lower an object pattern.
#[verifier::spinoff_prover]
pub(crate) fn pat_object(cx: &mut Ctxt<'_>, ast: &ast::PatObject) -> (r: Result<
    hir::Pat,
    CompileError,
>)
    ensures
        final(cx).kept(*old(cx), r is Ok),
        gives(final(cx).st(), r, model::pat_object(old(cx).env(), old(cx).st(), *ast)),
    decreases ast, 0nat,
{
    let (is_open, count) = pat_items_count(&ast.items)?;
    let bindings = bindings(cx, &ast.items, count)?;
    let kind = object_pat_type(cx, &ast.ident, is_open, count, &bindings, ast.span)?;

    Ok(
        hir::Pat {
            span: ast.span,
            kind: hir::PatKind::Object(
                hir::PatObject { kind, bindings: List::from_vec(bindings) },
            ),
        },
    )
}

/// What an object pattern matches.
#[verifier::spinoff_prover]
pub(crate) fn object_pat_type(
    cx: &mut Ctxt<'_>,
    ast: &ast::ObjectIdent,
    is_open: bool,
    count: usize,
    bindings: &Vec<hir::Binding>,
    span: Span,
) -> (r: Result<hir::PatSequenceKind, CompileError>)
    ensures
        final(cx).kept(*old(cx), r is Ok),
        gives(
            final(cx).st(),
            r,
            model::object_pat_type(
                old(cx).env(),
                old(cx).st(),
                *ast,
                is_open,
                count,
                bindings@,
                span,
            ),
        ),
    decreases ast, 0nat,
{
    match ast {
        ast::ObjectIdent::Anonymous(_) => Ok(
            hir::PatSequenceKind::Sequence { hash: Hash64(OBJECT_HASH), count, is_open },
        ),
        ast::ObjectIdent::Named(path) => {
            let (named, parameters) = path_parameters(cx, path)?;
            let meta = cx.db.lookup_meta(path.span, named.item, parameters)?;
            object_pat_kind(meta, is_open, count, bindings, path.span, span)
        },
    }
}

/// Lower the first `count` fields of an object pattern.
#[verifier::spinoff_prover]
pub(crate) fn bindings(cx: &mut Ctxt<'_>, asts: &Vec<ast::Pat>, count: usize) -> (r: Result<
    Vec<hir::Binding>,
    CompileError,
>)
    ensures
        final(cx).kept(*old(cx), r is Ok),
        gives(
            final(cx).st(),
            viewed(r),
            model::bindings(old(cx).env(), old(cx).st(), asts@, count as int, 0, Seq::empty()),
        ),
    decreases asts@, asts@.len() + 1,
{
    let mut done: Vec<hir::Binding> = Vec::new();
    let mut i: usize = 0;

    while i < count && i < asts.len()
        invariant
            i <= asts@.len(),
            done@.len() == i,
            cx.kept(*old(cx), true),
            model::bindings(
                old(cx).env(),
                old(cx).st(),
                asts@,
                count as int,
                0,
                Seq::empty(),
            ) == model::bindings(
                cx.env(),
                cx.st(),
                asts@,
                count as int,
                i as int,
                done@,
            ),
        decreases asts@.len() - i,
    {
        let binding = binding(cx, &asts[i])?;
        let existing = find_binding(&done, binding.key());

        if existing < done.len() {
            return Err(
                CompileError::new(
                    asts[i].span(),
                    ErrorKind::DuplicateObjectKey {
                        existing: asts[existing].span(),
                        object: asts[i].span(),
                    },
                ),
            );
        }

        done.push(binding);
        i += 1;
    }

    Ok(done)
}

/// Lower a field of an object pattern.
#[verifier::spinoff_prover]
pub(crate) fn binding(cx: &mut Ctxt<'_>, ast: &ast::Pat) -> (r: Result<hir::Binding, CompileError>)
    ensures
        final(cx).kept(*old(cx), r is Ok),
        gives(final(cx).st(), r, model::binding(old(cx).env(), old(cx).st(), *ast)),
    decreases ast, 1nat,
{
    match ast {
        ast::Pat::Binding(ast) => {
            let (span, key) = object_key(&ast.key)?;
            let pat = pat(cx, &ast.pat)?;
            Ok(hir::Binding::Binding(span, key, Box::new(pat)))
        },
        ast::Pat::Path(ast) => {
            let ident = match ast.path.try_as_ident() {
                Some(ident) => ident,
                None => return Err(CompileError::new(ast.span, ErrorKind::UnsupportedPatternExpr)),
            };

            let key = ident.resolve()?;
            proof {
                lemma_follows_bound(cx.st(), Name::Str(key), ident.span);
            }
            let variable = cx.scopes.define(Name::Str(key.clone()), ident.span)?;
            cx.pattern_bindings.push(variable);
            Ok(hir::Binding::Ident(ast.span, key, variable))
        },
        _ => Err(CompileError::new(ast.span(), ErrorKind::UnsupportedPatternExpr)),
    }
}

} // verus!
