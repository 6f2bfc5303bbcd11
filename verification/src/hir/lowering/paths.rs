//! Lowering of paths.

use vstd::prelude::*;
use crate::ast;
use crate::compile::error::{CompileError, ErrorKind};
use crate::hash::{no_parameters, Hash64, ParametersBuilder};
use crate::hir;
use crate::hir::{Name, Variable};
use crate::hir::ctxt::{Ctxt, Needs};
use crate::hir::frame::lemma_follows_found;
use crate::hir::lowering::exprs::expr;
use crate::hir::lowering::leaf::{expr_path_meta, gives, missing_path};
use crate::hir::model;
use crate::query::{find_generics, generics_index, GenericsParameters, Named};
use crate::span::Span;
use crate::text::is_capitalized;

verus! {

broadcast use crate::hir::frame::group_follows;

/// Lower a path.
#[verifier::spinoff_prover]
pub(crate) fn expr_path(cx: &mut Ctxt<'_>, ast: &ast::Path, in_path: bool) -> (r: Result<
    hir::ExprKind,
    CompileError,
>)
    ensures
        final(cx).kept(*old(cx), r is Ok),
        gives(final(cx).st(), r, model::expr_path(old(cx).env(), old(cx).st(), *ast, in_path)),
    decreases ast, 2nat,
{
    if ast.is_self_value() {
        return match cx.scopes.get(&Name::SelfValue) {
            Some(variable) => Ok(hir::ExprKind::Variable(variable)),
            None => Err(CompileError::new(ast.span, ErrorKind::MissingSelf)),
        };
    }

    if let Some(variable) = path_variable(cx, ast)? {
        return Ok(hir::ExprKind::Variable(variable));
    }

    if in_path {
        return Ok(hir::ExprKind::Path);
    }

    path_item(cx, ast)
}

/// The variable that a path is, where a value is needed.
#[verifier::spinoff_prover]
pub(crate) fn path_variable(cx: &mut Ctxt<'_>, ast: &ast::Path) -> (r: Result<
    Option<Variable>,
    CompileError,
>)
    ensures
        final(cx).kept(*old(cx), r is Ok),
        gives(final(cx).st(), r, model::path_variable(old(cx).st(), *ast)),
{
    if let Needs::Value = cx.needs {
        if let Some(ident) = ast.try_as_ident() {
            let name = ident.resolve()?;
            proof {
                lemma_follows_found(cx.st(), Name::Str(name));
            }
            return Ok(cx.scopes.get(&Name::Str(name)));
        }
    }

    Ok(None)
}

/// Lower a path to an item.
#[verifier::spinoff_prover]
pub(crate) fn path_item(cx: &mut Ctxt<'_>, ast: &ast::Path) -> (r: Result<
    hir::ExprKind,
    CompileError,
>)
    ensures
        final(cx).kept(*old(cx), r is Ok),
        gives(final(cx).st(), r, model::path_item(old(cx).env(), old(cx).st(), *ast)),
    decreases ast, 1nat,
{
    let (named, parameters) = path_parameters(cx, ast)?;
    let db = cx.db;

    if let Some(meta) = db.query_meta(ast.span, named.item, parameters)? {
        return expr_path_meta(cx.needs, meta, ast.span);
    }

    if let Needs::Value = cx.needs {
        if let Some(ident) = ast.try_as_ident() {
            let name = ident.resolve()?;
            let upper = is_capitalized(name.as_str());
            return Err(missing_path(ast.span, Some(name), upper, named.item, parameters));
        }
    }

    Err(missing_path(ast.span, None, false, named.item, parameters))
}

/// What a path is the name of, and its hashed generic parameters.
#[verifier::spinoff_prover]
pub(crate) fn path_parameters(cx: &mut Ctxt<'_>, ast: &ast::Path) -> (r: Result<
    (Named, GenericsParameters),
    CompileError,
>)
    ensures
        final(cx).kept(*old(cx), r is Ok),
        gives(final(cx).st(), r, model::path_parameters(old(cx).env(), old(cx).st(), *ast)),
    decreases ast, 0nat,
{
    proof {
        reveal(model::path_parameters_rule);
        assert(
            model::path_parameters(cx.env(), cx.st(), *ast) == model::path_parameters_rule(
                cx.env(),
                cx.st(),
                *ast,
            )
        );
    }
    let named = cx.db.convert_path(ast)?;
    let parameters = generics_parameters(cx, ast, named)?;
    Ok((named, parameters))
}

/// The hashed generic parameters of a path.
#[verifier::spinoff_prover]
pub(crate) fn generics_parameters(cx: &mut Ctxt<'_>, ast: &ast::Path, named: Named) -> (r: Result<
    GenericsParameters,
    CompileError,
>)
    ensures
        final(cx).kept(*old(cx), r is Ok),
        gives(
            final(cx).st(),
            r,
            model::generics_parameters(old(cx).env(), old(cx).st(), ast.rest@, named),
        ),
    decreases ast.rest@, 1nat,
{
    proof {
        reveal(generics_index);
    }
    let at: usize = find_generics(ast, 0);
    let first = segment_parameters(cx, ast, at)?;

    let next: usize = if at < ast.rest.len() {
        find_generics(ast, at + 1)
    } else {
        at
    };

    let second = segment_parameters(cx, ast, next)?;
    Ok(GenericsParameters { trailing: named.trailing, first, second })
}

/// The hash of the generic arguments in a segment of a path.
#[verifier::spinoff_prover]
pub(crate) fn segment_parameters(cx: &mut Ctxt<'_>, ast: &ast::Path, i: usize) -> (r: Result<
    Option<Hash64>,
    CompileError,
>)
    ensures
        final(cx).kept(*old(cx), r is Ok),
        gives(
            final(cx).st(),
            r,
            model::segment_parameters(old(cx).env(), old(cx).st(), ast.rest@, i as int),
        ),
    decreases ast.rest@, 0nat,
{
    proof {
        reveal(model::segment_parameters_rule);
        let (env, st, rest) = (cx.env(), cx.st(), ast.rest@);
        assert(model::segment_parameters(env, st, rest, i as int)
            == model::segment_parameters_rule(env, st, rest, i as int));
    }
    if i >= ast.rest.len() {
        return Ok(None);
    }

    match &ast.rest[i] {
        ast::PathSegment::Generics(generics) => {
            let builder = generic_args(cx, &generics.args, Some(generics.span))?;
            Ok(Some(builder.finish()))
        },
        _ => Ok(None),
    }
}

/// Hash generic arguments.
#[verifier::spinoff_prover]
pub(crate) fn generic_args(
    cx: &mut Ctxt<'_>,
    asts: &Vec<ast::Expr>,
    span: Option<Span>,
) -> (r: Result<ParametersBuilder, CompileError>)
    ensures
        final(cx).kept(*old(cx), r is Ok),
        gives(
            final(cx).st(),
            r,
            model::generic_args(old(cx).env(), old(cx).st(), asts@, span, 0, no_parameters()),
        ),
    decreases asts@, asts@.len() + 1,
{
    let mut builder = ParametersBuilder::new();
    let mut i: usize = 0;

    while i < asts.len()
        invariant
            i <= asts@.len(),
            cx.kept(*old(cx), true),
            model::generic_args(old(cx).env(), old(cx).st(), asts@, span, 0, no_parameters())
                == model::generic_args(cx.env(), cx.st(), asts@, span, i as int, builder),
        decreases asts@.len() - i,
    {
        let ty = match expr(cx, &asts[i])?.kind {
            hir::ExprKind::Type(ty) => ty,
            _ => return Err(CompileError::new(asts[i].span(), ErrorKind::UnsupportedGenerics)),
        };

        builder = match builder.add(ty.hash) {
            Ok(builder) => builder,
            Err(_) => {
                let span = match span {
                    Some(span) => span,
                    None => asts[i].span(),
                };

                return Err(CompileError::new(span, ErrorKind::TooManyParameters));
            },
        };

        i += 1;
    }

    Ok(builder)
}

} // verus!
