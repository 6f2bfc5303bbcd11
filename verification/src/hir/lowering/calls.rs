//! Lowering of calls, field accesses and object literals.

use vstd::prelude::*;
use crate::ast;
use crate::compile::error::{CompileError, ErrorKind};
use crate::hir;
use crate::hir::Name;
use crate::hir::ctxt::{Ctxt, State};
use crate::hir::frame::lemma_follows_found;
use crate::hir::lowering::exprs::{expr, exprs};
use crate::hir::lowering::leaf::{
    call_field, call_meta, find_assignment, gives, object_key, object_kind, viewed, viewed_object,
};
use crate::hir::lowering::paths::{generic_args, path_parameters};
use crate::hir::model;
use crate::list::List;
use crate::query::{GenericsParameters, Named};
use crate::span::Span;

verus! {

broadcast use crate::hir::frame::group_follows;

/// Lower an object literal.
#[verifier::spinoff_prover]
pub(crate) fn expr_object(cx: &mut Ctxt<'_>, ast: &ast::ExprObject) -> (r: Result<
    hir::ExprKind,
    CompileError,
>)
    ensures
        final(cx).kept(*old(cx), r is Ok),
        gives(final(cx).st(), r, model::expr_object(old(cx).env(), old(cx).st(), *ast)),
    decreases ast, 0nat,
{
    let assigns = assignments(cx, &ast.assignments)?;
    let (kind, assigns) = object_type(cx, &ast.ident, assigns, ast.span)?;

    Ok(
        hir::ExprKind::Object(
            Box::new(hir::ExprObject { kind, assignments: List::from_vec(assigns) }),
        ),
    )
}

/// What an object literal builds, and its assignments with the positions of
/// their fields.
#[verifier::spinoff_prover]
pub(crate) fn object_type(
    cx: &mut Ctxt<'_>,
    ast: &ast::ObjectIdent,
    assigns: Vec<hir::FieldAssign>,
    span: Span,
) -> (r: Result<(hir::ExprObjectKind, Vec<hir::FieldAssign>), CompileError>)
    ensures
        final(cx).kept(*old(cx), r is Ok),
        gives(
            final(cx).st(),
            viewed_object(r),
            model::object_type(old(cx).env(), old(cx).st(), *ast, assigns@, span),
        ),
    decreases ast, 0nat,
{
    match ast {
        ast::ObjectIdent::Anonymous(_) => Ok((hir::ExprObjectKind::Anonymous, assigns)),
        ast::ObjectIdent::Named(path) => {
            let (named, parameters) = path_parameters(cx, path)?;
            let meta = cx.db.lookup_meta(path.span, named.item, parameters)?;
            object_kind(meta, assigns, span)
        },
    }
}

/// Lower the assignments of an object literal.
#[verifier::spinoff_prover]
pub(crate) fn assignments(cx: &mut Ctxt<'_>, asts: &Vec<ast::FieldAssign>) -> (r: Result<
    Vec<hir::FieldAssign>,
    CompileError,
>)
    ensures
        final(cx).kept(*old(cx), r is Ok),
        gives(
            final(cx).st(),
            viewed(r),
            model::assignments(old(cx).env(), old(cx).st(), asts@, 0, Seq::empty()),
        ),
    decreases asts@, asts@.len() + 1,
{
    let mut assigns: Vec<hir::FieldAssign> = Vec::new();
    let mut i: usize = 0;

    while i < asts.len()
        invariant
            i <= asts@.len(),
            cx.kept(*old(cx), true),
            model::assignments(
                old(cx).env(),
                old(cx).st(),
                asts@,
                0,
                Seq::empty(),
            ) == model::assignments(
                cx.env(),
                cx.st(),
                asts@,
                i as int,
                assigns@,
            ),
        decreases asts@.len() - i,
    {
        let (span, key) = object_key(&asts[i].key)?;
        let existing = find_assignment(&assigns, &key);

        if existing < assigns.len() {
            return Err(
                CompileError::new(
                    span,
                    ErrorKind::DuplicateObjectKey {
                        existing: assigns[existing].key.0,
                        object: span,
                    },
                ),
            );
        }

        let assign = assignment(cx, &asts[i], span, &key)?;
        assigns.push(hir::FieldAssign { key: (span, key), assign, position: None });
        i += 1;
    }

    Ok(assigns)
}

/// Lower what is assigned to a key.
#[verifier::spinoff_prover]
pub(crate) fn assignment(
    cx: &mut Ctxt<'_>,
    ast: &ast::FieldAssign,
    span: Span,
    key: &String,
) -> (r: Result<hir::Expr, CompileError>)
    ensures
        final(cx).kept(*old(cx), r is Ok),
        gives(final(cx).st(), r, model::assignment(old(cx).env(), old(cx).st(), *ast, span, *key)),
    decreases ast, 0nat,
{
    proof {
        lemma_follows_found(cx.st(), Name::Str(*key));
    }
    match &ast.assign {
        Some(ast) => expr(cx, ast),
        None => match cx.scopes.get(&Name::Str(key.clone())) {
            Some(variable) => Ok(
                hir::Expr { span: ast.span, kind: hir::ExprKind::Variable(variable) },
            ),
            None => Err(CompileError::new(span, ErrorKind::MissingLocal { name: key.clone() })),
        },
    }
}

/// Lower a call.
#[verifier::spinoff_prover]
pub(crate) fn expr_call(cx: &mut Ctxt<'_>, ast: &ast::ExprCall) -> (r: Result<
    hir::ExprCall,
    CompileError,
>)
    ensures
        final(cx).kept(*old(cx), r is Ok),
        gives(final(cx).st(), r, model::expr_call(old(cx).env(), old(cx).st(), *ast)),
    decreases ast, 1nat,
{
    let call = callee(cx, ast)?;
    let args = exprs(cx, &ast.args)?;
    Ok(hir::ExprCall { call, args: List::from_vec(args) })
}

/// Lower what is called.
#[verifier::spinoff_prover]
pub(crate) fn callee(cx: &mut Ctxt<'_>, ast: &ast::ExprCall) -> (r: Result<hir::Call, CompileError>)
    ensures
        final(cx).kept(*old(cx), r is Ok),
        gives(final(cx).st(), r, model::callee(old(cx).env(), old(cx).st(), *ast)),
    decreases ast, 0nat,
{
    let in_path = cx.in_path;
    cx.in_path = true;
    let hir = expr(cx, &ast.expr)?;
    cx.in_path = in_path;

    assert(cx.st().follows(old(cx).st())) by {
        reveal(State::follows);
    }

    match hir.kind {
        hir::ExprKind::Variable(name) => Ok(hir::Call::Var { name }),
        hir::ExprKind::Path => {
            let (span, named, parameters) = callee_path(cx, &ast.expr, ast.expr.span())?;
            let meta = cx.db.lookup_meta(span, named.item, parameters)?;
            call_meta(cx, meta, ast, span, hir.span)
        },
        hir::ExprKind::FieldAccess(access) => Ok(call_field(cx, *access)),
        kind => Ok(hir::Call::Expr { expr: hir::Expr { span: hir.span, kind } }),
    }
}

/// Where the path that is called is, what it is the name of, and its hashed
/// generic parameters.
#[verifier::spinoff_prover]
pub(crate) fn callee_path(cx: &mut Ctxt<'_>, ast: &ast::Expr, span: Span) -> (r: Result<
    (Span, Named, GenericsParameters),
    CompileError,
>)
    ensures
        final(cx).kept(*old(cx), r is Ok),
        gives(final(cx).st(), r, model::callee_path(old(cx).env(), old(cx).st(), *ast, span)),
    decreases ast, 0nat,
{
    match ast {
        ast::Expr::Path(path) => {
            let (named, parameters) = path_parameters(cx, path)?;
            Ok((path.span, named, parameters))
        },
        ast::Expr::Empty(ast) => callee_path(cx, &ast.expr, span),
        _ => Err(CompileError::new(span, ErrorKind::Msg("Expected path"))),
    }
}

/// Lower a field access.
#[verifier::spinoff_prover]
pub(crate) fn expr_field_access(cx: &mut Ctxt<'_>, ast: &ast::ExprFieldAccess) -> (r: Result<
    hir::ExprFieldAccess,
    CompileError,
>)
    ensures
        final(cx).kept(*old(cx), r is Ok),
        gives(final(cx).st(), r, model::expr_field_access(old(cx).env(), old(cx).st(), *ast)),
    decreases ast, 0nat,
{
    let expr_field = expr_field(cx, &ast.expr_field)?;
    let expr = expr(cx, &ast.expr)?;
    Ok(hir::ExprFieldAccess { expr, expr_field })
}

/// Lower the field of a field access.
#[verifier::spinoff_prover]
pub(crate) fn expr_field(cx: &mut Ctxt<'_>, ast: &ast::ExprField) -> (r: Result<
    hir::ExprField,
    CompileError,
>)
    ensures
        final(cx).kept(*old(cx), r is Ok),
        gives(final(cx).st(), r, model::expr_field(old(cx).env(), old(cx).st(), *ast)),
    decreases ast, 0nat,
{
    match ast {
        ast::ExprField::LitNumber(lit) => match &lit.number {
            Err(e) => Err(CompileError::new(lit.span, ErrorKind::Resolve(*e))),
            Ok(number) => match number.as_tuple_index() {
                Some(index) => Ok(hir::ExprField::Index(index)),
                None => Err(
                    CompileError::new(
                        lit.span,
                        ErrorKind::UnsupportedTupleIndex { number: number.copy() },
                    ),
                ),
            },
        },
        ast::ExprField::Path(path) => match path.try_as_ident_generics() {
            None => Err(CompileError::new(path.span, ErrorKind::BadFieldAccess)),
            Some((ident, None)) => Ok(hir::ExprField::Ident(ident.resolve()?)),
            Some((ident, Some(generics))) => {
                let name = ident.resolve()?;
                let builder = generic_args(cx, &generics.args, None)?;
                Ok(hir::ExprField::IdentGenerics(name, builder.finish()))
            },
        },
    }
}

} // verus!
