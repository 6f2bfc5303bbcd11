//! Laws of how paths, calls and objects are lowered.

use vstd::prelude::*;
use crate::ast;
use crate::compile::error::{CompileError, ErrorKind};
use crate::hash::{
    function_parameters_hash, ident_hash, index_hash, mixed, no_parameters, Hash64,
    ParametersBuilder, EMPTY, PARAMETERS,
};
use crate::hir;
use crate::hir::block_laws::{arg_step, lemma_fn_args};
use crate::hir::control_laws::{
    all_lowered, expr_step, in_turn, is_label, lemma_exprs, lemma_listed, resolving,
};
use crate::hir::ctxt::{Diagnostic, Env, Needs, State};
use crate::hir::expr_laws::lowers;
use crate::hir::model;
use crate::hir::rules;
use crate::hir::scopes::LayerKind;
use crate::hir::{Name, Variable};
use crate::query::{without_parameters, Fields, GenericsParameters, Kind, Meta, Named};
use crate::span::Span;
use crate::text::capitalized;

verus! {

/// Test if a path is nothing but one segment.
pub open spec fn is_single(path: ast::Path) -> bool {
    path.rest@.len() == 0 && !path.trailing && !path.global
}

/// A path that is `self` is the variable of that name, and an error if there is
/// none.
pub proof fn lemma_path_self(env: Env, st: State, path: ast::Path)
    requires
        is_single(path),
        path.first is SelfValue,
    ensures
        ({
            let (end, r) = model::expr(env, st, ast::Expr::Path(path));
            let (after, variable) = resolving(st).found(Name::SelfValue);
            &&& end == after
            &&& match variable {
                Some(variable) => r is Ok && r->Ok_0.span == path.span && r->Ok_0.kind
                    == hir::ExprKind::Variable(variable),
                None => r is Err && r->Err_0.span == path.span && r->Err_0.kind
                    == ErrorKind::MissingSelf,
            }
        }),
{
    let x = ast::Expr::Path(path);
    reveal(model::expr_rule);
    reveal(ast::expr_span);
    assert(model::expr(env, st, x) == model::expr_rule(env, st, x));
}

/// A path that is one name is the variable of that name where a value is needed,
/// if there is one. Else it is left to its user, if that asks for it.
pub proof fn lemma_path_name(env: Env, st: State, path: ast::Path, name: String)
    requires
        is_single(path),
        path.first is Ident,
        path.first->Ident_0.text == Ok::<String, crate::compile::error::ResolveError>(name),
        st.needs == Needs::Value,
    ensures
        ({
            let (end, r) = model::expr(env, st, ast::Expr::Path(path));
            let (after, variable) = resolving(st).found(Name::Str(name));
            &&& variable is Some ==> end == after && r is Ok && r->Ok_0.span == path.span
                && r->Ok_0.kind == hir::ExprKind::Variable(variable->0)
            &&& variable is None && st.in_path ==> end == after && r is Ok && r->Ok_0.span
                == path.span && r->Ok_0.kind is Path
        }),
{
    let x = ast::Expr::Path(path);
    reveal(model::expr_rule);
    reveal(ast::expr_span);
    assert(model::expr(env, st, x) == model::expr_rule(env, st, x));
}

/// Where a type is needed, a path that is not `self` is not a variable. It is left
/// to its user exactly if that asks for it.
pub proof fn lemma_path_type(env: Env, st: State, path: ast::Path)
    requires
        !(is_single(path) && path.first is SelfValue),
        st.needs == Needs::Type,
        model::expr(env, st, ast::Expr::Path(path)).1 is Ok,
    ensures
        ({
            let kind = model::expr(env, st, ast::Expr::Path(path)).1->Ok_0.kind;
            &&& st.in_path == kind is Path
            &&& !(kind is Variable)
        }),
{
    let x = ast::Expr::Path(path);
    reveal(model::expr_rule);
    assert(model::expr(env, st, x) == model::expr_rule(env, st, x));
    lemma_type_kind(env, resolving(st), path, st.in_path);
}

/// The kinds of expressions that a path can be lowered to where a type is needed.
proof fn lemma_type_kind(env: Env, st: State, path: ast::Path, in_path: bool)
    requires
        !(is_single(path) && path.first is SelfValue),
        st.needs == Needs::Type,
    ensures
        model::expr_path(env, st, path, in_path).1 matches Ok(kind) ==> in_path == kind is Path
            && !(kind is Variable),
{
    reveal(rules::expr_path_meta);
    reveal(rules::call_of);
}

/// A path to an item that is known is what the item is, as a value or as a type.
pub proof fn lemma_path_item(env: Env, st: State, path: ast::Path)
    requires
        !st.in_path,
        !(is_single(path) && (path.first is SelfValue || path.first is Ident)),
        model::path_parameters(env, st, path).1 is Ok,
    ensures
        ({
            let (end, r) = model::expr(env, st, ast::Expr::Path(path));
            let (after, p) = model::path_parameters(env, st, path);
            let (named, parameters) = p->Ok_0;
            &&& end == after
            &&& match env.db.meta_of(path.span, named.item, parameters) {
                Err(e) => r == Err::<hir::Expr, CompileError>(e),
                Ok(None) => r is Err && r->Err_0.span == path.span && r->Err_0.kind == (
                ErrorKind::MissingItemParameters { item: named.item, parameters }),
                Ok(Some(meta)) => match rules::expr_path_meta(after.needs, meta, path.span) {
                    Ok(kind) => r is Ok && r->Ok_0.span == path.span && r->Ok_0.kind == kind,
                    Err(e) => r == Err::<hir::Expr, CompileError>(e),
                },
            }
        }),
{
    let x = ast::Expr::Path(path);
    reveal(model::expr_rule);
    reveal(ast::expr_span);
    reveal(rules::missing_path);
    assert(resolving(st) == st);
    assert(model::expr(env, st, x) == model::expr_rule(env, st, x));
    assert(path.ident() is None);
    assert(model::path_variable(st, path) == (st, Ok::<Option<Variable>, CompileError>(None)));
    assert(model::expr_path(env, st, path, false) == model::path_item(env, st, path));
}

/// What an item is as a value: a type without fields is built, a tuple with fields
/// is the function that builds it, functions and constants are themselves, and
/// other types are types. As a type it is the one that its values are checked
/// against. Anything else is an error.
pub proof fn lemma_item_kind(meta: Meta, span: Span)
    ensures
        ({
            let r = rules::expr_path_meta(Needs::Value, meta, span);
            match meta.kind {
                Kind::Struct { fields, .. } => r is Ok && (match fields {
                    Fields::Empty => r->Ok_0 is Call && r->Ok_0->Call_0.args is Nil
                        && r->Ok_0->Call_0.call == (hir::Call::Meta { hash: meta.hash }),
                    Fields::Unnamed(n) => if n == 0 {
                        r->Ok_0 is Call && r->Ok_0->Call_0.args is Nil && r->Ok_0->Call_0.call == (
                        hir::Call::Meta { hash: meta.hash })
                    } else {
                        r->Ok_0 == hir::ExprKind::Fn(meta.hash)
                    },
                    Fields::Named(_) => r->Ok_0 is Type && r->Ok_0->Type_0.hash == meta.hash,
                }),
                Kind::Type => r is Ok && r->Ok_0 is Type && r->Ok_0->Type_0.hash == meta.hash,
                Kind::Enum => r is Ok && r->Ok_0 is Type && r->Ok_0->Type_0.hash == meta.hash,
                Kind::Function => r is Ok && r->Ok_0 == hir::ExprKind::Fn(meta.hash),
                Kind::Const => r is Ok && r->Ok_0 == hir::ExprKind::Const(meta.hash),
                _ => r is Err && r->Err_0.span == span && r->Err_0.kind is ExpectedMeta,
            }
        }),
        ({
            let r = rules::expr_path_meta(Needs::Type, meta, span);
            match meta.kind {
                Kind::Struct { enum_hash, .. } => if enum_hash.0 == EMPTY {
                    r is Ok && r->Ok_0 is Type && r->Ok_0->Type_0.hash == meta.hash
                } else {
                    r is Err && r->Err_0.span == span && r->Err_0.kind is ExpectedMeta
                },
                Kind::Type | Kind::Enum | Kind::Function | Kind::Closure { .. }
                | Kind::AsyncBlock { .. } => r is Ok && r->Ok_0 is Type && r->Ok_0->Type_0.hash
                    == meta.hash,
                _ => r is Err && r->Err_0.span == span && r->Err_0.kind is ExpectedMeta,
            }
        }),
{
    reveal(rules::expr_path_meta);
    reveal(rules::call_of);
    reveal(Meta::type_hash);
}

/// A name that is not known is taken for a variable, unless it is capitalized.
pub proof fn lemma_missing(
    span: Span,
    name: String,
    item: crate::query::ItemId,
    parameters: GenericsParameters,
)
    ensures
        ({
            let e = rules::missing_path(span, Some(name), capitalized(name@), item, parameters);
            &&& e.span == span
            &&& capitalized(name@) ==> e.kind == (ErrorKind::MissingItemParameters {
                item,
                parameters,
            })
            &&& !capitalized(name@) ==> e.kind == (ErrorKind::MissingLocal { name })
        }),
{
    reveal(rules::missing_path);
}

/// A path without generic arguments has no parameters but its trailing ones.
pub proof fn lemma_path_plain(env: Env, st: State, path: ast::Path, named: Named)
    requires
        env.db.name_of(path) == Ok::<Named, CompileError>(named),
        forall|i: int| 0 <= i < path.rest@.len() ==> !(#[trigger] path.rest@[i] is Generics),
    ensures
        model::path_parameters(env, st, path) == (
            st,
            Ok::<(Named, GenericsParameters), CompileError>(
                (
                    named,
                    GenericsParameters { trailing: named.trailing, first: None, second: None },
                ),
            ),
        ),
{
    reveal(model::path_parameters_rule);
    reveal(model::segment_parameters_rule);
    assert(model::path_parameters(env, st, path) == model::path_parameters_rule(env, st, path));
    let segments = path.rest@;
    lemma_no_generics(segments, 0);
    let first = crate::query::generics_index(segments, 0);
    reveal(crate::query::generics_index);
    let second = crate::query::generics_index(segments, first + 1);
    assert(model::segment_parameters(env, st, segments, first) == model::segment_parameters_rule(
        env,
        st,
        segments,
        first,
    ));
    assert(model::segment_parameters(env, st, segments, second) == model::segment_parameters_rule(
        env,
        st,
        segments,
        second,
    ));
}

/// No segment with generic arguments is found where there is none.
proof fn lemma_no_generics(segments: Seq<ast::PathSegment>, i: int)
    requires
        0 <= i <= segments.len(),
        forall|j: int| 0 <= j < segments.len() ==> !(#[trigger] segments[j] is Generics),
    ensures
        crate::query::generics_index(segments, i) == segments.len(),
    decreases segments.len() - i,
{
    reveal(crate::query::generics_index);
    if i < segments.len() {
        lemma_no_generics(segments, i + 1);
    }
}

/// The hashes of types mixed one after the other.
pub open spec fn types_hash(types: Seq<hir::Expr>) -> u64
    decreases types.len(),
{
    if types.len() == 0 {
        mixed(0, PARAMETERS)
    } else {
        mixed(types_hash(types.drop_last()), types.last().kind->Type_0.hash.0)
    }
}

/// Generic arguments are lowered in turn, all of them to types, whose hashes are
/// mixed in order.
proof fn lemma_generic_args_from(
    env: Env,
    st: State,
    asts: Seq<ast::Expr>,
    span: Option<Span>,
    i: int,
    builder: ParametersBuilder,
    done: Seq<hir::Expr>,
    states: Seq<State>,
) -> (all: Seq<hir::Expr>)
    requires
        0 <= i <= asts.len(),
        done.len() == i,
        states.len() == i + 1,
        states[i] == st,
        builder.count == i,
        builder.hash == types_hash(done),
        forall|j: int| 0 <= j < i ==> (#[trigger] done[j]).kind is Type,
        forall|j: int|
            0 <= j < i ==> expr_step(env)(#[trigger] states[j], asts[j], states[j + 1], done[j]),
        model::generic_args(env, st, asts, span, i, builder).1 is Ok,
    ensures
        ({
            let (end, r) = model::generic_args(env, st, asts, span, i, builder);
            &&& all_lowered(asts, all, states[0], end, expr_step(env))
            &&& forall|j: int| 0 <= j < all.len() ==> (#[trigger] all[j]).kind is Type
            &&& r->Ok_0.hash == types_hash(all)
            &&& r->Ok_0.count == asts.len()
        }),
    decreases asts.len() - i,
{
    if i < asts.len() {
        let (next, item) = model::expr(env, st, asts[i]);
        let hir = item->Ok_0;
        let more = states.push(next);
        let items = done.push(hir);
        let added = builder.added(hir.kind->Type_0.hash)->Ok_0;
        assert(items.drop_last() =~= done);
        assert forall|j: int| 0 <= j < i + 1 implies expr_step(env)(
            #[trigger] more[j],
            asts[j],
            more[j + 1],
            items[j],
        ) by {
            if j < i {
                assert(more[j] == states[j] && more[j + 1] == states[j + 1]);
            }
        }
        lemma_generic_args_from(env, next, asts, span, i + 1, added, items, more)
    } else {
        assert(in_turn(asts, done, states, states[0], st, expr_step(env)));
        done
    }
}

/// Test if generic arguments are lowered in turn, all of them to types, whose
/// hashes are mixed in order.
pub open spec fn is_parameters(
    env: Env,
    st: State,
    asts: Seq<ast::Expr>,
    end: State,
    hash: Hash64,
) -> bool {
    exists|types: Seq<hir::Expr>|
        {
            &&& #[trigger] all_lowered(asts, types, st, end, expr_step(env))
            &&& forall|j: int| 0 <= j < types.len() ==> (#[trigger] types[j]).kind is Type
            &&& hash.0 == types_hash(types)
        }
}

/// Generic arguments are lowered in turn, all of them to types, whose hashes are
/// mixed in order.
pub proof fn lemma_generic_args(env: Env, st: State, asts: Seq<ast::Expr>, span: Option<Span>)
    requires
        model::generic_args(env, st, asts, span, 0, no_parameters()).1 is Ok,
    ensures
        ({
            let (end, r) = model::generic_args(env, st, asts, span, 0, no_parameters());
            &&& is_parameters(env, st, asts, end, Hash64(r->Ok_0.hash))
            &&& asts.len() == r->Ok_0.count
        }),
{
    let types = lemma_generic_args_from(
        env,
        st,
        asts,
        span,
        0,
        no_parameters(),
        Seq::empty(),
        seq![st],
    );
    let end = model::generic_args(env, st, asts, span, 0, no_parameters()).0;
    assert(all_lowered(asts, types, st, end, expr_step(env)));
}

/// The parameters of a segment with generic arguments are the types of these.
pub proof fn lemma_segment(
    env: Env,
    st: State,
    segments: Seq<ast::PathSegment>,
    i: int,
)
    requires
        0 <= i < segments.len(),
        segments[i] is Generics,
        model::segment_parameters(env, st, segments, i).1 is Ok,
    ensures
        ({
            let (end, r) = model::segment_parameters(env, st, segments, i);
            r->Ok_0 is Some && is_parameters(
                env,
                st,
                segments[i]->Generics_0.args@,
                end,
                r->Ok_0->0,
            )
        }),
{
    reveal(model::segment_parameters_rule);
    assert(model::segment_parameters(env, st, segments, i) == model::segment_parameters_rule(
        env,
        st,
        segments,
        i,
    ));
    let generics = segments[i]->Generics_0;
    lemma_generic_args(env, st, generics.args@, Some(generics.span));
}

/// A path whose only generic arguments are in one segment has their types as its
/// first parameters.
pub proof fn lemma_path_generics(env: Env, st: State, path: ast::Path, named: Named, k: int)
    requires
        env.db.name_of(path) == Ok::<Named, CompileError>(named),
        0 <= k < path.rest@.len(),
        path.rest@[k] is Generics,
        forall|i: int|
            0 <= i < path.rest@.len() && i != k ==> !(#[trigger] path.rest@[i] is Generics),
        model::path_parameters(env, st, path).1 is Ok,
    ensures
        ({
            let (end, r) = model::path_parameters(env, st, path);
            let (name, parameters) = r->Ok_0;
            &&& name == named
            &&& parameters.trailing == named.trailing
            &&& parameters.second is None
            &&& parameters.first is Some
            &&& is_parameters(
                env,
                st,
                path.rest@[k]->Generics_0.args@,
                end,
                parameters.first->0,
            )
        }),
{
    reveal(model::path_parameters_rule);
    assert(model::path_parameters(env, st, path) == model::path_parameters_rule(env, st, path));
    lemma_generics(env, st, path.rest@, named, k);
}

/// The parameters of a path whose only generic arguments are in one segment.
#[verifier::spinoff_prover]
proof fn lemma_generics(
    env: Env,
    st: State,
    segments: Seq<ast::PathSegment>,
    named: Named,
    k: int,
)
    requires
        0 <= k < segments.len(),
        segments[k] is Generics,
        forall|i: int| 0 <= i < segments.len() && i != k ==> !(#[trigger] segments[i] is Generics),
        model::generics_parameters(env, st, segments, named).1 is Ok,
    ensures
        ({
            let (end, r) = model::generics_parameters(env, st, segments, named);
            &&& r->Ok_0.trailing == named.trailing
            &&& r->Ok_0.second is None
            &&& r->Ok_0.first is Some
            &&& is_parameters(env, st, segments[k]->Generics_0.args@, end, r->Ok_0.first->0)
        }),
{
    lemma_generics_at(segments, 0, k);
    lemma_generics_behind(segments, k + 1);
    let (middle, first) = model::segment_parameters(env, st, segments, k);
    let n = segments.len() as int;
    lemma_no_segment(env, middle, segments, n);
    assert(first is Ok);
    lemma_segment(env, st, segments, k);
}

/// There are no parameters where there is no segment.
proof fn lemma_no_segment(env: Env, st: State, segments: Seq<ast::PathSegment>, n: int)
    requires
        n >= segments.len(),
    ensures
        model::segment_parameters(env, st, segments, n) == (
            st,
            Ok::<Option<Hash64>, CompileError>(None),
        ),
{
    reveal(model::segment_parameters_rule);
    assert(model::segment_parameters(env, st, segments, n) == model::segment_parameters_rule(
        env,
        st,
        segments,
        n,
    ));
}

/// The only segment with generic arguments is found.
proof fn lemma_generics_at(segments: Seq<ast::PathSegment>, i: int, k: int)
    requires
        0 <= i <= k < segments.len(),
        segments[k] is Generics,
        forall|j: int| 0 <= j < k ==> !(#[trigger] segments[j] is Generics),
    ensures
        crate::query::generics_index(segments, i) == k,
    decreases k - i,
{
    reveal(crate::query::generics_index);
    if i < k {
        lemma_generics_at(segments, i + 1, k);
    }
}

/// No segment with generic arguments is found behind the last one.
proof fn lemma_generics_behind(segments: Seq<ast::PathSegment>, i: int)
    requires
        0 <= i <= segments.len(),
        forall|j: int| i <= j < segments.len() ==> !(#[trigger] segments[j] is Generics),
    ensures
        crate::query::generics_index(segments, i) == segments.len(),
    decreases segments.len() - i,
{
    reveal(crate::query::generics_index);
    if i < segments.len() {
        lemma_generics_behind(segments, i + 1);
    }
}

/// The field of a field access is a number that can be an index, or a name, which
/// may have generic arguments. What the field is of is lowered behind it.
pub proof fn lemma_field_access(env: Env, st: State, ast: ast::ExprFieldAccess)
    requires
        model::expr(env, st, ast::Expr::FieldAccess(Box::new(ast))).1 is Ok,
    ensures
        ({
            let (end, r) = model::expr(env, st, ast::Expr::FieldAccess(Box::new(ast)));
            let hir = r->Ok_0;
            let middle = model::expr_field(env, resolving(st), ast.expr_field).0;
            let field = hir.kind->FieldAccess_0.expr_field;
            &&& hir.span == ast.span
            &&& hir.kind is FieldAccess
            &&& lowers(env, middle, ast.expr, end, hir.kind->FieldAccess_0.expr)
            &&& match ast.expr_field {
                ast::ExprField::LitNumber(lit) => middle == resolving(st) && lit.number is Ok
                    && lit.number->Ok_0.value is Integer && field is Index && field->Index_0
                    == lit.number->Ok_0.value->Integer_0.value(),
                ast::ExprField::Path(path) => {
                    &&& path.first is Ident
                    &&& path.first->Ident_0.text is Ok
                    &&& path.rest@.len() <= 1
                    &&& path.rest@.len() == 0 ==> middle == resolving(st) && field
                        == hir::ExprField::Ident(path.first->Ident_0.text->Ok_0)
                    &&& path.rest@.len() == 1 ==> path.rest@[0] is Generics && field
                        is IdentGenerics && field->IdentGenerics_0
                        == path.first->Ident_0.text->Ok_0 && is_parameters(
                        env,
                        resolving(st),
                        path.rest@[0]->Generics_0.args@,
                        middle,
                        field->IdentGenerics_1,
                    )
                },
            }
        }),
{
    let x = ast::Expr::FieldAccess(Box::new(ast));
    reveal(model::expr_rule);
    reveal(ast::expr_span);
    assert(model::expr(env, st, x) == model::expr_rule(env, st, x));
    if let ast::ExprField::Path(path) = ast.expr_field {
        if path.rest@.len() == 1 {
            lemma_generic_args(env, resolving(st), path.rest@[0]->Generics_0.args@, None);
        }
    }
}

/// What a call of a callee is, if no item is called: a variable or an expression is
/// called as it is, and a field is called as an associated function of what it is
/// of, by the hash of its name.
pub open spec fn is_plain_call(callee: hir::Expr, call: hir::Call) -> bool {
    match callee.kind {
        hir::ExprKind::Variable(name) => call == (hir::Call::Var { name }),
        hir::ExprKind::FieldAccess(access) => call is Associated && call->target == access.expr
            && call->Associated_hash == (match access.expr_field {
            hir::ExprField::Index(index) => index_hash(index as u64),
            hir::ExprField::Ident(name) => ident_hash(name@),
            hir::ExprField::IdentGenerics(name, parameters) => function_parameters_hash(
                ident_hash(name@),
                parameters,
            ),
        }),
        hir::ExprKind::Path => call is Meta || call is ConstFn,
        _ => call == (hir::Call::Expr { expr: callee }),
    }
}

/// What is called is what the callee is lowered to.
#[verifier::spinoff_prover]
proof fn lemma_callee(env: Env, st: State, ast: ast::ExprCall)
    requires
        !st.in_path,
        model::callee(env, st, ast).1 is Ok,
    ensures
        ({
            let (middle, call) = model::callee(env, st, ast);
            let (s1, callee) = model::expr(env, State { in_path: true, ..st }, ast.expr);
            &&& callee is Ok
            &&& is_plain_call(callee->Ok_0, call->Ok_0)
            &&& !(callee->Ok_0.kind is Path || callee->Ok_0.kind is FieldAccess) ==> middle
                == resolving(s1)
        }),
{
    let (s1, callee) = model::expr(env, State { in_path: true, ..st }, ast.expr);
    if callee is Ok && callee->Ok_0.kind is FieldAccess {
        reveal(rules::call_field);
    } else if callee is Ok && callee->Ok_0.kind is Path {
        reveal(rules::call_meta);
    }
}

/// A call has what is called, which is lowered first, and all of its arguments, in
/// order.
pub proof fn lemma_call(env: Env, st: State, ast: ast::ExprCall)
    requires
        model::expr(env, st, ast::Expr::Call(Box::new(ast))).1 is Ok,
    ensures
        ({
            let (end, r) = model::expr(env, st, ast::Expr::Call(Box::new(ast)));
            let hir = r->Ok_0;
            let (s1, callee) = model::expr(env, State { in_path: true, ..st }, ast.expr);
            let middle = model::callee(env, resolving(st), ast).0;
            &&& hir.span == ast.span
            &&& hir.kind is Call
            &&& callee is Ok
            &&& is_plain_call(callee->Ok_0, hir.kind->Call_0.call)
            &&& !(callee->Ok_0.kind is Path || callee->Ok_0.kind is FieldAccess) ==> middle
                == resolving(s1)
            &&& all_lowered(ast.args@, hir.kind->Call_0.args@, middle, end, expr_step(env))
        }),
{
    let x = ast::Expr::Call(Box::new(ast));
    reveal(model::expr_rule);
    reveal(ast::expr_span);
    assert(model::expr(env, st, x) == model::expr_rule(env, st, x));
    assert((State { in_path: true, ..resolving(st) }) == (State { in_path: true, ..st }));
    let middle = model::callee(env, resolving(st), ast).0;
    lemma_callee(env, resolving(st), ast);
    lemma_exprs(env, middle, ast.args@);
    lemma_listed(model::exprs(env, middle, ast.args@, 0, Seq::empty()).1->Ok_0);
}

/// The call of an item is a call by its hash. A tuple takes as many arguments as it
/// has fields, and only functions, constant functions and types without named
/// fields can be called. The user is told of deprecated functions, and of brackets
/// that are not needed.
pub proof fn lemma_call_item(
    env: Env,
    st: State,
    meta: Meta,
    ast: ast::ExprCall,
    path_span: Span,
    callee_span: Span,
)
    requires
        ast.args@.len() <= usize::MAX,
    ensures
        ({
            let (end, r) = rules::call_meta(env, st, meta, ast, path_span, callee_span);
            let n = ast.args@.len();
            match meta.kind {
                Kind::Struct { fields: Fields::Named(_), .. } => r is Err && r->Err_0.kind
                    is ExpectedMeta,
                Kind::Struct { fields, .. } => {
                    let expected = match fields {
                        Fields::Unnamed(args) => args,
                        _ => 0,
                    };
                    if n == expected {
                        &&& r == Ok::<hir::Call, CompileError>(hir::Call::Meta { hash: meta.hash })
                        &&& end == (if fields is Unnamed && n == 0 {
                            st.telling(
                                Diagnostic::RemoveTupleCallParens {
                                    source_id: env.source_id,
                                    span: ast.args_span,
                                    variant: path_span,
                                },
                            )
                        } else {
                            st
                        })
                    } else {
                        &&& r is Err && r->Err_0.span == ast.args_span
                        &&& r->Err_0.kind == (ErrorKind::BadArgumentCount {
                            expected,
                            actual: n as usize,
                        })
                    }
                },
                Kind::Function => {
                    &&& r == Ok::<hir::Call, CompileError>(hir::Call::Meta { hash: meta.hash })
                    &&& match env.db.deprecation_of(meta.hash) {
                        Some(message) => end == st.telling(
                            Diagnostic::UsedDeprecated {
                                source_id: env.source_id,
                                span: callee_span,
                                message,
                            },
                        ),
                        None => end == st,
                    }
                },
                Kind::ConstFn => r is Ok ==> end == st && r->Ok_0 is ConstFn && r->Ok_0->id
                    == meta.item_meta.item,
                _ => r is Err && r->Err_0.span == ast.span && r->Err_0.kind is ExpectedMeta,
            }
        }),
{
    reveal(rules::call_meta);
}

/// Test if the key of an object is lowered to its text and where it is.
pub open spec fn is_key(key: ast::ObjectKey, span: Span, text: String) -> bool {
    match key {
        ast::ObjectKey::LitStr(lit) => span == lit.span && lit.string is Ok && lit.string->Ok_0
            == text,
        ast::ObjectKey::Path(path) => is_single(path) && path.first is Ident && span
            == path.first->Ident_0.span && path.first->Ident_0.text is Ok
            && path.first->Ident_0.text->Ok_0 == text,
    }
}

/// One step of lowering the assignments of an object in turn. Without an
/// expression, the variable with the name of the key is assigned.
pub open spec fn assign_step(env: Env) -> spec_fn(
    State,
    ast::FieldAssign,
    State,
    hir::FieldAssign,
) -> bool {
    |st: State, ast: ast::FieldAssign, end: State, hir: hir::FieldAssign|
        {
            &&& is_key(ast.key, hir.key.0, hir.key.1)
            &&& hir.position is None
            &&& match ast.assign {
                Some(expr) => lowers(env, st, expr, end, hir.assign),
                None => {
                    let (after, variable) = st.found(Name::Str(hir.key.1));
                    &&& after == end
                    &&& variable is Some
                    &&& hir.assign.span == ast.span
                    &&& hir.assign.kind == hir::ExprKind::Variable(variable->0)
                },
            }
        }
}

/// Test if no key is assigned to twice.
pub open spec fn are_distinct(assigns: Seq<hir::FieldAssign>) -> bool {
    forall|i: int, j: int|
        0 <= i < j < assigns.len() ==> (#[trigger] assigns[i]).key.1@ != (
        #[trigger] assigns[j]).key.1@
}

/// A key that is not found is not assigned to.
proof fn lemma_not_assigned(assigns: Seq<hir::FieldAssign>, key: Seq<char>, i: int)
    requires
        0 <= i,
        rules::assignment_index(assigns, key, i) >= assigns.len(),
    ensures
        forall|j: int| i <= j < assigns.len() ==> (#[trigger] assigns[j]).key.1@ != key,
    decreases assigns.len() - i,
{
    if i < assigns.len() {
        lemma_not_assigned(assigns, key, i + 1);
    }
}

/// The assignments of an object are lowered in turn, and no key is assigned to
/// twice.
proof fn lemma_assignments(
    env: Env,
    st: State,
    asts: Seq<ast::FieldAssign>,
    i: int,
    done: Seq<hir::FieldAssign>,
    states: Seq<State>,
)
    requires
        0 <= i <= asts.len(),
        done.len() == i,
        states.len() == i + 1,
        states[i] == st,
        are_distinct(done),
        forall|j: int|
            0 <= j < i ==> assign_step(env)(#[trigger] states[j], asts[j], states[j + 1], done[j]),
        model::assignments(env, st, asts, i, done).1 is Ok,
    ensures
        ({
            let (end, r) = model::assignments(env, st, asts, i, done);
            &&& all_lowered(asts, r->Ok_0, states[0], end, assign_step(env))
            &&& are_distinct(r->Ok_0)
        }),
    decreases asts.len() - i,
{
    if i < asts.len() {
        reveal(rules::object_key);
        let (span, key) = rules::object_key(asts[i].key)->Ok_0;
        lemma_not_assigned(done, key@, 0);
        let (next, item) = model::assignment(env, st, asts[i], span, key);
        let more = states.push(next);
        let items = done.push(
            hir::FieldAssign { key: (span, key), assign: item->Ok_0, position: None },
        );
        assert forall|j: int| 0 <= j < i + 1 implies assign_step(env)(
            #[trigger] more[j],
            asts[j],
            more[j + 1],
            items[j],
        ) by {
            if j < i {
                assert(more[j] == states[j] && more[j + 1] == states[j + 1]);
            }
        }
        lemma_assignments(env, next, asts, i + 1, items, more);
    } else {
        assert(in_turn(asts, done, states, states[0], st, assign_step(env)));
    }
}

/// Test if assignments are the same, but for the positions of their fields.
pub open spec fn same_assigns(a: Seq<hir::FieldAssign>, b: Seq<hir::FieldAssign>) -> bool {
    &&& a.len() == b.len()
    &&& forall|i: int|
        0 <= i < a.len() ==> (#[trigger] a[i]).key == b[i].key && a[i].assign == b[i].assign
}

/// An object literal has all of its assignments, in order, and no key twice. One
/// without a type has no positions. One of a type is built by the native
/// constructor of the type, if that has one, with as many arguments as it has
/// fields.
pub proof fn lemma_object(env: Env, st: State, ast: ast::ExprObject)
    requires
        model::expr(env, st, ast::Expr::Object(Box::new(ast))).1 is Ok,
    ensures
        ({
            let (end, r) = model::expr(env, st, ast::Expr::Object(Box::new(ast)));
            let hir = r->Ok_0;
            let kind = hir.kind->Object_0.kind;
            let (middle, a) = model::assignments(
                env,
                resolving(st),
                ast.assignments@,
                0,
                Seq::empty(),
            );
            &&& hir.span == ast.span
            &&& hir.kind is Object
            &&& all_lowered(ast.assignments@, a->Ok_0, resolving(st), middle, assign_step(env))
            &&& are_distinct(a->Ok_0)
            &&& same_assigns(hir.kind->Object_0.assignments@, a->Ok_0)
            &&& match ast.ident {
                ast::ObjectIdent::Anonymous(_) => kind is Anonymous && end == middle
                    && hir.kind->Object_0.assignments@ == a->Ok_0,
                ast::ObjectIdent::Named(path) => {
                    let (after, p) = model::path_parameters(env, middle, path);
                    let (named, parameters) = p->Ok_0;
                    let meta = env.db.known_meta_of(path.span, named.item, parameters);
                    &&& p is Ok
                    &&& end == after
                    &&& meta is Ok
                    &&& meta->Ok_0.kind is Struct
                    &&& !(meta->Ok_0.kind->fields is Unnamed)
                    &&& meta->Ok_0.kind->constructor ==> kind is ExternalType
                        && kind->ExternalType_hash == meta->Ok_0.hash
                    &&& !meta->Ok_0.kind->constructor ==> kind == (hir::ExprObjectKind::Struct {
                        hash: meta->Ok_0.hash,
                    })
                    &&& meta->Ok_0.kind->fields is Empty && meta->Ok_0.kind->constructor
                        ==> kind->args == 0
                    &&& meta->Ok_0.kind->fields is Named && meta->Ok_0.kind->constructor
                        ==> kind->args == meta->Ok_0.kind->fields->Named_0@.len() as usize
                },
            }
        }),
{
    let x = ast::Expr::Object(Box::new(ast));
    reveal(model::expr_rule);
    reveal(ast::expr_span);
    reveal(rules::object_kind);
    reveal(rules::constructed);
    reveal(rules::check_object_fields);
    assert(model::expr(env, st, x) == model::expr_rule(env, st, x));
    let none = Seq::<hir::FieldAssign>::empty();
    let inside = resolving(st);
    let (middle, a) = model::assignments(env, inside, ast.assignments@, 0, none);
    lemma_assignments(env, inside, ast.assignments@, 0, none, seq![inside]);
    let (_, o) = model::object_type(env, middle, ast.ident, a->Ok_0, ast.span);
    lemma_listed(o->Ok_0.1);
}

/// The position of an assignment is the one of the last field with the name of its
/// key.
pub proof fn lemma_object_positions(
    fields: Seq<crate::query::FieldMeta>,
    assigns: Seq<hir::FieldAssign>,
    item: crate::query::ItemId,
    span: Span,
    i: int,
)
    requires
        rules::check_object_fields(fields, assigns, item, span) is Ok,
        0 <= i < assigns.len(),
    ensures
        exists|j: int|
            {
                &&& 0 <= j < fields.len()
                &&& (#[trigger] fields[j]).name@ == assigns[i].key.1@
                &&& rules::check_object_fields(fields, assigns, item, span)->Ok_0[i].position
                    == Some(fields[j].position)
                &&& forall|k: int|
                    j < k < fields.len() ==> (#[trigger] fields[k]).name@ != assigns[i].key.1@
            },
{
    reveal(rules::check_object_fields);
    lemma_known_at(fields, assigns, 0, i);
    lemma_last_position(fields, assigns[i].key.1@, fields.len());
}

/// If no assignment is found to be wrong, then each one is to a field.
proof fn lemma_known_at(
    fields: Seq<crate::query::FieldMeta>,
    assigns: Seq<hir::FieldAssign>,
    i: int,
    j: int,
)
    requires
        0 <= i <= j < assigns.len(),
        rules::unknown_field(fields, assigns, i) >= assigns.len(),
    ensures
        rules::position_of(fields, assigns[j].key.1@, fields.len()) is Some,
    decreases assigns.len() - i,
{
    if i < j {
        lemma_known_at(fields, assigns, i + 1, j);
    }
}

/// A position is the one of the last field with the name.
proof fn lemma_last_position(fields: Seq<crate::query::FieldMeta>, name: Seq<char>, n: nat)
    requires
        n <= fields.len(),
        rules::position_of(fields, name, n) is Some,
    ensures
        exists|j: int|
            {
                &&& 0 <= j < n
                &&& (#[trigger] fields[j]).name@ == name
                &&& rules::position_of(fields, name, n) == Some(fields[j].position)
                &&& forall|k: int| j < k < n ==> (#[trigger] fields[k]).name@ != name
            },
    decreases n,
{
    if fields[n - 1].name@ == name {
        assert(forall|k: int| n - 1 < k < n ==> (#[trigger] fields[k]).name@ != name);
    } else {
        lemma_last_position(fields, name, (n - 1) as nat);
    }
}

/// What is built on its own of a closure: its arguments, in order, and then its
/// body, in a scope that captures what is used from outside.
pub open spec fn is_closure(
    env: Env,
    st: State,
    ast: ast::ExprClosure,
    end: State,
    hir: hir::ExprClosure,
) -> bool {
    let inside = st.pushed(LayerKind::Captures);
    let middle = model::fn_args(env, inside, ast.args@, 0, Seq::empty()).0;
    let last = model::expr(env, middle, ast.body).0;
    let (after, layer) = last.popped(ast::expr_span(ast.body));
    &&& all_lowered(ast.args@, hir.args@, inside, middle, arg_step(env))
    &&& lowers(env, middle, ast.body, last, hir.body)
    &&& after == end
    &&& layer is Ok
    &&& hir.captures == layer->Ok_0.captured_variables()
}

/// A closure is built on its own, and used by its hash: as a function if it
/// captures nothing, and else with what it captures.
pub proof fn lemma_closure(env: Env, st: State, ast: ast::ExprClosure)
    requires
        model::expr(env, st, ast::Expr::Closure(Box::new(ast))).1 is Ok,
    ensures
        ({
            let (end, r) = model::expr(env, st, ast::Expr::Closure(Box::new(ast)));
            let hir = r->Ok_0;
            let item = env.db.item_of("lowering closure call", ast.id, ast.span);
            let found = env.db.meta_of(ast.span, item->Ok_0.item, without_parameters());
            let meta = found->Ok_0->0;
            let (last, parts) = model::closure_parts(env, resolving(st), ast);
            let closure = parts->Ok_0;
            &&& hir.span == ast.span
            &&& item is Ok
            &&& found is Ok
            &&& found->Ok_0 is Some
            &&& meta.kind is Closure
            &&& is_closure(env, resolving(st), ast, last, closure)
            &&& last.builds is Some
            &&& end == (State {
                used: last.used.push(meta.item_meta.item),
                builds: Some(
                    last.builds->0.push(
                        hir::SecondaryBuildEntry {
                            item_meta: meta.item_meta,
                            build: hir::SecondaryBuild::Closure {
                                hir: Box::new(closure),
                                call: meta.kind->Closure_call,
                            },
                        },
                    ),
                ),
                ..last
            })
            &&& if closure.captures is Nil {
                hir.kind == hir::ExprKind::Fn(meta.hash)
            } else {
                &&& hir.kind is CallClosure
                &&& hir.kind->CallClosure_0.hash == meta.hash
                &&& hir.kind->CallClosure_0.do_move == meta.kind->Closure_do_move
                &&& hir.kind->CallClosure_0.captures == closure.captures
            }
        }),
{
    let x = ast::Expr::Closure(Box::new(ast));
    reveal(model::expr_rule);
    reveal(ast::expr_span);
    assert(model::expr(env, st, x) == model::expr_rule(env, st, x));
    let inside = resolving(st).pushed(LayerKind::Captures);
    lemma_fn_args(env, inside, ast.args@);
    lemma_listed(model::fn_args(env, inside, ast.args@, 0, Seq::empty()).1->Ok_0);
}

/// A block is lowered to its statements, unless it is asynchronous or constant. A
/// constant one that is evaluated at once is too, and one that is not is used by
/// its hash.
pub proof fn lemma_expr_block(env: Env, st: State, ast: ast::ExprBlock)
    requires
        model::expr(env, st, ast::Expr::Block(Box::new(ast))).1 is Ok,
        !ast.async_token || ast.const_token,
    ensures
        ({
            let (end, r) = model::expr(env, st, ast::Expr::Block(Box::new(ast)));
            let hir = r->Ok_0;
            let plain = !ast.async_token && !ast.const_token || ast.async_token && ast.const_token;
            &&& hir.span == ast.span
            &&& plain ==> hir.kind is Block && is_label(ast.label, hir.kind->Block_0.label)
                && model::block(env, resolving(st), ast.label, ast.block) == (
                end,
                Ok::<hir::Block, CompileError>(*hir.kind->Block_0),
            )
            &&& !plain && env.const_eval ==> ast.label is None && hir.kind is Block && model::block(
                env,
                resolving(st),
                None,
                ast.block,
            ) == (end, Ok::<hir::Block, CompileError>(*hir.kind->Block_0))
            &&& !plain && !env.const_eval ==> {
                let item = env.db.item_of("lowering block", ast.block.id, ast.block.span);
                let meta = env.db.known_meta_of(
                    ast.span,
                    item->Ok_0.item,
                    without_parameters(),
                );
                &&& item is Ok
                &&& meta is Ok
                &&& meta->Ok_0.kind is Const
                &&& hir.kind == hir::ExprKind::Const(meta->Ok_0.hash)
                &&& end == resolving(st)
            }
        }),
{
    let x = ast::Expr::Block(Box::new(ast));
    reveal(model::expr_rule);
    reveal(ast::expr_span);
    assert(model::expr(env, st, x) == model::expr_rule(env, st, x));
    let plain = ast.async_token == ast.const_token;
    if plain {
        reveal(model::block_rule);
        reveal(rules::label_text);
        assert(model::block(env, resolving(st), ast.label, ast.block) == model::block_rule(
            env,
            resolving(st),
            ast.label,
            ast.block,
        ));
    }
}

/// An asynchronous block is built on its own, and used by its hash, with what it
/// captures. It has no label, and is not evaluated at once.
pub proof fn lemma_async_block(env: Env, st: State, ast: ast::ExprBlock)
    requires
        model::expr(env, st, ast::Expr::Block(Box::new(ast))).1 is Ok,
        ast.async_token,
        !ast.const_token,
    ensures
        ({
            let (end, r) = model::expr(env, st, ast::Expr::Block(Box::new(ast)));
            let hir = r->Ok_0;
            let item = env.db.item_of("lowering block", ast.block.id, ast.block.span);
            let found = env.db.known_meta_of(ast.span, item->Ok_0.item, without_parameters());
            let meta = found->Ok_0;
            let inside = resolving(st).pushed(LayerKind::Captures);
            let (middle, block) = model::block(env, inside, None, ast.block);
            let (last, layer) = middle.popped(ast.block.span);
            let captures = layer->Ok_0.captured_variables();
            &&& !env.const_eval
            &&& ast.label is None
            &&& item is Ok
            &&& found is Ok
            &&& meta.kind is AsyncBlock
            &&& block is Ok
            &&& layer is Ok
            &&& last.builds is Some
            &&& hir.span == ast.span
            &&& hir.kind is AsyncBlock
            &&& hir.kind->AsyncBlock_0.hash == meta.hash
            &&& hir.kind->AsyncBlock_0.do_move == meta.kind->AsyncBlock_do_move
            &&& hir.kind->AsyncBlock_0.captures == captures
            &&& end == (State {
                used: last.used.push(meta.item_meta.item),
                builds: Some(
                    last.builds->0.push(
                        hir::SecondaryBuildEntry {
                            item_meta: meta.item_meta,
                            build: hir::SecondaryBuild::AsyncBlock {
                                hir: Box::new(hir::AsyncBlock { block: block->Ok_0, captures }),
                                call: meta.kind->AsyncBlock_call,
                            },
                        },
                    ),
                ),
                ..last
            })
        }),
{
    let x = ast::Expr::Block(Box::new(ast));
    reveal(model::expr_rule);
    reveal(ast::expr_span);
    assert(model::expr(env, st, x) == model::expr_rule(env, st, x));
    let inside = resolving(st);
    let item = env.db.item_of("lowering block", ast.block.id, ast.block.span);
    let found = env.db.known_meta_of(ast.span, item->Ok_0.item, without_parameters());
    let meta = found->Ok_0;
    assert(item is Ok && found is Ok && meta.kind is AsyncBlock);
    let call = meta.kind->AsyncBlock_call;
    let do_move = meta.kind->AsyncBlock_do_move;
    assert(model::expr_block(env, inside, ast) == model::async_block(
        env,
        inside,
        ast,
        meta,
        call,
        do_move,
    ));
    let (last, parts) = model::async_parts(env, inside, ast);
    assert(parts is Ok);
    assert(last.using(meta.item_meta.item).builds is Some);
}

} // verus!
