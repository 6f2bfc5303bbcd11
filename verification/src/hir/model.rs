//! What every part of a syntax tree is lowered to.
//!
//! A function here says, for the state that lowering is in, which state it ends
//! in and what it gives.

use vstd::prelude::*;
use crate::ast;
use crate::compile::error::{error, CompileError, ErrorKind};
use crate::hash::{no_parameters, Hash64, ParametersBuilder};
use crate::hir;
use crate::hir::ctxt::{Env, Lowered, Needs, State};
use crate::hir::rules;
use crate::hir::scopes::LayerKind;
use crate::hir::Name;
use crate::list::{list_of, List};
use crate::query::{
    generics_index, without_parameters, Call as FnCall, GenericsParameters, Kind, Meta, Named,
};
use crate::runtime::{OBJECT_HASH, TUPLE_HASH, VEC_HASH};
use crate::span::Span;
use crate::text::capitalized;

verus! {

/// An expression.
pub open spec fn expr(env: Env, st: State, ast: ast::Expr) -> Lowered<hir::Expr>
    decreases ast, 1nat, 1nat,
{
    expr_rule(env, st, ast)
}

/// What [`expr`] is, spelled out.
#[verifier::opaque]
pub open spec fn expr_rule(env: Env, st: State, ast: ast::Expr) -> Lowered<hir::Expr>
    decreases ast, 1nat, 0nat,
{
    match expr_kind(env, State { in_path: false, ..st }, ast, st.in_path) {
        (st, Ok(kind)) => (st, Ok(hir::Expr { span: ast::expr_span(ast), kind })),
        (st, Err(e)) => (st, Err(e)),
    }
}

/// The kind of an expression.
pub open spec fn expr_kind(env: Env, st: State, ast: ast::Expr, in_path: bool) -> Lowered<
    hir::ExprKind,
>
    decreases ast, 0nat, 0nat,
{
    match ast {
        ast::Expr::Path(ast) => expr_path(env, st, ast, in_path),
        ast::Expr::Assign(ast) => expr_assign(env, st, *ast),
        ast::Expr::While(ast) => expr_while(env, st, *ast),
        ast::Expr::Loop(ast) => expr_loop(env, st, *ast),
        ast::Expr::For(ast) => expr_for(env, st, *ast),
        ast::Expr::Let(ast) => match expr_let(env, st, *ast) {
            (st, Ok(hir)) => (st, Ok(hir::ExprKind::Let(Box::new(hir)))),
            (st, Err(e)) => (st, Err(e)),
        },
        ast::Expr::If(ast) => match expr_if(env, st, *ast) {
            (st, Ok(hir)) => (st, Ok(hir::ExprKind::If(Box::new(hir)))),
            (st, Err(e)) => (st, Err(e)),
        },
        ast::Expr::Match(ast) => expr_match(env, st, *ast),
        ast::Expr::Call(ast) => match expr_call(env, st, *ast) {
            (st, Ok(hir)) => (st, Ok(hir::ExprKind::Call(Box::new(hir)))),
            (st, Err(e)) => (st, Err(e)),
        },
        ast::Expr::FieldAccess(ast) => match expr_field_access(env, st, *ast) {
            (st, Ok(hir)) => (st, Ok(hir::ExprKind::FieldAccess(Box::new(hir)))),
            (st, Err(e)) => (st, Err(e)),
        },
        ast::Expr::Empty(ast) => match expr(env, State { in_path, ..st }, ast.expr) {
            (st, Ok(hir)) => (st, Ok(hir::ExprKind::Group(Box::new(hir)))),
            (st, Err(e)) => (st, Err(e)),
        },
        ast::Expr::Binary(ast) => expr_binary(env, st, *ast),
        ast::Expr::Unary(ast) => expr_unary(env, st, *ast),
        ast::Expr::Index(ast) => expr_index(env, st, *ast),
        ast::Expr::Block(ast) => expr_block(env, st, *ast),
        ast::Expr::Break(ast) => match expr_break(env, st, *ast) {
            (st, Ok(hir)) => (st, Ok(hir::ExprKind::Break(Box::new(hir)))),
            (st, Err(e)) => (st, Err(e)),
        },
        ast::Expr::Continue(ast) => match expr_continue(st, *ast) {
            Ok(hir) => (st, Ok(hir::ExprKind::Continue(Box::new(hir)))),
            Err(e) => (st, Err(e)),
        },
        ast::Expr::Yield(ast) => match optional(env, st, ast.expr) {
            (st, Ok(hir)) => (st, Ok(hir::ExprKind::Yield(hir))),
            (st, Err(e)) => (st, Err(e)),
        },
        ast::Expr::Return(ast) => match optional(env, st, ast.expr) {
            (st, Ok(hir)) => (st, Ok(hir::ExprKind::Return(hir))),
            (st, Err(e)) => (st, Err(e)),
        },
        ast::Expr::Await(ast) => match expr(env, st, ast.expr) {
            (st, Ok(hir)) => (st, Ok(hir::ExprKind::Await(Box::new(hir)))),
            (st, Err(e)) => (st, Err(e)),
        },
        ast::Expr::Try(ast) => match expr(env, st, ast.expr) {
            (st, Ok(hir)) => (st, Ok(hir::ExprKind::Try(Box::new(hir)))),
            (st, Err(e)) => (st, Err(e)),
        },
        ast::Expr::Select(ast) => expr_select(env, st, *ast),
        ast::Expr::Closure(ast) => expr_call_closure(env, st, *ast),
        ast::Expr::Lit(ast) => match rules::lit(st.in_template, ast.lit) {
            Ok(lit) => (st, Ok(hir::ExprKind::Lit(lit))),
            Err(e) => (st, Err(e)),
        },
        ast::Expr::Object(ast) => expr_object(env, st, *ast),
        ast::Expr::Tuple(ast) => match exprs(env, st, ast.items@, 0, Seq::empty()) {
            (st, Ok(items)) => (st, Ok(hir::ExprKind::Tuple(list_of(items)))),
            (st, Err(e)) => (st, Err(e)),
        },
        ast::Expr::Vec(ast) => match exprs(env, st, ast.items@, 0, Seq::empty()) {
            (st, Ok(items)) => (st, Ok(hir::ExprKind::Vec(list_of(items)))),
            (st, Err(e)) => (st, Err(e)),
        },
        ast::Expr::Range(ast) => match expr_range(env, st, *ast) {
            (st, Ok(hir)) => (st, Ok(hir::ExprKind::Range(Box::new(hir)))),
            (st, Err(e)) => (st, Err(e)),
        },
        ast::Expr::Group(ast) => match expr(env, st, ast.expr) {
            (st, Ok(hir)) => (st, Ok(hir::ExprKind::Group(Box::new(hir)))),
            (st, Err(e)) => (st, Err(e)),
        },
        ast::Expr::MacroCall(ast) => macro_call(env, st, *ast),
    }
}

/// Expressions from index `i` on, behind those in `items`.
pub open spec fn exprs(
    env: Env,
    st: State,
    asts: Seq<ast::Expr>,
    i: int,
    items: Seq<hir::Expr>,
) -> Lowered<Seq<hir::Expr>>
    decreases asts, asts.len() - i, 0nat,
{
    if i < 0 || i >= asts.len() {
        (st, Ok(items))
    } else {
        match expr(env, st, asts[i]) {
            (st, Ok(item)) => exprs(env, st, asts, i + 1, items.push(item)),
            (st, Err(e)) => (st, Err(e)),
        }
    }
}

/// An expression that need not be there.
pub open spec fn optional(env: Env, st: State, ast: Option<ast::Expr>) -> Lowered<
    Option<Box<hir::Expr>>,
>
    decreases ast, 0nat, 1nat,
{
    optional_rule(env, st, ast)
}

/// What [`optional`] is, spelled out.
#[verifier::opaque]
pub open spec fn optional_rule(env: Env, st: State, ast: Option<ast::Expr>) -> Lowered<
    Option<Box<hir::Expr>>,
>
    decreases ast, 0nat, 0nat,
{
    match ast {
        Some(ast) => match expr(env, st, ast) {
            (st, Ok(hir)) => (st, Ok(Some(Box::new(hir)))),
            (st, Err(e)) => (st, Err(e)),
        },
        None => (st, Ok(None)),
    }
}

/// An assignment.
pub open spec fn expr_assign(env: Env, st: State, ast: ast::ExprAssign) -> Lowered<hir::ExprKind>
    decreases ast, 0nat, 0nat,
{
    match expr(env, st, ast.lhs) {
        (st, Ok(lhs)) => match expr(env, st, ast.rhs) {
            (st, Ok(rhs)) => (
                st,
                Ok(hir::ExprKind::Assign(Box::new(hir::ExprAssign { lhs, rhs }))),
            ),
            (st, Err(e)) => (st, Err(e)),
        },
        (st, Err(e)) => (st, Err(e)),
    }
}

/// A `while` loop.
pub open spec fn expr_while(env: Env, st: State, ast: ast::ExprWhile) -> Lowered<hir::ExprKind>
    decreases ast, 0nat, 0nat,
{
    match rules::label_text(ast.label) {
        Err(e) => (st, Err(e)),
        Ok(label) => match condition(env, st.pushed(LayerKind::Loop(label)), ast.condition) {
            (st, Err(e)) => (st, Err(e)),
            (st, Ok(condition)) => match block(env, st, None, ast.body) {
                (st, Err(e)) => (st, Err(e)),
                (st, Ok(body)) => match st.popped(ast.span) {
                    (st, Err(e)) => (st, Err(e)),
                    (st, Ok(layer)) => (
                        st,
                        Ok(
                            hir::ExprKind::Loop(
                                Box::new(
                                    hir::ExprLoop {
                                        label,
                                        condition: Some(condition),
                                        body,
                                        drop: layer.drop_order(),
                                    },
                                ),
                            ),
                        ),
                    ),
                },
            },
        },
    }
}

/// A `loop`.
pub open spec fn expr_loop(env: Env, st: State, ast: ast::ExprLoop) -> Lowered<hir::ExprKind>
    decreases ast, 0nat, 0nat,
{
    match rules::label_text(ast.label) {
        Err(e) => (st, Err(e)),
        Ok(label) => match block(env, st.pushed(LayerKind::Loop(label)), None, ast.body) {
            (st, Err(e)) => (st, Err(e)),
            (st, Ok(body)) => match st.popped(ast.span) {
                (st, Err(e)) => (st, Err(e)),
                (st, Ok(layer)) => (
                    st,
                    Ok(
                        hir::ExprKind::Loop(
                            Box::new(
                                hir::ExprLoop {
                                    label,
                                    condition: None,
                                    body,
                                    drop: layer.drop_order(),
                                },
                            ),
                        ),
                    ),
                ),
            },
        },
    }
}

/// A `for` loop. What is iterated over is outside of the loop.
pub open spec fn expr_for(env: Env, st: State, ast: ast::ExprFor) -> Lowered<hir::ExprKind>
    decreases ast, 0nat, 0nat,
{
    match expr(env, st, ast.iter) {
        (st, Err(e)) => (st, Err(e)),
        (st, Ok(iter)) => match rules::label_text(ast.label) {
            Err(e) => (st, Err(e)),
            Ok(label) => match pat_binding(env, st.pushed(LayerKind::Loop(label)), ast.binding) {
                (st, Err(e)) => (st, Err(e)),
                (st, Ok(binding)) => match block(env, st, None, ast.body) {
                    (st, Err(e)) => (st, Err(e)),
                    (st, Ok(body)) => match st.popped(ast.span) {
                        (st, Err(e)) => (st, Err(e)),
                        (st, Ok(layer)) => (
                            st,
                            Ok(
                                hir::ExprKind::For(
                                    Box::new(
                                        hir::ExprFor {
                                            label,
                                            binding,
                                            iter,
                                            body,
                                            drop: layer.drop_order(),
                                        },
                                    ),
                                ),
                            ),
                        ),
                    },
                },
            },
        },
    }
}

/// A `let`. The variables of the pattern are in scope in the expression.
pub open spec fn expr_let(env: Env, st: State, ast: ast::ExprLet) -> Lowered<hir::ExprLet>
    decreases ast, 0nat, 0nat,
{
    match pat_binding(env, st, ast.pat) {
        (st, Err(e)) => (st, Err(e)),
        (st, Ok(pat)) => match expr(env, st, ast.expr) {
            (st, Err(e)) => (st, Err(e)),
            (st, Ok(expr)) => (st, Ok(hir::ExprLet { pat, expr })),
        },
    }
}

/// A condition.
pub open spec fn condition(env: Env, st: State, ast: ast::Condition) -> Lowered<hir::Condition>
    decreases ast, 0nat, 1nat,
{
    condition_rule(env, st, ast)
}

/// What [`condition`] is, spelled out.
#[verifier::opaque]
pub open spec fn condition_rule(env: Env, st: State, ast: ast::Condition) -> Lowered<hir::Condition>
    decreases ast, 0nat, 0nat,
{
    match ast {
        ast::Condition::Expr(ast) => match expr(env, st, ast) {
            (st, Ok(hir)) => (st, Ok(hir::Condition::Expr(hir))),
            (st, Err(e)) => (st, Err(e)),
        },
        ast::Condition::ExprLet(ast) => match expr_let(env, st, ast) {
            (st, Ok(hir)) => (st, Ok(hir::Condition::ExprLet(hir))),
            (st, Err(e)) => (st, Err(e)),
        },
    }
}

/// An `if` with all of its branches.
pub open spec fn expr_if(env: Env, st: State, ast: ast::ExprIf) -> Lowered<hir::Conditional>
    decreases ast, 1nat, 0nat,
{
    match first_branch(env, st, ast) {
        (st, Err(e)) => (st, Err(e)),
        (st, Ok(branch)) => match else_ifs(
            env,
            st,
            ast.expr_else_ifs@,
            ast.span,
            0,
            seq![branch],
        ) {
            (st, Err(e)) => (st, Err(e)),
            (st, Ok(branches)) => match ast.expr_else {
                None => (
                    st,
                    Ok(hir::Conditional { branches: list_of(branches), fallback: None }),
                ),
                Some(ast) => match block(env, st, None, ast) {
                    (st, Err(e)) => (st, Err(e)),
                    (st, Ok(fallback)) => (
                        st,
                        Ok(
                            hir::Conditional {
                                branches: list_of(branches),
                                fallback: Some(fallback),
                            },
                        ),
                    ),
                },
            },
        },
    }
}

/// The first branch of an `if`.
pub open spec fn first_branch(env: Env, st: State, ast: ast::ExprIf) -> Lowered<
    hir::ConditionalBranch,
>
    decreases ast, 0nat, 0nat,
{
    match condition(env, st.pushed(LayerKind::Block(None)), ast.condition) {
        (st, Err(e)) => (st, Err(e)),
        (st, Ok(condition)) => match block(env, st, None, ast.block) {
            (st, Err(e)) => (st, Err(e)),
            (st, Ok(block)) => match st.popped(ast.span) {
                (st, Err(e)) => (st, Err(e)),
                (st, Ok(layer)) => (
                    st,
                    Ok(
                        hir::ConditionalBranch {
                            span: ast.if_.joined(ast.block.span),
                            condition,
                            block,
                            drop: layer.drop_order(),
                        },
                    ),
                ),
            },
        },
    }
}

/// One `else if` branch of an `if` at `span`.
pub open spec fn else_if(env: Env, st: State, ast: ast::ExprElseIf, span: Span) -> Lowered<
    hir::ConditionalBranch,
>
    decreases ast, 0nat, 0nat,
{
    match condition(env, st.pushed(LayerKind::Block(None)), ast.condition) {
        (st, Err(e)) => (st, Err(e)),
        (st, Ok(condition)) => match block(env, st, None, ast.block) {
            (st, Err(e)) => (st, Err(e)),
            (st, Ok(block)) => match st.popped(span) {
                (st, Err(e)) => (st, Err(e)),
                (st, Ok(layer)) => (
                    st,
                    Ok(
                        hir::ConditionalBranch {
                            span: ast.span,
                            condition,
                            block,
                            drop: layer.drop_order(),
                        },
                    ),
                ),
            },
        },
    }
}

/// The `else if` branches from index `i` on, behind those in `branches`.
pub open spec fn else_ifs(
    env: Env,
    st: State,
    asts: Seq<ast::ExprElseIf>,
    span: Span,
    i: int,
    branches: Seq<hir::ConditionalBranch>,
) -> Lowered<Seq<hir::ConditionalBranch>>
    decreases asts, asts.len() - i, 0nat,
{
    if i < 0 || i >= asts.len() {
        (st, Ok(branches))
    } else {
        match else_if(env, st, asts[i], span) {
            (st, Ok(branch)) => else_ifs(env, st, asts, span, i + 1, branches.push(branch)),
            (st, Err(e)) => (st, Err(e)),
        }
    }
}

/// A `match`.
pub open spec fn expr_match(env: Env, st: State, ast: ast::ExprMatch) -> Lowered<hir::ExprKind>
    decreases ast, 0nat, 0nat,
{
    match expr(env, st, ast.expr) {
        (st, Err(e)) => (st, Err(e)),
        (st, Ok(expr)) => match match_branches(env, st, ast.branches@, 0, Seq::empty()) {
            (st, Err(e)) => (st, Err(e)),
            (st, Ok(branches)) => (
                st,
                Ok(
                    hir::ExprKind::Match(
                        Box::new(hir::ExprMatch { expr, branches: list_of(branches) }),
                    ),
                ),
            ),
        },
    }
}

/// The branches of a `match` from index `i` on, behind those in `branches`.
pub open spec fn match_branches(
    env: Env,
    st: State,
    asts: Seq<ast::ExprMatchBranch>,
    i: int,
    branches: Seq<hir::ExprMatchBranch>,
) -> Lowered<Seq<hir::ExprMatchBranch>>
    decreases asts, asts.len() - i, 0nat,
{
    if i < 0 || i >= asts.len() {
        (st, Ok(branches))
    } else {
        match match_branch(env, st, asts[i]) {
            (st, Ok(branch)) => match_branches(env, st, asts, i + 1, branches.push(branch)),
            (st, Err(e)) => (st, Err(e)),
        }
    }
}

/// A branch of a `match`.
pub open spec fn match_branch(env: Env, st: State, ast: ast::ExprMatchBranch) -> Lowered<
    hir::ExprMatchBranch,
>
    decreases ast, 0nat, 0nat,
{
    match pat_binding(env, st.pushed(LayerKind::Block(None)), ast.pat) {
        (st, Err(e)) => (st, Err(e)),
        (st, Ok(pat)) => match optional(env, st, ast.condition) {
            (st, Err(e)) => (st, Err(e)),
            (st, Ok(condition)) => match expr(env, st, ast.body) {
                (st, Err(e)) => (st, Err(e)),
                (st, Ok(body)) => match st.popped(ast.span) {
                    (st, Err(e)) => (st, Err(e)),
                    (st, Ok(layer)) => (
                        st,
                        Ok(
                            hir::ExprMatchBranch {
                                span: ast.span,
                                pat,
                                condition,
                                body,
                                drop: layer.drop_order(),
                            },
                        ),
                    ),
                },
            },
        },
    }
}

/// A binary operation. The right hand side of some operators is a type.
pub open spec fn expr_binary(env: Env, st: State, ast: ast::ExprBinary) -> Lowered<hir::ExprKind>
    decreases ast, 0nat, 0nat,
{
    match expr(env, st, ast.lhs) {
        (st, Err(e)) => (st, Err(e)),
        (st, Ok(lhs)) => {
            let needs = st.needs;
            let rhs_needs = if ast.op.takes_type() {
                Needs::Type
            } else {
                Needs::Value
            };

            match expr(env, State { needs: rhs_needs, ..st }, ast.rhs) {
                (st, Err(e)) => (st, Err(e)),
                (st, Ok(rhs)) => (
                    State { needs, ..st },
                    Ok(
                        hir::ExprKind::Binary(
                            Box::new(hir::ExprBinary { lhs, op: ast.op, rhs }),
                        ),
                    ),
                ),
            }
        },
    }
}

/// A unary operation. The negation of a number is a number.
pub open spec fn expr_unary(env: Env, st: State, ast: ast::ExprUnary) -> Lowered<hir::ExprKind>
    decreases ast, 0nat, 0nat,
{
    if ast.op == ast::UnOp::BorrowRef {
        (st, Err(error(ast.span, ErrorKind::UnsupportedRef)))
    } else if ast.op == ast::UnOp::Neg && rules::number_token(ast.expr) is Some {
        match rules::negated(rules::number_token(ast.expr)->0, ast.span) {
            Ok(lit) => (st, Ok(hir::ExprKind::Lit(lit))),
            Err(e) => (st, Err(e)),
        }
    } else {
        match expr(env, st, ast.expr) {
            (st, Ok(expr)) => (
                st,
                Ok(hir::ExprKind::Unary(Box::new(hir::ExprUnary { op: ast.op, expr }))),
            ),
            (st, Err(e)) => (st, Err(e)),
        }
    }
}

/// An index.
pub open spec fn expr_index(env: Env, st: State, ast: ast::ExprIndex) -> Lowered<hir::ExprKind>
    decreases ast, 0nat, 0nat,
{
    match expr(env, st, ast.target) {
        (st, Err(e)) => (st, Err(e)),
        (st, Ok(target)) => match expr(env, st, ast.index) {
            (st, Err(e)) => (st, Err(e)),
            (st, Ok(index)) => (
                st,
                Ok(hir::ExprKind::Index(Box::new(hir::ExprIndex { target, index }))),
            ),
        },
    }
}

/// A block expression.
pub open spec fn expr_block(env: Env, st: State, ast: ast::ExprBlock) -> Lowered<hir::ExprKind>
    decreases ast, 2nat, 0nat,
{
    if ast.async_token == ast.const_token {
        match block(env, st, ast.label, ast.block) {
            (st, Ok(hir)) => (st, Ok(hir::ExprKind::Block(Box::new(hir)))),
            (st, Err(e)) => (st, Err(e)),
        }
    } else if env.const_eval {
        if ast.async_token {
            (
                st,
                Err(
                    error(
                        ast.span,
                        ErrorKind::Msg("Only constant blocks are supported in this context"),
                    ),
                ),
            )
        } else if ast.label is Some {
            (
                st,
                Err(
                    error(
                        ast.label->0.span,
                        ErrorKind::Msg("Constant blocks cannot be labelled"),
                    ),
                ),
            )
        } else {
            match block(env, st, None, ast.block) {
                (st, Ok(hir)) => (st, Ok(hir::ExprKind::Block(Box::new(hir)))),
                (st, Err(e)) => (st, Err(e)),
            }
        }
    } else {
        match env.db.item_of("lowering block", ast.block.id, ast.block.span) {
            Err(e) => (st, Err(e)),
            Ok(item) => match env.db.known_meta_of(ast.span, item.item, without_parameters()) {
                Err(e) => (st, Err(e)),
                Ok(meta) => match meta.kind {
                    Kind::AsyncBlock { call, do_move } if ast.async_token => async_block(
                        env,
                        st,
                        ast,
                        meta,
                        call,
                        do_move,
                    ),
                    Kind::Const if ast.const_token => (st, Ok(hir::ExprKind::Const(meta.hash))),
                    _ => (
                        st,
                        Err(
                            error(
                                ast.span,
                                ErrorKind::ExpectedMeta {
                                    meta: meta.described(),
                                    expected: "async or const block",
                                },
                            ),
                        ),
                    ),
                },
            },
        }
    }
}

/// An asynchronous block, which is built later.
pub open spec fn async_block(
    env: Env,
    st: State,
    ast: ast::ExprBlock,
    meta: Meta,
    call: FnCall,
    do_move: bool,
) -> Lowered<hir::ExprKind>
    decreases ast, 1nat, 0nat,
{
    if ast.label is Some {
        (
            st,
            Err(
                error(ast.label->0.span, ErrorKind::Msg("Async blocks cannot be labelled")),
            ),
        )
    } else {
        match async_parts(env, st, ast) {
            (st, Err(e)) => (st, Err(e)),
            (st, Ok((block, captures))) => {
                let st = st.using(meta.item_meta.item);

                if st.builds is None {
                    (st, Err(error(ast.span, ErrorKind::AsyncBlockInConst)))
                } else {
                    (
                        st.building(
                            hir::SecondaryBuildEntry {
                                item_meta: meta.item_meta,
                                build: hir::SecondaryBuild::AsyncBlock {
                                    hir: Box::new(hir::AsyncBlock { block, captures }),
                                    call,
                                },
                            },
                        ),
                        Ok(
                            hir::ExprKind::AsyncBlock(
                                Box::new(
                                    hir::ExprAsyncBlock { hash: meta.hash, do_move, captures },
                                ),
                            ),
                        ),
                    )
                }
            },
        }
    }
}

/// The body of an asynchronous block, and what it captures.
pub open spec fn async_parts(env: Env, st: State, ast: ast::ExprBlock) -> Lowered<
    (hir::Block, List<hir::Variable>),
>
    decreases ast, 0nat, 0nat,
{
    match block(env, st.pushed(LayerKind::Captures), None, ast.block) {
        (st, Err(e)) => (st, Err(e)),
        (st, Ok(block)) => match st.popped(ast.block.span) {
            (st, Err(e)) => (st, Err(e)),
            (st, Ok(layer)) => (st, Ok((block, layer.captured_variables()))),
        },
    }
}

/// A `break`, with the variables that are in scope and dropped by it.
pub open spec fn expr_break(env: Env, st: State, ast: ast::ExprBreak) -> Lowered<hir::ExprBreak>
    decreases ast, 0nat, 0nat,
{
    match rules::label_text(ast.label) {
        Err(e) => (st, Err(e)),
        Ok(label) => match st.scopes.dropped(label, st.scopes.layers.len() as int) {
            None => match label {
                Some(label) => (st, Err(error(ast.span, ErrorKind::MissingLabel { label }))),
                None => (st, Err(error(ast.span, ErrorKind::BreakUnsupported))),
            },
            Some(drop) => match optional(env, st, ast.expr) {
                (st, Err(e)) => (st, Err(e)),
                (st, Ok(expr)) => (st, Ok(hir::ExprBreak { label, expr, drop })),
            },
        },
    }
}

/// A `continue`, with the variables that are in scope and dropped by it.
pub open spec fn expr_continue(st: State, ast: ast::ExprContinue) -> Result<
    hir::ExprContinue,
    CompileError,
> {
    match rules::label_text(ast.label) {
        Err(e) => Err(e),
        Ok(label) => match st.scopes.dropped(label, st.scopes.layers.len() as int) {
            None => match label {
                Some(label) => Err(error(ast.span, ErrorKind::MissingLabel { label })),
                None => Err(error(ast.span, ErrorKind::ContinueUnsupported)),
            },
            Some(drop) => Ok(hir::ExprContinue { label, drop }),
        },
    }
}

/// The parts of a `select`.
#[verifier::ext_equal]
pub struct SelectParts {
    /// The branches with a pattern.
    pub branches: Seq<hir::ExprSelectBranch>,
    /// What each of them waits for.
    pub exprs: Seq<hir::Expr>,
    /// The default branch.
    pub default: Option<Box<hir::Expr>>,
}

/// A `select`.
pub open spec fn expr_select(env: Env, st: State, ast: ast::ExprSelect) -> Lowered<hir::ExprKind>
    decreases ast, 0nat, 0nat,
{
    match select_branches(
        env,
        st,
        ast.branches@,
        0,
        SelectParts { branches: Seq::empty(), exprs: Seq::empty(), default: None },
    ) {
        (st, Err(e)) => (st, Err(e)),
        (st, Ok(parts)) => (
            st,
            Ok(
                hir::ExprKind::Select(
                    Box::new(
                        hir::ExprSelect {
                            branches: list_of(parts.branches),
                            exprs: list_of(parts.exprs),
                            default: parts.default,
                        },
                    ),
                ),
            ),
        ),
    }
}

/// The branches of a `select` from index `i` on, behind those in `parts`.
pub open spec fn select_branches(
    env: Env,
    st: State,
    asts: Seq<ast::ExprSelectBranch>,
    i: int,
    parts: SelectParts,
) -> Lowered<SelectParts>
    decreases asts, asts.len() - i, 0nat,
{
    if i < 0 || i >= asts.len() {
        (st, Ok(parts))
    } else {
        match asts[i] {
            ast::ExprSelectBranch::Pat(ast) => match select_branch(env, st, ast) {
                (st, Err(e)) => (st, Err(e)),
                (st, Ok((branch, expr))) => select_branches(
                    env,
                    st,
                    asts,
                    i + 1,
                    SelectParts {
                        branches: parts.branches.push(branch),
                        exprs: parts.exprs.push(expr),
                        default: parts.default,
                    },
                ),
            },
            ast::ExprSelectBranch::Default(ast) => if parts.default is Some {
                (st, Err(error(ast.span, ErrorKind::SelectMultipleDefaults)))
            } else {
                match expr(env, st, ast.expr) {
                    (st, Err(e)) => (st, Err(e)),
                    (st, Ok(body)) => select_branches(
                        env,
                        st,
                        asts,
                        i + 1,
                        SelectParts { default: Some(Box::new(body)), ..parts },
                    ),
                }
            },
        }
    }
}

/// A branch of a `select` with a pattern, and what it waits for, which is
/// outside of the scope of the branch.
pub open spec fn select_branch(env: Env, st: State, ast: ast::ExprSelectPatBranch) -> Lowered<
    (hir::ExprSelectBranch, hir::Expr),
>
    decreases ast, 0nat, 0nat,
{
    match pat_binding(env, st.pushed(LayerKind::Block(None)), ast.pat) {
        (st, Err(e)) => (st, Err(e)),
        (st, Ok(pat)) => match expr(env, st, ast.body) {
            (st, Err(e)) => (st, Err(e)),
            (st, Ok(body)) => match st.popped(ast.span) {
                (st, Err(e)) => (st, Err(e)),
                (st, Ok(layer)) => match expr(env, st, ast.expr) {
                    (st, Err(e)) => (st, Err(e)),
                    (st, Ok(expr)) => (
                        st,
                        Ok(
                            (
                                hir::ExprSelectBranch { pat, body, drop: layer.drop_order() },
                                expr,
                            ),
                        ),
                    ),
                },
            },
        },
    }
}

/// A closure.
pub open spec fn expr_call_closure(env: Env, st: State, ast: ast::ExprClosure) -> Lowered<
    hir::ExprKind,
>
    decreases ast, 1nat, 0nat,
{
    match env.db.item_of("lowering closure call", ast.id, ast.span) {
        Err(e) => (st, Err(e)),
        Ok(item) => match env.db.meta_of(ast.span, item.item, without_parameters()) {
            Err(e) => (st, Err(e)),
            Ok(None) => (
                st,
                Err(error(ast.span, ErrorKind::MissingItem { item: item.item })),
            ),
            Ok(Some(meta)) => match meta.kind {
                Kind::Closure { call, do_move } => match closure_parts(env, st, ast) {
                    (st, Err(e)) => (st, Err(e)),
                    (st, Ok(closure)) => {
                        let st = st.using(meta.item_meta.item);
                        let captures = closure.captures;

                        if st.builds is None {
                            (st, Err(error(ast.span, ErrorKind::ClosureInConst)))
                        } else {
                            (
                                st.building(
                                    hir::SecondaryBuildEntry {
                                        item_meta: meta.item_meta,
                                        build: hir::SecondaryBuild::Closure {
                                            hir: Box::new(closure),
                                            call,
                                        },
                                    },
                                ),
                                Ok(
                                    if captures is Nil {
                                        hir::ExprKind::Fn(meta.hash)
                                    } else {
                                        hir::ExprKind::CallClosure(
                                            Box::new(
                                                hir::ExprCallClosure {
                                                    hash: meta.hash,
                                                    do_move,
                                                    captures,
                                                },
                                            ),
                                        )
                                    },
                                ),
                            )
                        }
                    },
                },
                _ => (
                    st,
                    Err(
                        error(
                            ast.span,
                            ErrorKind::ExpectedMeta {
                                meta: meta.described(),
                                expected: "a closure",
                            },
                        ),
                    ),
                ),
            },
        },
    }
}

/// The arguments and the body of a closure, and what it captures.
pub open spec fn closure_parts(env: Env, st: State, ast: ast::ExprClosure) -> Lowered<
    hir::ExprClosure,
>
    decreases ast, 0nat, 0nat,
{
    match fn_args(env, st.pushed(LayerKind::Captures), ast.args@, 0, Seq::empty()) {
        (st, Err(e)) => (st, Err(e)),
        (st, Ok(args)) => match expr(env, st, ast.body) {
            (st, Err(e)) => (st, Err(e)),
            (st, Ok(body)) => match st.popped(ast::expr_span(ast.body)) {
                (st, Err(e)) => (st, Err(e)),
                (st, Ok(layer)) => (
                    st,
                    Ok(
                        hir::ExprClosure {
                            args: list_of(args),
                            body,
                            captures: layer.captured_variables(),
                        },
                    ),
                ),
            },
        },
    }
}

/// An argument of a function.
pub open spec fn fn_arg(env: Env, st: State, ast: ast::FnArg) -> Lowered<hir::FnArg>
    decreases ast, 0nat, 0nat,
{
    match ast {
        ast::FnArg::SelfValue(span) => match st.defined(Name::SelfValue, span) {
            (st, Ok(variable)) => (st, Ok(hir::FnArg::SelfValue(span, variable))),
            (st, Err(e)) => (st, Err(e)),
        },
        ast::FnArg::Pat(ast) => match pat_binding(env, st, ast) {
            (st, Ok(pat)) => (st, Ok(hir::FnArg::Pat(Box::new(pat)))),
            (st, Err(e)) => (st, Err(e)),
        },
    }
}

/// The arguments of a function from index `i` on, behind those in `args`.
pub open spec fn fn_args(
    env: Env,
    st: State,
    asts: Seq<ast::FnArg>,
    i: int,
    args: Seq<hir::FnArg>,
) -> Lowered<Seq<hir::FnArg>>
    decreases asts, asts.len() - i, 0nat,
{
    if i < 0 || i >= asts.len() {
        (st, Ok(args))
    } else {
        match fn_arg(env, st, asts[i]) {
            (st, Ok(arg)) => fn_args(env, st, asts, i + 1, args.push(arg)),
            (st, Err(e)) => (st, Err(e)),
        }
    }
}

/// An object literal.
pub open spec fn expr_object(env: Env, st: State, ast: ast::ExprObject) -> Lowered<hir::ExprKind>
    decreases ast, 0nat, 0nat,
{
    match assignments(env, st, ast.assignments@, 0, Seq::empty()) {
        (st, Err(e)) => (st, Err(e)),
        (st, Ok(assigns)) => match object_type(env, st, ast.ident, assigns, ast.span) {
            (st, Err(e)) => (st, Err(e)),
            (st, Ok((kind, assigns))) => (
                st,
                Ok(
                    hir::ExprKind::Object(
                        Box::new(hir::ExprObject { kind, assignments: list_of(assigns) }),
                    ),
                ),
            ),
        },
    }
}

/// What an object literal builds, and its assignments with the positions of
/// their fields.
pub open spec fn object_type(
    env: Env,
    st: State,
    ast: ast::ObjectIdent,
    assigns: Seq<hir::FieldAssign>,
    span: Span,
) -> Lowered<(hir::ExprObjectKind, Seq<hir::FieldAssign>)>
    decreases ast, 0nat, 0nat,
{
    match ast {
        ast::ObjectIdent::Anonymous(_) => (st, Ok((hir::ExprObjectKind::Anonymous, assigns))),
        ast::ObjectIdent::Named(path) => match path_parameters(env, st, path) {
            (st, Err(e)) => (st, Err(e)),
            (st, Ok((named, parameters))) => match env.db.known_meta_of(
                path.span,
                named.item,
                parameters,
            ) {
                Err(e) => (st, Err(e)),
                Ok(meta) => (st, rules::object_kind(meta, assigns, span)),
            },
        },
    }
}

/// The assignments of an object literal from index `i` on, behind those in
/// `assigns`.
pub open spec fn assignments(
    env: Env,
    st: State,
    asts: Seq<ast::FieldAssign>,
    i: int,
    assigns: Seq<hir::FieldAssign>,
) -> Lowered<Seq<hir::FieldAssign>>
    decreases asts, asts.len() - i, 0nat,
{
    if i < 0 || i >= asts.len() {
        (st, Ok(assigns))
    } else {
        match rules::object_key(asts[i].key) {
            Err(e) => (st, Err(e)),
            Ok((span, key)) => {
                let existing = rules::assignment_index(assigns, key@, 0);

                if existing < assigns.len() {
                    (
                        st,
                        Err(
                            error(
                                span,
                                ErrorKind::DuplicateObjectKey {
                                    existing: assigns[existing].key.0,
                                    object: span,
                                },
                            ),
                        ),
                    )
                } else {
                    match assignment(env, st, asts[i], span, key) {
                        (st, Err(e)) => (st, Err(e)),
                        (st, Ok(assign)) => assignments(
                            env,
                            st,
                            asts,
                            i + 1,
                            assigns.push(
                                hir::FieldAssign { key: (span, key), assign, position: None },
                            ),
                        ),
                    }
                }
            },
        }
    }
}

/// What is assigned to a key: without an expression, the variable with the
/// name of the key.
pub open spec fn assignment(
    env: Env,
    st: State,
    ast: ast::FieldAssign,
    span: Span,
    key: String,
) -> Lowered<hir::Expr>
    decreases ast, 0nat, 0nat,
{
    match ast.assign {
        Some(ast) => expr(env, st, ast),
        None => match st.found(Name::Str(key)) {
            (st, Some(variable)) => (
                st,
                Ok(hir::Expr { span: ast.span, kind: hir::ExprKind::Variable(variable) }),
            ),
            (st, None) => (st, Err(error(span, ErrorKind::MissingLocal { name: key }))),
        },
    }
}

/// A range.
pub open spec fn expr_range(env: Env, st: State, ast: ast::ExprRange) -> Lowered<hir::ExprRange>
    decreases ast, 0nat, 0nat,
{
    if ast.end is None && ast.limits == ast::ExprRangeLimits::Closed {
        (
            st,
            Err(
                error(
                    ast.span,
                    ErrorKind::Msg("Unsupported range, you probably want `..` instead of `..=`"),
                ),
            ),
        )
    } else {
        match optional(env, st, ast.start) {
            (st, Err(e)) => (st, Err(e)),
            (st, Ok(start)) => match optional(env, st, ast.end) {
                (st, Err(e)) => (st, Err(e)),
                (st, Ok(end)) => (
                    st,
                    Ok(
                        match (start, end, ast.limits) {
                            (None, None, _) => hir::ExprRange::RangeFull,
                            (Some(start), None, _) => hir::ExprRange::RangeFrom { start: *start },
                            (None, Some(end), ast::ExprRangeLimits::HalfOpen) =>
                                hir::ExprRange::RangeTo { end: *end },
                            (None, Some(end), ast::ExprRangeLimits::Closed) =>
                                hir::ExprRange::RangeToInclusive { end: *end },
                            (Some(start), Some(end), ast::ExprRangeLimits::HalfOpen) =>
                                hir::ExprRange::Range { start: *start, end: *end },
                            (Some(start), Some(end), ast::ExprRangeLimits::Closed) =>
                                hir::ExprRange::RangeInclusive { start: *start, end: *end },
                        },
                    ),
                ),
            },
        }
    }
}

/// A call of a macro. String literals in a template are parts of it.
pub open spec fn macro_call(env: Env, st: State, ast: ast::MacroCall) -> Lowered<hir::ExprKind>
    decreases ast, 0nat, 0nat,
{
    match (ast.id, ast.expanded) {
        (None, _) => (st, Err(error(ast.span, ErrorKind::Msg("missing expanded macro id")))),
        (Some(id), None) => (
            st,
            Err(error(ast.span, ErrorKind::MissingId { what: "built-in macro", id })),
        ),
        (Some(_), Some(ast::BuiltInMacro::Template(template))) => {
            let old = st.in_template;

            match exprs(env, State { in_template: true, ..st }, template.exprs@, 0, Seq::empty()) {
                (st, Err(e)) => (st, Err(e)),
                (st, Ok(items)) => (
                    State { in_template: old, ..st },
                    Ok(
                        hir::ExprKind::Template(
                            Box::new(
                                hir::BuiltInTemplate {
                                    span: template.span,
                                    from_literal: template.from_literal,
                                    exprs: list_of(items),
                                },
                            ),
                        ),
                    ),
                ),
            }
        },
        (Some(_), Some(ast::BuiltInMacro::Format(format))) => match expr(env, st, format.value) {
            (st, Err(e)) => (st, Err(e)),
            (st, Ok(value)) => (
                st,
                Ok(
                    hir::ExprKind::Format(
                        Box::new(hir::BuiltInFormat { spec: format.spec, value }),
                    ),
                ),
            ),
        },
        (Some(_), Some(ast::BuiltInMacro::File(lit))) => match rules::lit(st.in_template, lit) {
            Ok(lit) => (st, Ok(hir::ExprKind::Lit(lit))),
            Err(e) => (st, Err(e)),
        },
        (Some(_), Some(ast::BuiltInMacro::Line(lit))) => match rules::lit(st.in_template, lit) {
            Ok(lit) => (st, Ok(hir::ExprKind::Lit(lit))),
            Err(e) => (st, Err(e)),
        },
    }
}

/// A block.
pub open spec fn block(env: Env, st: State, label: Option<ast::Label>, ast: ast::Block) -> Lowered<
    hir::Block,
>
    decreases ast, 0nat, 1nat,
{
    block_rule(env, st, label, ast)
}

/// What [`block`] is, spelled out.
#[verifier::opaque]
pub open spec fn block_rule(
    env: Env,
    st: State,
    label: Option<ast::Label>,
    ast: ast::Block,
) -> Lowered<
    hir::Block,
>
    decreases ast, 0nat, 0nat,
{
    statements(env, st, label, ast.statements@, ast.span)
}

/// The statements of a block. The value of the block is that of its last
/// expression without a semicolon, if no statement but an item follows it.
pub open spec fn statements(
    env: Env,
    st: State,
    label: Option<ast::Label>,
    asts: Seq<ast::Stmt>,
    span: Span,
) -> Lowered<hir::Block>
    decreases asts, asts.len() + 1, 0nat,
{
    match rules::label_text(label) {
        Err(e) => (st, Err(e)),
        Ok(label) => match stmts(
            env,
            st.pushed(LayerKind::Block(label)),
            asts,
            0,
            Seq::empty(),
            None,
        ) {
            (st, Err(e)) => (st, Err(e)),
            (st, Ok((statements, value))) => match st.popped(span) {
                (st, Err(e)) => (st, Err(e)),
                (st, Ok(layer)) => (
                    st,
                    Ok(
                        hir::Block {
                            span,
                            label,
                            statements: list_of(statements),
                            value,
                            drop: layer.drop_order(),
                        },
                    ),
                ),
            },
        },
    }
}

/// The statements from index `i` on, behind those in `done`, where the block
/// so far has the given value.
pub open spec fn stmts(
    env: Env,
    st: State,
    asts: Seq<ast::Stmt>,
    i: int,
    done: Seq<hir::Stmt>,
    value: Option<Box<hir::Expr>>,
) -> Lowered<(Seq<hir::Stmt>, Option<Box<hir::Expr>>)>
    decreases asts, asts.len() - i, 0nat,
{
    if i < 0 || i >= asts.len() {
        (st, Ok((done, value)))
    } else if asts[i] is Item {
        stmts(env, st, asts, i + 1, done, value)
    } else {
        match stmt(env, st, asts[i], value) {
            (st, Err(e)) => (st, Err(e)),
            (st, Ok((last, value))) => stmts(
                env,
                State { buffer: Seq::empty(), ..st },
                asts,
                i + 1,
                flushed(done, last, st.buffer),
                value,
            ),
        }
    }
}

/// The statements of a block with those that one more statement adds: the
/// expression that turned out not to be the value of the block, and what the
/// statement lowered to.
pub open spec fn flushed(
    done: Seq<hir::Stmt>,
    last: Option<Box<hir::Expr>>,
    buffer: Seq<hir::Stmt>,
) -> Seq<hir::Stmt> {
    match last {
        Some(last) => done.push(hir::Stmt::Expr(last)) + buffer,
        None => done + buffer,
    }
}

/// One statement which is not an item. Gives the expression that turned out not
/// to be the value of the block, and the value of the block so far.
pub open spec fn stmt(
    env: Env,
    st: State,
    ast: ast::Stmt,
    value: Option<Box<hir::Expr>>,
) -> Lowered<(Option<Box<hir::Expr>>, Option<Box<hir::Expr>>)>
    decreases ast, 0nat, 0nat,
{
    match ast {
        ast::Stmt::Local(ast) => match local_stmt(env, st, *ast) {
            (st, Err(e)) => (st, Err(e)),
            (st, Ok(_)) => (st, Ok((value, None))),
        },
        ast::Stmt::Expr(ast) => match expr(env, st, ast) {
            (st, Err(e)) => (st, Err(e)),
            (st, Ok(hir)) => match value {
                Some(value) => (
                    st.buffering(hir::Stmt::Expr(value)),
                    Ok((None, Some(Box::new(hir)))),
                ),
                None => (st, Ok((None, Some(Box::new(hir))))),
            },
        },
        ast::Stmt::Semi(ast) => match expr(env, st, ast) {
            (st, Err(e)) => (st, Err(e)),
            (st, Ok(hir)) => (st.buffering(hir::Stmt::Expr(Box::new(hir))), Ok((value, None))),
        },
        ast::Stmt::Item(_) => (st, Ok((None, value))),
    }
}

/// A local as a statement: unpacked, if it can be and if that is wanted.
pub open spec fn local_stmt(env: Env, st: State, ast: ast::Local) -> Lowered<()>
    decreases ast, 2nat, 0nat,
{
    match unpack(env, st, ast) {
        (st, Err(e)) => (st, Err(e)),
        (st, Ok(unpacked)) => if unpacked {
            (st, Ok(()))
        } else {
            match local(env, st, ast) {
                (st, Err(e)) => (st, Err(e)),
                (st, Ok(hir)) => (st.buffering(hir::Stmt::Local(Box::new(hir))), Ok(())),
            }
        },
    }
}

/// Unpack a local, if that is wanted.
pub open spec fn unpack(env: Env, st: State, ast: ast::Local) -> Lowered<bool>
    decreases ast, 1nat, 0nat,
{
    if !ast.attributes && env.lowering > 0 {
        unpack_locals(env, st, ast)
    } else {
        (st, Ok(false))
    }
}

/// A local. What is bound is outside of the scope of its variables.
pub open spec fn local(env: Env, st: State, ast: ast::Local) -> Lowered<hir::Local>
    decreases ast, 0nat, 0nat,
{
    match expr(env, st, ast.expr) {
        (st, Err(e)) => (st, Err(e)),
        (st, Ok(expr)) => match pat_binding(env, st, ast.pat) {
            (st, Err(e)) => (st, Err(e)),
            (st, Ok(pat)) => (st, Ok(hir::Local { span: ast.span, pat, expr })),
        },
    }
}

/// A local that binds one name, or a tuple whose items are bound one by one, as
/// locals of their own. Tells whether the local is one of these.
pub open spec fn unpack_locals(env: Env, st: State, ast: ast::Local) -> Lowered<bool>
    decreases ast, 0nat, 0nat,
{
    match (ast.pat, ast.expr) {
        (ast::Pat::Path(path), _) => if path.path.ident() is None {
            (st, Ok(false))
        } else {
            match expr(env, st, ast.expr) {
                (st, Err(e)) => (st, Err(e)),
                (st, Ok(expr)) => match pat_binding(env, st, ast.pat) {
                    (st, Err(e)) => (st, Err(e)),
                    (st, Ok(pat)) => (st.buffering(unpacked(pat, expr)), Ok(true)),
                },
            }
        },
        (ast::Pat::Tuple(pat), ast::Expr::Tuple(items)) => if pat.items@.len()
            != items.items@.len() || has_rest(pat.items@) {
            (st, Ok(false))
        } else {
            match exprs(env, st, items.items@, 0, Seq::empty()) {
                (st, Err(e)) => (st, Err(e)),
                (st, Ok(exprs)) => unpack_items(env, st, pat.items@, exprs, 0),
            }
        },
        _ => (st, Ok(false)),
    }
}

/// The local that binds one part of an unpacked one.
pub open spec fn unpacked(pat: hir::PatBinding, expr: hir::Expr) -> hir::Stmt {
    hir::Stmt::Local(Box::new(hir::Local { span: pat.pat.span.joined(expr.span), pat, expr }))
}

/// Test if one of the patterns is `..`.
pub open spec fn has_rest(items: Seq<ast::Pat>) -> bool {
    exists|i: int| 0 <= i < items.len() && #[trigger] items[i] is Rest
}

/// The items of an unpacked tuple from index `i` on, as locals.
pub open spec fn unpack_items(
    env: Env,
    st: State,
    pats: Seq<ast::Pat>,
    exprs: Seq<hir::Expr>,
    i: int,
) -> Lowered<bool>
    decreases pats, pats.len() - i, 0nat,
{
    if i < 0 || i >= pats.len() {
        (st, Ok(true))
    } else {
        match pat_binding(env, st, pats[i]) {
            (st, Err(e)) => (st, Err(e)),
            (st, Ok(pat)) => unpack_items(
                env,
                st.buffering(unpacked(pat, exprs[i])),
                pats,
                exprs,
                i + 1,
            ),
        }
    }
}

/// A pattern with the variables that it binds.
pub open spec fn pat_binding(env: Env, st: State, ast: ast::Pat) -> Lowered<hir::PatBinding>
    decreases ast, 1nat, 1nat,
{
    pat_binding_rule(env, st, ast)
}

/// What [`pat_binding`] is, spelled out.
#[verifier::opaque]
pub open spec fn pat_binding_rule(env: Env, st: State, ast: ast::Pat) -> Lowered<hir::PatBinding>
    decreases ast, 1nat, 0nat,
{
    match pat(env, st, ast) {
        (st, Err(e)) => (st, Err(e)),
        (st, Ok(pat)) => (
            State { bindings: Seq::empty(), ..st },
            Ok(hir::PatBinding { pat, names: list_of(st.bindings) }),
        ),
    }
}

/// A pattern.
pub open spec fn pat(env: Env, st: State, ast: ast::Pat) -> Lowered<hir::Pat>
    decreases ast, 0nat, 0nat,
{
    match ast {
        ast::Pat::Ignore(span) => (st, Ok(hir::Pat { span, kind: hir::PatKind::Ignore })),
        ast::Pat::Path(ast) => pat_path(env, st, ast),
        ast::Pat::Lit(ast) => match expr(env, st, *ast.expr) {
            (st, Err(e)) => (st, Err(e)),
            (st, Ok(expr)) => (
                st,
                Ok(hir::Pat { span: ast.span, kind: hir::PatKind::Lit(Box::new(expr)) }),
            ),
        },
        ast::Pat::Vec(ast) => pat_vec(env, st, ast),
        ast::Pat::Tuple(ast) => pat_tuple(env, st, ast),
        ast::Pat::Object(ast) => pat_object(env, st, ast),
        ast::Pat::Binding(_) | ast::Pat::Rest(_) => (
            st,
            Err(error(ast::pat_span(ast), ErrorKind::UnsupportedPatternExpr)),
        ),
    }
}

/// A path pattern: a constant, a type without fields, or a variable.
pub open spec fn pat_path(env: Env, st: State, ast: ast::PatPath) -> Lowered<hir::Pat>
    decreases ast, 0nat, 0nat,
{
    match path_parameters(env, st, ast.path) {
        (st, Err(e)) => (st, Err(e)),
        (st, Ok((named, parameters))) => match env.db.meta_of(ast.span, named.item, parameters) {
            Err(e) => (st, Err(e)),
            Ok(Some(meta)) => if meta.kind is Const {
                match env.db.constant_of(meta.hash) {
                    None => (
                        st,
                        Err(error(ast.span, ErrorKind::MissingConstant { hash: meta.hash })),
                    ),
                    Some(value) => (st, rules::pat_const_value(value, ast.span)),
                }
            } else {
                match rules::tuple_match_for(meta) {
                    Some((args, kind)) => if args == 0 {
                        (
                            st,
                            Ok(
                                hir::Pat {
                                    span: ast.span,
                                    kind: hir::PatKind::Path(hir::PatPathKind::Kind(kind)),
                                },
                            ),
                        )
                    } else {
                        pat_ident(st, ast)
                    },
                    None => pat_ident(st, ast),
                }
            },
            Ok(None) => pat_ident(st, ast),
        },
    }
}

/// A pattern that binds a variable.
pub open spec fn pat_ident(st: State, ast: ast::PatPath) -> Lowered<hir::Pat> {
    match ast.path.ident() {
        None => (st, Err(error(ast.span, ErrorKind::UnsupportedBinding))),
        Some(ident) => match ident.resolved() {
            Err(e) => (st, Err(e)),
            Ok(name) => match st.bound(Name::Str(name), ast.span) {
                (st, Err(e)) => (st, Err(e)),
                (st, Ok(variable)) => (
                    st,
                    Ok(
                        hir::Pat {
                            span: ast.span,
                            kind: hir::PatKind::Path(hir::PatPathKind::Ident(variable)),
                        },
                    ),
                ),
            },
        },
    }
}

/// The patterns from index `i` on, without `..` and without keys, behind those
/// in `items`.
pub open spec fn pats(
    env: Env,
    st: State,
    asts: Seq<ast::Pat>,
    i: int,
    items: Seq<hir::Pat>,
) -> Lowered<Seq<hir::Pat>>
    decreases asts, asts.len() - i, 0nat,
{
    if i < 0 || i >= asts.len() {
        (st, Ok(items))
    } else if asts[i] is Binding || asts[i] is Rest {
        pats(env, st, asts, i + 1, items)
    } else {
        match pat(env, st, asts[i]) {
            (st, Ok(item)) => pats(env, st, asts, i + 1, items.push(item)),
            (st, Err(e)) => (st, Err(e)),
        }
    }
}

/// A vector pattern.
pub open spec fn pat_vec(env: Env, st: State, ast: ast::PatVec) -> Lowered<hir::Pat>
    decreases ast, 0nat, 0nat,
{
    match rules::pat_items_count(ast.items@) {
        Err(e) => (st, Err(e)),
        Ok((is_open, count)) => match pats(env, st, ast.items@, 0, Seq::empty()) {
            (st, Err(e)) => (st, Err(e)),
            (st, Ok(items)) => (
                st,
                Ok(
                    hir::Pat {
                        span: ast.span,
                        kind: hir::PatKind::Sequence(
                            hir::PatSequence {
                                kind: hir::PatSequenceKind::Sequence {
                                    hash: Hash64(VEC_HASH),
                                    count,
                                    is_open,
                                },
                                items: list_of(items),
                            },
                        ),
                    },
                ),
            ),
        },
    }
}

/// A tuple pattern.
pub open spec fn pat_tuple(env: Env, st: State, ast: ast::PatTuple) -> Lowered<hir::Pat>
    decreases ast, 0nat, 0nat,
{
    match rules::pat_items_count(ast.items@) {
        Err(e) => (st, Err(e)),
        Ok((is_open, count)) => match pats(env, st, ast.items@, 0, Seq::empty()) {
            (st, Err(e)) => (st, Err(e)),
            (st, Ok(items)) => match tuple_type(env, st, ast.path, is_open, count) {
                (st, Err(e)) => (st, Err(e)),
                (st, Ok(kind)) => (
                    st,
                    Ok(
                        hir::Pat {
                            span: ast.span,
                            kind: hir::PatKind::Sequence(
                                hir::PatSequence { kind, items: list_of(items) },
                            ),
                        },
                    ),
                ),
            },
        },
    }
}

/// What a tuple pattern matches.
pub open spec fn tuple_type(
    env: Env,
    st: State,
    path: Option<ast::Path>,
    is_open: bool,
    count: usize,
) -> Lowered<hir::PatSequenceKind>
    decreases path, 0nat, 0nat,
{
    match path {
        None => (
            st,
            Ok(hir::PatSequenceKind::Sequence { hash: Hash64(TUPLE_HASH), count, is_open }),
        ),
        Some(path) => match path_parameters(env, st, path) {
            (st, Err(e)) => (st, Err(e)),
            (st, Ok((named, parameters))) => match env.db.known_meta_of(
                path.span,
                named.item,
                parameters,
            ) {
                Err(e) => (st, Err(e)),
                Ok(meta) => (st, rules::tuple_pat_kind(meta, is_open, count, path.span)),
            },
        },
    }
}

/// An object pattern.
pub open spec fn pat_object(env: Env, st: State, ast: ast::PatObject) -> Lowered<hir::Pat>
    decreases ast, 0nat, 0nat,
{
    match rules::pat_items_count(ast.items@) {
        Err(e) => (st, Err(e)),
        Ok((is_open, count)) => match bindings(
            env,
            st,
            ast.items@,
            count as int,
            0,
            Seq::empty(),
        ) {
            (st, Err(e)) => (st, Err(e)),
            (st, Ok(bindings)) => match object_pat_type(
                env,
                st,
                ast.ident,
                is_open,
                count,
                bindings,
                ast.span,
            ) {
                (st, Err(e)) => (st, Err(e)),
                (st, Ok(kind)) => (
                    st,
                    Ok(
                        hir::Pat {
                            span: ast.span,
                            kind: hir::PatKind::Object(
                                hir::PatObject { kind, bindings: list_of(bindings) },
                            ),
                        },
                    ),
                ),
            },
        },
    }
}

/// What an object pattern matches.
pub open spec fn object_pat_type(
    env: Env,
    st: State,
    ast: ast::ObjectIdent,
    is_open: bool,
    count: usize,
    bindings: Seq<hir::Binding>,
    span: Span,
) -> Lowered<hir::PatSequenceKind>
    decreases ast, 0nat, 0nat,
{
    match ast {
        ast::ObjectIdent::Anonymous(_) => (
            st,
            Ok(hir::PatSequenceKind::Sequence { hash: Hash64(OBJECT_HASH), count, is_open }),
        ),
        ast::ObjectIdent::Named(path) => match path_parameters(env, st, path) {
            (st, Err(e)) => (st, Err(e)),
            (st, Ok((named, parameters))) => match env.db.known_meta_of(
                path.span,
                named.item,
                parameters,
            ) {
                Err(e) => (st, Err(e)),
                Ok(meta) => (
                    st,
                    rules::object_pat_kind(meta, is_open, count, bindings, path.span, span),
                ),
            },
        },
    }
}

/// The first `count` fields of an object pattern from index `i` on, behind
/// those in `done`.
pub open spec fn bindings(
    env: Env,
    st: State,
    asts: Seq<ast::Pat>,
    count: int,
    i: int,
    done: Seq<hir::Binding>,
) -> Lowered<Seq<hir::Binding>>
    decreases asts, asts.len() - i, 0nat,
{
    if i < 0 || i >= count || i >= asts.len() {
        (st, Ok(done))
    } else {
        match binding(env, st, asts[i]) {
            (st, Err(e)) => (st, Err(e)),
            (st, Ok(binding)) => {
                let existing = rules::binding_index(done, binding.key_of()@, 0);

                if existing < done.len() {
                    (
                        st,
                        Err(
                            error(
                                ast::pat_span(asts[i]),
                                ErrorKind::DuplicateObjectKey {
                                    existing: ast::pat_span(asts[existing]),
                                    object: ast::pat_span(asts[i]),
                                },
                            ),
                        ),
                    )
                } else {
                    bindings(env, st, asts, count, i + 1, done.push(binding))
                }
            },
        }
    }
}

/// A field of an object pattern.
pub open spec fn binding(env: Env, st: State, ast: ast::Pat) -> Lowered<hir::Binding>
    decreases ast, 1nat, 0nat,
{
    match ast {
        ast::Pat::Binding(ast) => match rules::object_key(ast.key) {
            Err(e) => (st, Err(e)),
            Ok((span, key)) => match pat(env, st, *ast.pat) {
                (st, Err(e)) => (st, Err(e)),
                (st, Ok(pat)) => (st, Ok(hir::Binding::Binding(span, key, Box::new(pat)))),
            },
        },
        ast::Pat::Path(ast) => match ast.path.ident() {
            None => (st, Err(error(ast.span, ErrorKind::UnsupportedPatternExpr))),
            Some(ident) => match ident.resolved() {
                Err(e) => (st, Err(e)),
                Ok(key) => match st.bound(Name::Str(key), ident.span) {
                    (st, Err(e)) => (st, Err(e)),
                    (st, Ok(variable)) => (st, Ok(hir::Binding::Ident(ast.span, key, variable))),
                },
            },
        },
        _ => (st, Err(error(ast::pat_span(ast), ErrorKind::UnsupportedPatternExpr))),
    }
}

/// A path.
pub open spec fn expr_path(env: Env, st: State, ast: ast::Path, in_path: bool) -> Lowered<
    hir::ExprKind,
>
    decreases ast, 2nat, 0nat,
{
    if ast.self_value() {
        match st.found(Name::SelfValue) {
            (st, Some(variable)) => (st, Ok(hir::ExprKind::Variable(variable))),
            (st, None) => (st, Err(error(ast.span, ErrorKind::MissingSelf))),
        }
    } else {
        match path_variable(st, ast) {
            (st, Err(e)) => (st, Err(e)),
            (st, Ok(Some(variable))) => (st, Ok(hir::ExprKind::Variable(variable))),
            (st, Ok(None)) => if in_path {
                (st, Ok(hir::ExprKind::Path))
            } else {
                path_item(env, st, ast)
            },
        }
    }
}

/// The variable that a path is, where a value is needed.
pub open spec fn path_variable(st: State, ast: ast::Path) -> Lowered<Option<hir::Variable>> {
    match (st.needs, ast.ident()) {
        (Needs::Value, Some(ident)) => match ident.resolved() {
            Err(e) => (st, Err(e)),
            Ok(name) => {
                let (st, variable) = st.found(Name::Str(name));
                (st, Ok(variable))
            },
        },
        _ => (st, Ok(None)),
    }
}

/// A path to an item.
pub open spec fn path_item(env: Env, st: State, ast: ast::Path) -> Lowered<hir::ExprKind>
    decreases ast, 1nat, 0nat,
{
    match path_parameters(env, st, ast) {
        (st, Err(e)) => (st, Err(e)),
        (st, Ok((named, parameters))) => match env.db.meta_of(ast.span, named.item, parameters) {
            Err(e) => (st, Err(e)),
            Ok(Some(meta)) => (st, rules::expr_path_meta(st.needs, meta, ast.span)),
            Ok(None) => match (st.needs, ast.ident()) {
                (Needs::Value, Some(ident)) => match ident.resolved() {
                    Err(e) => (st, Err(e)),
                    Ok(name) => (
                        st,
                        Err(
                            rules::missing_path(
                                ast.span,
                                Some(name),
                                capitalized(name@),
                                named.item,
                                parameters,
                            ),
                        ),
                    ),
                },
                _ => (
                    st,
                    Err(rules::missing_path(ast.span, None, false, named.item, parameters)),
                ),
            },
        },
    }
}

/// What a path is the name of, and its hashed generic parameters.
pub open spec fn path_parameters(env: Env, st: State, ast: ast::Path) -> Lowered<
    (Named, GenericsParameters),
>
    decreases ast, 0nat, 1nat,
{
    path_parameters_rule(env, st, ast)
}

/// What [`path_parameters`] is, spelled out.
#[verifier::opaque]
pub open spec fn path_parameters_rule(env: Env, st: State, ast: ast::Path) -> Lowered<
    (Named, GenericsParameters),
>
    decreases ast, 0nat, 0nat,
{
    match env.db.name_of(ast) {
        Err(e) => (st, Err(e)),
        Ok(named) => match generics_parameters(env, st, ast.rest@, named) {
            (st, Err(e)) => (st, Err(e)),
            (st, Ok(parameters)) => (st, Ok((named, parameters))),
        },
    }
}

/// The hashed generic parameters of a path: its first two groups of generic
/// arguments.
pub open spec fn generics_parameters(
    env: Env,
    st: State,
    segments: Seq<ast::PathSegment>,
    named: Named,
) -> Lowered<GenericsParameters>
    decreases segments, 1nat, 0nat,
{
    let first = generics_index(segments, 0);
    let second = generics_index(segments, first + 1);

    match segment_parameters(env, st, segments, first) {
        (st, Err(e)) => (st, Err(e)),
        (st, Ok(first)) => match segment_parameters(env, st, segments, second) {
            (st, Err(e)) => (st, Err(e)),
            (st, Ok(second)) => (
                st,
                Ok(GenericsParameters { trailing: named.trailing, first, second }),
            ),
        },
    }
}

/// The hash of the generic arguments in the segment with index `i`, if there is
/// one.
pub open spec fn segment_parameters(
    env: Env,
    st: State,
    segments: Seq<ast::PathSegment>,
    i: int,
) -> Lowered<Option<Hash64>>
    decreases segments, 0nat, 1nat,
{
    segment_parameters_rule(env, st, segments, i)
}

/// What [`segment_parameters`] is, spelled out.
#[verifier::opaque]
pub open spec fn segment_parameters_rule(
    env: Env,
    st: State,
    segments: Seq<ast::PathSegment>,
    i: int,
) -> Lowered<Option<Hash64>>
    decreases segments, 0nat, 0nat,
{
    if i < 0 || i >= segments.len() {
        (st, Ok(None))
    } else {
        match segments[i] {
            ast::PathSegment::Generics(generics) => match generic_args(
                env,
                st,
                generics.args@,
                Some(generics.span),
                0,
                no_parameters(),
            ) {
                (st, Err(e)) => (st, Err(e)),
                (st, Ok(builder)) => (st, Ok(Some(Hash64(builder.hash)))),
            },
            _ => (st, Ok(None)),
        }
    }
}

/// The builder with the generic arguments from index `i` on, which have to be
/// types. Too many of them are an error in `span`, or else in the argument that
/// is one too many.
pub open spec fn generic_args(
    env: Env,
    st: State,
    asts: Seq<ast::Expr>,
    span: Option<Span>,
    i: int,
    builder: ParametersBuilder,
) -> Lowered<ParametersBuilder>
    decreases asts, asts.len() - i, 0nat,
{
    if i < 0 || i >= asts.len() {
        (st, Ok(builder))
    } else {
        match expr(env, st, asts[i]) {
            (st, Err(e)) => (st, Err(e)),
            (st, Ok(hir)) => match hir.kind {
                hir::ExprKind::Type(ty) => match builder.added(ty.hash) {
                    Ok(builder) => generic_args(env, st, asts, span, i + 1, builder),
                    Err(_) => (
                        st,
                        Err(
                            error(
                                match span {
                                    Some(span) => span,
                                    None => ast::expr_span(asts[i]),
                                },
                                ErrorKind::TooManyParameters,
                            ),
                        ),
                    ),
                },
                _ => (
                    st,
                    Err(error(ast::expr_span(asts[i]), ErrorKind::UnsupportedGenerics)),
                ),
            },
        }
    }
}

/// A call.
pub open spec fn expr_call(env: Env, st: State, ast: ast::ExprCall) -> Lowered<hir::ExprCall>
    decreases ast, 1nat, 0nat,
{
    match callee(env, st, ast) {
        (st, Err(e)) => (st, Err(e)),
        (st, Ok(call)) => match exprs(env, st, ast.args@, 0, Seq::empty()) {
            (st, Err(e)) => (st, Err(e)),
            (st, Ok(args)) => (st, Ok(hir::ExprCall { call, args: list_of(args) })),
        },
    }
}

/// What is called.
pub open spec fn callee(env: Env, st: State, ast: ast::ExprCall) -> Lowered<hir::Call>
    decreases ast, 0nat, 0nat,
{
    let in_path = st.in_path;

    match expr(env, State { in_path: true, ..st }, ast.expr) {
        (st, Err(e)) => (st, Err(e)),
        (st, Ok(hir)) => {
            let st = State { in_path, ..st };

            match hir.kind {
                hir::ExprKind::Variable(name) => (st, Ok(hir::Call::Var { name })),
                hir::ExprKind::Path => match callee_path(
                    env,
                    st,
                    ast.expr,
                    ast::expr_span(ast.expr),
                ) {
                    (st, Err(e)) => (st, Err(e)),
                    (st, Ok((span, named, parameters))) => match env.db.known_meta_of(
                        span,
                        named.item,
                        parameters,
                    ) {
                        Err(e) => (st, Err(e)),
                        Ok(meta) => rules::call_meta(env, st, meta, ast, span, hir.span),
                    },
                },
                hir::ExprKind::FieldAccess(access) => {
                    let (st, call) = rules::call_field(st, *access);
                    (st, Ok(call))
                },
                _ => (st, Ok(hir::Call::Expr { expr: hir })),
            }
        },
    }
}

/// Where the path that is called is, what it is the name of, and its hashed
/// generic parameters. The path may be in invisible delimiters.
pub open spec fn callee_path(env: Env, st: State, ast: ast::Expr, span: Span) -> Lowered<
    (Span, Named, GenericsParameters),
>
    decreases ast, 0nat, 0nat,
{
    match ast {
        ast::Expr::Path(path) => match path_parameters(env, st, path) {
            (st, Err(e)) => (st, Err(e)),
            (st, Ok((named, parameters))) => (st, Ok((path.span, named, parameters))),
        },
        ast::Expr::Empty(ast) => callee_path(env, st, ast.expr, span),
        _ => (st, Err(error(span, ErrorKind::Msg("Expected path")))),
    }
}

/// A field access.
pub open spec fn expr_field_access(env: Env, st: State, ast: ast::ExprFieldAccess) -> Lowered<
    hir::ExprFieldAccess,
>
    decreases ast, 0nat, 0nat,
{
    match expr_field(env, st, ast.expr_field) {
        (st, Err(e)) => (st, Err(e)),
        (st, Ok(expr_field)) => match expr(env, st, ast.expr) {
            (st, Err(e)) => (st, Err(e)),
            (st, Ok(expr)) => (st, Ok(hir::ExprFieldAccess { expr, expr_field })),
        },
    }
}

/// The field of a field access.
pub open spec fn expr_field(env: Env, st: State, ast: ast::ExprField) -> Lowered<hir::ExprField>
    decreases ast, 0nat, 0nat,
{
    match ast {
        ast::ExprField::LitNumber(lit) => match lit.number {
            Err(e) => (st, Err(error(lit.span, ErrorKind::Resolve(e)))),
            Ok(number) => match number.tuple_index() {
                Some(index) => (st, Ok(hir::ExprField::Index(index))),
                None => (
                    st,
                    Err(error(lit.span, ErrorKind::UnsupportedTupleIndex { number })),
                ),
            },
        },
        ast::ExprField::Path(path) => match path.ident_generics() {
            None => (st, Err(error(path.span, ErrorKind::BadFieldAccess))),
            Some((ident, generics)) => match ident.resolved() {
                Err(e) => (st, Err(e)),
                Ok(name) => match generics {
                    None => (st, Ok(hir::ExprField::Ident(name))),
                    Some(_) => match field_generics(env, st, path.rest@) {
                        (st, Err(e)) => (st, Err(e)),
                        (st, Ok(hash)) => (st, Ok(hir::ExprField::IdentGenerics(name, hash))),
                    },
                },
            },
        },
    }
}

/// The hash of the generic arguments of a field, which stand in its only
/// further segment.
pub open spec fn field_generics(env: Env, st: State, segments: Seq<ast::PathSegment>) -> Lowered<
    Hash64,
>
    decreases segments, 0nat, 0nat,
{
    match segments[0] {
        ast::PathSegment::Generics(generics) if segments.len() > 0 => match generic_args(
            env,
            st,
            generics.args@,
            None,
            0,
            no_parameters(),
        ) {
            (st, Err(e)) => (st, Err(e)),
            (st, Ok(builder)) => (st, Ok(Hash64(builder.hash))),
        },
        _ => (st, Ok(Hash64(no_parameters().hash))),
    }
}

/// A function.
pub open spec fn item_fn(env: Env, st: State, ast: ast::ItemFn) -> Lowered<hir::ItemFn> {
    match fn_args(env, st, ast.args@, 0, Seq::empty()) {
        (st, Err(e)) => (st, Err(e)),
        (st, Ok(args)) => match block(env, st, None, ast.body) {
            (st, Err(e)) => (st, Err(e)),
            (st, Ok(body)) => (
                st,
                Ok(hir::ItemFn { span: ast.span, args: list_of(args), body }),
            ),
        },
    }
}

/// A function without arguments.
pub open spec fn empty_fn(env: Env, st: State, ast: ast::EmptyBlock, span: Span) -> Lowered<
    hir::ItemFn,
> {
    match statements(env, st, None, ast.statements@, span) {
        (st, Err(e)) => (st, Err(e)),
        (st, Ok(body)) => (st, Ok(hir::ItemFn { span, args: List::Nil, body })),
    }
}

} // verus!
