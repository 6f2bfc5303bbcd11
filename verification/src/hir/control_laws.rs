//! Laws of how control flow is lowered.

use vstd::prelude::*;
use crate::ast;
use crate::compile::error::{CompileError, ErrorKind};
use crate::hir;
use crate::hir::ctxt::{Env, State};
use crate::hir::model;
use crate::hir::rules;
use crate::hir::scopes::LayerKind;
use crate::list::{lemma_list_from_view, list_of, List};
use crate::span::Span;

verus! {

/// The state in which the parts of an expression are lowered: none of them is
/// left to be resolved.
pub open spec fn resolving(st: State) -> State {
    State { in_path: false, ..st }
}

/// Test if a label is lowered to its text.
pub open spec fn is_label(label: Option<ast::Label>, text: Option<String>) -> bool {
    match label {
        None => text is None,
        Some(label) => label.text is Ok && text == Some(label.text->Ok_0),
    }
}

/// Test if the innermost layer of scope is taken off in the end, and what is in it
/// is dropped.
pub open spec fn is_left(
    st: State,
    span: Span,
    drop: List<hir::Variable>,
    end: State,
) -> bool {
    let (after, layer) = st.popped(span);
    &&& after == end
    &&& layer is Ok
    &&& drop == layer->Ok_0.drop_order()
}

/// Test if things are lowered in turn, each one in the state that the one before
/// it ends in.
pub open spec fn in_turn<A, B>(
    asts: Seq<A>,
    hirs: Seq<B>,
    states: Seq<State>,
    start: State,
    end: State,
    step: spec_fn(State, A, State, B) -> bool,
) -> bool {
    &&& hirs.len() == asts.len()
    &&& states.len() == asts.len() + 1
    &&& states[0] == start
    &&& states.last() == end
    &&& forall|i: int|
        0 <= i < asts.len() ==> step(#[trigger] states[i], asts[i], states[i + 1], hirs[i])
}

/// Test if all things are lowered in turn: as many as there are, and each one in
/// its place.
pub open spec fn all_lowered<A, B>(
    asts: Seq<A>,
    hirs: Seq<B>,
    start: State,
    end: State,
    step: spec_fn(State, A, State, B) -> bool,
) -> bool {
    exists|states: Seq<State>| #[trigger] in_turn(asts, hirs, states, start, end, step)
}

/// The elements of a list that is made of a sequence are those of the sequence.
pub proof fn lemma_listed<T>(s: Seq<T>)
    ensures
        list_of(s)@ == s,
{
    reveal(list_of);
    lemma_list_from_view(s, 0);
    assert(s.skip(0) =~= s);
}

/// One step of lowering expressions in turn.
pub open spec fn expr_step(env: Env) -> spec_fn(State, ast::Expr, State, hir::Expr) -> bool {
    |st: State, ast: ast::Expr, end: State, hir: hir::Expr|
        model::expr(env, st, ast) == (end, Ok::<hir::Expr, CompileError>(hir))
}

/// Expressions are lowered in turn.
proof fn lemma_exprs_from(
    env: Env,
    st: State,
    asts: Seq<ast::Expr>,
    i: int,
    done: Seq<hir::Expr>,
    states: Seq<State>,
)
    requires
        0 <= i <= asts.len(),
        done.len() == i,
        states.len() == i + 1,
        states[i] == st,
        forall|j: int|
            0 <= j < i ==> expr_step(env)(#[trigger] states[j], asts[j], states[j + 1], done[j]),
        model::exprs(env, st, asts, i, done).1 is Ok,
    ensures
        all_lowered(
            asts,
            model::exprs(env, st, asts, i, done).1->Ok_0,
            states[0],
            model::exprs(env, st, asts, i, done).0,
            expr_step(env),
        ),
    decreases asts.len() - i,
{
    if i < asts.len() {
        let (next, item) = model::expr(env, st, asts[i]);
        let more = states.push(next);
        let items = done.push(item->Ok_0);
        assert forall|j: int| 0 <= j < i + 1 implies expr_step(env)(
            #[trigger] more[j],
            asts[j],
            more[j + 1],
            items[j],
        ) by {
            if j < i {
                assert(more[j] == states[j] && more[j + 1] == states[j + 1]);
            }
        }
        lemma_exprs_from(env, next, asts, i + 1, items, more);
    } else {
        assert(in_turn(asts, done, states, states[0], st, expr_step(env)));
    }
}

/// Expressions are lowered in turn.
pub proof fn lemma_exprs(env: Env, st: State, asts: Seq<ast::Expr>)
    requires
        model::exprs(env, st, asts, 0, Seq::empty()).1 is Ok,
    ensures
        all_lowered(
            asts,
            model::exprs(env, st, asts, 0, Seq::empty()).1->Ok_0,
            st,
            model::exprs(env, st, asts, 0, Seq::empty()).0,
            expr_step(env),
        ),
{
    lemma_exprs_from(env, st, asts, 0, Seq::empty(), seq![st]);
}

/// An expression that need not be there is lowered to one exactly if it is.
pub proof fn lemma_optional(env: Env, st: State, ast: Option<ast::Expr>)
    ensures
        ast is None ==> model::optional(env, st, ast) == (
            st,
            Ok::<Option<Box<hir::Expr>>, CompileError>(None),
        ),
        ast is Some ==> match model::expr(env, st, ast->0) {
            (end, Ok(hir)) => model::optional(env, st, ast) == (
                end,
                Ok::<Option<Box<hir::Expr>>, CompileError>(Some(Box::new(hir))),
            ),
            (end, Err(e)) => model::optional(env, st, ast) == (
                end,
                Err::<Option<Box<hir::Expr>>, CompileError>(e),
            ),
        },
{
    reveal(model::optional_rule);
    assert(model::optional(env, st, ast) == model::optional_rule(env, st, ast));
}

/// A condition that is an expression is lowered to the expression.
pub proof fn lemma_condition_expr(env: Env, st: State, expr: ast::Expr)
    requires
        model::condition(env, st, ast::Condition::Expr(expr)).1 is Ok,
    ensures
        ({
            let (end, r) = model::condition(env, st, ast::Condition::Expr(expr));
            &&& r->Ok_0 is Expr
            &&& model::expr(env, st, expr) == (
                end,
                Ok::<hir::Expr, CompileError>(r->Ok_0->Expr_0),
            )
        }),
{
    reveal(model::condition_rule);
    let ast = ast::Condition::Expr(expr);
    assert(model::condition(env, st, ast) == model::condition_rule(env, st, ast));
}

/// A condition that binds a pattern is lowered to the pattern, and then to what is
/// bound.
pub proof fn lemma_condition_let(env: Env, st: State, ast: ast::ExprLet)
    requires
        model::condition(env, st, ast::Condition::ExprLet(ast)).1 is Ok,
    ensures
        ({
            let (end, r) = model::condition(env, st, ast::Condition::ExprLet(ast));
            let (middle, pat) = model::pat_binding(env, st, ast.pat);
            &&& r->Ok_0 is ExprLet
            &&& pat == Ok::<hir::PatBinding, CompileError>(r->Ok_0->ExprLet_0.pat)
            &&& model::expr(env, middle, ast.expr) == (
                end,
                Ok::<hir::Expr, CompileError>(r->Ok_0->ExprLet_0.expr),
            )
        }),
{
    reveal(model::condition_rule);
    let c = ast::Condition::ExprLet(ast);
    assert(model::condition(env, st, c) == model::condition_rule(env, st, c));
}

/// A `while` is lowered to a loop with a condition. The condition is the lowering
/// of the one that was written, in the scope of the loop, and the body is lowered
/// behind it.
pub proof fn lemma_while(env: Env, st: State, ast: ast::ExprWhile)
    requires
        model::expr(env, st, ast::Expr::While(Box::new(ast))).1 is Ok,
    ensures
        ({
            let (end, r) = model::expr(env, st, ast::Expr::While(Box::new(ast)));
            let hir = r->Ok_0;
            let label = hir.kind->Loop_0.label;
            let inside = resolving(st).pushed(LayerKind::Loop(label));
            let (middle, condition) = model::condition(env, inside, ast.condition);
            let (last, body) = model::block(env, middle, None, ast.body);
            &&& hir.span == ast.span
            &&& hir.kind is Loop
            &&& is_label(ast.label, label)
            &&& hir.kind->Loop_0.condition is Some
            &&& condition == Ok::<hir::Condition, CompileError>(hir.kind->Loop_0.condition->0)
            &&& body == Ok::<hir::Block, CompileError>(hir.kind->Loop_0.body)
            &&& is_left(last, ast.span, hir.kind->Loop_0.drop, end)
        }),
{
    let x = ast::Expr::While(Box::new(ast));
    reveal(model::expr_rule);
    reveal(ast::expr_span);
    reveal(rules::label_text);
    assert(model::expr(env, st, x) == model::expr_rule(env, st, x));
}

/// A `loop` is lowered to a loop without a condition.
pub proof fn lemma_loop(env: Env, st: State, ast: ast::ExprLoop)
    requires
        model::expr(env, st, ast::Expr::Loop(Box::new(ast))).1 is Ok,
    ensures
        ({
            let (end, r) = model::expr(env, st, ast::Expr::Loop(Box::new(ast)));
            let hir = r->Ok_0;
            let label = hir.kind->Loop_0.label;
            let inside = resolving(st).pushed(LayerKind::Loop(label));
            let (last, body) = model::block(env, inside, None, ast.body);
            &&& hir.span == ast.span
            &&& hir.kind is Loop
            &&& is_label(ast.label, label)
            &&& hir.kind->Loop_0.condition is None
            &&& body == Ok::<hir::Block, CompileError>(hir.kind->Loop_0.body)
            &&& is_left(last, ast.span, hir.kind->Loop_0.drop, end)
        }),
{
    let x = ast::Expr::Loop(Box::new(ast));
    reveal(model::expr_rule);
    reveal(ast::expr_span);
    reveal(rules::label_text);
    assert(model::expr(env, st, x) == model::expr_rule(env, st, x));
}

/// A `for` iterates over what is lowered outside of the scope of the loop. The
/// pattern is bound inside of it, before the body.
pub proof fn lemma_for(env: Env, st: State, ast: ast::ExprFor)
    requires
        model::expr(env, st, ast::Expr::For(Box::new(ast))).1 is Ok,
    ensures
        ({
            let (end, r) = model::expr(env, st, ast::Expr::For(Box::new(ast)));
            let hir = r->Ok_0;
            let label = hir.kind->For_0.label;
            let (outside, iter) = model::expr(env, resolving(st), ast.iter);
            let inside = outside.pushed(LayerKind::Loop(label));
            let (middle, binding) = model::pat_binding(env, inside, ast.binding);
            let (last, body) = model::block(env, middle, None, ast.body);
            &&& hir.span == ast.span
            &&& hir.kind is For
            &&& is_label(ast.label, label)
            &&& iter == Ok::<hir::Expr, CompileError>(hir.kind->For_0.iter)
            &&& binding == Ok::<hir::PatBinding, CompileError>(hir.kind->For_0.binding)
            &&& body == Ok::<hir::Block, CompileError>(hir.kind->For_0.body)
            &&& is_left(last, ast.span, hir.kind->For_0.drop, end)
        }),
{
    let x = ast::Expr::For(Box::new(ast));
    reveal(model::expr_rule);
    reveal(ast::expr_span);
    reveal(rules::label_text);
    assert(model::expr(env, st, x) == model::expr_rule(env, st, x));
}

/// Test if a branch with a condition is lowered in a scope of its own: the
/// condition first, and then the block.
pub open spec fn is_branch(
    env: Env,
    st: State,
    condition: ast::Condition,
    block: ast::Block,
    leaving: Span,
    end: State,
    hir: hir::ConditionalBranch,
) -> bool {
    let (middle, c) = model::condition(env, st.pushed(LayerKind::Block(None)), condition);
    let (last, b) = model::block(env, middle, None, block);
    &&& c == Ok::<hir::Condition, CompileError>(hir.condition)
    &&& b == Ok::<hir::Block, CompileError>(hir.block)
    &&& is_left(last, leaving, hir.drop, end)
}

/// One step of lowering the `else if` branches of an `if` in turn.
pub open spec fn else_if_step(env: Env, leaving: Span) -> spec_fn(
    State,
    ast::ExprElseIf,
    State,
    hir::ConditionalBranch,
) -> bool {
    |st: State, ast: ast::ExprElseIf, end: State, hir: hir::ConditionalBranch|
        hir.span == ast.span && is_branch(env, st, ast.condition, ast.block, leaving, end, hir)
}

/// The `else if` branches of an `if` are lowered in turn.
proof fn lemma_else_ifs(
    env: Env,
    st: State,
    asts: Seq<ast::ExprElseIf>,
    span: Span,
    i: int,
    done: Seq<hir::ConditionalBranch>,
    states: Seq<State>,
)
    requires
        0 <= i <= asts.len(),
        done.len() == i + 1,
        states.len() == i + 1,
        states[i] == st,
        forall|j: int|
            0 <= j < i ==> else_if_step(env, span)(
                #[trigger] states[j],
                asts[j],
                states[j + 1],
                done[j + 1],
            ),
        model::else_ifs(env, st, asts, span, i, done).1 is Ok,
    ensures
        ({
            let (end, r) = model::else_ifs(env, st, asts, span, i, done);
            &&& r->Ok_0.len() == asts.len() + 1
            &&& r->Ok_0[0] == done[0]
            &&& all_lowered(asts, r->Ok_0.skip(1), states[0], end, else_if_step(env, span))
        }),
    decreases asts.len() - i,
{
    if i < asts.len() {
        let (next, item) = model::else_if(env, st, asts[i], span);
        let more = states.push(next);
        let items = done.push(item->Ok_0);
        assert forall|j: int| 0 <= j < i + 1 implies else_if_step(env, span)(
            #[trigger] more[j],
            asts[j],
            more[j + 1],
            items[j + 1],
        ) by {
            if j < i {
                assert(more[j] == states[j] && more[j + 1] == states[j + 1]);
            }
        }
        lemma_else_ifs(env, next, asts, span, i + 1, items, more);
    } else {
        assert(in_turn(asts, done.skip(1), states, states[0], st, else_if_step(env, span)));
    }
}

/// An `if` is lowered to as many branches as it has conditions, in order. There
/// is a fallback exactly if there is an `else`.
pub proof fn lemma_if(env: Env, st: State, ast: ast::ExprIf)
    requires
        model::expr(env, st, ast::Expr::If(Box::new(ast))).1 is Ok,
    ensures
        ({
            let (end, r) = model::expr(env, st, ast::Expr::If(Box::new(ast)));
            let hir = r->Ok_0;
            let branches = hir.kind->If_0.branches@;
            &&& hir.span == ast.span
            &&& hir.kind is If
            &&& branches.len() == 1 + ast.expr_else_ifs@.len()
            &&& branches[0].span == ast.if_.joined(ast.block.span)
            &&& hir.kind->If_0.fallback is Some == ast.expr_else is Some
            &&& exists|first: State, second: State|
                {
                    &&& #[trigger] is_branch(
                        env,
                        resolving(st),
                        ast.condition,
                        ast.block,
                        ast.span,
                        first,
                        branches[0],
                    )
                    &&& #[trigger] all_lowered(
                        ast.expr_else_ifs@,
                        branches.skip(1),
                        first,
                        second,
                        else_if_step(env, ast.span),
                    )
                    &&& if ast.expr_else is Some {
                        model::block(env, second, None, ast.expr_else->0) == (
                            end,
                            Ok::<hir::Block, CompileError>(hir.kind->If_0.fallback->0),
                        )
                    } else {
                        end == second
                    }
                }
        }),
{
    let x = ast::Expr::If(Box::new(ast));
    reveal(model::expr_rule);
    reveal(ast::expr_span);
    assert(model::expr(env, st, x) == model::expr_rule(env, st, x));
    let (first, branch) = model::first_branch(env, resolving(st), ast);
    let asts = ast.expr_else_ifs@;
    let one = seq![branch->Ok_0];
    lemma_else_ifs(env, first, asts, ast.span, 0, one, seq![first]);
    let (second, branches) = model::else_ifs(env, first, asts, ast.span, 0, one);
    lemma_listed(branches->Ok_0);
    assert(is_branch(
        env,
        resolving(st),
        ast.condition,
        ast.block,
        ast.span,
        first,
        branches->Ok_0[0],
    ));
}

/// Test if a branch of a `match` is lowered in a scope of its own: the pattern
/// first, then the further condition, if there is one, and then the body.
pub open spec fn is_match_branch(
    env: Env,
    st: State,
    ast: ast::ExprMatchBranch,
    end: State,
    hir: hir::ExprMatchBranch,
) -> bool {
    let (s1, pat) = model::pat_binding(env, st.pushed(LayerKind::Block(None)), ast.pat);
    let (s2, condition) = model::optional(env, s1, ast.condition);
    let (s3, body) = model::expr(env, s2, ast.body);
    &&& hir.span == ast.span
    &&& pat == Ok::<hir::PatBinding, CompileError>(hir.pat)
    &&& condition == Ok::<Option<Box<hir::Expr>>, CompileError>(hir.condition)
    &&& hir.condition is Some == ast.condition is Some
    &&& body == Ok::<hir::Expr, CompileError>(hir.body)
    &&& is_left(s3, ast.span, hir.drop, end)
}

/// One step of lowering the branches of a `match` in turn.
pub open spec fn match_step(env: Env) -> spec_fn(
    State,
    ast::ExprMatchBranch,
    State,
    hir::ExprMatchBranch,
) -> bool {
    |st: State, ast: ast::ExprMatchBranch, end: State, hir: hir::ExprMatchBranch|
        is_match_branch(env, st, ast, end, hir)
}

/// The branches of a `match` are lowered in turn.
proof fn lemma_match_branches(
    env: Env,
    st: State,
    asts: Seq<ast::ExprMatchBranch>,
    i: int,
    done: Seq<hir::ExprMatchBranch>,
    states: Seq<State>,
)
    requires
        0 <= i <= asts.len(),
        done.len() == i,
        states.len() == i + 1,
        states[i] == st,
        forall|j: int|
            0 <= j < i ==> match_step(env)(#[trigger] states[j], asts[j], states[j + 1], done[j]),
        model::match_branches(env, st, asts, i, done).1 is Ok,
    ensures
        ({
            let (end, r) = model::match_branches(env, st, asts, i, done);
            all_lowered(asts, r->Ok_0, states[0], end, match_step(env))
        }),
    decreases asts.len() - i,
{
    if i < asts.len() {
        let (next, item) = model::match_branch(env, st, asts[i]);
        let (s1, _) = model::pat_binding(env, st.pushed(LayerKind::Block(None)), asts[i].pat);
        lemma_optional(env, s1, asts[i].condition);
        let more = states.push(next);
        let items = done.push(item->Ok_0);
        assert forall|j: int| 0 <= j < i + 1 implies match_step(env)(
            #[trigger] more[j],
            asts[j],
            more[j + 1],
            items[j],
        ) by {
            if j < i {
                assert(more[j] == states[j] && more[j + 1] == states[j + 1]);
            }
        }
        lemma_match_branches(env, next, asts, i + 1, items, more);
    } else {
        assert(in_turn(asts, done, states, states[0], st, match_step(env)));
    }
}

/// A `match` is lowered to what is matched, and then to all of its branches, in
/// order.
pub proof fn lemma_match(env: Env, st: State, ast: ast::ExprMatch)
    requires
        model::expr(env, st, ast::Expr::Match(Box::new(ast))).1 is Ok,
    ensures
        ({
            let (end, r) = model::expr(env, st, ast::Expr::Match(Box::new(ast)));
            let hir = r->Ok_0;
            let (middle, expr) = model::expr(env, resolving(st), ast.expr);
            &&& hir.span == ast.span
            &&& hir.kind is Match
            &&& expr == Ok::<hir::Expr, CompileError>(hir.kind->Match_0.expr)
            &&& all_lowered(
                ast.branches@,
                hir.kind->Match_0.branches@,
                middle,
                end,
                match_step(env),
            )
        }),
{
    let x = ast::Expr::Match(Box::new(ast));
    reveal(model::expr_rule);
    reveal(ast::expr_span);
    assert(model::expr(env, st, x) == model::expr_rule(env, st, x));
    let (middle, _) = model::expr(env, resolving(st), ast.expr);
    let none = Seq::<hir::ExprMatchBranch>::empty();
    lemma_match_branches(env, middle, ast.branches@, 0, none, seq![middle]);
    lemma_listed(model::match_branches(env, middle, ast.branches@, 0, none).1->Ok_0);
}

/// A `let` that is used as an expression binds its pattern before what is bound
/// is lowered.
pub proof fn lemma_let(env: Env, st: State, ast: ast::ExprLet)
    requires
        model::expr(env, st, ast::Expr::Let(Box::new(ast))).1 is Ok,
    ensures
        ({
            let (end, r) = model::expr(env, st, ast::Expr::Let(Box::new(ast)));
            let hir = r->Ok_0;
            let (middle, pat) = model::pat_binding(env, resolving(st), ast.pat);
            &&& hir.span == ast.span
            &&& hir.kind is Let
            &&& pat == Ok::<hir::PatBinding, CompileError>(hir.kind->Let_0.pat)
            &&& model::expr(env, middle, ast.expr) == (
                end,
                Ok::<hir::Expr, CompileError>(hir.kind->Let_0.expr),
            )
        }),
{
    let x = ast::Expr::Let(Box::new(ast));
    reveal(model::expr_rule);
    reveal(ast::expr_span);
    assert(model::expr(env, st, x) == model::expr_rule(env, st, x));
}

/// A `break` has the label that was written, the value that was written and the
/// variables that leaving the loop drops. One that has nothing to leave is an
/// error, with the label if there is one.
pub proof fn lemma_break(env: Env, st: State, ast: ast::ExprBreak)
    ensures
        ({
            let (end, r) = model::expr(env, st, ast::Expr::Break(Box::new(ast)));
            let label = match ast.label {
                Some(label) => Some(label.text->Ok_0),
                None => None,
            };
            let layers = st.scopes.layers.len() as int;
            let dropped = st.scopes.dropped(label, layers);
            &&& r is Ok ==> {
                &&& r->Ok_0.span == ast.span
                &&& r->Ok_0.kind is Break
                &&& is_label(ast.label, r->Ok_0.kind->Break_0.label)
                &&& dropped == Some(r->Ok_0.kind->Break_0.drop)
                &&& r->Ok_0.kind->Break_0.expr is Some == ast.expr is Some
                &&& model::optional(env, resolving(st), ast.expr) == (
                    end,
                    Ok::<Option<Box<hir::Expr>>, CompileError>(r->Ok_0.kind->Break_0.expr),
                )
            }
            &&& dropped is None && ast.label is None ==> r is Err && r->Err_0.span == ast.span
                && r->Err_0.kind == ErrorKind::BreakUnsupported
            &&& dropped is None && ast.label is Some && ast.label->0.text is Ok ==> r is Err
                && r->Err_0.span == ast.span && r->Err_0.kind == (ErrorKind::MissingLabel {
                label: label->0,
            })
        }),
{
    let x = ast::Expr::Break(Box::new(ast));
    reveal(model::expr_rule);
    reveal(ast::expr_span);
    reveal(rules::label_text);
    assert(model::expr(env, st, x) == model::expr_rule(env, st, x));
    lemma_optional(env, resolving(st), ast.expr);
}

/// A `continue` has the label that was written and the variables that leaving the
/// body of the loop drops. One that has nothing to continue is an error, with the
/// label if there is one.
pub proof fn lemma_continue(env: Env, st: State, ast: ast::ExprContinue)
    ensures
        ({
            let (end, r) = model::expr(env, st, ast::Expr::Continue(Box::new(ast)));
            let label = match ast.label {
                Some(label) => Some(label.text->Ok_0),
                None => None,
            };
            let layers = st.scopes.layers.len() as int;
            let dropped = st.scopes.dropped(label, layers);
            &&& end == resolving(st)
            &&& r is Ok ==> {
                &&& r->Ok_0.span == ast.span
                &&& r->Ok_0.kind is Continue
                &&& is_label(ast.label, r->Ok_0.kind->Continue_0.label)
                &&& dropped == Some(r->Ok_0.kind->Continue_0.drop)
            }
            &&& dropped is Some && (ast.label is Some ==> ast.label->0.text is Ok) ==> r is Ok
            &&& dropped is None && ast.label is None ==> r is Err && r->Err_0.span == ast.span
                && r->Err_0.kind == ErrorKind::ContinueUnsupported
            &&& dropped is None && ast.label is Some && ast.label->0.text is Ok ==> r is Err
                && r->Err_0.span == ast.span && r->Err_0.kind == (ErrorKind::MissingLabel {
                label: label->0,
            })
        }),
{
    let x = ast::Expr::Continue(Box::new(ast));
    reveal(model::expr_rule);
    reveal(ast::expr_span);
    reveal(rules::label_text);
    assert(model::expr(env, st, x) == model::expr_rule(env, st, x));
}

/// A `yield` or `return` has a value exactly if one was written, which is its
/// lowering.
pub proof fn lemma_yield_return(env: Env, st: State, ast: ast::ExprOption)
    ensures
        ({
            let (end, r) = model::expr(env, st, ast::Expr::Yield(Box::new(ast)));
            r is Ok ==> {
                &&& r->Ok_0.span == ast.span
                &&& r->Ok_0.kind is Yield
                &&& r->Ok_0.kind->Yield_0 is Some == ast.expr is Some
                &&& model::optional(env, resolving(st), ast.expr) == (
                    end,
                    Ok::<Option<Box<hir::Expr>>, CompileError>(r->Ok_0.kind->Yield_0),
                )
            }
        }),
        ({
            let (end, r) = model::expr(env, st, ast::Expr::Return(Box::new(ast)));
            r is Ok ==> {
                &&& r->Ok_0.span == ast.span
                &&& r->Ok_0.kind is Return
                &&& r->Ok_0.kind->Return_0 is Some == ast.expr is Some
                &&& model::optional(env, resolving(st), ast.expr) == (
                    end,
                    Ok::<Option<Box<hir::Expr>>, CompileError>(r->Ok_0.kind->Return_0),
                )
            }
        }),
{
    let x = ast::Expr::Yield(Box::new(ast));
    let y = ast::Expr::Return(Box::new(ast));
    reveal(model::expr_rule);
    reveal(ast::expr_span);
    assert(model::expr(env, st, x) == model::expr_rule(env, st, x));
    assert(model::expr(env, st, y) == model::expr_rule(env, st, y));
    lemma_optional(env, resolving(st), ast.expr);
}

} // verus!
