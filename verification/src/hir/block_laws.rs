//! Laws of how blocks and functions are lowered.

use vstd::prelude::*;
use crate::ast;
use crate::compile::error::CompileError;
use crate::hir;
use crate::hir::control_laws::{
    all_lowered, expr_step, in_turn, is_label, is_left, lemma_exprs, lemma_listed,
};
use crate::hir::ctxt::{Env, State};
use crate::hir::model;
use crate::hir::rules;
use crate::hir::scopes::LayerKind;
use crate::hir::Name;
use crate::span::Span;

verus! {

/// The state behind a statement, whose parts have been taken from the buffer.
pub open spec fn taken(st: State) -> State {
    State { buffer: Seq::empty(), ..st }
}

/// Test if a statement is lowered to its pieces. An item has none, an expression
/// itself, and a local what is in the buffer behind it.
pub open spec fn is_piece(
    env: Env,
    st: State,
    ast: ast::Stmt,
    end: State,
    piece: Seq<hir::Stmt>,
) -> bool {
    match ast {
        ast::Stmt::Item(_) => piece.len() == 0 && end == st,
        ast::Stmt::Semi(ast) => {
            let (last, r) = model::expr(env, st, ast);
            &&& r is Ok
            &&& piece == last.buffer.push(hir::Stmt::Expr(Box::new(r->Ok_0)))
            &&& end == taken(last)
        },
        ast::Stmt::Expr(ast) => {
            let (last, r) = model::expr(env, st, ast);
            &&& r is Ok
            &&& piece == last.buffer.push(hir::Stmt::Expr(Box::new(r->Ok_0)))
            &&& end == taken(last)
        },
        ast::Stmt::Local(ast) => {
            let (last, r) = model::local_stmt(env, st, *ast);
            &&& r is Ok
            &&& piece == last.buffer
            &&& end == taken(last)
        },
    }
}

/// Test if the first `n` statements of a block are lowered in turn, each one to
/// its pieces.
pub open spec fn is_pieces(
    env: Env,
    asts: Seq<ast::Stmt>,
    n: int,
    states: Seq<State>,
    pieces: Seq<Seq<hir::Stmt>>,
) -> bool {
    &&& states.len() == n + 1
    &&& pieces.len() == n
    &&& forall|i: int|
        0 <= i < n ==> is_piece(env, states[i], #[trigger] asts[i], states[i + 1], pieces[i])
}

/// Test if no expression without a semicolon leaves anything in the buffer.
pub open spec fn is_calm(env: Env, asts: Seq<ast::Stmt>, n: int, states: Seq<State>) -> bool {
    forall|i: int|
        0 <= i < n && #[trigger] asts[i] is Expr ==> model::expr(
            env,
            states[i],
            asts[i]->Expr_0,
        ).0.buffer.len() == 0
}

/// Test if the last of the first `n` statements that is not an item is an
/// expression without a semicolon.
pub open spec fn ends_in_expr(asts: Seq<ast::Stmt>, n: int) -> bool {
    exists|i: int|
        {
            &&& 0 <= i < n
            &&& #[trigger] asts[i] is Expr
            &&& forall|j: int| i < j < n ==> #[trigger] asts[j] is Item
        }
}

/// The value of a block as its last statement.
pub open spec fn as_stmt(value: Option<Box<hir::Expr>>) -> Seq<hir::Stmt> {
    match value {
        Some(value) => seq![hir::Stmt::Expr(value)],
        None => Seq::empty(),
    }
}

/// Pieces that are put together with one more.
proof fn lemma_flatten_push<T>(pieces: Seq<Seq<T>>, piece: Seq<T>)
    ensures
        pieces.push(piece).flatten() == pieces.flatten() + piece,
{
    let all = pieces.push(piece);
    all.lemma_flatten_and_flatten_alt_are_equivalent();
    pieces.lemma_flatten_and_flatten_alt_are_equivalent();
    assert(all.drop_last() =~= pieces);
}

/// Whether statements end in an expression is decided by the last one, or by those
/// before it if it is an item.
proof fn lemma_ends_in_expr(asts: Seq<ast::Stmt>, n: int)
    requires
        0 <= n < asts.len(),
    ensures
        asts[n] is Item ==> ends_in_expr(asts, n + 1) == ends_in_expr(asts, n),
        !(asts[n] is Item) ==> ends_in_expr(asts, n + 1) == (asts[n] is Expr),
{
    if asts[n] is Item && ends_in_expr(asts, n + 1) {
        let i = choose|i: int|
            {
                &&& 0 <= i < n + 1
                &&& #[trigger] asts[i] is Expr
                &&& forall|j: int| i < j < n + 1 ==> #[trigger] asts[j] is Item
            };
        assert(0 <= i < n && asts[i] is Expr);
        assert(forall|j: int| i < j < n ==> #[trigger] asts[j] is Item);
    }
    if asts[n] is Item && ends_in_expr(asts, n) {
        let i = choose|i: int|
            {
                &&& 0 <= i < n
                &&& #[trigger] asts[i] is Expr
                &&& forall|j: int| i < j < n ==> #[trigger] asts[j] is Item
            };
        assert(forall|j: int| i < j < n + 1 ==> #[trigger] asts[j] is Item);
    }
    if asts[n] is Expr {
        assert(forall|j: int| n < j < n + 1 ==> #[trigger] asts[j] is Item);
    }
    if asts[n] is Semi || asts[n] is Local {
        assert forall|i: int|
            0 <= i < n + 1 && #[trigger] asts[i] is Expr implies exists|j: int|
            i < j < n + 1 && !(#[trigger] asts[j] is Item) by {
            assert(!(asts[n] is Item));
        }
    }
}

/// Test if an expression without a semicolon leaves nothing in the buffer.
spec fn is_calm_at(env: Env, st: State, ast: ast::Stmt) -> bool {
    ast is Expr ==> model::expr(env, st, ast->Expr_0).0.buffer.len() == 0
}

/// One statement of a block is lowered: the statements so far and the value so far
/// get its pieces behind them.
#[verifier::spinoff_prover]
proof fn lemma_stmt(
    env: Env,
    st: State,
    asts: Seq<ast::Stmt>,
    i: int,
    done: Seq<hir::Stmt>,
    value: Option<Box<hir::Expr>>,
) -> (r: (State, Seq<hir::Stmt>, Seq<hir::Stmt>, Option<Box<hir::Expr>>))
    requires
        0 <= i < asts.len(),
        model::stmts(env, st, asts, i, done, value).1 is Ok,
    ensures
        model::stmts(env, st, asts, i, done, value) == model::stmts(
            env,
            r.0,
            asts,
            i + 1,
            r.2,
            r.3,
        ),
        is_piece(env, st, asts[i], r.0, r.1),
        asts[i] is Item ==> r.3 == value,
        !(asts[i] is Item) ==> r.3 is Some == asts[i] is Expr,
        is_calm_at(env, st, asts[i]) ==> done + as_stmt(value) + r.1 == r.2 + as_stmt(r.3),
{
    let none: Option<Box<hir::Expr>> = None;
    match asts[i] {
        ast::Stmt::Item(_) => {
            assert(done + as_stmt(value) + Seq::<hir::Stmt>::empty() =~= done + as_stmt(value));
            assert(model::stmts(env, st, asts, i, done, value) == model::stmts(
                env,
                st,
                asts,
                i + 1,
                done,
                value,
            ));
            (st, Seq::empty(), done, value)
        },
        ast::Stmt::Semi(ast) => {
            let (t, r) = model::expr(env, st, ast);
            let buffer = t.buffer.push(hir::Stmt::Expr(Box::new(r->Ok_0)));
            let after = model::flushed(done, value, buffer);
            assert(done + as_stmt(value) + buffer =~= after + as_stmt(none));
            assert(model::stmt(env, st, asts[i], value).0.buffer == buffer);
            assert(taken(model::stmt(env, st, asts[i], value).0) == taken(t));
            assert(model::stmts(env, st, asts, i, done, value) == model::stmts(
                env,
                taken(t),
                asts,
                i + 1,
                after,
                none,
            ));
            (taken(t), buffer, after, none)
        },
        ast::Stmt::Expr(ast) => {
            let (t, r) = model::expr(env, st, ast);
            let hir = Box::new(r->Ok_0);
            let buffer = match value {
                Some(value) => t.buffer.push(hir::Stmt::Expr(value)),
                None => t.buffer,
            };
            let piece = t.buffer.push(hir::Stmt::Expr(hir));
            let after = model::flushed(done, None, buffer);
            if t.buffer.len() == 0 {
                assert(done + as_stmt(value) + piece =~= after + as_stmt(Some(hir)));
            }
            assert(model::stmt(env, st, asts[i], value).0.buffer == buffer);
            assert(taken(model::stmt(env, st, asts[i], value).0) == taken(t));
            assert(model::stmts(env, st, asts, i, done, value) == model::stmts(
                env,
                taken(t),
                asts,
                i + 1,
                after,
                Some(hir),
            ));
            (taken(t), piece, after, Some(hir))
        },
        ast::Stmt::Local(ast) => {
            let (t, _) = model::local_stmt(env, st, *ast);
            let after = model::flushed(done, value, t.buffer);
            assert(done + as_stmt(value) + t.buffer =~= after + as_stmt(none));
            assert(model::stmts(env, st, asts, i, done, value) == model::stmts(
                env,
                taken(t),
                asts,
                i + 1,
                after,
                none,
            ));
            (taken(t), t.buffer, after, none)
        },
    }
}

/// One more statement of a block is lowered.
proof fn lemma_pieces_push(
    env: Env,
    asts: Seq<ast::Stmt>,
    i: int,
    states: Seq<State>,
    pieces: Seq<Seq<hir::Stmt>>,
    next: State,
    piece: Seq<hir::Stmt>,
)
    requires
        0 <= i < asts.len(),
        is_pieces(env, asts, i, states, pieces),
        is_piece(env, states[i], asts[i], next, piece),
    ensures
        is_pieces(env, asts, i + 1, states.push(next), pieces.push(piece)),
        is_calm(env, asts, i + 1, states.push(next)) ==> is_calm(env, asts, i, states)
            && is_calm_at(env, states[i], asts[i]),
{
    let more = states.push(next);
    let parts = pieces.push(piece);
    assert forall|j: int| 0 <= j < i + 1 implies is_piece(
        env,
        more[j],
        #[trigger] asts[j],
        more[j + 1],
        parts[j],
    ) by {
        if j < i {
            assert(is_piece(env, states[j], asts[j], states[j + 1], pieces[j]));
        }
    }
    if is_calm(env, asts, i + 1, more) {
        assert forall|j: int| 0 <= j < i && #[trigger] asts[j] is Expr implies model::expr(
            env,
            states[j],
            asts[j]->Expr_0,
        ).0.buffer.len() == 0 by {
            assert(more[j] == states[j]);
        }
        assert(more[i] == states[i]);
    }
}

/// The statements of a block are lowered in turn.
proof fn lemma_stmts(
    env: Env,
    st: State,
    asts: Seq<ast::Stmt>,
    i: int,
    done: Seq<hir::Stmt>,
    value: Option<Box<hir::Expr>>,
    states: Seq<State>,
    pieces: Seq<Seq<hir::Stmt>>,
)
    requires
        0 <= i <= asts.len(),
        is_pieces(env, asts, i, states, pieces),
        states[i] == st,
        value is Some == ends_in_expr(asts, i),
        is_calm(env, asts, i, states) ==> pieces.flatten() == done + as_stmt(value),
        model::stmts(env, st, asts, i, done, value).1 is Ok,
    ensures
        ({
            let (end, r) = model::stmts(env, st, asts, i, done, value);
            exists|all: Seq<State>, parts: Seq<Seq<hir::Stmt>>|
                {
                    &&& #[trigger] is_pieces(env, asts, asts.len() as int, all, parts)
                    &&& all[0] == states[0]
                    &&& all.last() == end
                    &&& r->Ok_0.1 is Some == ends_in_expr(asts, asts.len() as int)
                    &&& is_calm(env, asts, asts.len() as int, all) ==> parts.flatten()
                        == r->Ok_0.0 + as_stmt(r->Ok_0.1)
                }
        }),
    decreases asts.len() - i,
{
    if i < asts.len() {
        lemma_ends_in_expr(asts, i);
        let (next, piece, after, last) = lemma_stmt(env, st, asts, i, done, value);
        let more = states.push(next);
        lemma_pieces_push(env, asts, i, states, pieces, next, piece);
        lemma_flatten_push(pieces, piece);
        assert(more[0] == states[0]);
        lemma_stmts(env, next, asts, i + 1, after, last, more, pieces.push(piece));
    } else {
        assert(is_pieces(env, asts, asts.len() as int, states, pieces));
    }
}

/// A block has all of its statements, in order. Its value is its last expression,
/// if that has no semicolon and nothing but items behind it. An expression without
/// a semicolon before that is a statement like any other.
pub proof fn lemma_block(env: Env, st: State, label: Option<ast::Label>, ast: ast::Block)
    requires
        model::block(env, st, label, ast).1 is Ok,
    ensures
        ({
            let (end, r) = model::block(env, st, label, ast);
            let hir = r->Ok_0;
            let asts = ast.statements@;
            &&& hir.span == ast.span
            &&& is_label(label, hir.label)
            &&& hir.value is Some == ends_in_expr(asts, asts.len() as int)
            &&& exists|states: Seq<State>, pieces: Seq<Seq<hir::Stmt>>|
                {
                    &&& #[trigger] is_pieces(env, asts, asts.len() as int, states, pieces)
                    &&& states[0] == st.pushed(LayerKind::Block(hir.label))
                    &&& is_left(states.last(), ast.span, hir.drop, end)
                    &&& is_calm(env, asts, asts.len() as int, states) ==> pieces.flatten()
                        == hir.statements@ + as_stmt(hir.value)
                }
        }),
{
    reveal(model::block_rule);
    assert(model::block(env, st, label, ast) == model::block_rule(env, st, label, ast));
    lemma_statements(env, st, label, ast.statements@, ast.span);
}

/// The statements of a block are lowered in a scope of their own.
proof fn lemma_statements(
    env: Env,
    st: State,
    label: Option<ast::Label>,
    asts: Seq<ast::Stmt>,
    span: Span,
)
    requires
        model::statements(env, st, label, asts, span).1 is Ok,
    ensures
        ({
            let (end, r) = model::statements(env, st, label, asts, span);
            let hir = r->Ok_0;
            &&& hir.span == span
            &&& is_label(label, hir.label)
            &&& hir.value is Some == ends_in_expr(asts, asts.len() as int)
            &&& exists|states: Seq<State>, pieces: Seq<Seq<hir::Stmt>>|
                {
                    &&& #[trigger] is_pieces(env, asts, asts.len() as int, states, pieces)
                    &&& states[0] == st.pushed(LayerKind::Block(hir.label))
                    &&& is_left(states.last(), span, hir.drop, end)
                    &&& is_calm(env, asts, asts.len() as int, states) ==> pieces.flatten()
                        == hir.statements@ + as_stmt(hir.value)
                }
        }),
{
    reveal(rules::label_text);
    let text = rules::label_text(label)->Ok_0;
    let inside = st.pushed(LayerKind::Block(text));
    let none = Seq::<hir::Stmt>::empty();
    let pieces = Seq::<Seq<hir::Stmt>>::empty();
    assert(pieces.flatten() =~= none + as_stmt(None));
    lemma_stmts(env, inside, asts, 0, none, None, seq![inside], pieces);
    lemma_listed(model::stmts(env, inside, asts, 0, none, None).1->Ok_0.0);
}

/// A local as a statement.
pub open spec fn local_of(span: Span, pat: hir::PatBinding, expr: hir::Expr) -> hir::Stmt {
    hir::Stmt::Local(Box::new(hir::Local { span, pat, expr }))
}

/// Test if a local can be taken apart: its pattern is one name, or it is a tuple
/// without `..` that is bound to a tuple of the same length.
pub open spec fn is_unpacked(env: Env, ast: ast::Local) -> bool {
    &&& env.lowering > 0
    &&& !ast.attributes
    &&& {
        ||| ast.pat is Path && ast.pat->Path_0.path.ident() is Some
        ||| {
            &&& ast.pat is Tuple
            &&& ast.expr is Tuple
            &&& ast.pat->Tuple_0.items@.len() == ast.expr->Tuple_0.items@.len()
            &&& forall|i: int|
                0 <= i < ast.pat->Tuple_0.items@.len() ==> !(
                #[trigger] ast.pat->Tuple_0.items@[i] is Rest)
        }
    }
}

/// What is bound by a local is lowered before its pattern, so that the variables
/// of the pattern are not in scope there. The local is one statement, unless it is
/// a tuple that can be taken apart.
pub proof fn lemma_local(env: Env, st: State, ast: ast::Local)
    requires
        model::local_stmt(env, st, ast).1 is Ok,
        !is_unpacked(env, ast) || ast.pat is Path,
    ensures
        ({
            let (end, r) = model::local_stmt(env, st, ast);
            let (s1, expr) = model::expr(env, st, ast.expr);
            let (s2, pat) = model::pat_binding(env, s1, ast.pat);
            let span = if is_unpacked(env, ast) {
                pat->Ok_0.pat.span.joined(expr->Ok_0.span)
            } else {
                ast.span
            };
            &&& expr is Ok
            &&& pat is Ok
            &&& end == s2.buffering(local_of(span, pat->Ok_0, expr->Ok_0))
        }),
{
    if ast.pat is Tuple {
        assert(ast.pat->Tuple_0.items@.len() == 0 || ast.pat->Tuple_0.items@.len() > 0);
        if model::has_rest(ast.pat->Tuple_0.items@) {
            let i = choose|i: int|
                0 <= i < ast.pat->Tuple_0.items@.len()
                    && #[trigger] ast.pat->Tuple_0.items@[i] is Rest;
            assert(ast.pat->Tuple_0.items@[i] is Rest);
        }
    }
}

/// A pattern and what is bound to it.
pub open spec fn pairs(pats: Seq<ast::Pat>, exprs: Seq<hir::Expr>) -> Seq<(ast::Pat, hir::Expr)> {
    Seq::new(pats.len(), |i: int| (pats[i], exprs[i]))
}

/// One step of binding the items of a tuple in turn, each one by a local of its
/// own.
pub open spec fn unpack_step(env: Env) -> spec_fn(
    State,
    (ast::Pat, hir::Expr),
    State,
    hir::Stmt,
) -> bool {
    |st: State, pair: (ast::Pat, hir::Expr), end: State, stmt: hir::Stmt|
        {
            let (middle, pat) = model::pat_binding(env, st, pair.0);
            &&& pat is Ok
            &&& stmt == local_of(pat->Ok_0.pat.span.joined(pair.1.span), pat->Ok_0, pair.1)
            &&& end == middle.buffering(stmt)
        }
}

/// The items of a tuple are bound in turn.
proof fn lemma_unpack_items(
    env: Env,
    st: State,
    pats: Seq<ast::Pat>,
    exprs: Seq<hir::Expr>,
    i: int,
    done: Seq<hir::Stmt>,
    states: Seq<State>,
) -> (all: Seq<hir::Stmt>)
    requires
        0 <= i <= pats.len(),
        pats.len() == exprs.len(),
        done.len() == i,
        states.len() == i + 1,
        states[i] == st,
        forall|j: int|
            0 <= j < i ==> unpack_step(env)(
                #[trigger] states[j],
                pairs(pats, exprs)[j],
                states[j + 1],
                done[j],
            ),
        model::unpack_items(env, st, pats, exprs, i).1 is Ok,
    ensures
        model::unpack_items(env, st, pats, exprs, i).1->Ok_0,
        all_lowered(
            pairs(pats, exprs),
            all,
            states[0],
            model::unpack_items(env, st, pats, exprs, i).0,
            unpack_step(env),
        ),
    decreases pats.len() - i,
{
    if i < pats.len() {
        let (middle, pat) = model::pat_binding(env, st, pats[i]);
        let stmt = model::unpacked(pat->Ok_0, exprs[i]);
        let next = middle.buffering(stmt);
        let more = states.push(next);
        let stmts = done.push(stmt);
        assert forall|j: int| 0 <= j < i + 1 implies unpack_step(env)(
            #[trigger] more[j],
            pairs(pats, exprs)[j],
            more[j + 1],
            stmts[j],
        ) by {
            if j < i {
                assert(more[j] == states[j] && more[j + 1] == states[j + 1]);
            }
        }
        assert(more[0] == states[0]);
        assert(model::unpack_items(env, st, pats, exprs, i) == model::unpack_items(
            env,
            next,
            pats,
            exprs,
            i + 1,
        ));
        lemma_unpack_items(env, next, pats, exprs, i + 1, stmts, more)
    } else {
        assert(in_turn(pairs(pats, exprs), done, states, states[0], st, unpack_step(env)));
        done
    }
}

/// A tuple that can be taken apart is bound by one local for each of its items, in
/// order. All that is bound is lowered before the first pattern.
pub proof fn lemma_local_unpacked(env: Env, st: State, ast: ast::Local)
    requires
        model::local_stmt(env, st, ast).1 is Ok,
        is_unpacked(env, ast),
        ast.pat is Tuple,
    ensures
        ({
            let end = model::local_stmt(env, st, ast).0;
            let pats = ast.pat->Tuple_0.items@;
            exists|middle: State, exprs: Seq<hir::Expr>, stmts: Seq<hir::Stmt>|
                {
                    &&& #[trigger] all_lowered(
                        ast.expr->Tuple_0.items@,
                        exprs,
                        st,
                        middle,
                        expr_step(env),
                    )
                    &&& #[trigger] all_lowered(
                        pairs(pats, exprs),
                        stmts,
                        middle,
                        end,
                        unpack_step(env),
                    )
                }
        }),
{
    let pats = ast.pat->Tuple_0.items@;
    let items = ast.expr->Tuple_0.items@;
    if model::has_rest(pats) {
        let i = choose|i: int| 0 <= i < pats.len() && #[trigger] pats[i] is Rest;
        assert(ast.pat->Tuple_0.items@[i] is Rest);
    }
    let (middle, r) = model::exprs(env, st, items, 0, Seq::empty());
    lemma_exprs(env, st, items);
    let exprs = r->Ok_0;
    let states = choose|states: Seq<State>| #[trigger]
        in_turn(items, exprs, states, st, middle, expr_step(env));
    assert(exprs.len() == items.len());
    let stmts = lemma_unpack_items(env, middle, pats, exprs, 0, Seq::empty(), seq![middle]);
    assert(all_lowered(
        pairs(pats, exprs),
        stmts,
        middle,
        model::local_stmt(env, st, ast).0,
        unpack_step(env),
    ));
}

/// One step of lowering the arguments of a function in turn. `self` is defined as
/// a variable, and a pattern is bound.
pub open spec fn arg_step(env: Env) -> spec_fn(State, ast::FnArg, State, hir::FnArg) -> bool {
    |st: State, ast: ast::FnArg, end: State, hir: hir::FnArg|
        match ast {
            ast::FnArg::SelfValue(span) => hir is SelfValue && hir->SelfValue_0 == span
                && st.defined(Name::SelfValue, span) == (
                end,
                Ok::<hir::Variable, CompileError>(hir->SelfValue_1),
            ),
            ast::FnArg::Pat(pat) => hir is Pat && model::pat_binding(env, st, pat) == (
                end,
                Ok::<hir::PatBinding, CompileError>(*hir->Pat_0),
            ),
        }
}

/// The arguments of a function are lowered in turn.
proof fn lemma_fn_args_from(
    env: Env,
    st: State,
    asts: Seq<ast::FnArg>,
    i: int,
    done: Seq<hir::FnArg>,
    states: Seq<State>,
)
    requires
        0 <= i <= asts.len(),
        done.len() == i,
        states.len() == i + 1,
        states[i] == st,
        forall|j: int|
            0 <= j < i ==> arg_step(env)(#[trigger] states[j], asts[j], states[j + 1], done[j]),
        model::fn_args(env, st, asts, i, done).1 is Ok,
    ensures
        all_lowered(
            asts,
            model::fn_args(env, st, asts, i, done).1->Ok_0,
            states[0],
            model::fn_args(env, st, asts, i, done).0,
            arg_step(env),
        ),
    decreases asts.len() - i,
{
    if i < asts.len() {
        let (next, item) = model::fn_arg(env, st, asts[i]);
        let more = states.push(next);
        let items = done.push(item->Ok_0);
        assert forall|j: int| 0 <= j < i + 1 implies arg_step(env)(
            #[trigger] more[j],
            asts[j],
            more[j + 1],
            items[j],
        ) by {
            if j < i {
                assert(more[j] == states[j] && more[j + 1] == states[j + 1]);
            }
        }
        lemma_fn_args_from(env, next, asts, i + 1, items, more);
    } else {
        assert(in_turn(asts, done, states, states[0], st, arg_step(env)));
    }
}

/// The arguments of a function are lowered in turn.
pub proof fn lemma_fn_args(env: Env, st: State, asts: Seq<ast::FnArg>)
    requires
        model::fn_args(env, st, asts, 0, Seq::empty()).1 is Ok,
    ensures
        all_lowered(
            asts,
            model::fn_args(env, st, asts, 0, Seq::empty()).1->Ok_0,
            st,
            model::fn_args(env, st, asts, 0, Seq::empty()).0,
            arg_step(env),
        ),
{
    lemma_fn_args_from(env, st, asts, 0, Seq::empty(), seq![st]);
}

/// A function has all of its arguments, in order, and then its body, in which they
/// are in scope.
pub proof fn lemma_item_fn(env: Env, st: State, ast: ast::ItemFn)
    requires
        model::item_fn(env, st, ast).1 is Ok,
    ensures
        ({
            let (end, r) = model::item_fn(env, st, ast);
            let hir = r->Ok_0;
            let middle = model::fn_args(env, st, ast.args@, 0, Seq::empty()).0;
            &&& hir.span == ast.span
            &&& all_lowered(ast.args@, hir.args@, st, middle, arg_step(env))
            &&& model::block(env, middle, None, ast.body) == (
                end,
                Ok::<hir::Block, CompileError>(hir.body),
            )
        }),
{
    lemma_fn_args(env, st, ast.args@);
    lemma_listed(model::fn_args(env, st, ast.args@, 0, Seq::empty()).1->Ok_0);
}

/// A function without arguments has the statements of the block that it is made
/// of, as the block itself has.
pub proof fn lemma_empty_fn(env: Env, st: State, ast: ast::EmptyBlock, block: ast::Block)
    requires
        block.statements == ast.statements,
    ensures
        ({
            let (end, r) = model::empty_fn(env, st, ast, block.span);
            match model::block(env, st, None, block) {
                (last, Ok(body)) => end == last && r is Ok && r->Ok_0.span == block.span
                    && r->Ok_0.args@.len() == 0 && r->Ok_0.body == body,
                (last, Err(e)) => end == last && r == Err::<hir::ItemFn, CompileError>(e),
            }
        }),
{
    reveal(model::block_rule);
    assert(model::block(env, st, None, block) == model::block_rule(env, st, None, block));
}

} // verus!
