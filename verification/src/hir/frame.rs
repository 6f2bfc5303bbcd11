//! What a successful step of lowering leaves as it was.

use vstd::prelude::*;
use crate::hir::ctxt::{Diagnostic, State};
use crate::hir::scopes::{LayerKind, ScopesView};
use crate::hir::{Name, SecondaryBuildEntry, Stmt};
use crate::query::ItemId;
use crate::span::Span;

verus! {

/// Every state follows itself.
pub broadcast proof fn lemma_follows_self(st: State)
    ensures
        #[trigger] st.follows(st),
{
    reveal(State::follows);
}

/// What follows a state follows all states that it follows.
pub broadcast proof fn lemma_follows_trans(a: State, b: State, c: State)
    requires
        #[trigger] b.follows(a),
        #[trigger] c.follows(b),
    ensures
        c.follows(a),
{
    reveal(State::follows);
    lemma_prefix_trans(a.used, b.used, c.used);
    lemma_prefix_trans(a.diagnostics, b.diagnostics, c.diagnostics);
    lemma_prefix_trans(a.idents, b.idents, c.idents);
    if let (Some(x), Some(y)) = (a.builds, b.builds) {
        lemma_prefix_trans(x, y, c.builds->0);
    }
}

/// A prefix of a prefix is a prefix.
proof fn lemma_prefix_trans<T>(a: Seq<T>, b: Seq<T>, c: Seq<T>)
    requires
        a.is_prefix_of(b),
        b.is_prefix_of(c),
    ensures
        a.is_prefix_of(c),
{
    assert(a =~= c.subrange(0, a.len() as int)) by {
        assert forall|i: int| 0 <= i < a.len() implies a[i] == c[i] by {
            assert(a[i] == b.subrange(0, a.len() as int)[i]);
            assert(b[i] == c.subrange(0, b.len() as int)[i]);
        }
    }
}

/// Taking off the layer that a step was put into leads back to the layers
/// before.
pub broadcast proof fn lemma_follows_scoped(a: State, b: State, kind: LayerKind, span: Span)
    requires
        b.follows(#[trigger] a.pushed(kind)),
    ensures
        (#[trigger] b.popped(span)).1 is Ok,
        b.popped(span).0.follows(a),
{
    reveal(State::follows);
    reveal(ScopesView::pushed);
    reveal(ScopesView::popped);
    let inner = a.pushed(kind).scopes;
    let outer = b.popped(span).0.scopes;
    assert forall|i: int| 0 <= i < outer.layers.len() implies (#[trigger] outer.layers[i]).kind
        == a.scopes.layers[i].kind && outer.layers[i].variables == a.scopes.layers[i].variables by {
        assert(b.scopes.layers[i].kind == inner.layers[i].kind);
        assert(b.scopes.layers[i].variables == inner.layers[i].variables);
    }
}

/// Defining a variable is following.
pub broadcast proof fn lemma_follows_defined(st: State, name: Name, span: Span)
    ensures
        (#[trigger] st.defined(name, span)).0.follows(st),
{
    reveal(State::follows);
    reveal(ScopesView::defined);
}

/// Looking a variable up is following.
pub broadcast proof fn lemma_follows_found(st: State, name: Name)
    ensures
        (#[trigger] st.found(name)).0.follows(st),
{
    reveal(State::follows);
    reveal(ScopesView::found);
}

/// Using an item is following.
pub broadcast proof fn lemma_follows_using(st: State, item: ItemId)
    ensures
        (#[trigger] st.using(item)).follows(st),
{
    reveal(State::follows);
}

/// Queueing something to be built is following.
pub broadcast proof fn lemma_follows_building(st: State, entry: SecondaryBuildEntry)
    ensures
        (#[trigger] st.building(entry)).follows(st),
{
    reveal(State::follows);
}

/// Telling the user something is following.
pub broadcast proof fn lemma_follows_telling(st: State, diagnostic: Diagnostic)
    ensures
        (#[trigger] st.telling(diagnostic)).follows(st),
{
    reveal(State::follows);
}

/// Making an identifier known to a debugger is following.
pub broadcast proof fn lemma_follows_naming(st: State, ident: String)
    ensures
        (#[trigger] st.naming(ident)).follows(st),
{
    reveal(State::follows);
}

/// Binding a variable by a pattern is following.
pub broadcast proof fn lemma_follows_bound(st: State, name: Name, span: Span)
    ensures
        (#[trigger] st.bound(name, span)).0.follows(st),
{
    reveal(State::follows);
    reveal(ScopesView::defined);
}

/// A step that starts with an empty buffer of statements leaves it empty.
pub proof fn lemma_buffer_empty(before: State, after: State)
    requires
        after.follows(before),
        before.buffer.len() == 0,
    ensures
        after.buffer.len() == 0,
{
    reveal(State::follows);
}

/// Parts of a statement make up a statement.
pub broadcast proof fn lemma_states_trans(a: State, b: State, c: State)
    requires
        #[trigger] b.states(a),
        #[trigger] c.states(b),
    ensures
        c.states(a),
{
    reveal(State::follows);
    lemma_prefix_trans(a.used, b.used, c.used);
    lemma_prefix_trans(a.diagnostics, b.diagnostics, c.diagnostics);
    lemma_prefix_trans(a.idents, b.idents, c.idents);
    if let (Some(x), Some(y)) = (a.builds, b.builds) {
        lemma_prefix_trans(x, y, c.builds->0);
    }
}

/// A step can be part of a statement.
pub broadcast proof fn lemma_states_step(a: State, b: State)
    requires
        #[trigger] b.follows(a),
    ensures
        b.states(a),
{
    reveal(State::follows);
}

/// A statement can leave what it lowers to in the buffer.
pub broadcast proof fn lemma_states_buffering(a: State, b: State, stmt: Stmt)
    requires
        #[trigger] b.states(a),
    ensures
        (#[trigger] b.buffering(stmt)).states(a),
{
}

/// A statement is a step once the buffer has been emptied.
pub proof fn lemma_follows_flushed(a: State, b: State, c: State)
    requires
        b.follows(a),
        c.states(b),
    ensures
        (State { buffer: Seq::empty(), ..c }).follows(a),
{
    let d = State { buffer: b.buffer, ..c };
    lemma_follows_trans(a, b, d);
    reveal(State::follows);
}

/// What successful steps leave as it was.
pub broadcast group group_follows {
    lemma_follows_self,
    lemma_follows_trans,
    lemma_follows_scoped,
    lemma_follows_defined,
    lemma_follows_found,
    lemma_follows_using,
    lemma_follows_building,
    lemma_follows_telling,
    lemma_follows_naming,
    lemma_follows_bound,
}

/// What successful statements leave as it was.
pub broadcast group group_states {
    lemma_states_trans,
    lemma_states_step,
    lemma_states_buffering,
}

} // verus!
