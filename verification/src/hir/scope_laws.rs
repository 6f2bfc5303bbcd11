//! Laws of scopes.

use vstd::prelude::*;
use crate::compile::error::CompileError;
use crate::hir::scopes::{
    bound, captured, concat, is_target, only_variables, same_name, Layer, LayerKind, ScopesView,
};
use crate::hir::{Name, Variable};
use crate::list::{list_append, List};
use crate::span::Span;

verus! {

/// Taking a layer off undoes putting it on.
pub proof fn lemma_push_pop(s: ScopesView, kind: LayerKind, span: Span)
    ensures
        s.pushed(kind).popped(span) == (s, Ok::<Layer, CompileError>(Layer::empty(kind))),
{
    reveal(ScopesView::pushed);
    reveal(ScopesView::popped);
    assert(s.layers.push(Layer::empty(kind)).drop_last() =~= s.layers);
}

/// A name refers to the variable that was defined last with it, whatever it
/// referred to before. The variable is in the innermost layer, so that nothing
/// captures it.
pub proof fn lemma_defined_found(s: ScopesView, name: Name, span: Span)
    requires
        s.defined(name, span).1 is Ok,
    ensures
        s.defined(name, span).0.found(name) == (
            s.defined(name, span).0,
            Some(s.defined(name, span).1->Ok_0),
        ),
{
    reveal(ScopesView::defined);
    reveal(ScopesView::found);
    let after = s.defined(name, span).0;
    let n = after.layers.len() as int;
    assert(same_name(name, name));
    assert(bound(after.layers[n - 1].variables, name) is Some);
    assert(after.owner(name, n) == n);
    assert(after.found(name).0.layers =~= after.layers);
}

/// The layers up to `n` that are the same have the same owner of a name.
proof fn lemma_owner(a: ScopesView, b: ScopesView, name: Name, n: int)
    requires
        0 <= n <= a.layers.len(),
        n <= b.layers.len(),
        forall|i: int|
            0 <= i < n ==> bound((#[trigger] a.layers[i]).variables, name) == bound(
                b.layers[i].variables,
                name,
            ),
    ensures
        a.owner(name, n) == b.owner(name, n),
        0 <= a.owner(name, n) <= n,
        a.owner(name, n) > 0 ==> bound(a.layers[a.owner(name, n) - 1].variables, name) is Some,
    decreases n,
{
    if n > 0 {
        assert(bound(a.layers[n - 1].variables, name) == bound(b.layers[n - 1].variables, name));
        lemma_owner(a, b, name, n - 1);
    }
}

/// Defining a variable does not change what other names refer to.
pub proof fn lemma_defined_other(s: ScopesView, name: Name, span: Span, other: Name)
    requires
        s.defined(name, span).1 is Ok,
        !same_name(name, other),
    ensures
        s.defined(name, span).0.found(other).1 == s.found(other).1,
{
    reveal(ScopesView::defined);
    reveal(ScopesView::found);
    let after = s.defined(name, span).0;
    let n = s.layers.len() as int;
    assert forall|i: int| 0 <= i < n implies bound((#[trigger] after.layers[i]).variables, other)
        == bound(s.layers[i].variables, other) by {
        if i == n - 1 {
            assert(after.layers[i].variables == List::Cons(
                Box::new((name, s.defined(name, span).1->Ok_0)),
                Box::new(s.layers[i].variables),
            ));
        }
    }
    lemma_owner(after, s, other, n);
    let k = s.owner(other, n);
    if k > 0 {
        assert(bound(after.layers[k - 1].variables, other) == bound(
            s.layers[k - 1].variables,
            other,
        ));
    }
}

/// A variable that is defined in a layer is gone with the layer: names refer to
/// what they referred to before.
pub proof fn lemma_scope_ends(s: ScopesView, kind: LayerKind, name: Name, span: Span, other: Name)
    requires
        s.pushed(kind).defined(name, span).1 is Ok,
    ensures
        s.pushed(kind).defined(name, span).0.popped(span).0.layers == s.layers,
        s.pushed(kind).defined(name, span).0.popped(span).0.found(other).1 == s.found(other).1,
{
    reveal(ScopesView::pushed);
    reveal(ScopesView::defined);
    reveal(ScopesView::popped);
    reveal(ScopesView::found);
    let after = s.pushed(kind).defined(name, span).0.popped(span).0;
    assert(after.layers =~= s.layers);
    lemma_owner(after, s, other, s.layers.len() as int);
}

/// Test if all variables are before `next`.
pub open spec fn all_before(variables: List<(Name, Variable)>, next: u64) -> bool
    decreases variables,
{
    match variables {
        List::Nil => true,
        List::Cons(head, tail) => head.1.0 < next && all_before(*tail, next),
    }
}

/// Test if all variables that have been defined are before the next one.
pub open spec fn is_fresh(s: ScopesView) -> bool {
    forall|i: int| 0 <= i < s.layers.len()
        ==> all_before((#[trigger] s.layers[i]).variables, s.next)
}

/// What is before a variable is before later ones.
proof fn lemma_all_before(variables: List<(Name, Variable)>, next: u64, later: u64)
    requires
        all_before(variables, next),
        next <= later,
    ensures
        all_before(variables, later),
    decreases variables,
{
    if let List::Cons(_, tail) = variables {
        lemma_all_before(*tail, next, later);
    }
}

/// A variable that is bound is before the next one.
proof fn lemma_bound_before(variables: List<(Name, Variable)>, name: Name, next: u64)
    requires
        all_before(variables, next),
    ensures
        bound(variables, name) matches Some(variable) ==> variable.0 < next,
    decreases variables,
{
    if let List::Cons(_, tail) = variables {
        lemma_bound_before(*tail, name, next);
    }
}

/// Every operation keeps all variables that have been defined before the next
/// one.
pub proof fn lemma_fresh_kept(s: ScopesView, kind: LayerKind, name: Name, span: Span)
    requires
        is_fresh(s),
    ensures
        is_fresh(s.pushed(kind)),
        is_fresh(s.popped(span).0),
        is_fresh(s.defined(name, span).0),
        is_fresh(s.found(name).0),
{
    reveal(ScopesView::pushed);
    reveal(ScopesView::popped);
    reveal(ScopesView::defined);
    reveal(ScopesView::found);
    let pushed = s.pushed(kind);
    assert forall|i: int| 0 <= i < pushed.layers.len() implies all_before(
        (#[trigger] pushed.layers[i]).variables,
        pushed.next,
    ) by {
        if i < s.layers.len() {
            assert(all_before(s.layers[i].variables, s.next));
        }
    }
    let popped = s.popped(span).0;
    assert forall|i: int| 0 <= i < popped.layers.len() implies all_before(
        (#[trigger] popped.layers[i]).variables,
        popped.next,
    ) by {
        assert(all_before(s.layers[i].variables, s.next));
    }
    let defined = s.defined(name, span).0;
    assert forall|i: int| 0 <= i < defined.layers.len() implies all_before(
        (#[trigger] defined.layers[i]).variables,
        defined.next,
    ) by {
        assert(all_before(s.layers[i].variables, s.next));
        lemma_all_before(s.layers[i].variables, s.next, defined.next);
    }
    let found = s.found(name).0;
    assert forall|i: int| 0 <= i < found.layers.len() implies all_before(
        (#[trigger] found.layers[i]).variables,
        found.next,
    ) by {
        assert(all_before(s.layers[i].variables, s.next));
    }
}

/// A variable that is defined is different from all that names refer to.
pub proof fn lemma_defined_fresh(s: ScopesView, name: Name, span: Span, other: Name)
    requires
        is_fresh(s),
        s.defined(name, span).1 is Ok,
        s.found(other).1 is Some,
    ensures
        s.found(other).1->0 != s.defined(name, span).1->Ok_0,
{
    reveal(ScopesView::defined);
    reveal(ScopesView::found);
    let n = s.layers.len() as int;
    lemma_owner(s, s, other, n);
    let k = s.owner(other, n);
    assert(all_before(s.layers[k - 1].variables, s.next));
    lemma_bound_before(s.layers[k - 1].variables, other, s.next);
}

/// What has been put behind a list of captures is among them.
proof fn lemma_captured(captures: List<(Name, Variable)>, name: Name, variable: Variable)
    ensures
        captured(list_append(captures, (name, variable)), name, variable),
    decreases captures,
{
    assert(same_name(name, name));
    if let List::Cons(_, tail) = captures {
        lemma_captured(*tail, name, variable);
    }
}

/// A variable that is used inside of a closure, and defined outside of it, is
/// captured by the closure.
pub proof fn lemma_found_captured(s: ScopesView, name: Name, i: int)
    requires
        s.found(name).1 is Some,
        s.owner(name, s.layers.len() as int) <= i < s.layers.len(),
        s.layers[i].kind is Captures,
    ensures
        captured(s.found(name).0.layers[i].captures, name, s.found(name).1->0),
{
    reveal(ScopesView::found);
    lemma_owner(s, s, name, s.layers.len() as int);
    lemma_captured(s.layers[i].captures, name, s.found(name).1->0);
}

/// Looking a name up twice finds the same variable, and captures nothing more.
pub proof fn lemma_found_twice(s: ScopesView, name: Name)
    ensures
        s.found(name).0.found(name) == s.found(name),
{
    reveal(ScopesView::found);
    let n = s.layers.len() as int;
    let once = s.found(name).0;
    lemma_owner(s, once, name, n);
    let k = s.owner(name, n);
    if k > 0 {
        let variable = s.found(name).1->0;
        assert forall|i: int| k <= i < n implies #[trigger] once.layers[i].with_capture(
            name,
            variable,
        ) == once.layers[i] by {
            lemma_captured(s.layers[i].captures, name, variable);
        }
        assert(once.found(name).0.layers =~= once.layers);
    }
}

/// Leaving a loop at its start drops nothing, with and without its label.
pub proof fn lemma_loop_entered(s: ScopesView, label: Option<String>)
    ensures
        ({
            let inside = s.pushed(LayerKind::Loop(label));
            let n = inside.layers.len() as int;
            &&& inside.dropped(None, n) == Some(List::<Variable>::Nil)
            &&& label is Some ==> inside.dropped(label, n) == Some(List::<Variable>::Nil)
        }),
{
    reveal(ScopesView::pushed);
    reveal(ScopesView::dropped);
}

/// Leaving a loop from inside of a block drops a variable that is defined in the
/// block, before all others.
pub proof fn lemma_loop_defined(s: ScopesView, name: Name, span: Span, label: Option<String>)
    requires
        s.layers.len() > 0,
        s.layers.last().kind is Block,
        !is_target(s.layers.last().kind, label),
        s.defined(name, span).1 is Ok,
        s.dropped(label, s.layers.len() as int) is Some,
    ensures
        ({
            let (after, variable) = s.defined(name, span);
            after.dropped(label, after.layers.len() as int) == Some(
                List::Cons(
                    Box::new(variable->Ok_0),
                    Box::new(s.dropped(label, s.layers.len() as int)->0),
                ),
            )
        }),
{
    reveal(ScopesView::defined);
    reveal(ScopesView::dropped);
    reveal(Layer::drop_order);
    let after = s.defined(name, span).0;
    let n = s.layers.len() as int;
    lemma_dropped_same(s, after, label, n - 1);
    reveal_with_fuel(concat, 2);
    reveal_with_fuel(only_variables, 2);
}

/// The same layers drop the same variables.
proof fn lemma_dropped_same(a: ScopesView, b: ScopesView, label: Option<String>, n: int)
    requires
        n <= a.layers.len(),
        n <= b.layers.len(),
        forall|i: int| 0 <= i < n ==> #[trigger] a.layers[i] == b.layers[i],
    ensures
        a.dropped(label, n) == b.dropped(label, n),
    decreases n,
{
    reveal(ScopesView::dropped);
    if n > 0 {
        lemma_dropped_same(a, b, label, n - 1);
    }
}

/// A loop cannot be left from inside of a closure that is in it.
pub proof fn lemma_closure_not_left(s: ScopesView, label: Option<String>)
    ensures
        ({
            let inside = s.pushed(LayerKind::Captures);
            inside.dropped(label, inside.layers.len() as int) is None
        }),
{
    reveal(ScopesView::pushed);
    reveal(ScopesView::dropped);
}

} // verus!
