//! Laws of which variables are found, captured and dropped.

use vstd::prelude::*;
use crate::compile::error::CompileError;
use crate::hir::ctxt::{initial, Needs};
use crate::hir::scopes::{
    bound, captured, concat, is_target, only_variables, same_name, Layer, LayerKind, ScopesView,
};
use crate::hir::{Name, SecondaryBuildEntry, Variable};
use crate::list::List;
use crate::query::{
    entry, meta_entry, Database, GenericsParameters, ItemId, Meta, MetaEntry, QueryError,
};
use crate::span::Span;

verus! {

/// The variables of named ones are those, in order.
proof fn lemma_only_variables(variables: List<(Name, Variable)>)
    ensures
        only_variables(variables)@ == variables@.map_values(|v: (Name, Variable)| v.1),
    decreases variables,
{
    let variable = |v: (Name, Variable)| v.1;
    match variables {
        List::Nil => {
            assert(only_variables(variables)@ =~= variables@.map_values(variable));
        },
        List::Cons(head, tail) => {
            lemma_only_variables(*tail);
            assert(only_variables(variables)@ =~= seq![head.1] + tail@.map_values(variable));
            assert(variables@.map_values(variable) =~= seq![head.1] + tail@.map_values(variable));
        },
    }
}

/// A layer drops all variables that it defines, the one that was defined last
/// first.
pub proof fn lemma_drop_order(layer: Layer, name: Name, variable: Variable)
    ensures
        layer.drop_order()@ == layer.variables@.map_values(|v: (Name, Variable)| v.1),
        layer.with_variable(name, variable).drop_order()@ == seq![variable] + layer.drop_order()@,
        Layer::empty(layer.kind).drop_order()@.len() == 0,
{
    reveal(Layer::drop_order);
    lemma_only_variables(layer.variables);
}

/// The variables that a layer captures are all those that it has recorded, in the
/// order in which they were used first.
pub proof fn lemma_captured_variables(layer: Layer)
    ensures
        layer.captured_variables()@ == layer.captures@.map_values(|v: (Name, Variable)| v.1),
{
    reveal(Layer::captured_variables);
    lemma_only_variables(layer.captures);
}

/// Using a variable captures it behind all others, once, and in layers for
/// captures only.
pub proof fn lemma_with_capture(layer: Layer, name: Name, variable: Variable)
    ensures
        layer.with_capture(name, variable).kind == layer.kind,
        layer.with_capture(name, variable).variables == layer.variables,
        !(layer.kind is Captures) ==> layer.with_capture(name, variable) == layer,
        captured(layer.captures, name, variable) ==> layer.with_capture(name, variable) == layer,
        layer.kind is Captures && !captured(layer.captures, name, variable) ==> layer.with_capture(
            name,
            variable,
        ).captures@ == layer.captures@.push((name, variable)),
{
    crate::list::lemma_list_append_view(layer.captures, (name, variable));
}

/// A name with a variable has been captured exactly if it is among the captures.
pub proof fn lemma_is_captured(captures: List<(Name, Variable)>, name: Name, variable: Variable)
    ensures
        captured(captures, name, variable) <==> exists|i: int|
            0 <= i < captures@.len() && same_name((#[trigger] captures@[i]).0, name)
                && captures@[i].1 == variable,
    decreases captures,
{
    if let List::Cons(head, tail) = captures {
        lemma_is_captured(*tail, name, variable);
        let all = captures@;
        assert(all =~= seq![*head] + tail@);
        if captured(*tail, name, variable) {
            let i = choose|i: int|
                0 <= i < tail@.len() && same_name((#[trigger] tail@[i]).0, name) && tail@[i].1
                    == variable;
            assert(all[i + 1] == tail@[i]);
        }
        assert(all[0] == *head);
        assert forall|i: int|
            0 <= i < all.len() && same_name((#[trigger] all[i]).0, name) && all[i].1
                == variable implies captured(captures, name, variable) by {
            if i > 0 {
                assert(tail@[i - 1] == all[i]);
            }
        }
    }
}

/// A name refers in a layer to the variable that was defined last with it.
pub proof fn lemma_bound(variables: List<(Name, Variable)>, name: Name)
    ensures
        bound(variables, name) is None ==> forall|i: int|
            0 <= i < variables@.len() ==> !same_name((#[trigger] variables@[i]).0, name),
        bound(variables, name) is Some ==> exists|i: int|
            {
                &&& 0 <= i < variables@.len()
                &&& same_name((#[trigger] variables@[i]).0, name)
                &&& bound(variables, name) == Some(variables@[i].1)
                &&& forall|j: int| 0 <= j < i ==> !same_name((#[trigger] variables@[j]).0, name)
            },
    decreases variables,
{
    if let List::Cons(head, tail) = variables {
        let all = variables@;
        assert(all =~= seq![*head] + tail@);
        lemma_bound(*tail, name);
        assert(all[0] == *head);
        if same_name(head.0, name) {
            assert(forall|j: int| 0 <= j < 0 ==> !same_name((#[trigger] all[j]).0, name));
        } else if bound(*tail, name) is Some {
            let i = choose|i: int|
                {
                    &&& 0 <= i < tail@.len()
                    &&& same_name((#[trigger] tail@[i]).0, name)
                    &&& bound(*tail, name) == Some(tail@[i].1)
                    &&& forall|j: int| 0 <= j < i ==> !same_name((#[trigger] tail@[j]).0, name)
                };
            assert(all[i + 1] == tail@[i]);
            assert forall|j: int| 0 <= j < i + 1 implies !same_name((#[trigger] all[j]).0, name) by {
                if j > 0 {
                    assert(all[j] == tail@[j - 1]);
                }
            }
        } else {
            assert forall|i: int| 0 <= i < all.len() implies !same_name(
                (#[trigger] all[i]).0,
                name,
            ) by {
                if i > 0 {
                    assert(all[i] == tail@[i - 1]);
                }
            }
        }
    }
}

/// The owner of a name is the innermost layer that has a variable with it.
proof fn lemma_owner(s: ScopesView, name: Name, n: int)
    requires
        0 <= n <= s.layers.len(),
    ensures
        0 <= s.owner(name, n) <= n,
        s.owner(name, n) > 0 ==> bound(s.layers[s.owner(name, n) - 1].variables, name) is Some,
        forall|i: int|
            s.owner(name, n) <= i < n ==> bound((#[trigger] s.layers[i]).variables, name) is None,
    decreases n,
{
    if n > 0 {
        lemma_owner(s, name, n - 1);
    }
}

/// A name refers to the variable of the innermost layer that has one with it. Using
/// it captures it in the layers inside of that one, and changes nothing else.
pub proof fn lemma_found(s: ScopesView, name: Name)
    ensures
        ({
            let (after, variable) = s.found(name);
            &&& after.next == s.next
            &&& after.layers.len() == s.layers.len()
            &&& variable is None ==> after == s && forall|i: int|
                0 <= i < s.layers.len() ==> bound((#[trigger] s.layers[i]).variables, name) is None
            &&& variable is Some ==> exists|k: int|
                {
                    &&& 0 <= k < s.layers.len()
                    &&& bound((#[trigger] s.layers[k]).variables, name) == variable
                    &&& forall|i: int|
                        k < i < s.layers.len() ==> bound((#[trigger] s.layers[i]).variables, name)
                            is None && after.layers[i] == s.layers[i].with_capture(
                            name,
                            variable->0,
                        )
                    &&& forall|i: int| 0 <= i <= k ==> #[trigger] after.layers[i] == s.layers[i]
                }
        }),
{
    reveal(ScopesView::found);
    let n = s.layers.len() as int;
    lemma_owner(s, name, n);
    let k = s.owner(name, n) - 1;
    if k >= 0 {
        assert(bound(s.layers[k].variables, name) == s.found(name).1);
    }
}

/// The elements of two lists, one behind the other.
proof fn lemma_concat<T>(a: List<T>, b: List<T>)
    ensures
        concat(a, b)@ == a@ + b@,
    decreases a,
{
    match a {
        List::Nil => {
            assert(concat(a, b)@ =~= a@ + b@);
        },
        List::Cons(head, tail) => {
            lemma_concat(*tail, b);
            assert(concat(a, b)@ =~= a@ + b@);
        },
    }
}

/// The variables of the layers from `n - 1` down to the one inside of `k`, the ones
/// of the innermost layer first.
pub open spec fn dropped_between(s: ScopesView, n: int, k: int) -> Seq<Variable>
    decreases n,
{
    if n <= k + 1 || n <= 0 {
        Seq::empty()
    } else {
        s.layers[n - 1].drop_order()@ + dropped_between(s, n - 1, k)
    }
}

/// Test if a `break` or `continue` with the label leaves for the layer at `k`: it is
/// the innermost one that the label refers to, and there is no body of a closure or
/// an asynchronous block inside of it.
pub open spec fn leaves_for(s: ScopesView, label: Option<String>, n: int, k: int) -> bool {
    &&& 0 <= k < n
    &&& refers_to(s.layers[k].kind, label)
    &&& forall|i: int|
        k < i < n ==> !refers_to((#[trigger] s.layers[i]).kind, label) && !(
        s.layers[i].kind is Captures)
}

/// Test if a label refers to a layer. Without a label, it is the innermost loop.
/// With one, it is the loop or the block with that label.
pub open spec fn refers_to(kind: LayerKind, label: Option<String>) -> bool {
    match kind {
        LayerKind::Loop(name) => label is None || (name is Some && name->0@ == label->0@),
        LayerKind::Block(name) => label is Some && name is Some && name->0@ == label->0@,
        LayerKind::Captures => false,
    }
}

/// A `break` or `continue` drops the variables of all layers inside of the one that
/// it leaves for, those of the innermost layer first. If there is no such layer,
/// then there is nothing to leave.
pub proof fn lemma_dropped(s: ScopesView, label: Option<String>, n: int)
    requires
        0 <= n <= s.layers.len(),
    ensures
        s.dropped(label, n) is Some ==> exists|k: int| #[trigger]
            leaves_for(s, label, n, k) && s.dropped(label, n)->0@ == dropped_between(s, n, k),
        s.dropped(label, n) is None ==> forall|k: int| !#[trigger] leaves_for(s, label, n, k),
    decreases n,
{
    reveal(ScopesView::dropped);
    if n > 0 {
        lemma_dropped(s, label, n - 1);
        let kind = s.layers[n - 1].kind;
        assert(is_target(kind, label) == refers_to(kind, label));
        if is_target(kind, label) {
            assert(leaves_for(s, label, n, n - 1));
            assert(s.dropped(label, n)->0@ =~= dropped_between(s, n, n - 1));
        } else if kind is Captures {
            assert forall|k: int| !#[trigger] leaves_for(s, label, n, k) by {
                if leaves_for(s, label, n, k) {
                    assert(s.layers[n - 1].kind is Captures);
                }
            }
        } else if s.dropped(label, n - 1) is Some {
            let k = choose|k: int| #[trigger]
                leaves_for(s, label, n - 1, k) && s.dropped(label, n - 1)->0@
                    == dropped_between(s, n - 1, k);
            lemma_concat(s.layers[n - 1].drop_order(), s.dropped(label, n - 1)->0);
            assert(leaves_for(s, label, n, k));
        } else {
            assert forall|k: int| !#[trigger] leaves_for(s, label, n, k) by {
                if leaves_for(s, label, n, k) {
                    assert(leaves_for(s, label, n - 1, k));
                }
            }
        }
    }
}

/// Defining a variable puts it into the innermost layer, under a number that is
/// then used up. Nothing else changes.
pub proof fn lemma_defined(s: ScopesView, name: Name, span: Span)
    ensures
        ({
            let (after, r) = s.defined(name, span);
            let n = s.layers.len() as int;
            &&& r is Ok <==> n > 0 && s.next < u64::MAX
            &&& r is Err ==> after == s && r->Err_0.span == span
            &&& r is Ok ==> {
                &&& r->Ok_0.0 == s.next
                &&& after.next == s.next + 1
                &&& after.layers.len() == n
                &&& forall|i: int| 0 <= i < n - 1 ==> #[trigger] after.layers[i] == s.layers[i]
                &&& after.layers[n - 1].kind == s.layers[n - 1].kind
                &&& after.layers[n - 1].captures == s.layers[n - 1].captures
                &&& after.layers[n - 1].variables@ == seq![(name, r->Ok_0)] + s.layers[n
                    - 1].variables@
            }
        }),
{
    reveal(ScopesView::defined);
}

/// Entering a scope puts an empty layer of its kind inside of all others, and
/// leaving it takes the innermost layer off.
pub proof fn lemma_scoped(s: ScopesView, kind: LayerKind, span: Span)
    ensures
        s.pushed(kind).next == s.next,
        s.pushed(kind).layers == s.layers.push(Layer::empty(kind)),
        s.layers.len() > 0 ==> s.popped(span) == (
            ScopesView { layers: s.layers.drop_last(), next: s.next },
            Ok::<Layer, CompileError>(s.layers.last()),
        ),
        s.layers.len() == 0 ==> s.popped(span).0 == s && s.popped(span).1 is Err,
{
    reveal(ScopesView::pushed);
    reveal(ScopesView::popped);
}

/// What is looked up in a table is what the first entry with the key has.
pub proof fn lemma_entry<V>(table: Seq<(u64, V)>, key: u64, i: int)
    requires
        0 <= i,
    ensures
        entry(table, key, i) is None ==> forall|j: int|
            i <= j < table.len() ==> (#[trigger] table[j]).0 != key,
        entry(table, key, i) is Some ==> exists|k: int|
            {
                &&& i <= k < table.len()
                &&& (#[trigger] table[k]).0 == key
                &&& entry(table, key, i) == Some(table[k].1)
                &&& forall|j: int| i <= j < k ==> (#[trigger] table[j]).0 != key
            },
    decreases table.len() - i,
{
    if i < table.len() {
        if table[i].0 == key {
            assert(forall|j: int| i <= j < i ==> (#[trigger] table[j]).0 != key);
        } else {
            lemma_entry(table, key, i + 1);
        }
    }
}

/// What is known of an item with parameters is what the first entry for both has.
pub proof fn lemma_meta_entry(
    metas: Seq<MetaEntry>,
    item: ItemId,
    parameters: GenericsParameters,
    i: int,
)
    requires
        0 <= i,
    ensures
        meta_entry(metas, item, parameters, i) is None ==> forall|j: int|
            i <= j < metas.len() ==> (#[trigger] metas[j]).item != item || metas[j].parameters
                != parameters,
        meta_entry(metas, item, parameters, i) is Some ==> exists|k: int|
            {
                &&& i <= k < metas.len()
                &&& (#[trigger] metas[k]).item == item
                &&& metas[k].parameters == parameters
                &&& meta_entry(metas, item, parameters, i) == Some(metas[k].meta)
                &&& forall|j: int|
                    i <= j < k ==> (#[trigger] metas[j]).item != item || metas[j].parameters
                        != parameters
            },
    decreases metas.len() - i,
{
    if i < metas.len() {
        if metas[i].item == item && metas[i].parameters == parameters {
            assert(forall|j: int|
                i <= j < i ==> (#[trigger] metas[j]).item != item || metas[j].parameters
                    != parameters);
        } else {
            lemma_meta_entry(metas, item, parameters, i + 1);
        }
    }
}

/// An item that has to be known is what is known of it, and an error in its place if
/// nothing is.
pub proof fn lemma_known_meta(
    db: Database,
    span: Span,
    item: ItemId,
    parameters: GenericsParameters,
)
    ensures
        match meta_entry(db.metas@, item, parameters, 0) {
            Some(Ok(meta)) => db.meta_of(span, item, parameters) == Ok::<
                Option<Meta>,
                CompileError,
            >(Some(meta)) && db.known_meta_of(span, item, parameters) == Ok::<Meta, CompileError>(
                meta,
            ),
            Some(Err(e)) => is_refused(db.meta_of(span, item, parameters), span, e) && is_refused(
                db.known_meta_of(span, item, parameters),
                span,
                e,
            ),
            None => db.meta_of(span, item, parameters) == Ok::<Option<Meta>, CompileError>(None)
                && db.known_meta_of(span, item, parameters) is Err && db.known_meta_of(
                span,
                item,
                parameters,
            )->Err_0.span == span,
        },
{
    reveal(Database::meta_of);
    reveal(Database::known_meta_of);
}

/// Test if a request is refused in a place.
pub open spec fn is_refused<T>(r: Result<T, CompileError>, span: Span, e: QueryError) -> bool {
    r is Err && r->Err_0.span == span && r->Err_0.kind == crate::compile::error::ErrorKind::Query(e)
}

/// Lowering starts outside of paths and templates, where a value is needed, in one
/// block without a label that defines nothing. Nothing is left over.
pub proof fn lemma_initial(builds: Option<Seq<SecondaryBuildEntry>>)
    ensures
        ({
            let st = initial(builds);
            &&& !st.in_path && !st.in_template && st.needs == Needs::Value
            &&& st.scopes.layers.len() == 1 && st.scopes.next == 0
            &&& st.scopes.layers[0].kind == LayerKind::Block(None)
            &&& st.scopes.layers[0].variables@.len() == 0
            &&& st.scopes.layers[0].captures@.len() == 0
            &&& st.used.len() == 0 && st.diagnostics.len() == 0 && st.idents.len() == 0
            &&& st.buffer.len() == 0 && st.bindings.len() == 0
            &&& st.builds == builds
        }),
{
}

} // verus!
