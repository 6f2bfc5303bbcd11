//! Laws of how patterns are lowered.

use vstd::prelude::*;
use crate::ast;
use crate::compile::error::{CompileError, ErrorKind};
use crate::hash::{Hash64, EMPTY};
use crate::hir;
use crate::hir::control_laws::{all_lowered, in_turn, lemma_listed};
use crate::hir::ctxt::{Env, State};
use crate::hir::expr_laws::lowers;
use crate::hir::item_laws::{is_key, is_single};
use crate::hir::lowering_laws::lemma_pat_items;
use crate::hir::model;
use crate::hir::rules;
use crate::hir::Name;
use crate::query::{Fields, Kind, Meta};
use crate::runtime::{
    ConstValue, Inline, OBJECT_HASH, OWNED_TUPLE_HASH, TUPLE_HASH, VEC_HASH,
};
use crate::span::Span;

verus! {

/// Test if a pattern is lowered to another one, from one state to another.
pub open spec fn pat_lowers(env: Env, st: State, ast: ast::Pat, end: State, hir: hir::Pat) -> bool {
    model::pat(env, st, ast) == (end, Ok::<hir::Pat, CompileError>(hir))
}

/// A pattern comes with the variables that have been bound by it, in order. None
/// of them are left for the next pattern.
pub proof fn lemma_pat_binding(env: Env, st: State, ast: ast::Pat)
    requires
        model::pat_binding(env, st, ast).1 is Ok,
    ensures
        ({
            let (end, r) = model::pat_binding(env, st, ast);
            let last = model::pat(env, st, ast).0;
            &&& pat_lowers(env, st, ast, last, r->Ok_0.pat)
            &&& r->Ok_0.names@ == last.bindings
            &&& end == (State { bindings: Seq::empty(), ..last })
        }),
{
    reveal(model::pat_binding_rule);
    assert(model::pat_binding(env, st, ast) == model::pat_binding_rule(env, st, ast));
    lemma_listed(model::pat(env, st, ast).0.bindings);
}

/// A `_` matches anything, and a literal is matched by its lowering. A key or a `..`
/// on its own is an error.
pub proof fn lemma_pat_plain(env: Env, st: State, ast: ast::Pat)
    ensures
        ({
            let (end, r) = model::pat(env, st, ast);
            match ast {
                ast::Pat::Ignore(span) => end == st && r is Ok && r->Ok_0.span == span
                    && r->Ok_0.kind is Ignore,
                ast::Pat::Lit(lit) => r is Ok ==> r->Ok_0.span == lit.span && r->Ok_0.kind is Lit
                    && lowers(env, st, *lit.expr, end, *r->Ok_0.kind->Lit_0),
                ast::Pat::Binding(binding) => end == st && r is Err && r->Err_0.span
                    == binding.span && r->Err_0.kind == ErrorKind::UnsupportedPatternExpr,
                ast::Pat::Rest(span) => end == st && r is Err && r->Err_0.span == span
                    && r->Err_0.kind == ErrorKind::UnsupportedPatternExpr,
                ast::Pat::Path(path) => r is Ok ==> r->Ok_0.span == path.span || r->Ok_0.kind
                    is Lit || r->Ok_0.kind is Sequence || r->Ok_0.kind is Object,
                ast::Pat::Vec(vec) => r is Ok ==> r->Ok_0.span == vec.span && r->Ok_0.kind
                    is Sequence,
                ast::Pat::Tuple(tuple) => r is Ok ==> r->Ok_0.span == tuple.span && r->Ok_0.kind
                    is Sequence,
                ast::Pat::Object(object) => r is Ok ==> r->Ok_0.span == object.span
                    && r->Ok_0.kind is Object,
            }
        }),
{
    reveal(ast::pat_span);
    if let ast::Pat::Path(path) = ast {
        reveal(rules::const_lit);
        reveal(rules::const_sequence);
        reveal(rules::const_object);
    }
}

/// A path in a pattern that is the name of a constant is matched by its value, and
/// one of a type without fields by the type. Any other has to be a name, which is
/// bound as a variable.
pub proof fn lemma_pat_path(env: Env, st: State, ast: ast::PatPath)
    requires
        model::pat(env, st, ast::Pat::Path(ast)).1 is Ok,
    ensures
        ({
            let (end, r) = model::pat(env, st, ast::Pat::Path(ast));
            let (middle, p) = model::path_parameters(env, st, ast.path);
            let (named, parameters) = p->Ok_0;
            let found = env.db.meta_of(ast.span, named.item, parameters);
            let meta = found->Ok_0->0;
            let constant = found->Ok_0 is Some && meta.kind is Const;
            let empty = found->Ok_0 is Some && meta.kind is Struct && (meta.kind->fields is Empty
                || meta.kind->fields == Fields::Unnamed(0));
            &&& p is Ok
            &&& found is Ok
            &&& constant ==> end == middle && env.db.constant_of(meta.hash) is Some
                && rules::pat_const_value(env.db.constant_of(meta.hash)->0, ast.span) == r
            &&& empty ==> end == middle && r->Ok_0.span == ast.span && r->Ok_0.kind is Path
                && r->Ok_0.kind->Path_0 == hir::PatPathKind::Kind(
                rules::struct_kind(meta, meta.kind->enum_hash),
            )
            &&& !constant && !empty ==> {
                let ident = ast.path.first->Ident_0;
                let (after, variable) = middle.defined(Name::Str(ident.text->Ok_0), ast.span);
                &&& is_single(ast.path)
                &&& ast.path.first is Ident
                &&& ident.text is Ok
                &&& variable is Ok
                &&& r->Ok_0.span == ast.span
                &&& r->Ok_0.kind == hir::PatKind::Path(hir::PatPathKind::Ident(variable->Ok_0))
                &&& end == (State { bindings: after.bindings.push(variable->Ok_0), ..after })
            }
        }),
{
    reveal(rules::tuple_match_for);
}

/// What is matched by a pattern of a variant is its enum and the variant, and of
/// any other type the type.
pub proof fn lemma_struct_kind(meta: Meta, enum_hash: Hash64)
    ensures
        rules::struct_kind(meta, enum_hash) is Type,
        enum_hash.0 == EMPTY ==> rules::struct_kind(meta, enum_hash)->Type_hash == meta.hash
            && rules::struct_kind(meta, enum_hash)->variant_hash.0 == EMPTY,
        enum_hash.0 != EMPTY ==> rules::struct_kind(meta, enum_hash)->Type_hash == enum_hash
            && rules::struct_kind(meta, enum_hash)->variant_hash == meta.hash,
{
    reveal(rules::struct_kind);
}

/// One step of lowering patterns in turn.
pub open spec fn pat_step(env: Env) -> spec_fn(State, ast::Pat, State, hir::Pat) -> bool {
    |st: State, ast: ast::Pat, end: State, hir: hir::Pat| pat_lowers(env, st, ast, end, hir)
}

/// Test if a pattern is an item of a sequence.
pub open spec fn is_item() -> spec_fn(ast::Pat) -> bool {
    |ast: ast::Pat| !(ast is Rest) && !(ast is Binding)
}

/// The items of a sequence pattern are lowered in turn.
proof fn lemma_pats_from(
    env: Env,
    st: State,
    asts: Seq<ast::Pat>,
    i: int,
    done: Seq<hir::Pat>,
    states: Seq<State>,
)
    requires
        0 <= i <= asts.len(),
        done.len() == asts.take(i).filter(is_item()).len(),
        states.len() == done.len() + 1,
        states.last() == st,
        forall|j: int|
            0 <= j < done.len() ==> pat_step(env)(
                #[trigger] states[j],
                asts.take(i).filter(is_item())[j],
                states[j + 1],
                done[j],
            ),
        model::pats(env, st, asts, i, done).1 is Ok,
    ensures
        all_lowered(
            asts.filter(is_item()),
            model::pats(env, st, asts, i, done).1->Ok_0,
            states[0],
            model::pats(env, st, asts, i, done).0,
            pat_step(env),
        ),
    decreases asts.len() - i,
{
    if i < asts.len() {
        let before = asts.take(i).filter(is_item());
        let after = asts.take(i + 1).filter(is_item());
        assert(asts.take(i + 1).drop_last() =~= asts.take(i));
        assert(asts.take(i + 1).last() == asts[i]);
        reveal(Seq::filter);
        if asts[i] is Binding || asts[i] is Rest {
            assert(after == before);
            lemma_pats_from(env, st, asts, i + 1, done, states);
        } else {
            assert(after == before.push(asts[i]));
            let (next, item) = model::pat(env, st, asts[i]);
            let more = states.push(next);
            let items = done.push(item->Ok_0);
            assert forall|j: int| 0 <= j < items.len() implies pat_step(env)(
                #[trigger] more[j],
                after[j],
                more[j + 1],
                items[j],
            ) by {
                if j < done.len() {
                    assert(more[j] == states[j] && more[j + 1] == states[j + 1]);
                    assert(after[j] == before[j]);
                }
            }
            assert(more[0] == states[0]);
            lemma_pats_from(env, next, asts, i + 1, items, more);
        }
    } else {
        assert(asts.take(i) =~= asts);
        assert(in_turn(asts.filter(is_item()), done, states, states[0], st, pat_step(env)));
    }
}

/// The items of a sequence pattern are lowered in turn.
proof fn lemma_pats(env: Env, st: State, asts: Seq<ast::Pat>)
    requires
        model::pats(env, st, asts, 0, Seq::empty()).1 is Ok,
    ensures
        ({
            let (end, r) = model::pats(env, st, asts, 0, Seq::empty());
            all_lowered(asts.filter(is_item()), r->Ok_0, st, end, pat_step(env))
        }),
{
    reveal(Seq::filter);
    assert(asts.take(0).filter(is_item()).len() == 0);
    lemma_pats_from(env, st, asts, 0, Seq::empty(), seq![st]);
}

/// Test if a sequence pattern is of a type, and of how many items. It is open
/// exactly if it ends in `..`, which is not counted.
pub open spec fn is_counted(kind: hir::PatSequenceKind, hash: u64, items: Seq<ast::Pat>) -> bool {
    let open = items.len() > 0 && items.last() is Rest;
    &&& kind is Sequence
    &&& kind->Sequence_hash.0 == hash
    &&& kind->is_open == open
    &&& kind->count == items.len() - (if open {
        1int
    } else {
        0int
    })
}

/// A vector pattern matches vectors of as many items as it has, or of more if it
/// ends in `..`. Its items are lowered in turn.
pub proof fn lemma_pat_vec(env: Env, st: State, ast: ast::PatVec)
    requires
        ast.items@.len() <= usize::MAX,
        model::pat(env, st, ast::Pat::Vec(ast)).1 is Ok,
    ensures
        ({
            let (end, r) = model::pat(env, st, ast::Pat::Vec(ast));
            let sequence = r->Ok_0.kind->Sequence_0;
            &&& r->Ok_0.span == ast.span
            &&& r->Ok_0.kind is Sequence
            &&& is_counted(sequence.kind, VEC_HASH, ast.items@)
            &&& all_lowered(
                ast.items@.filter(is_item()),
                sequence.items@,
                st,
                end,
                pat_step(env),
            )
        }),
{
    lemma_pat_items(ast.items@);
    lemma_pats(env, st, ast.items@);
    lemma_listed(model::pats(env, st, ast.items@, 0, Seq::empty()).1->Ok_0);
}

/// A tuple pattern without a path matches tuples of as many items as it has, or of
/// more if it ends in `..`. With a path it matches the type, if that has as many
/// fields, or more if it ends in `..`. Its items are lowered in turn.
pub proof fn lemma_pat_tuple(env: Env, st: State, ast: ast::PatTuple)
    requires
        ast.items@.len() <= usize::MAX,
        model::pat(env, st, ast::Pat::Tuple(ast)).1 is Ok,
    ensures
        ({
            let (end, r) = model::pat(env, st, ast::Pat::Tuple(ast));
            let sequence = r->Ok_0.kind->Sequence_0;
            let middle = model::pats(env, st, ast.items@, 0, Seq::empty()).0;
            &&& r->Ok_0.span == ast.span
            &&& r->Ok_0.kind is Sequence
            &&& all_lowered(
                ast.items@.filter(is_item()),
                sequence.items@,
                st,
                middle,
                pat_step(env),
            )
            &&& ast.path is None ==> end == middle && is_counted(
                sequence.kind,
                TUPLE_HASH,
                ast.items@,
            )
            &&& ast.path is Some ==> {
                let path = ast.path->0;
                let (after, p) = model::path_parameters(env, middle, path);
                let (named, parameters) = p->Ok_0;
                let found = env.db.known_meta_of(path.span, named.item, parameters);
                let meta = found->Ok_0;
                let args = match meta.kind->fields {
                    Fields::Unnamed(args) => args as int,
                    _ => 0,
                };
                &&& p is Ok
                &&& found is Ok
                &&& end == after
                &&& meta.kind is Struct
                &&& !(meta.kind->fields is Named)
                &&& sequence.kind == rules::struct_kind(meta, meta.kind->enum_hash)
                &&& if ast.items@.len() > 0 && ast.items@.last() is Rest {
                    ast.items@.len() - 1 <= args
                } else {
                    ast.items@.len() == args
                }
            }
        }),
{
    lemma_pat_items(ast.items@);
    lemma_pats(env, st, ast.items@);
    lemma_listed(model::pats(env, st, ast.items@, 0, Seq::empty()).1->Ok_0);
    reveal(rules::tuple_pat_kind);
    reveal(rules::tuple_match_for);
}

/// One step of lowering the fields of an object pattern in turn. A field without a
/// pattern is bound to a variable with its name.
pub open spec fn binding_step(env: Env) -> spec_fn(State, ast::Pat, State, hir::Binding) -> bool {
    |st: State, ast: ast::Pat, end: State, hir: hir::Binding|
        match ast {
            ast::Pat::Binding(binding) => hir is Binding && is_key(
                binding.key,
                hir->Binding_0,
                hir->Binding_1,
            ) && pat_lowers(env, st, *binding.pat, end, *hir->Binding_2),
            ast::Pat::Path(path) => {
                let ident = path.path.first->Ident_0;
                let (after, variable) = st.defined(Name::Str(ident.text->Ok_0), ident.span);
                &&& is_single(path.path)
                &&& path.path.first is Ident
                &&& ident.text is Ok
                &&& variable is Ok
                &&& hir == hir::Binding::Ident(path.span, ident.text->Ok_0, variable->Ok_0)
                &&& end == (State { bindings: after.bindings.push(variable->Ok_0), ..after })
            },
            _ => false,
        }
}

/// The key of a field in a pattern.
pub open spec fn key_text(binding: hir::Binding) -> Seq<char> {
    match binding {
        hir::Binding::Binding(_, key, _) => key@,
        hir::Binding::Ident(_, key, _) => key@,
    }
}

/// Test if no field is matched twice.
pub open spec fn keys_distinct(bindings: Seq<hir::Binding>) -> bool {
    forall|i: int, j: int|
        0 <= i < j < bindings.len() ==> key_text(#[trigger] bindings[i]) != key_text(
            #[trigger] bindings[j],
        )
}

/// A key that is not found is not bound.
proof fn lemma_not_bound(bindings: Seq<hir::Binding>, key: Seq<char>, i: int)
    requires
        0 <= i,
        rules::binding_index(bindings, key, i) >= bindings.len(),
    ensures
        forall|j: int| i <= j < bindings.len() ==> key_text(#[trigger] bindings[j]) != key,
    decreases bindings.len() - i,
{
    if i < bindings.len() {
        lemma_not_bound(bindings, key, i + 1);
    }
}

/// The fields of an object pattern are lowered in turn, and none of them is
/// matched twice.
proof fn lemma_bindings(
    env: Env,
    st: State,
    asts: Seq<ast::Pat>,
    count: int,
    i: int,
    done: Seq<hir::Binding>,
    states: Seq<State>,
)
    requires
        0 <= i <= count <= asts.len(),
        done.len() == i,
        states.len() == i + 1,
        states[i] == st,
        keys_distinct(done),
        forall|j: int|
            0 <= j < i ==> binding_step(env)(#[trigger] states[j], asts[j], states[j + 1], done[j]),
        model::bindings(env, st, asts, count, i, done).1 is Ok,
    ensures
        ({
            let (end, r) = model::bindings(env, st, asts, count, i, done);
            &&& all_lowered(asts.take(count), r->Ok_0, states[0], end, binding_step(env))
            &&& keys_distinct(r->Ok_0)
        }),
    decreases count - i,
{
    if i < count {
        reveal(rules::object_key);
        let (next, item) = model::binding(env, st, asts[i]);
        lemma_not_bound(done, item->Ok_0.key_of()@, 0);
        let more = states.push(next);
        let items = done.push(item->Ok_0);
        assert forall|j: int| 0 <= j < i + 1 implies binding_step(env)(
            #[trigger] more[j],
            asts[j],
            more[j + 1],
            items[j],
        ) by {
            if j < i {
                assert(more[j] == states[j] && more[j + 1] == states[j + 1]);
            }
        }
        lemma_bindings(env, next, asts, count, i + 1, items, more);
    } else {
        assert(in_turn(asts.take(count), done, states, states[0], st, binding_step(env)));
    }
}

/// An object pattern has all of its fields but a `..` at the end, in order, and
/// none of them twice. Without a path it matches objects with as many keys, or with
/// more if it ends in `..`.
pub proof fn lemma_pat_object(env: Env, st: State, ast: ast::PatObject)
    requires
        ast.items@.len() <= usize::MAX,
        model::pat(env, st, ast::Pat::Object(ast)).1 is Ok,
    ensures
        ({
            let (end, r) = model::pat(env, st, ast::Pat::Object(ast));
            let object = r->Ok_0.kind->Object_0;
            let open = ast.items@.len() > 0 && ast.items@.last() is Rest;
            let count = ast.items@.len() - (if open {
                1int
            } else {
                0int
            });
            let middle = model::bindings(env, st, ast.items@, count, 0, Seq::empty()).0;
            &&& r->Ok_0.span == ast.span
            &&& r->Ok_0.kind is Object
            &&& keys_distinct(object.bindings@)
            &&& all_lowered(
                ast.items@.take(count),
                object.bindings@,
                st,
                middle,
                binding_step(env),
            )
            &&& match ast.ident {
                ast::ObjectIdent::Anonymous(_) => end == middle && is_counted(
                    object.kind,
                    OBJECT_HASH,
                    ast.items@,
                ),
                ast::ObjectIdent::Named(path) => {
                    let (after, p) = model::path_parameters(env, middle, path);
                    let (named, parameters) = p->Ok_0;
                    let found = env.db.known_meta_of(path.span, named.item, parameters);
                    &&& p is Ok
                    &&& found is Ok
                    &&& end == after
                    &&& rules::object_pat_kind(
                        found->Ok_0,
                        open,
                        count as usize,
                        object.bindings@,
                        path.span,
                        ast.span,
                    ) == Ok::<hir::PatSequenceKind, CompileError>(object.kind)
                },
            }
        }),
{
    lemma_pat_items(ast.items@);
    let count = rules::pat_items_count(ast.items@)->Ok_0.1 as int;
    let none = Seq::<hir::Binding>::empty();
    lemma_bindings(env, st, ast.items@, count, 0, none, seq![st]);
    lemma_listed(model::bindings(env, st, ast.items@, count, 0, none).1->Ok_0);
}

/// Test if a name is one of the names.
pub open spec fn is_among(names: Seq<String>, name: Seq<char>) -> bool {
    exists|i: int| 0 <= i < names.len() && (#[trigger] names[i])@ == name
}

/// A name that is found is one of the names.
proof fn lemma_name_index(names: Seq<String>, name: Seq<char>, i: int)
    requires
        0 <= i,
    ensures
        ({
            let at = rules::name_index(names, name, i);
            &&& at < names.len() ==> i <= at && names[at]@ == name
            &&& at >= names.len() ==> forall|j: int|
                i <= j < names.len() ==> (#[trigger] names[j])@ != name
        }),
    decreases names.len() - i,
{
    if i < names.len() && names[i]@ != name {
        lemma_name_index(names, name, i + 1);
    }
}

/// What is left of names that are not the key of a field: every key is one of the
/// names, and every name is a key or is left.
proof fn lemma_unbound(names: Seq<String>, bindings: Seq<hir::Binding>, i: int)
    requires
        0 <= i,
    ensures
        match rules::unbound(names, bindings, i) {
            Ok(rest) => {
                &&& forall|j: int|
                    i <= j < bindings.len() ==> is_among(names, key_text(#[trigger] bindings[j]))
                &&& forall|k: int|
                    0 <= k < names.len() ==> is_among(rest, (#[trigger] names[k])@) || exists|
                        j: int,
                    |
                        i <= j < bindings.len() && key_text(#[trigger] bindings[j]) == names[k]@
                &&& forall|k: int| 0 <= k < rest.len() ==> is_among(names, (#[trigger] rest[k])@)
            },
            Err(key) => exists|j: int|
                i <= j < bindings.len() && key_text(#[trigger] bindings[j]) == key@,
        },
    decreases bindings.len() - i,
{
    if i < bindings.len() {
        let key = key_text(bindings[i]);
        assert(bindings[i].key_of()@ == key);
        lemma_name_index(names, key, 0);
        let at = rules::name_index(names, key, 0);
        if at < names.len() {
            let less = names.remove(at);
            lemma_unbound(less, bindings, i + 1);
            assert(is_among(names, key));
            assert forall|name: Seq<char>| is_among(less, name) implies is_among(names, name) by {
                let k = choose|k: int| 0 <= k < less.len() && (#[trigger] less[k])@ == name;
                if k < at {
                    assert(names[k]@ == name);
                } else {
                    assert(names[k + 1]@ == name);
                }
            }
            if let Ok(rest) = rules::unbound(less, bindings, i + 1) {
                assert forall|j: int| i <= j < bindings.len() implies is_among(
                    names,
                    key_text(#[trigger] bindings[j]),
                ) by {
                    if j > i {
                        assert(is_among(less, key_text(bindings[j])));
                    }
                }
                assert forall|k: int| 0 <= k < names.len() implies is_among(
                    rest,
                    (#[trigger] names[k])@,
                ) || exists|j: int|
                    i <= j < bindings.len() && key_text(#[trigger] bindings[j]) == names[k]@ by {
                    if k < at {
                        assert(less[k] == names[k]);
                    } else if k > at {
                        assert(less[k - 1] == names[k]);
                    } else {
                        assert(key_text(bindings[i]) == names[k]@);
                    }
                }
            }
        } else {
            assert(key_text(bindings[i]) == bindings[i].key_of()@);
        }
    } else {
        assert forall|k: int| 0 <= k < names.len() implies is_among(names, (#[trigger] names[k])@) by {
        }
    }
}

/// The names of fields hold the name of every field, and no others.
proof fn lemma_field_names(fields: Seq<crate::query::FieldMeta>, n: nat)
    requires
        n <= fields.len(),
    ensures
        forall|i: int|
            0 <= i < n ==> is_among(rules::field_names(fields, n), (#[trigger] fields[i]).name@),
        forall|k: int|
            0 <= k < rules::field_names(fields, n).len() ==> exists|i: int|
                0 <= i < n && (#[trigger] fields[i]).name@ == (#[trigger] rules::field_names(
                    fields,
                    n,
                )[k])@,
    decreases n,
{
    reveal(rules::field_names);
    if n > 0 {
        let m = (n - 1) as nat;
        lemma_field_names(fields, m);
        let before = rules::field_names(fields, m);
        let after = rules::field_names(fields, n);
        let last = fields[n - 1].name;
        assert forall|name: Seq<char>| is_among(before, name) implies is_among(after, name) by {
            let k = choose|k: int| 0 <= k < before.len() && (#[trigger] before[k])@ == name;
            assert(after[k] == before[k]);
        }
        if rules::has_name(before, last@) {
            assert(is_among(before, last@));
        } else {
            assert(after[before.len() as int] == last);
        }
        assert forall|k: int| 0 <= k < after.len() implies exists|i: int|
            0 <= i < n && (#[trigger] fields[i]).name@ == (#[trigger] after[k])@ by {
            if k < before.len() {
                assert(after[k] == before[k]);
                let i = choose|i: int|
                    0 <= i < m && (#[trigger] fields[i]).name@ == before[k]@;
                assert(fields[i].name@ == after[k]@);
            } else {
                assert(fields[n - 1].name@ == after[k]@);
            }
        }
    }
}

/// A struct pattern that is accepted of a type with named fields matches fields of
/// the type only, and all of them unless it ends in `..`.
pub proof fn lemma_object_pat_kind(
    meta: Meta,
    is_open: bool,
    count: usize,
    bindings: Seq<hir::Binding>,
    path_span: Span,
    span: Span,
)
    requires
        rules::object_pat_kind(meta, is_open, count, bindings, path_span, span) is Ok,
        meta.kind is Struct,
        meta.kind->fields is Named,
    ensures
        ({
            let r = rules::object_pat_kind(meta, is_open, count, bindings, path_span, span);
            let fields = meta.kind->fields->Named_0@;
            &&& r->Ok_0 == rules::struct_kind(meta, meta.kind->enum_hash)
            &&& forall|j: int|
                0 <= j < bindings.len() ==> exists|i: int|
                    0 <= i < fields.len() && (#[trigger] fields[i]).name@ == key_text(
                        #[trigger] bindings[j],
                    )
            &&& !is_open ==> forall|i: int|
                0 <= i < fields.len() ==> exists|j: int|
                    0 <= j < bindings.len() && key_text(#[trigger] bindings[j]) == (
                    #[trigger] fields[i]).name@
        }),
{
    reveal(rules::object_pat_kind);
    reveal(rules::struct_match_for);
    let fields = meta.kind->fields->Named_0@;
    let names = rules::field_names(fields, fields.len());
    lemma_field_names(fields, fields.len());
    lemma_unbound(names, bindings, 0);
    assert forall|j: int| 0 <= j < bindings.len() implies exists|i: int|
        0 <= i < fields.len() && (#[trigger] fields[i]).name@ == key_text(#[trigger] bindings[j]) by {
        assert(is_among(names, key_text(bindings[j])));
        let k = choose|k: int|
            0 <= k < names.len() && (#[trigger] names[k])@ == key_text(bindings[j]);
        let i = choose|i: int| 0 <= i < fields.len() && (#[trigger] fields[i]).name@ == names[k]@;
        assert(fields[i].name@ == key_text(bindings[j]));
    }
    if !is_open {
        assert forall|i: int| 0 <= i < fields.len() implies exists|j: int|
            0 <= j < bindings.len() && key_text(#[trigger] bindings[j]) == (
            #[trigger] fields[i]).name@ by {
            assert(is_among(names, fields[i].name@));
            let k = choose|k: int|
                0 <= k < names.len() && (#[trigger] names[k])@ == fields[i].name@;
            let rest = rules::unbound(names, bindings, 0)->Ok_0;
            assert(!is_among(rest, names[k]@));
            let j = choose|j: int|
                0 <= j < bindings.len() && key_text(#[trigger] bindings[j]) == names[k]@;
            assert(key_text(bindings[j]) == fields[i].name@);
        }
    }
}

/// A struct pattern of a type without named fields is nothing but `..`, and an item
/// that is not a type has none.
pub proof fn lemma_object_pat_open(
    meta: Meta,
    is_open: bool,
    count: usize,
    bindings: Seq<hir::Binding>,
    path_span: Span,
    span: Span,
)
    requires
        !(meta.kind is Struct && meta.kind->fields is Named),
    ensures
        ({
            let r = rules::object_pat_kind(meta, is_open, count, bindings, path_span, span);
            &&& r is Ok ==> is_open && count == 0 && (meta.kind is Struct || meta.kind is Type)
            &&& !(is_open && count == 0 && (meta.kind is Struct || meta.kind is Type)) ==> r is Err
                && r->Err_0.span == path_span && r->Err_0.kind is ExpectedMeta
        }),
{
    reveal(rules::object_pat_kind);
    reveal(rules::struct_match_for);
}

/// The literal that a plain constant is.
pub open spec fn const_literal(value: ConstValue) -> Option<hir::Lit> {
    match value {
        ConstValue::Inline(Inline::Bool(b)) => Some(hir::Lit::Bool(b)),
        ConstValue::Inline(Inline::Char(c)) => Some(hir::Lit::Char(c)),
        ConstValue::Inline(Inline::Unsigned(n)) => Some(hir::Lit::Unsigned(n)),
        ConstValue::Inline(Inline::Signed(n)) => Some(hir::Lit::Signed(n)),
        ConstValue::String(text) => Some(hir::Lit::Str(text)),
        ConstValue::Bytes(bytes) => Some(hir::Lit::ByteStr(bytes)),
        _ => None,
    }
}

/// A plain constant is matched by the literal that it is. A unit is matched by an
/// empty tuple.
pub proof fn lemma_const_literal(value: ConstValue, span: Span)
    ensures
        const_literal(value) is Some ==> rules::pat_const_value(value, span) == Ok::<
            hir::Pat,
            CompileError,
        >(
            hir::Pat {
                span,
                kind: hir::PatKind::Lit(
                    Box::new(
                        hir::Expr { span, kind: hir::ExprKind::Lit(const_literal(value)->0) },
                    ),
                ),
            },
        ),
        value == ConstValue::Inline(Inline::Unit) ==> {
            let r = rules::pat_const_value(value, span);
            &&& r is Ok
            &&& r->Ok_0.span == span
            &&& r->Ok_0.kind is Sequence
            &&& r->Ok_0.kind->Sequence_0.items@.len() == 0
            &&& r->Ok_0.kind->Sequence_0.kind == (hir::PatSequenceKind::Sequence {
                hash: Hash64(TUPLE_HASH),
                count: 0,
                is_open: false,
            })
        },
{
    reveal(rules::const_lit);
    reveal(rules::const_sequence);
    lemma_listed(Seq::<hir::Pat>::empty());
}

/// The patterns of constants are those of each constant, in order.
proof fn lemma_const_pats_from(
    values: Seq<ConstValue>,
    span: Span,
    i: int,
    items: Seq<hir::Pat>,
)
    requires
        0 <= i <= values.len(),
        items.len() == i,
        forall|j: int|
            0 <= j < i ==> rules::pat_const_value(values[j], span) == Ok::<hir::Pat, CompileError>(
                #[trigger] items[j],
            ),
        rules::const_pats(values, span, i, items) is Ok,
    ensures
        ({
            let pats = rules::const_pats(values, span, i, items)->Ok_0;
            &&& pats.len() == values.len()
            &&& forall|j: int|
                0 <= j < values.len() ==> rules::pat_const_value(values[j], span) == Ok::<
                    hir::Pat,
                    CompileError,
                >(#[trigger] pats[j])
        }),
    decreases values.len() - i,
{
    if i < values.len() {
        let item = rules::pat_const_value(values[i], span)->Ok_0;
        let more = items.push(item);
        assert forall|j: int| 0 <= j < i + 1 implies rules::pat_const_value(values[j], span) == Ok::<
            hir::Pat,
            CompileError,
        >(#[trigger] more[j]) by {
            if j < i {
                assert(more[j] == items[j]);
            }
        }
        lemma_const_pats_from(values, span, i + 1, more);
    }
}

/// A constant vector or tuple is matched by a sequence of exactly as many items,
/// each of which matches one of its values.
pub proof fn lemma_const_sequence(value: ConstValue, span: Span)
    requires
        value is Instance,
        value->Instance_0.variant_hash == Hash64(EMPTY),
        value->Instance_0.hash == Hash64(VEC_HASH) || value->Instance_0.hash == Hash64(
            OWNED_TUPLE_HASH,
        ),
        rules::pat_const_value(value, span) is Ok,
    ensures
        ({
            let pat = rules::pat_const_value(value, span)->Ok_0;
            let values = value->Instance_0.fields@;
            let sequence = pat.kind->Sequence_0;
            &&& pat.span == span
            &&& pat.kind is Sequence
            &&& sequence.kind is Sequence
            &&& sequence.kind->Sequence_hash.0 == VEC_HASH
            &&& !sequence.kind->is_open
            &&& sequence.kind->count == values.len() as usize
            &&& sequence.items@.len() == values.len()
            &&& forall|j: int|
                0 <= j < values.len() ==> rules::pat_const_value(values[j], span) == Ok::<
                    hir::Pat,
                    CompileError,
                >(#[trigger] sequence.items@[j])
        }),
{
    reveal(rules::const_sequence);
    let values = value->Instance_0.fields@;
    lemma_const_pats_from(values, span, 0, Seq::empty());
    lemma_listed(rules::const_pats(values, span, 0, Seq::empty())->Ok_0);
}

} // verus!
