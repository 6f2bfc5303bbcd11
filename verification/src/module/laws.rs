//! What registering keeps.

use vstd::multiset::Multiset;
use vstd::prelude::*;
use crate::hash::{type_hash, Hash64};
use crate::item::ComponentView;
use crate::module::module::{
    associated_registered, constant_registered, function_registered, keeps_types, touched,
};
use crate::module::{
    associated_name, item_name, Associated, ContextErrorView, DocFunction, Docs, FunctionData,
    FunctionDef, ModuleAssociated, ModuleItem, ModuleItemCommon, ModuleReexport, ModuleState,
    ModuleTrait, ModuleTraitImpl, ModuleType, NameView, TypeConstructor, TypeSpecification,
};
use crate::runtime::{ConstValue, RuntimeError, ToConstValue, TypeOf};

verus! {

/// Names with one more at their end, as a multiset.
proof fn lemma_push<T>(things: Seq<T>, thing: T, name: spec_fn(T) -> NameView)
    ensures
        things.push(thing).map_values(name).to_multiset() =~= things.map_values(
            name,
        ).to_multiset().insert(name(thing)),
{
    assert(things.push(thing).map_values(name) =~= things.map_values(name).push(name(thing)));
    things.map_values(name).to_multiset_ensures();
}

/// A name that is not taken can be added.
proof fn lemma_take(names: Seq<NameView>, name: NameView)
    requires
        names.no_duplicates(),
        !names.contains(name),
    ensures
        names.push(name).no_duplicates(),
        names.push(name).to_multiset() =~= names.to_multiset().insert(name),
{
    names.to_multiset_ensures();
}

/// Nothing has no names.
proof fn lemma_none<T>(things: Seq<T>, name: spec_fn(T) -> NameView)
    requires
        things.len() == 0,
    ensures
        things.map_values(name).to_multiset() =~= Multiset::empty(),
{
    assert(things.map_values(name) =~= Seq::<NameView>::empty());
    things.map_values(name).to_multiset_ensures();
}

/// An empty module is valid.
pub proof fn lemma_empty(item: Seq<ComponentView>, common: ModuleItemCommon)
    ensures
        ModuleState::empty(item, common).wf(),
{
    reveal(ModuleState::wf);
    let m = ModuleState::empty(item, common);
    m.names.to_multiset_ensures();
    lemma_none(m.items, |item: ModuleItem| item_name(item));
    lemma_none(
        m.associated,
        |a: ModuleAssociated| associated_name(a.container, a.name),
    );
    lemma_none(m.types, |ty: ModuleType| NameView::Item(ty.hash));
    lemma_none(m.traits, |t: ModuleTrait| NameView::Item(t.hash));
    lemma_none(m.trait_impls, |t: ModuleTraitImpl| NameView::TraitImpl(t.hash, t.trait_hash));
    lemma_none(m.reexports, |r: ModuleReexport| NameView::Item(r.hash));
    assert(m.registered() =~= Multiset::empty());
    assert(m.names.to_multiset() =~= Multiset::empty());
}

/// Registering an item whose name is free keeps a module valid.
pub proof fn lemma_with_item(m: ModuleState, item: ModuleItem)
    requires
        m.wf(),
        !m.names.contains(item_name(item)),
    ensures
        m.with_item(item).wf(),
{
    reveal(ModuleState::wf);
    lemma_take(m.names, item_name(item));
    lemma_push(m.items, item, |item: ModuleItem| item_name(item));
    assert(m.with_item(item).registered() =~= m.registered().insert(item_name(item)));
}

/// Registering something associated with a type keeps a module valid.
pub proof fn lemma_with_associated(m: ModuleState, a: ModuleAssociated)
    requires
        m.wf(),
        !m.names.contains(associated_name(a.container, a.name)),
    ensures
        m.with_associated(a).wf(),
{
    reveal(ModuleState::wf);
    let name = associated_name(a.container, a.name);
    lemma_take(m.names, name);
    lemma_push(
        m.associated,
        a,
        |a: ModuleAssociated| associated_name(a.container, a.name),
    );
    assert(m.with_associated(a).registered() =~= m.registered().insert(name));
}

/// The types of a valid module have names that are taken.
proof fn lemma_types_taken(m: ModuleState)
    requires
        m.wf(),
    ensures
        forall|i: int|
            0 <= i < m.types.len() ==> m.names.contains(
                NameView::Item((#[trigger] m.types[i]).hash),
            ),
{
    reveal(ModuleState::wf);
    let name = |ty: ModuleType| NameView::Item(ty.hash);
    let types = m.types.map_values(name);
    types.to_multiset_ensures();
    m.names.to_multiset_ensures();
    assert forall|i: int| 0 <= i < m.types.len() implies m.names.contains(
        NameView::Item((#[trigger] m.types[i]).hash),
    ) by {
        assert(types[i] == NameView::Item(m.types[i].hash));
        assert(types.contains(types[i]));
        assert(types.to_multiset().count(types[i]) > 0);
        assert(m.registered().count(types[i]) > 0);
        assert(m.names.to_multiset().count(types[i]) > 0);
    }
}

/// Registering a type keeps a module valid.
pub proof fn lemma_with_type(m: ModuleState, ty: ModuleType)
    requires
        m.wf(),
        !m.names.contains(NameView::Item(ty.hash)),
        m.types.len() <= usize::MAX,
    ensures
        m.with_type(ty).wf(),
{
    lemma_types_taken(m);
    reveal(ModuleState::wf);
    let name = NameView::Item(ty.hash);
    let n = m.with_type(ty);
    lemma_take(m.names, name);
    lemma_push(m.types, ty, |ty: ModuleType| NameView::Item(ty.hash));
    assert(n.registered() =~= m.registered().insert(name));
    assert forall|i: int| 0 <= i < n.types.len() implies n.types_hash.contains_key(
        (#[trigger] n.types[i]).hash.0,
    ) && n.types_hash[n.types[i].hash.0] == i by {
        if i < m.types.len() {
            assert(m.names.contains(NameView::Item(m.types[i].hash)));
            assert(m.types[i].hash != ty.hash);
        }
    }
}

/// Registering a trait keeps a module valid.
pub proof fn lemma_with_trait(m: ModuleState, t: ModuleTrait)
    requires
        m.wf(),
        !m.names.contains(NameView::Item(t.hash)),
    ensures
        m.with_trait(t).wf(),
{
    reveal(ModuleState::wf);
    let name = NameView::Item(t.hash);
    lemma_take(m.names, name);
    lemma_push(m.traits, t, |t: ModuleTrait| NameView::Item(t.hash));
    assert(m.with_trait(t).registered() =~= m.registered().insert(name));
}

/// Registering an implementation of a trait keeps a module valid.
pub proof fn lemma_with_trait_impl(m: ModuleState, t: ModuleTraitImpl)
    requires
        m.wf(),
        !m.names.contains(NameView::TraitImpl(t.hash, t.trait_hash)),
    ensures
        m.with_trait_impl(t).wf(),
{
    reveal(ModuleState::wf);
    let name = NameView::TraitImpl(t.hash, t.trait_hash);
    lemma_take(m.names, name);
    lemma_push(
        m.trait_impls,
        t,
        |t: ModuleTraitImpl| NameView::TraitImpl(t.hash, t.trait_hash),
    );
    assert(m.with_trait_impl(t).registered() =~= m.registered().insert(name));
}

/// Registering a re-export keeps a module valid.
pub proof fn lemma_with_reexport(m: ModuleState, r: ModuleReexport)
    requires
        m.wf(),
        !m.names.contains(NameView::Item(r.hash)),
    ensures
        m.with_reexport(r).wf(),
{
    reveal(ModuleState::wf);
    let name = NameView::Item(r.hash);
    lemma_take(m.names, name);
    lemma_push(m.reexports, r, |r: ModuleReexport| NameView::Item(r.hash));
    assert(m.with_reexport(r).registered() =~= m.registered().insert(name));
}

/// Registering what turns constants back into values keeps a module valid.
pub proof fn lemma_with_construct<V: ToConstValue>(m: ModuleState)
    requires
        m.wf(),
    ensures
        m.with_construct::<V>().wf(),
{
    reveal(ModuleState::wf);
    let n = m.with_construct::<V>();
    assert(n.registered() =~= m.registered());
}

/// Changing what types are, but not their hashes, keeps a module valid.
pub proof fn lemma_types_changed(m: ModuleState, types: Seq<ModuleType>)
    requires
        m.wf(),
        types.len() == m.types.len(),
        forall|i: int| 0 <= i < types.len() ==> (#[trigger] types[i]).hash == m.types[i].hash,
    ensures
        m.with_types(types).wf(),
{
    reveal(ModuleState::wf);
    let name = |ty: ModuleType| NameView::Item(ty.hash);
    let n = m.with_types(types);
    assert(n.types.map_values(name) =~= m.types.map_values(name));
    assert(n.registered() =~= m.registered());
}

/// The types of a valid module are told apart by their hashes.
pub proof fn lemma_type_index(m: ModuleState, i: int)
    requires
        m.wf(),
        0 <= i < m.types.len(),
    ensures
        m.has_type(m.types[i].hash),
        m.type_index(m.types[i].hash) == i,
{
    reveal(ModuleState::wf);
    let j = m.type_index(m.types[i].hash);
    assert(0 <= j < m.types.len() && m.types[j].hash == m.types[i].hash);
    assert(m.types_hash[m.types[j].hash.0] == j);
    assert(m.types_hash[m.types[i].hash.0] == i);
}

/// Types that are kept twice are kept.
pub proof fn lemma_kept_twice(before: ModuleState, middle: ModuleState, after: ModuleState)
    requires
        keeps_types(before, middle),
        keeps_types(middle, after),
    ensures
        keeps_types(before, after),
{
    assert forall|i: int| 0 <= i < before.types.len() implies (#[trigger] after.types[i]).hash
        == before.types[i].hash by {
        assert(middle.types[i].hash == before.types[i].hash);
    }
}

/// Whatever is registered, the types of a module are kept.
pub proof fn lemma_registering_keeps<V: ToConstValue>(
    m: ModuleState,
    item: ModuleItem,
    associated: ModuleAssociated,
    ty: ModuleType,
    t: ModuleTrait,
    trait_impl: ModuleTraitImpl,
    reexport: ModuleReexport,
)
    ensures
        keeps_types(m, m.with_item(item)),
        keeps_types(m, m.with_associated(associated)),
        keeps_types(m, m.with_type(ty)),
        keeps_types(m, m.with_trait(t)),
        keeps_types(m, m.with_trait_impl(trait_impl)),
        keeps_types(m, m.with_reexport(reexport)),
        keeps_types(m, m.with_construct::<V>()),
{
}

/// A type that is registered stays registered, at the same index.
pub proof fn lemma_type_kept(before: ModuleState, after: ModuleState, hash: Hash64)
    requires
        after.wf(),
        keeps_types(before, after),
        before.has_type(hash),
    ensures
        after.has_type(hash),
        after.type_index(hash) == before.type_index(hash),
{
    let i = before.type_index(hash);
    assert(after.types[i].hash == hash);
    lemma_type_index(after, i);
}

/// A type is registered after another one has been exactly if it was before, or
/// is that other one. None is in an empty module.
pub proof fn lemma_has_type(m: ModuleState, ty: ModuleType, hash: Hash64)
    ensures
        m.with_type(ty).has_type(hash) <==> m.has_type(hash) || ty.hash == hash,
        !ModuleState::empty(m.item, m.common).has_type(hash),
{
    let n = m.with_type(ty);
    if m.has_type(hash) {
        assert(n.types[m.type_index(hash)].hash == hash);
    }
    assert(n.types[m.types.len() as int] == ty);
    if n.has_type(hash) && ty.hash != hash {
        assert(m.types[n.type_index(hash)].hash == hash);
    }
}

/// When a type is registered and then another one, the first is still found. What
/// its handle changes is its own entry and not that of the other, which comes
/// later. A third type that was not registered is not found. Nothing is added or
/// removed by looking for them.
pub proof fn lemma_type_found<T: TypeOf, U: TypeOf, V: TypeOf>(
    first: ModuleState,
    second: ModuleState,
    docs: Docs,
    deprecated: Option<String>,
    structure: Option<TypeSpecification>,
    constructor: Option<TypeConstructor>,
)
    requires
        first.wf(),
        first.has_type(T::hash()),
        !first.names.contains(NameView::Item(U::hash())),
        second.wf(),
        keeps_types(first, second),
        second.has_type(U::hash()),
        !second.has_type(V::hash()),
    ensures
        second.has_type(T::hash()),
        ({
            let i = second.type_index(T::hash());
            let ty = touched(second.types[i], docs, deprecated, structure, constructor);
            let after = second.with_types(second.types.update(i, ty));
            &&& i < second.type_index(U::hash())
            &&& second.types[i].hash == T::hash()
            &&& after.wf()
            &&& after.type_index(T::hash()) == i && after.types[i] == ty
            &&& after.types[after.type_index(U::hash())] == second.types[second.type_index(
                U::hash(),
            )]
            &&& !after.has_type(V::hash())
            &&& after == second.with_types(after.types)
            &&& after.types.len() == second.types.len()
        }),
{
    lemma_types_taken(first);
    lemma_type_kept(first, second, T::hash());
    let i = second.type_index(T::hash());
    let k = second.type_index(U::hash());
    assert(second.types[k].hash == U::hash());
    if k < first.types.len() {
        assert(first.types[k].hash == U::hash());
    }
    let ty = touched(second.types[i], docs, deprecated, structure, constructor);
    let after = second.with_types(second.types.update(i, ty));
    lemma_types_changed(second, after.types);
    lemma_type_index(after, i);
    lemma_type_index(after, k);
    assert(second.types[i].hash == T::hash());
    if after.has_type(V::hash()) {
        let j = after.type_index(V::hash());
        assert(second.types[j].hash == V::hash());
    }
}

/// In a valid module every name is registered at most once, and it is taken
/// exactly if it is registered.
pub proof fn lemma_registered_once(m: ModuleState, name: NameView)
    requires
        m.wf(),
    ensures
        m.registered().count(name) <= 1,
        m.names.contains(name) <==> m.registered().count(name) == 1,
{
    reveal(ModuleState::wf);
    m.names.to_multiset_ensures();
    m.names.lemma_multiset_has_no_duplicates();
    assert(m.names.to_multiset().count(name) == m.registered().count(name));
    if m.names.to_multiset().count(name) > 0 {
        assert(m.names.to_multiset().contains(name));
    }
}

/// A function whose name is that of another one is refused, and nothing is
/// registered.
pub proof fn lemma_function_conflict(
    before: ModuleState,
    middle: ModuleState,
    after: ModuleState,
    first: FunctionData,
    second: FunctionData,
    registered: (Docs, Option<String>, DocFunction),
    r: Result<(Docs, Option<String>, DocFunction), ContextErrorView>,
)
    requires
        function_registered(before, middle, first, Ok(registered)),
        function_registered(middle, after, second, r),
        first.item@ == second.item@,
    ensures
        r is Err,
        after == middle,
{
    let x = middle.items.last();
    assert(middle.names == before.with_item(x).names);
    assert(middle.names[middle.names.len() - 1] == item_name(x));
}

/// A constant whose name is that of a function is refused, and nothing is
/// registered.
pub proof fn lemma_constant_conflict<V: ToConstValue>(
    before: ModuleState,
    middle: ModuleState,
    after: ModuleState,
    data: FunctionData,
    name: ComponentView,
    value: Result<ConstValue, RuntimeError>,
    registered: (Docs, Option<String>, DocFunction),
    r: Result<(Docs, Option<String>), ContextErrorView>,
)
    requires
        function_registered(before, middle, data, Ok(registered)),
        constant_registered::<V>(middle, after, name, value, r),
        data.item@ == seq![name],
    ensures
        r is Err,
        after == middle,
{
    let x = middle.items.last();
    assert(before.item + data.item@ =~= before.item.push(name));
    assert(middle.names == before.with_item(x).names);
    assert(middle.names[middle.names.len() - 1] == item_name(x));
}

/// A function that is associated with a type by the name of another one is
/// refused, and nothing is registered.
pub proof fn lemma_associated_conflict(
    before: ModuleState,
    middle: ModuleState,
    after: ModuleState,
    first: Associated,
    second: Associated,
    functions: (FunctionDef, FunctionDef),
    registered: (Docs, Option<String>, DocFunction),
    r: Result<(Docs, Option<String>, DocFunction), ContextErrorView>,
)
    requires
        associated_registered(before, middle, first, functions.0, Ok(registered)),
        associated_registered(middle, after, second, functions.1, r),
        associated_name(first.container, first.name) == associated_name(
            second.container,
            second.name,
        ),
    ensures
        r is Err,
        after == middle,
{
    let x = middle.associated.last();
    assert(middle.names == before.with_associated(x).names);
    assert(middle.names[middle.names.len() - 1] == associated_name(x.container, x.name));
}

/// Functions, macros and attribute macros do not take each other's names: a
/// function takes no name but that of the item.
pub proof fn lemma_function_takes(
    before: ModuleState,
    after: ModuleState,
    data: FunctionData,
    registered: (Docs, Option<String>, DocFunction),
    name: NameView,
)
    requires
        function_registered(before, after, data, Ok(registered)),
    ensures
        after.names.contains(name) <==> before.names.contains(name) || name == NameView::Item(
            type_hash(before.item + data.item@),
        ),
{
    let x = after.items.last();
    assert(after.names == before.names.push(item_name(x)));
    if before.names.contains(name) {
        let i = choose|i: int| 0 <= i < before.names.len() && before.names[i] == name;
        assert(after.names[i] == name);
    }
    assert(after.names[after.names.len() - 1] == item_name(x));
}

} // verus!
