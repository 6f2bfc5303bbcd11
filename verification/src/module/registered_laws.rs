//! Laws of what registering does to a module.

use vstd::prelude::*;
use crate::hash::type_hash;
use crate::item::ComponentView;
use crate::module::module::{associated_constant_registered, constant_registered};
use crate::module::{
    associated_name, conflicting, item_name, kind_registered, signature, touched, Associated,
    AssociatedFunctionData, AssociatedKind, ContextErrorView, DocFunction, Docs, FunctionData,
    FunctionMetaKind, ModuleAssociated, ModuleAssociatedKind, ModuleItem,
    ModuleItemCommon, ModuleItemKind, ModuleReexport, ModuleState, ModuleTrait, ModuleTraitImpl,
    ModuleType, NameView, TypeConstructor, TypeSpecification,
};
use crate::runtime::{ConstValue, RuntimeError, ToConstValue};

verus! {

/// Test if one sequence is another one with one more thing at its end.
pub open spec fn is_pushed<T>(before: Seq<T>, after: Seq<T>, last: T) -> bool {
    &&& after.len() == before.len() + 1
    &&& after[before.len() as int] == last
    &&& forall|i: int| 0 <= i < before.len() ==> #[trigger] after[i] == before[i]
}

/// Test if nothing that only the whole module has is different.
pub open spec fn is_same_module(before: ModuleState, after: ModuleState) -> bool {
    after.unique == before.unique && after.item == before.item && after.common == before.common
}

/// Test if no types, traits, implementations and re-exports are different.
pub open spec fn keeps_definitions(before: ModuleState, after: ModuleState) -> bool {
    &&& after.types == before.types
    &&& after.types_hash == before.types_hash
    &&& after.traits == before.traits
    &&& after.trait_impls == before.trait_impls
    &&& after.reexports == before.reexports
}

/// Functions and constants share their names with each other. Macros and attribute
/// macros have names of their own.
pub proof fn lemma_item_name(a: ModuleItem, b: ModuleItem)
    ensures
        item_name(a) == item_name(b) <==> a.hash == b.hash && match a.kind {
            ModuleItemKind::Macro(_) => b.kind is Macro,
            ModuleItemKind::AttributeMacro(_) => b.kind is AttributeMacro,
            _ => b.kind is Function || b.kind is Constant,
        },
        item_name(a) == NameView::Item(a.hash) <==> a.kind is Function || a.kind is Constant,
        item_name(a) == NameView::Macro(a.hash) <==> a.kind is Macro,
        item_name(a) == NameView::AttributeMacro(a.hash) <==> a.kind is AttributeMacro,
{
}

/// What is associated with types has the same name exactly if the type, what it is
/// called by and the parameters are the same.
pub proof fn lemma_associated_name(a: ModuleAssociated, b: ModuleAssociated)
    ensures
        associated_name(a.container, a.name) == associated_name(b.container, b.name) <==> (
        a.container == b.container && a.name.kind@ == b.name.kind@ && a.name.function_parameters
            == b.name.function_parameters),
{
}

/// An item that is registered comes behind the others, and its name is taken. Nothing
/// else changes.
pub proof fn lemma_item_added(m: ModuleState, x: ModuleItem)
    ensures
        ({
            let n = m.with_item(x);
            &&& is_pushed(m.items, n.items, x)
            &&& is_pushed(m.names, n.names, item_name(x))
            &&& n.associated == m.associated
            &&& keeps_definitions(m, n)
            &&& n.construct == m.construct && n.construct_hash == m.construct_hash
            &&& is_same_module(m, n)
        }),
{
}

/// What is registered as associated with a type comes behind the others, and its
/// name is taken. Nothing else changes.
pub proof fn lemma_associated_added(m: ModuleState, x: ModuleAssociated)
    ensures
        ({
            let n = m.with_associated(x);
            &&& is_pushed(m.associated, n.associated, x)
            &&& is_pushed(
                m.names,
                n.names,
                NameView::Associated(x.container, x.name.kind@, x.name.function_parameters),
            )
            &&& n.items == m.items
            &&& keeps_definitions(m, n)
            &&& n.construct == m.construct && n.construct_hash == m.construct_hash
            &&& is_same_module(m, n)
        }),
{
}

/// Types, traits, implementations and re-exports that are registered come behind
/// the others. A type, a trait and a re-export take the name of an item, an
/// implementation takes that of the type and the trait.
pub proof fn lemma_definition_added(
    m: ModuleState,
    ty: ModuleType,
    t: ModuleTrait,
    i: ModuleTraitImpl,
    r: ModuleReexport,
)
    ensures
        ({
            let n = m.with_type(ty);
            &&& is_pushed(m.types, n.types, ty)
            &&& is_pushed(m.names, n.names, NameView::Item(ty.hash))
            &&& n.items == m.items && n.associated == m.associated && n.traits == m.traits
            &&& n.trait_impls == m.trait_impls && n.reexports == m.reexports
            &&& n.construct == m.construct && n.construct_hash == m.construct_hash
            &&& n.types_hash.contains_key(ty.hash.0)
            &&& forall|hash: u64|
                hash != ty.hash.0 ==> (#[trigger] n.types_hash.contains_key(hash)
                    <==> m.types_hash.contains_key(hash)) && n.types_hash[hash]
                    == m.types_hash[hash]
            &&& is_same_module(m, n)
        }),
        ({
            let n = m.with_trait(t);
            &&& is_pushed(m.traits, n.traits, t)
            &&& is_pushed(m.names, n.names, NameView::Item(t.hash))
            &&& n.items == m.items && n.associated == m.associated && n.types == m.types
            &&& n.types_hash == m.types_hash
            &&& n.trait_impls == m.trait_impls && n.reexports == m.reexports
            &&& n.construct == m.construct && n.construct_hash == m.construct_hash
            &&& is_same_module(m, n)
        }),
        ({
            let n = m.with_trait_impl(i);
            &&& is_pushed(m.trait_impls, n.trait_impls, i)
            &&& is_pushed(m.names, n.names, NameView::TraitImpl(i.hash, i.trait_hash))
            &&& n.items == m.items && n.associated == m.associated && n.types == m.types
            &&& n.types_hash == m.types_hash
            &&& n.traits == m.traits && n.reexports == m.reexports
            &&& n.construct == m.construct && n.construct_hash == m.construct_hash
            &&& is_same_module(m, n)
        }),
        ({
            let n = m.with_reexport(r);
            &&& is_pushed(m.reexports, n.reexports, r)
            &&& is_pushed(m.names, n.names, NameView::Item(r.hash))
            &&& n.items == m.items && n.associated == m.associated && n.types == m.types
            &&& n.types_hash == m.types_hash
            &&& n.traits == m.traits && n.trait_impls == m.trait_impls
            &&& n.construct == m.construct && n.construct_hash == m.construct_hash
            &&& is_same_module(m, n)
        }),
{
}

/// What turns constants of a type back into values is registered once. The second
/// time nothing changes. If a type has nothing like that, only its hash is kept.
pub proof fn lemma_construct_added<V: ToConstValue>(m: ModuleState)
    ensures
        ({
            let n = m.with_construct::<V>();
            &&& n.construct_hash.contains(V::hash().0)
            &&& forall|hash: u64|
                hash != V::hash().0 ==> (#[trigger] n.construct_hash.contains(hash)
                    <==> m.construct_hash.contains(hash))
            &&& n.with_construct::<V>() == n
            &&& m.construct_hash.contains(V::hash().0) ==> n == m
            &&& !m.construct_hash.contains(V::hash().0) ==> match V::constructs() {
                Some(construct) => is_pushed(
                    m.construct,
                    n.construct,
                    (V::hash(), V::info(), construct),
                ),
                None => n.construct == m.construct,
            }
            &&& n.names == m.names && n.items == m.items && n.associated == m.associated
            &&& keeps_definitions(m, n)
            &&& is_same_module(m, n)
        }),
{
}

/// A constant is refused exactly if its value cannot be one, or its name is taken.
/// Then nothing changes, and the error tells the name. Otherwise it comes behind
/// the other items, under its name in the module.
pub proof fn lemma_constant<V: ToConstValue>(
    before: ModuleState,
    after: ModuleState,
    name: ComponentView,
    value: Result<ConstValue, RuntimeError>,
    r: Result<(Docs, Option<String>), ContextErrorView>,
)
    requires
        constant_registered::<V>(before, after, name, value, r),
    ensures
        ({
            let item = before.item + seq![name];
            let hash = type_hash(item);
            &&& r is Ok <==> value is Ok && !before.names.contains(NameView::Item(hash))
            &&& r is Err ==> after == before
            &&& r matches Err(e) ==> match value {
                Err(error) => e == (ContextErrorView::InvalidConstValue { item, error }),
                Ok(_) => e == (ContextErrorView::ConflictingConstantName { item, hash }),
            }
            &&& r matches Ok((docs, deprecated)) ==> {
                let x = after.items.last();
                &&& is_pushed(before.items, after.items, x)
                &&& is_pushed(before.names, after.names, NameView::Item(hash))
                &&& after.construct_hash.contains(V::hash().0)
                &&& after.associated == before.associated
                &&& keeps_definitions(before, after)
                &&& is_same_module(before, after)
                &&& x.item@ == item && x.hash == hash
                &&& x.kind == ModuleItemKind::Constant(value->Ok_0)
                &&& x.common.docs == docs && x.common.deprecated == deprecated
            }
        }),
{
    assert(before.item.push(name) =~= before.item + seq![name]);
    if r is Ok {
        let x = after.items.last();
        lemma_item_added(before, x);
        lemma_construct_added::<V>(before.with_item(x));
    }
}

/// A constant of a type is refused exactly if its value cannot be one, or the type
/// has something of that name. Then nothing changes. Otherwise it comes behind
/// what is associated with types.
pub proof fn lemma_associated_constant<V: ToConstValue>(
    before: ModuleState,
    after: ModuleState,
    associated: Associated,
    value: Result<ConstValue, RuntimeError>,
    r: Result<(Docs, Option<String>), ContextErrorView>,
)
    requires
        associated_constant_registered::<V>(before, after, associated, value, r),
    ensures
        ({
            let name = NameView::Associated(
                associated.container,
                associated.name.kind@,
                associated.name.function_parameters,
            );
            &&& r is Ok <==> value is Ok && !before.names.contains(name)
            &&& r is Err ==> after == before
            &&& r matches Err(e) ==> match value {
                Err(error) => e == (ContextErrorView::InvalidAssociatedConstValue {
                    container: associated.container_type_info,
                    kind: associated.name.kind,
                    error,
                }),
                Ok(_) => e == conflicting(associated),
            }
            &&& r matches Ok((docs, deprecated)) ==> {
                let x = after.associated.last();
                &&& is_pushed(before.associated, after.associated, x)
                &&& is_pushed(before.names, after.names, name)
                &&& after.construct_hash.contains(V::hash().0)
                &&& after.items == before.items
                &&& keeps_definitions(before, after)
                &&& is_same_module(before, after)
                &&& x.container == associated.container && x.name == associated.name
                &&& x.container_type_info == associated.container_type_info
                &&& x.kind == ModuleAssociatedKind::Constant(value->Ok_0)
                &&& x.common.docs == docs && x.common.deprecated == deprecated
            }
        }),
{
    if r is Ok {
        let x = after.associated.last();
        lemma_associated_added(before, x);
        lemma_construct_added::<V>(before.with_associated(x));
    }
}

/// A function is refused exactly if its name is taken. Then nothing changes.
/// Otherwise it comes behind the other items, under its name in the module, with
/// its own handler and no trait.
pub proof fn lemma_function(
    before: ModuleState,
    after: ModuleState,
    data: FunctionData,
    r: Result<(Docs, Option<String>, DocFunction), ContextErrorView>,
)
    requires
        kind_registered(before, after, FunctionMetaKind::Function(data), r),
    ensures
        ({
            let item = before.item + data.item@;
            let hash = type_hash(item);
            &&& r is Ok <==> !before.names.contains(NameView::Item(hash))
            &&& r matches Err(e) ==> after == before && e == (
            ContextErrorView::ConflictingFunctionName { item, hash })
            &&& r matches Ok((docs, deprecated, doc)) ==> {
                let x = after.items.last();
                &&& is_pushed(before.items, after.items, x)
                &&& is_pushed(before.names, after.names, NameView::Item(hash))
                &&& after.associated == before.associated
                &&& keeps_definitions(before, after)
                &&& after.construct == before.construct
                &&& after.construct_hash == before.construct_hash
                &&& is_same_module(before, after)
                &&& x.item@ == item && x.hash == hash
                &&& x.kind matches ModuleItemKind::Function(f) && f.handler
                    == data.function.handler && f.trait_hash is None && f.doc == doc
                &&& x.common.docs == docs && x.common.deprecated == deprecated
            }
        }),
        signature(FunctionMetaKind::Function(data)) == data.function.doc,
{
    if r is Ok {
        lemma_item_added(before, after.items.last());
    }
}

/// A function of a type is refused exactly if the type has something of that name.
/// Then nothing changes. Otherwise it comes behind what is associated with types,
/// with its own handler and no trait.
pub proof fn lemma_associated_function(
    before: ModuleState,
    after: ModuleState,
    data: AssociatedFunctionData,
    r: Result<(Docs, Option<String>, DocFunction), ContextErrorView>,
)
    requires
        kind_registered(before, after, FunctionMetaKind::AssociatedFunction(data), r),
    ensures
        ({
            let associated = data.associated;
            let name = NameView::Associated(
                associated.container,
                associated.name.kind@,
                associated.name.function_parameters,
            );
            &&& r is Ok <==> !before.names.contains(name)
            &&& r matches Err(e) ==> after == before && e == conflicting(associated)
            &&& r matches Ok((docs, deprecated, doc)) ==> {
                let x = after.associated.last();
                &&& is_pushed(before.associated, after.associated, x)
                &&& is_pushed(before.names, after.names, name)
                &&& after.items == before.items
                &&& keeps_definitions(before, after)
                &&& after.construct == before.construct
                &&& after.construct_hash == before.construct_hash
                &&& is_same_module(before, after)
                &&& x.container == associated.container && x.name == associated.name
                &&& x.container_type_info == associated.container_type_info
                &&& x.kind matches ModuleAssociatedKind::Function(f) && f.handler
                    == data.function.handler && f.trait_hash is None && f.doc == doc
                &&& x.common.docs == docs && x.common.deprecated == deprecated
            }
        }),
        signature(FunctionMetaKind::AssociatedFunction(data)) == data.function.doc,
{
    if r is Ok {
        lemma_associated_added(before, after.associated.last());
    }
}

/// That a name is taken is told by the kind of the name: its type, the protocol or
/// the name, and the field or the index.
pub proof fn lemma_conflicting(associated: Associated)
    ensures
        match conflicting(associated) {
            ContextErrorView::ConflictingProtocolFunction { type_info, name } => type_info
                == associated.container_type_info && (associated.name.kind matches
                AssociatedKind::Protocol(protocol) && name == protocol.name@),
            ContextErrorView::ConflictingFieldFunction { type_info, name, field } => type_info
                == associated.container_type_info && (associated.name.kind matches
                AssociatedKind::FieldFn(protocol, of) && name == protocol.name@ && field == of@),
            ContextErrorView::ConflictingIndexFunction { type_info, name, index } => type_info
                == associated.container_type_info && (associated.name.kind matches
                AssociatedKind::IndexFn(protocol, of) && name == protocol.name@ && index == of),
            ContextErrorView::ConflictingInstanceFunction { type_info, name } => type_info
                == associated.container_type_info && (associated.name.kind matches
                AssociatedKind::Instance(of) && name == of@),
            _ => false,
        },
{
}

/// A new module has its name and its documentation, and nothing else.
pub proof fn lemma_new_module(item: Seq<ComponentView>, common: ModuleItemCommon)
    ensures
        ({
            let m = ModuleState::empty(item, common);
            &&& m.item == item && m.common == common && m.unique is None
            &&& m.names.len() == 0 && m.items.len() == 0 && m.associated.len() == 0
            &&& m.types.len() == 0 && m.traits.len() == 0 && m.trait_impls.len() == 0
            &&& m.reexports.len() == 0 && m.construct.len() == 0
            &&& forall|hash: u64| !(#[trigger] m.types_hash.contains_key(hash))
            &&& forall|hash: u64| !(#[trigger] m.construct_hash.contains(hash))
        }),
{
}

/// What is changed of a type through its handle is its documentation, its structure
/// and its constructor, and nothing that tells which type it is.
pub proof fn lemma_touched(
    ty: ModuleType,
    docs: Docs,
    deprecated: Option<String>,
    structure: Option<TypeSpecification>,
    constructor: Option<TypeConstructor>,
)
    ensures
        ({
            let x = touched(ty, docs, deprecated, structure, constructor);
            &&& x.common.docs == docs && x.common.deprecated == deprecated
            &&& x.spec == structure && x.constructor == constructor
            &&& x.item == ty.item && x.hash == ty.hash
            &&& x.type_parameters == ty.type_parameters && x.type_info == ty.type_info
        }),
{
}

} // verus!
