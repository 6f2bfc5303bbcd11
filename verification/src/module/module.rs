//! A collection of native functions and types.

use std::collections::{HashMap, HashSet};
use vstd::multiset::Multiset;
use vstd::prelude::*;
use crate::hash::{type_hash, Hash64};
use crate::item::{components, ComponentView, IntoComponent, ItemBuf};
use crate::module::laws::{
    lemma_empty, lemma_kept_twice, lemma_type_index, lemma_types_changed, lemma_with_associated,
    lemma_with_construct,
    lemma_with_item, lemma_with_reexport, lemma_with_trait, lemma_with_trait_impl, lemma_with_type,
};
use crate::module::handles::{ItemFnMut, ItemMut, TraitMut, TypeMut, VariantMut};
use crate::module::{
    Associated, AssociatedFunctionData, AssociatedKind, AssociatedKindView, AssociatedName,
    AttributeMacroHandler, ConstConstruct, ContextError, ContextErrorView, DocFunction, Docs,
    FunctionData, FunctionDef, FunctionMeta, FunctionMetaKind, InstanceFunctionDef, MacroHandler,
    MacroMeta, MacroMetaKind, ModuleAssociated, ModuleAssociatedKind, ModuleFunction, ModuleItem,
    ModuleItemCommon, ModuleItemKind, ModuleMeta, ModuleReexport, ModuleTrait, ModuleTraitImpl,
    ModuleType, Protocol, ToFieldFunction, ToInstance, TypeConstructor, TypeSpecification, Variant,
};
use crate::runtime::{ConstValue, Named, RuntimeError, ToConstValue, TypeInfo, TypeOf};

verus! {

broadcast use vstd::std_specs::hash::group_hash_axioms;

/// What a name is taken by.
#[derive(Debug, PartialEq, Eq)]
pub enum Name {
    /// Something that is associated with a type, by the hash of the type, its
    /// name and the hash of its parameters.
    Associated(Hash64, AssociatedKind, Hash64),
    /// An item.
    Item(Hash64),
    /// A macro.
    Macro(Hash64),
    /// An attribute macro.
    AttributeMacro(Hash64),
    /// An implementation of a trait for a type.
    TraitImpl(Hash64, Hash64),
}

/// The mathematical value of a [`Name`].
pub enum NameView {
    /// Something that is associated with a type.
    Associated(Hash64, AssociatedKindView, Hash64),
    /// An item.
    Item(Hash64),
    /// A macro.
    Macro(Hash64),
    /// An attribute macro.
    AttributeMacro(Hash64),
    /// An implementation of a trait for a type.
    TraitImpl(Hash64, Hash64),
}

impl View for Name {
    type V = NameView;

    open spec fn view(&self) -> NameView {
        match *self {
            Name::Associated(hash, kind, parameters) => NameView::Associated(
                hash,
                kind@,
                parameters,
            ),
            Name::Item(hash) => NameView::Item(hash),
            Name::Macro(hash) => NameView::Macro(hash),
            Name::AttributeMacro(hash) => NameView::AttributeMacro(hash),
            Name::TraitImpl(hash, trait_hash) => NameView::TraitImpl(hash, trait_hash),
        }
    }
}

impl Name {
    /// Test if two names are the same.
    fn same(&self, other: &Name) -> (r: bool)
        ensures
            r == (self@ == other@),
    {
        match (self, other) {
            (Name::Associated(a, x, p), Name::Associated(b, y, q)) => *a == *b && x.same(y) && *p
                == *q,
            (Name::Item(a), Name::Item(b)) => *a == *b,
            (Name::Macro(a), Name::Macro(b)) => *a == *b,
            (Name::AttributeMacro(a), Name::AttributeMacro(b)) => *a == *b,
            (Name::TraitImpl(a, x), Name::TraitImpl(b, y)) => *a == *b && *x == *y,
            _ => false,
        }
    }
}

/// A collection of native functions and types.
#[derive(Debug)]
pub struct Module {
    /// The names that are taken. They stand in a vector, in which none occurs
    /// twice: of a set of the standard library nothing is known unless it holds
    /// plain numbers, and a name can hold a text.
    pub names: Vec<Name>,
    /// An identifier by which the module is not in conflict with itself.
    pub unique: Option<&'static str>,
    /// The name of the module.
    pub item: ItemBuf,
    /// Functions, constants and macros.
    pub items: Vec<ModuleItem>,
    /// What is associated with types.
    pub associated: Vec<ModuleAssociated>,
    /// Types.
    pub types: Vec<ModuleType>,
    /// The indexes of types, by their hashes.
    pub types_hash: HashMap<u64, usize>,
    /// Traits.
    pub traits: Vec<ModuleTrait>,
    /// Implementations of traits.
    pub trait_impls: Vec<ModuleTraitImpl>,
    /// Names that stand for other items.
    pub reexports: Vec<ModuleReexport>,
    /// What turns constants back into values.
    pub construct: Vec<(Hash64, TypeInfo, ConstConstruct)>,
    /// The hashes of the types that constants have been registered of.
    pub construct_hash: HashSet<u64>,
    /// Documentation and deprecation of the module.
    pub common: ModuleItemCommon,
}

/// The mathematical value of a [`Module`].
#[verifier::ext_equal]
pub struct ModuleState {
    /// The names that are taken.
    pub names: Seq<NameView>,
    /// An identifier by which the module is not in conflict with itself.
    pub unique: Option<&'static str>,
    /// The name of the module.
    pub item: Seq<ComponentView>,
    /// Functions, constants and macros.
    pub items: Seq<ModuleItem>,
    /// What is associated with types.
    pub associated: Seq<ModuleAssociated>,
    /// Types.
    pub types: Seq<ModuleType>,
    /// The indexes of types, by their hashes.
    pub types_hash: Map<u64, usize>,
    /// Traits.
    pub traits: Seq<ModuleTrait>,
    /// Implementations of traits.
    pub trait_impls: Seq<ModuleTraitImpl>,
    /// Names that stand for other items.
    pub reexports: Seq<ModuleReexport>,
    /// What turns constants back into values.
    pub construct: Seq<(Hash64, TypeInfo, ConstConstruct)>,
    /// The hashes of the types that constants have been registered of.
    pub construct_hash: Set<u64>,
    /// Documentation and deprecation of the module.
    pub common: ModuleItemCommon,
}

impl View for Module {
    type V = ModuleState;

    open spec fn view(&self) -> ModuleState {
        ModuleState {
            names: self.names@.map_values(|name: Name| name@),
            unique: self.unique,
            item: self.item@,
            items: self.items@,
            associated: self.associated@,
            types: self.types@,
            types_hash: self.types_hash@,
            traits: self.traits@,
            trait_impls: self.trait_impls@,
            reexports: self.reexports@,
            construct: self.construct@,
            construct_hash: self.construct_hash@,
            common: self.common,
        }
    }
}

/// The name that an item takes.
pub open spec fn item_name(item: ModuleItem) -> NameView {
    match item.kind {
        ModuleItemKind::Constant(_) => NameView::Item(item.hash),
        ModuleItemKind::Function(_) => NameView::Item(item.hash),
        ModuleItemKind::Macro(_) => NameView::Macro(item.hash),
        ModuleItemKind::AttributeMacro(_) => NameView::AttributeMacro(item.hash),
    }
}

/// The name that something associated with a type takes.
pub open spec fn associated_name(
    container: Hash64,
    name: AssociatedName,
) -> NameView {
    NameView::Associated(container, name.kind@, name.function_parameters)
}

impl ModuleState {
    /// The names of everything that is registered.
    pub open spec fn registered(self) -> Multiset<NameView> {
        self.items.map_values(|item: ModuleItem| item_name(item)).to_multiset().add(
            self.associated.map_values(
                |a: ModuleAssociated| associated_name(a.container, a.name),
            ).to_multiset(),
        ).add(
            self.types.map_values(|ty: ModuleType| NameView::Item(ty.hash)).to_multiset(),
        ).add(
            self.traits.map_values(|t: ModuleTrait| NameView::Item(t.hash)).to_multiset(),
        ).add(
            self.trait_impls.map_values(
                |t: ModuleTraitImpl| NameView::TraitImpl(t.hash, t.trait_hash),
            ).to_multiset(),
        ).add(
            self.reexports.map_values(|r: ModuleReexport| NameView::Item(r.hash)).to_multiset(),
        )
    }

    /// Test if the module is valid. No name is taken twice, and the names that
    /// are taken are those of what is registered. Types are found by their
    /// hashes. What turns constants back into values is there at most once for
    /// each type.
    #[verifier::opaque]
    pub open spec fn wf(self) -> bool {
        &&& self.names.no_duplicates()
        &&& self.names.to_multiset() =~= self.registered()
        &&& forall|i: int|
            0 <= i < self.types.len() ==> self.types_hash.contains_key(
                (#[trigger] self.types[i]).hash.0,
            ) && self.types_hash[self.types[i].hash.0] == i
        &&& forall|hash: u64| #[trigger]
            self.types_hash.contains_key(hash) ==> self.types_hash[hash] < self.types.len()
                && self.types[self.types_hash[hash] as int].hash == Hash64(hash)
        &&& forall|i: int|
            0 <= i < self.construct.len() ==> self.construct_hash.contains(
                (#[trigger] self.construct[i]).0.0,
            )
        &&& forall|i: int, j: int|
            0 <= i < j < self.construct.len() ==> self.construct[i].0 != self.construct[j].0
    }

    /// An empty module of the given name.
    pub open spec fn empty(item: Seq<ComponentView>, common: ModuleItemCommon) -> ModuleState {
        ModuleState {
            names: Seq::empty(),
            unique: None,
            item,
            items: Seq::empty(),
            associated: Seq::empty(),
            types: Seq::empty(),
            types_hash: Map::empty(),
            traits: Seq::empty(),
            trait_impls: Seq::empty(),
            reexports: Seq::empty(),
            construct: Seq::empty(),
            construct_hash: Set::empty(),
            common,
        }
    }

    /// With an item registered.
    pub open spec fn with_item(self, item: ModuleItem) -> ModuleState {
        ModuleState {
            names: self.names.push(item_name(item)),
            items: self.items.push(item),
            ..self
        }
    }

    /// With something associated with a type registered.
    pub open spec fn with_associated(self, associated: ModuleAssociated) -> ModuleState {
        ModuleState {
            names: self.names.push(associated_name(associated.container, associated.name)),
            associated: self.associated.push(associated),
            ..self
        }
    }

    /// With a type registered.
    pub open spec fn with_type(self, ty: ModuleType) -> ModuleState {
        ModuleState {
            names: self.names.push(NameView::Item(ty.hash)),
            types: self.types.push(ty),
            types_hash: self.types_hash.insert(ty.hash.0, self.types.len() as usize),
            ..self
        }
    }

    /// Test if a type with the given hash is registered.
    pub open spec fn has_type(self, hash: Hash64) -> bool {
        exists|i: int| 0 <= i < self.types.len() && (#[trigger] self.types[i]).hash == hash
    }

    /// The index of the type with the given hash.
    pub open spec fn type_index(self, hash: Hash64) -> int {
        choose|i: int| 0 <= i < self.types.len() && (#[trigger] self.types[i]).hash == hash
    }

    /// With its types replaced.
    pub open spec fn with_types(self, types: Seq<ModuleType>) -> ModuleState {
        ModuleState { types, ..self }
    }

    /// With a trait registered.
    pub open spec fn with_trait(self, t: ModuleTrait) -> ModuleState {
        ModuleState {
            names: self.names.push(NameView::Item(t.hash)),
            traits: self.traits.push(t),
            ..self
        }
    }

    /// With an implementation of a trait registered.
    pub open spec fn with_trait_impl(self, t: ModuleTraitImpl) -> ModuleState {
        ModuleState {
            names: self.names.push(NameView::TraitImpl(t.hash, t.trait_hash)),
            trait_impls: self.trait_impls.push(t),
            ..self
        }
    }

    /// With a re-export registered.
    pub open spec fn with_reexport(self, r: ModuleReexport) -> ModuleState {
        ModuleState {
            names: self.names.push(NameView::Item(r.hash)),
            reexports: self.reexports.push(r),
            ..self
        }
    }

    /// With what turns constants of a type back into values registered, unless
    /// it has been before.
    pub open spec fn with_construct<V: ToConstValue>(self) -> ModuleState {
        if self.construct_hash.contains(V::hash().0) {
            self
        } else {
            ModuleState {
                construct_hash: self.construct_hash.insert(V::hash().0),
                construct: match V::constructs() {
                    Some(construct) => self.construct.push((V::hash(), V::info(), construct)),
                    None => self.construct,
                },
                ..self
            }
        }
    }
}

/// Test if a module keeps its types when more is registered in it: no name is
/// given up, and the types stay where they are, under their hashes.
pub open spec fn keeps_types(before: ModuleState, after: ModuleState) -> bool {
    &&& before.names.is_prefix_of(after.names)
    &&& before.types.len() <= after.types.len()
    &&& forall|i: int|
        0 <= i < before.types.len() ==> (#[trigger] after.types[i]).hash == before.types[i].hash
}

/// A type that can add to the module that it is registered in.
pub trait InstallWith {
    /// Test if the type adds this to a module.
    spec fn installed(before: ModuleState, after: ModuleState, r: Result<(), ContextError>) -> bool;

    /// Add to the module.
    fn install_with(module: &mut Module) -> (r: Result<(), ContextError>)
        requires
            old(module)@.wf(),
        ensures
            final(module)@.wf(),
            keeps_types(old(module)@, final(module)@),
            Self::installed(old(module)@, final(module)@, r),
    ;
}

/// Test if an item is registered with a name, a kind and a documentation.
pub open spec fn is_item(
    x: ModuleItem,
    item: Seq<ComponentView>,
    kind: ModuleItemKind,
    docs: Docs,
    deprecated: Option<String>,
) -> bool {
    &&& x.item@ == item
    &&& x.hash == type_hash(item)
    &&& x.kind == kind
    &&& x.common.docs == docs
    &&& x.common.deprecated == deprecated
}

/// Test if something is registered as associated with a type.
pub open spec fn is_associated(
    x: ModuleAssociated,
    associated: Associated,
    kind: ModuleAssociatedKind,
    docs: Docs,
    deprecated: Option<String>,
) -> bool {
    &&& x.container == associated.container
    &&& x.container_type_info == associated.container_type_info
    &&& x.name == associated.name
    &&& x.kind == kind
    &&& x.common.docs == docs
    &&& x.common.deprecated == deprecated
}

/// The error for the name of something associated with a type being taken.
pub open spec fn conflicting(associated: Associated) -> ContextErrorView {
    let type_info = associated.container_type_info;

    match associated.name.kind {
        AssociatedKind::Protocol(protocol) => ContextErrorView::ConflictingProtocolFunction {
            type_info,
            name: protocol.name@,
        },
        AssociatedKind::FieldFn(protocol, field) => ContextErrorView::ConflictingFieldFunction {
            type_info,
            name: protocol.name@,
            field: field@,
        },
        AssociatedKind::IndexFn(protocol, index) => ContextErrorView::ConflictingIndexFunction {
            type_info,
            name: protocol.name@,
            index,
        },
        AssociatedKind::Instance(name) => ContextErrorView::ConflictingInstanceFunction {
            type_info,
            name: name@,
        },
    }
}

/// Test if a constant is registered in a module, or refused. What is given is
/// what the documentation is set to in the end.
pub open spec fn constant_registered<V: ToConstValue>(
    before: ModuleState,
    after: ModuleState,
    name: ComponentView,
    value: Result<ConstValue, RuntimeError>,
    r: Result<(Docs, Option<String>), ContextErrorView>,
) -> bool {
    let item = before.item.push(name);
    let hash = type_hash(item);

    match (value, r) {
        (Err(error), Err(e)) => {
            &&& after == before
            &&& e == (ContextErrorView::InvalidConstValue { item, error })
        },
        (Err(_), Ok(_)) => false,
        (Ok(_), Err(e)) => {
            &&& after == before
            &&& before.names.contains(NameView::Item(hash))
            &&& e == (ContextErrorView::ConflictingConstantName { item, hash })
        },
        (Ok(v), Ok((docs, deprecated))) => {
            let x = after.items.last();
            &&& !before.names.contains(NameView::Item(hash))
            &&& after =~= before.with_item(x).with_construct::<V>()
            &&& is_item(x, item, ModuleItemKind::Constant(v), docs, deprecated)
        },
    }
}

/// Test if a constant that is associated with a type is registered in a module,
/// or refused. What is given is what the documentation is set to in the end.
pub open spec fn associated_constant_registered<V: ToConstValue>(
    before: ModuleState,
    after: ModuleState,
    associated: Associated,
    value: Result<ConstValue, RuntimeError>,
    r: Result<(Docs, Option<String>), ContextErrorView>,
) -> bool {
    let name = associated_name(associated.container, associated.name);

    match (value, r) {
        (Err(error), Err(e)) => {
            &&& after == before
            &&& e == (ContextErrorView::InvalidAssociatedConstValue {
                container: associated.container_type_info,
                kind: associated.name.kind,
                error,
            })
        },
        (Err(_), Ok(_)) => false,
        (Ok(_), Err(e)) => {
            &&& after == before
            &&& before.names.contains(name)
            &&& e == conflicting(associated)
        },
        (Ok(v), Ok((docs, deprecated))) => {
            let x = after.associated.last();
            &&& !before.names.contains(name)
            &&& after =~= before.with_associated(x).with_construct::<V>()
            &&& is_associated(x, associated, ModuleAssociatedKind::Constant(v), docs, deprecated)
        },
    }
}

/// Test if a function is registered in a module, or refused. What is given is
/// what the documentation and the signature are set to in the end.
pub open spec fn function_registered(
    before: ModuleState,
    after: ModuleState,
    data: FunctionData,
    r: Result<(Docs, Option<String>, DocFunction), ContextErrorView>,
) -> bool {
    let item = before.item + data.item@;
    let hash = type_hash(item);

    match r {
        Err(e) => {
            &&& after == before
            &&& before.names.contains(NameView::Item(hash))
            &&& e == (ContextErrorView::ConflictingFunctionName { item, hash })
        },
        Ok((docs, deprecated, doc)) => {
            let x = after.items.last();
            &&& !before.names.contains(NameView::Item(hash))
            &&& after =~= before.with_item(x)
            &&& is_item(
                x,
                item,
                ModuleItemKind::Function(
                    ModuleFunction { handler: data.function.handler, trait_hash: None, doc },
                ),
                docs,
                deprecated,
            )
        },
    }
}

/// Test if a function that is associated with a type is registered in a module,
/// or refused. What is given is what the documentation and the signature are
/// set to in the end.
pub open spec fn associated_registered(
    before: ModuleState,
    after: ModuleState,
    associated: Associated,
    function: FunctionDef,
    r: Result<(Docs, Option<String>, DocFunction), ContextErrorView>,
) -> bool {
    let name = associated_name(associated.container, associated.name);

    match r {
        Err(e) => {
            &&& after == before
            &&& before.names.contains(name)
            &&& e == conflicting(associated)
        },
        Ok((docs, deprecated, doc)) => {
            let x = after.associated.last();
            &&& !before.names.contains(name)
            &&& after =~= before.with_associated(x)
            &&& is_associated(
                x,
                associated,
                ModuleAssociatedKind::Function(
                    ModuleFunction { handler: function.handler, trait_hash: None, doc },
                ),
                docs,
                deprecated,
            )
        },
    }
}

/// Test if a function is registered, or refused.
pub open spec fn kind_registered(
    before: ModuleState,
    after: ModuleState,
    kind: FunctionMetaKind,
    r: Result<(Docs, Option<String>, DocFunction), ContextErrorView>,
) -> bool {
    match kind {
        FunctionMetaKind::Function(data) => function_registered(before, after, data, r),
        FunctionMetaKind::AssociatedFunction(data) => associated_registered(
            before,
            after,
            data.associated,
            data.function,
            r,
        ),
    }
}

/// The signature of a function.
pub open spec fn signature(kind: FunctionMetaKind) -> DocFunction {
    match kind {
        FunctionMetaKind::Function(data) => data.function.doc,
        FunctionMetaKind::AssociatedFunction(data) => data.function.doc,
    }
}

/// Test if a type is registered without anything added to it.
pub open spec fn is_type<T: TypeOf + Named>(x: ModuleType) -> bool {
    &&& x.item@ == T::item()
    &&& x.hash == T::hash()
    &&& x.common.is_none()
    &&& x.type_parameters == T::parameters()
    &&& x.type_info == T::info()
    &&& x.spec is None
    &&& x.constructor is None
}

impl Module {
    /// Create an empty module for the root path.
    pub fn new() -> (m: Self)
        ensures
            m@.wf(),
            m.common.is_none(),
            m@ == ModuleState::empty(Seq::empty(), m.common),
    {
        Self::inner_new(ItemBuf::new())
    }

    /// Give the module an identifier by which it is not in conflict with itself.
    pub fn with_unique(self, id: &'static str) -> (m: Self)
        ensures
            m@ == (ModuleState { unique: Some(id), ..self@ }),
            self@.wf() ==> m@.wf(),
    {
        let m = Module {
            names: self.names,
            unique: Some(id),
            item: self.item,
            items: self.items,
            associated: self.associated,
            types: self.types,
            types_hash: self.types_hash,
            traits: self.traits,
            trait_impls: self.trait_impls,
            reexports: self.reexports,
            construct: self.construct,
            construct_hash: self.construct_hash,
            common: self.common,
        };
        proof {
            reveal(ModuleState::wf);
            assert(self@.registered() =~= m@.registered());
        }
        m
    }

    /// Construct an empty module of the given name.
    pub fn with_item<N: IntoComponent>(names: Vec<N>) -> (r: Result<Self, ContextError>)
        ensures
            r is Ok,
            r->Ok_0@.wf(),
            r->Ok_0.common.is_none(),
            r->Ok_0@ == ModuleState::empty(components(names@), r->Ok_0.common),
    {
        Ok(Self::inner_new(ItemBuf::with_item(names)))
    }

    /// Construct an empty module for the given crate.
    pub fn with_crate(name: &str) -> (r: Result<Self, ContextError>)
        ensures
            r is Ok,
            r->Ok_0@.wf(),
            r->Ok_0.common.is_none(),
            r->Ok_0@ == ModuleState::empty(seq![ComponentView::Crate(name@)], r->Ok_0.common),
    {
        Ok(Self::inner_new(ItemBuf::with_crate(name)))
    }

    /// Construct an empty module inside of the given crate.
    pub fn with_crate_item<N: IntoComponent>(name: &str, names: Vec<N>) -> (r: Result<
        Self,
        ContextError,
    >)
        ensures
            r is Ok,
            r->Ok_0@.wf(),
            r->Ok_0.common.is_none(),
            r->Ok_0@ == ModuleState::empty(
                seq![ComponentView::Crate(name@)] + components(names@),
                r->Ok_0.common,
            ),
    {
        Ok(Self::inner_new(ItemBuf::with_crate_item(name, names)))
    }

    /// Construct an empty module from its annotations.
    pub fn from_meta(meta: ModuleMeta) -> (r: Result<Self, ContextError>)
        ensures
            r is Ok,
            r->Ok_0@.wf(),
            r->Ok_0.common.docs.docs == meta.docs,
            r->Ok_0.common.docs.arguments is None,
            r->Ok_0.common.deprecated is None,
            r->Ok_0@ == ModuleState::empty(meta.item@, r->Ok_0.common),
    {
        let mut m = Self::inner_new(meta.item);
        let h = m.item_mut();
        h.docs(meta.docs);
        proof {
            lemma_empty(m@.item, m.common);
        }
        Ok(m)
    }

    /// An empty module of the given name.
    fn inner_new(item: ItemBuf) -> (m: Self)
        ensures
            m@.wf(),
            m.common.is_none(),
            m@ == ModuleState::empty(item@, m.common),
    {
        let m = Module {
            names: Vec::new(),
            unique: None,
            item,
            items: Vec::new(),
            associated: Vec::new(),
            types: Vec::new(),
            types_hash: HashMap::new(),
            traits: Vec::new(),
            trait_impls: Vec::new(),
            reexports: Vec::new(),
            construct: Vec::new(),
            construct_hash: HashSet::new(),
            common: ModuleItemCommon::empty(),
        };
        proof {
            lemma_empty(m@.item, m.common);
            assert(m@ =~= ModuleState::empty(m@.item, m.common));
        }
        m
    }

    /// A handle to the module itself.
    pub fn item_mut(&mut self) -> (h: ItemMut<'_>)
        ensures
            *h.docs == old(self).common.docs,
            *h.deprecated == old(self).common.deprecated,
            final(self)@ == (ModuleState {
                common: ModuleItemCommon {
                    docs: *final(h.docs),
                    deprecated: *final(h.deprecated),
                },
                ..old(self)@
            }),
    {
        ItemMut { docs: &mut self.common.docs, deprecated: &mut self.common.deprecated }
    }

    /// Test if a name is taken.
    fn is_taken(&self, name: &Name) -> (r: bool)
        ensures
            r == self@.names.contains(name@),
    {
        let mut i: usize = 0;

        while i < self.names.len()
            invariant
                i <= self.names@.len(),
                forall|j: int| 0 <= j < i ==> #[trigger] self@.names[j] != name@,
            decreases self.names@.len() - i,
        {
            if self.names[i].same(name) {
                assert(self@.names[i as int] == name@);
                return true;
            }

            i += 1;
        }

        false
    }

    /// Register an item whose name is not taken.
    fn push_item(&mut self, item: ItemBuf, kind: ModuleItemKind, common: ModuleItemCommon)
        requires
            old(self)@.wf(),
            !old(self)@.names.contains(
                item_name(ModuleItem { item, hash: type_hash(item@), common, kind }),
            ),
        ensures
            final(self)@ == old(self)@.with_item(
                ModuleItem { item, hash: type_hash(item@), common, kind },
            ),
    {
        let hash = Hash64::type_hash(&item);

        let name = match &kind {
            ModuleItemKind::Constant(_) => Name::Item(hash),
            ModuleItemKind::Function(_) => Name::Item(hash),
            ModuleItemKind::Macro(_) => Name::Macro(hash),
            ModuleItemKind::AttributeMacro(_) => Name::AttributeMacro(hash),
        };

        self.names.push(name);
        self.items.push(ModuleItem { item, hash, common, kind });
        assert(self@.names =~= old(self)@.names.push(name@));
    }

    /// Register a constant.
    pub(crate) fn insert_constant<N: IntoComponent, V: ToConstValue>(
        &mut self,
        name: N,
        value: V,
    ) -> (r: Result<ItemMut<'_>, ContextError>)
        requires
            old(self)@.wf(),
        ensures
            constant_registered::<V>(
                old(self)@,
                final(self)@,
                name.component(),
                value.const_value(),
                match r {
                    Ok(h) => Ok((*final(h.docs), *final(h.deprecated))),
                    Err(e) => Err(e@),
                },
            ),
            r matches Ok(h) ==> h.docs.is_none() && *h.deprecated is None,
            final(self)@.wf(),
    {
        let item = self.join(name);
        let hash = Hash64::type_hash(&item);

        let value = match value.to_const_value() {
            Ok(value) => value,
            Err(error) => return Err(ContextError::InvalidConstValue { item, error }),
        };

        if self.is_taken(&Name::Item(hash)) {
            return Err(ContextError::ConflictingConstantName { item, hash });
        }

        proof {
            assert forall|x: ModuleItem| item_name(x) == NameView::Item(hash) implies (
            #[trigger] old(self)@.with_item(x)).with_construct::<V>().wf() by {
                lemma_with_item(old(self)@, x);
                lemma_with_construct::<V>(old(self)@.with_item(x));
            }
        }
        self.push_item(item, ModuleItemKind::Constant(value), ModuleItemCommon::empty());
        self.insert_const_construct::<V>();

        let n: usize = self.items.len();
        let last = &mut self.items[n - 1];
        Ok(ItemMut { docs: &mut last.common.docs, deprecated: &mut last.common.deprecated })
    }

    /// The name of an item in the module.
    fn join<N: IntoComponent>(&self, name: N) -> (item: ItemBuf)
        ensures
            item@ == self@.item.push(name.component()),
    {
        let mut names: Vec<N> = Vec::new();
        names.push(name);
        let item = self.item.join(names);
        assert(item@ =~= self@.item.push(name.component()));
        item
    }

    /// Register what turns constants of a type back into values, unless it has
    /// been before.
    fn insert_const_construct<V: ToConstValue>(&mut self)
        ensures
            final(self)@ == old(self)@.with_construct::<V>(),
    {
        let hash = V::type_hash();

        if self.construct_hash.insert(hash.0) {
            if let Some(construct) = V::construct() {
                self.construct.push((hash, V::type_info(), construct));
            }
        } else {
            assert(self.construct_hash@ =~= old(self).construct_hash@);
        }
    }

    /// Register a constant that is associated with a type.
    pub(crate) fn insert_associated_constant<V: ToConstValue>(
        &mut self,
        associated: Associated,
        value: V,
    ) -> (r: Result<ItemMut<'_>, ContextError>)
        requires
            old(self)@.wf(),
        ensures
            associated_constant_registered::<V>(
                old(self)@,
                final(self)@,
                associated,
                value.const_value(),
                match r {
                    Ok(h) => Ok((*final(h.docs), *final(h.deprecated))),
                    Err(e) => Err(e@),
                },
            ),
            r matches Ok(h) ==> h.docs.is_none() && *h.deprecated is None,
            final(self)@.wf(),
    {
        let value = match value.to_const_value() {
            Ok(value) => value,
            Err(error) => return Err(
                ContextError::InvalidAssociatedConstValue {
                    container: associated.container_type_info,
                    kind: associated.name.kind,
                    error,
                },
            ),
        };

        self.check_associated_name(&associated)?;

        proof {
            let name = associated_name(associated.container, associated.name);
            assert forall|x: ModuleAssociated|
                associated_name(x.container, x.name) == name implies (
            #[trigger] old(self)@.with_associated(x)).with_construct::<V>().wf() by {
                lemma_with_associated(old(self)@, x);
                lemma_with_construct::<V>(old(self)@.with_associated(x));
            }
        }
        self.push_associated(
            associated,
            ModuleAssociatedKind::Constant(value),
            ModuleItemCommon::empty(),
        );
        self.insert_const_construct::<V>();

        let n: usize = self.associated.len();
        let last = &mut self.associated[n - 1];
        Ok(ItemMut { docs: &mut last.common.docs, deprecated: &mut last.common.deprecated })
    }

    /// Check that the name of something associated with a type is not taken.
    fn check_associated_name(&self, associated: &Associated) -> (r: Result<(), ContextError>)
        ensures
            match r {
                Ok(_) => !self@.names.contains(
                    associated_name(associated.container, associated.name),
                ),
                Err(e) => self@.names.contains(
                    associated_name(associated.container, associated.name),
                ) && e@ == conflicting(*associated),
            },
    {
        let name = Name::Associated(
            associated.container,
            associated.name.kind.copy(),
            associated.name.function_parameters,
        );

        if !self.is_taken(&name) {
            return Ok(());
        }

        let type_info = associated.container_type_info;

        Err(
            match &associated.name.kind {
                AssociatedKind::Protocol(protocol) => ContextError::ConflictingProtocolFunction {
                    type_info,
                    name: protocol.name.to_owned(),
                },
                AssociatedKind::FieldFn(protocol, field) => ContextError::ConflictingFieldFunction {
                    type_info,
                    name: protocol.name.to_owned(),
                    field: field.clone(),
                },
                AssociatedKind::IndexFn(protocol, index) => ContextError::ConflictingIndexFunction {
                    type_info,
                    name: protocol.name.to_owned(),
                    index: *index,
                },
                AssociatedKind::Instance(name) => ContextError::ConflictingInstanceFunction {
                    type_info,
                    name: name.clone(),
                },
            },
        )
    }

    /// Register something associated with a type, whose name is not taken.
    fn push_associated(
        &mut self,
        associated: Associated,
        kind: ModuleAssociatedKind,
        common: ModuleItemCommon,
    )
        ensures
            final(self)@ == old(self)@.with_associated(
                ModuleAssociated {
                    container: associated.container,
                    container_type_info: associated.container_type_info,
                    name: associated.name,
                    common,
                    kind,
                },
            ),
    {
        let name = Name::Associated(
            associated.container,
            associated.name.kind.copy(),
            associated.name.function_parameters,
        );
        self.names.push(name);
        self.associated.push(
            ModuleAssociated {
                container: associated.container,
                container_type_info: associated.container_type_info,
                name: associated.name,
                common,
                kind,
            },
        );
        assert(self@.names =~= old(self)@.names.push(name@));
    }

    /// Register a macro through its annotations.
    pub fn macro_meta(&mut self, meta: MacroMeta) -> (r: Result<ItemMut<'_>, ContextError>)
        requires
            old(self)@.wf(),
        ensures
            match (meta.kind, r) {
                (MacroMetaKind::Function(item, _), Err(e)) => {
                    let item = old(self)@.item + item@;
                    let hash = type_hash(item);
                    &&& final(self)@ == old(self)@
                    &&& old(self)@.names.contains(NameView::Macro(hash))
                    &&& e@ == (ContextErrorView::ConflictingMacroName { item, hash })
                },
                (MacroMetaKind::Attribute(item, _), Err(e)) => {
                    let item = old(self)@.item + item@;
                    let hash = type_hash(item);
                    &&& final(self)@ == old(self)@
                    &&& old(self)@.names.contains(NameView::AttributeMacro(hash))
                    &&& e@ == (ContextErrorView::ConflictingMacroName { item, hash })
                },
                (MacroMetaKind::Function(item, handler), Ok(h)) => {
                    let item = old(self)@.item + item@;
                    let x = final(self)@.items.last();
                    &&& !old(self)@.names.contains(NameView::Macro(type_hash(item)))
                    &&& h.docs.docs == meta.docs && h.docs.arguments is None
                    &&& *h.deprecated is None
                    &&& final(self)@ == old(self)@.with_item(x)
                    &&& is_item(
                        x,
                        item,
                        ModuleItemKind::Macro(handler),
                        *final(h.docs),
                        *final(h.deprecated),
                    )
                },
                (MacroMetaKind::Attribute(item, handler), Ok(h)) => {
                    let item = old(self)@.item + item@;
                    let x = final(self)@.items.last();
                    &&& !old(self)@.names.contains(NameView::AttributeMacro(type_hash(item)))
                    &&& h.docs.docs == meta.docs && h.docs.arguments is None
                    &&& *h.deprecated is None
                    &&& final(self)@ == old(self)@.with_item(x)
                    &&& is_item(
                        x,
                        item,
                        ModuleItemKind::AttributeMacro(handler),
                        *final(h.docs),
                        *final(h.deprecated),
                    )
                },
            },
            final(self)@.wf(),
    {
        let mut docs = Docs::empty();
        docs.set_docs(meta.docs);
        let common = ModuleItemCommon { docs, deprecated: None };

        match meta.kind {
            MacroMetaKind::Function(item, handler) => {
                let item = self.item.join_item(&item);
                let hash = Hash64::type_hash(&item);

                if self.is_taken(&Name::Macro(hash)) {
                    return Err(ContextError::ConflictingMacroName { item, hash });
                }

                proof {
                    assert forall|x: ModuleItem| item_name(x) == NameView::Macro(hash) implies (
                    #[trigger] old(self)@.with_item(x)).wf() by {
                        lemma_with_item(old(self)@, x);
                    }
                }
                self.push_item(item, ModuleItemKind::Macro(handler), common);
            },
            MacroMetaKind::Attribute(item, handler) => {
                let item = self.item.join_item(&item);
                let hash = Hash64::type_hash(&item);

                if self.is_taken(&Name::AttributeMacro(hash)) {
                    return Err(ContextError::ConflictingMacroName { item, hash });
                }

                proof {
                    assert forall|x: ModuleItem|
                        item_name(x) == NameView::AttributeMacro(hash) implies (
                    #[trigger] old(self)@.with_item(x)).wf() by {
                        lemma_with_item(old(self)@, x);
                    }
                }
                self.push_item(item, ModuleItemKind::AttributeMacro(handler), common);
            },
        }

        let n: usize = self.items.len();
        let last = &mut self.items[n - 1];
        Ok(ItemMut { docs: &mut last.common.docs, deprecated: &mut last.common.deprecated })
    }

    /// Register a macro.
    pub fn macro_<N: IntoComponent>(&mut self, name: N, handler: MacroHandler) -> (r: Result<
        ItemMut<'_>,
        ContextError,
    >)
        requires
            old(self)@.wf(),
        ensures
            match r {
                Err(e) => {
                    let item = old(self)@.item.push(name.component());
                    let hash = type_hash(item);
                    &&& final(self)@ == old(self)@
                    &&& old(self)@.names.contains(NameView::Macro(hash))
                    &&& e@ == (ContextErrorView::ConflictingMacroName { item, hash })
                },
                Ok(h) => {
                    let item = old(self)@.item.push(name.component());
                    let x = final(self)@.items.last();
                    &&& !old(self)@.names.contains(NameView::Macro(type_hash(item)))
                    &&& h.docs.is_none() && *h.deprecated is None
                    &&& final(self)@ == old(self)@.with_item(x)
                    &&& is_item(
                        x,
                        item,
                        ModuleItemKind::Macro(handler),
                        *final(h.docs),
                        *final(h.deprecated),
                    )
                },
            },
            final(self)@.wf(),
    {
        let item = self.join(name);
        let hash = Hash64::type_hash(&item);

        if self.is_taken(&Name::Macro(hash)) {
            return Err(ContextError::ConflictingMacroName { item, hash });
        }

        proof {
            assert forall|x: ModuleItem| item_name(x) == NameView::Macro(hash) implies (
            #[trigger] old(self)@.with_item(x)).wf() by {
                lemma_with_item(old(self)@, x);
            }
        }
        self.push_item(item, ModuleItemKind::Macro(handler), ModuleItemCommon::empty());

        let n: usize = self.items.len();
        let last = &mut self.items[n - 1];
        Ok(ItemMut { docs: &mut last.common.docs, deprecated: &mut last.common.deprecated })
    }

    /// Register an attribute macro.
    pub fn attribute_macro<N: IntoComponent>(
        &mut self,
        name: N,
        handler: AttributeMacroHandler,
    ) -> (r: Result<ItemMut<'_>, ContextError>)
        requires
            old(self)@.wf(),
        ensures
            match r {
                Err(e) => {
                    let item = old(self)@.item.push(name.component());
                    let hash = type_hash(item);
                    &&& final(self)@ == old(self)@
                    &&& old(self)@.names.contains(NameView::AttributeMacro(hash))
                    &&& e@ == (ContextErrorView::ConflictingMacroName { item, hash })
                },
                Ok(h) => {
                    let item = old(self)@.item.push(name.component());
                    let x = final(self)@.items.last();
                    &&& !old(self)@.names.contains(NameView::AttributeMacro(type_hash(item)))
                    &&& h.docs.is_none() && *h.deprecated is None
                    &&& final(self)@ == old(self)@.with_item(x)
                    &&& is_item(
                        x,
                        item,
                        ModuleItemKind::AttributeMacro(handler),
                        *final(h.docs),
                        *final(h.deprecated),
                    )
                },
            },
            final(self)@.wf(),
    {
        let item = self.join(name);
        let hash = Hash64::type_hash(&item);

        if self.is_taken(&Name::AttributeMacro(hash)) {
            return Err(ContextError::ConflictingMacroName { item, hash });
        }

        proof {
            assert forall|x: ModuleItem| item_name(x) == NameView::AttributeMacro(hash) implies (
            #[trigger] old(self)@.with_item(x)).wf() by {
                lemma_with_item(old(self)@, x);
            }
        }
        self.push_item(item, ModuleItemKind::AttributeMacro(handler), ModuleItemCommon::empty());

        let n: usize = self.items.len();
        let last = &mut self.items[n - 1];
        Ok(ItemMut { docs: &mut last.common.docs, deprecated: &mut last.common.deprecated })
    }

    /// Register a function.
    fn function_inner(&mut self, data: FunctionData, docs: Docs, deprecated: Option<String>) -> (r:
        Result<ItemFnMut<'_>, ContextError>)
        requires
            old(self)@.wf(),
        ensures
            function_registered(
                old(self)@,
                final(self)@,
                data,
                match r {
                    Ok(h) => Ok((*final(h.docs), *final(h.deprecated), *final(h.doc))),
                    Err(e) => Err(e@),
                },
            ),
            r matches Ok(h) ==> *h.docs == docs && *h.deprecated == deprecated && *h.doc
                == data.function.doc,
            final(self)@.wf(),
    {
        let item = self.item.join_item(&data.item);
        let hash = Hash64::type_hash(&item);

        if self.is_taken(&Name::Item(hash)) {
            return Err(ContextError::ConflictingFunctionName { item, hash });
        }

        proof {
            assert forall|x: ModuleItem| item_name(x) == NameView::Item(hash) implies (
            #[trigger] old(self)@.with_item(x)).wf() by {
                lemma_with_item(old(self)@, x);
            }
        }
        self.push_item(
            item,
            ModuleItemKind::Function(
                ModuleFunction {
                    handler: data.function.handler,
                    trait_hash: None,
                    doc: data.function.doc,
                },
            ),
            ModuleItemCommon { docs, deprecated },
        );

        Ok(self.last_function())
    }

    /// A handle to the last item, which is a function.
    fn last_function(&mut self) -> (h: ItemFnMut<'_>)
        requires
            old(self)@.items.len() > 0,
            old(self)@.items.last().kind is Function,
        ensures
            *h.docs == old(self)@.items.last().common.docs,
            *h.deprecated == old(self)@.items.last().common.deprecated,
            *h.doc == old(self)@.items.last().kind->Function_0.doc,
            final(self)@ == (ModuleState {
                items: old(self)@.items.drop_last().push(
                    ModuleItem {
                        common: ModuleItemCommon {
                            docs: *final(h.docs),
                            deprecated: *final(h.deprecated),
                        },
                        kind: ModuleItemKind::Function(
                            ModuleFunction {
                                doc: *final(h.doc),
                                ..old(self)@.items.last().kind->Function_0
                            },
                        ),
                        ..old(self)@.items.last()
                    },
                ),
                ..old(self)@
            }),
    {
        let n: usize = self.items.len();
        let last = &mut self.items[n - 1];

        match &mut last.kind {
            ModuleItemKind::Function(f) => ItemFnMut {
                docs: &mut last.common.docs,
                deprecated: &mut last.common.deprecated,
                doc: &mut f.doc,
            },
            _ => vstd::pervasive::unreached(),
        }
    }

    /// Register a function that is associated with a type.
    fn insert_associated_function(
        &mut self,
        data: AssociatedFunctionData,
        docs: Docs,
        deprecated: Option<String>,
    ) -> (r: Result<ItemFnMut<'_>, ContextError>)
        requires
            old(self)@.wf(),
        ensures
            associated_registered(
                old(self)@,
                final(self)@,
                data.associated,
                data.function,
                match r {
                    Ok(h) => Ok((*final(h.docs), *final(h.deprecated), *final(h.doc))),
                    Err(e) => Err(e@),
                },
            ),
            r matches Ok(h) ==> *h.docs == docs && *h.deprecated == deprecated && *h.doc
                == data.function.doc,
            final(self)@.wf(),
    {
        self.check_associated_name(&data.associated)?;

        proof {
            let name = associated_name(data.associated.container, data.associated.name);
            assert forall|x: ModuleAssociated|
                associated_name(x.container, x.name) == name implies (
            #[trigger] old(self)@.with_associated(x)).wf() by {
                lemma_with_associated(old(self)@, x);
            }
        }
        self.push_associated(
            data.associated,
            ModuleAssociatedKind::Function(
                ModuleFunction {
                    handler: data.function.handler,
                    trait_hash: None,
                    doc: data.function.doc,
                },
            ),
            ModuleItemCommon { docs, deprecated },
        );

        Ok(self.last_associated_function())
    }

    /// A handle to what was last associated with a type, which is a function.
    fn last_associated_function(&mut self) -> (h: ItemFnMut<'_>)
        requires
            old(self)@.associated.len() > 0,
            old(self)@.associated.last().kind is Function,
        ensures
            *h.docs == old(self)@.associated.last().common.docs,
            *h.deprecated == old(self)@.associated.last().common.deprecated,
            *h.doc == old(self)@.associated.last().kind->Function_0.doc,
            final(self)@ == (ModuleState {
                associated: old(self)@.associated.drop_last().push(
                    ModuleAssociated {
                        common: ModuleItemCommon {
                            docs: *final(h.docs),
                            deprecated: *final(h.deprecated),
                        },
                        kind: ModuleAssociatedKind::Function(
                            ModuleFunction {
                                doc: *final(h.doc),
                                ..old(self)@.associated.last().kind->Function_0
                            },
                        ),
                        ..old(self)@.associated.last()
                    },
                ),
                ..old(self)@
            }),
    {
        let n: usize = self.associated.len();
        let last = &mut self.associated[n - 1];

        match &mut last.kind {
            ModuleAssociatedKind::Function(f) => ItemFnMut {
                docs: &mut last.common.docs,
                deprecated: &mut last.common.deprecated,
                doc: &mut f.doc,
            },
            _ => vstd::pervasive::unreached(),
        }
    }

    /// Register a function through its annotations.
    pub fn function_meta(&mut self, meta: FunctionMeta) -> (r: Result<ItemFnMut<'_>, ContextError>)
        requires
            old(self)@.wf(),
        ensures
            kind_registered(
                old(self)@,
                final(self)@,
                meta.kind,
                match r {
                    Ok(h) => Ok((*final(h.docs), *final(h.deprecated), *final(h.doc))),
                    Err(e) => Err(e@),
                },
            ),
            r matches Ok(h) ==> {
                &&& h.docs.docs == meta.docs && h.docs.arguments == meta.arguments
                &&& *h.deprecated == meta.deprecated
                &&& *h.doc == signature(meta.kind)
            },
            final(self)@.wf(),
    {
        let mut docs = Docs::empty();
        docs.set_docs(meta.docs);
        docs.set_arguments(meta.arguments);

        match meta.kind {
            FunctionMetaKind::Function(data) => self.function_inner(data, docs, meta.deprecated),
            FunctionMetaKind::AssociatedFunction(data) => self.insert_associated_function(
                data,
                docs,
                meta.deprecated,
            ),
        }
    }

    /// Register a function without annotations.
    pub(crate) fn function_from_meta_kind(&mut self, kind: FunctionMetaKind) -> (r: Result<
        ItemFnMut<'_>,
        ContextError,
    >)
        requires
            old(self)@.wf(),
        ensures
            kind_registered(
                old(self)@,
                final(self)@,
                kind,
                match r {
                    Ok(h) => Ok((*final(h.docs), *final(h.deprecated), *final(h.doc))),
                    Err(e) => Err(e@),
                },
            ),
            r matches Ok(h) ==> h.docs.is_none() && *h.deprecated is None && *h.doc == signature(
                kind,
            ),
            final(self)@.wf(),
    {
        match kind {
            FunctionMetaKind::Function(data) => self.function_inner(data, Docs::empty(), None),
            FunctionMetaKind::AssociatedFunction(data) => self.insert_associated_function(
                data,
                Docs::empty(),
                None,
            ),
        }
    }

    /// Register an instance function.
    pub fn associated_function<N: ToInstance>(&mut self, name: N, f: InstanceFunctionDef) -> (r:
        Result<ItemFnMut<'_>, ContextError>)
        requires
            old(self)@.wf(),
        ensures
            exists|n: AssociatedName| #[trigger]
                name.is_instance(n) && associated_registered(
                    old(self)@,
                    final(self)@,
                    Associated {
                        name: n,
                        container: f.container,
                        container_type_info: f.container_type_info,
                    },
                    f.function,
                    match r {
                        Ok(h) => Ok((*final(h.docs), *final(h.deprecated), *final(h.doc))),
                        Err(e) => Err(e@),
                    },
                ),
            r matches Ok(h) ==> h.docs.is_none() && *h.deprecated is None && *h.doc
                == f.function.doc,
            final(self)@.wf(),
    {
        let name = name.to_instance();
        self.insert_associated_function(
            AssociatedFunctionData::from_instance_function(name, f),
            Docs::empty(),
            None,
        )
    }

    /// Register a function of a protocol that works on a field.
    pub fn field_function<N: ToFieldFunction>(
        &mut self,
        protocol: Protocol,
        name: N,
        f: InstanceFunctionDef,
    ) -> (r: Result<ItemFnMut<'_>, ContextError>)
        requires
            old(self)@.wf(),
        ensures
            exists|n: AssociatedName| #[trigger]
                name.is_field_function(protocol, n) && associated_registered(
                    old(self)@,
                    final(self)@,
                    Associated {
                        name: n,
                        container: f.container,
                        container_type_info: f.container_type_info,
                    },
                    f.function,
                    match r {
                        Ok(h) => Ok((*final(h.docs), *final(h.deprecated), *final(h.doc))),
                        Err(e) => Err(e@),
                    },
                ),
            r matches Ok(h) ==> h.docs.is_none() && *h.deprecated is None && *h.doc
                == f.function.doc,
            final(self)@.wf(),
    {
        let name = name.to_field_function(protocol);
        self.insert_associated_function(
            AssociatedFunctionData::from_instance_function(name, f),
            Docs::empty(),
            None,
        )
    }

    /// Register a function of a protocol that works on an index, which is a
    /// field of a tuple or of a variant.
    pub fn index_function(
        &mut self,
        protocol: Protocol,
        index: usize,
        f: InstanceFunctionDef,
    ) -> (r: Result<ItemFnMut<'_>, ContextError>)
        requires
            old(self)@.wf(),
        ensures
            associated_registered(
                old(self)@,
                final(self)@,
                Associated {
                    name: AssociatedName {
                        kind: AssociatedKind::IndexFn(protocol, index),
                        function_parameters: Hash64(crate::hash::EMPTY),
                    },
                    container: f.container,
                    container_type_info: f.container_type_info,
                },
                f.function,
                match r {
                    Ok(h) => Ok((*final(h.docs), *final(h.deprecated), *final(h.doc))),
                    Err(e) => Err(e@),
                },
            ),
            r matches Ok(h) ==> h.docs.is_none() && *h.deprecated is None && *h.doc
                == f.function.doc,
            final(self)@.wf(),
    {
        let name = AssociatedName::index(protocol, index);
        self.insert_associated_function(
            AssociatedFunctionData::from_instance_function(name, f),
            Docs::empty(),
            None,
        )
    }

    /// Define a trait.
    pub fn define_trait<N: IntoComponent>(&mut self, names: Vec<N>) -> (r: Result<
        TraitMut<'_>,
        ContextError,
    >)
        requires
            old(self)@.wf(),
        ensures
            ({
                let item = old(self)@.item + components(names@);
                let hash = type_hash(item);

                match r {
                    Err(e) => {
                        &&& final(self)@ == old(self)@
                        &&& old(self)@.names.contains(NameView::Item(hash))
                        &&& e@ == (ContextErrorView::ConflictingTrait { item, hash })
                    },
                    Ok(h) => {
                        let x = final(self)@.traits.last();
                        &&& !old(self)@.names.contains(NameView::Item(hash))
                        &&& h.docs.is_none() && *h.deprecated is None && *h.handler is None
                        &&& h.functions@.len() == 0
                        &&& final(self)@ == old(self)@.with_trait(x)
                        &&& x.item@ == item && x.hash == hash
                        &&& x.common.docs == *final(h.docs)
                        &&& x.common.deprecated == *final(h.deprecated)
                        &&& x.handler == *final(h.handler)
                        &&& x.functions == *final(h.functions)
                    },
                }
            }),
            final(self)@.wf(),
    {
        let item = self.item.join(names);
        let hash = Hash64::type_hash(&item);

        if self.is_taken(&Name::Item(hash)) {
            return Err(ContextError::ConflictingTrait { item, hash });
        }

        proof {
            assert forall|x: ModuleTrait| x.hash == hash implies (#[trigger] old(self)@.with_trait(
                x,
            )).wf() by {
                lemma_with_trait(old(self)@, x);
            }
        }
        self.names.push(Name::Item(hash));
        assert(self@.names =~= old(self)@.names.push(NameView::Item(hash)));
        self.traits.push(
            ModuleTrait {
                item,
                hash,
                common: ModuleItemCommon::empty(),
                handler: None,
                functions: Vec::new(),
            },
        );

        let n: usize = self.traits.len();
        let t = &mut self.traits[n - 1];

        Ok(
            TraitMut {
                docs: &mut t.common.docs,
                deprecated: &mut t.common.deprecated,
                handler: &mut t.handler,
                functions: &mut t.functions,
            },
        )
    }

    /// Implement a trait for the type `T`.
    pub fn implement_trait<T: TypeOf + Named>(&mut self, trait_item: &ItemBuf) -> (r: Result<
        (),
        ContextError,
    >)
        requires
            old(self)@.wf(),
        ensures
            ({
                let hash = T::hash();
                let trait_hash = type_hash(trait_item@);
                let name = NameView::TraitImpl(hash, trait_hash);

                match r {
                    Err(e) => {
                        &&& final(self)@ == old(self)@
                        &&& old(self)@.names.contains(name)
                        &&& e@ == (ContextErrorView::ConflictingTraitImpl {
                            trait_item: trait_item@,
                            trait_hash,
                            item: T::item(),
                            hash,
                        })
                    },
                    Ok(_) => {
                        let x = final(self)@.trait_impls.last();
                        &&& !old(self)@.names.contains(name)
                        &&& final(self)@ == old(self)@.with_trait_impl(x)
                        &&& x.item@ == T::item() && x.hash == hash && x.type_info == T::info()
                        &&& x.trait_item@ == trait_item@ && x.trait_hash == trait_hash
                    },
                }
            }),
            final(self)@.wf(),
    {
        let hash = T::type_hash();
        let trait_hash = Hash64::type_hash(trait_item);

        if self.is_taken(&Name::TraitImpl(hash, trait_hash)) {
            return Err(
                ContextError::ConflictingTraitImpl {
                    trait_item: trait_item.copy(),
                    trait_hash,
                    item: T::named_item(),
                    hash,
                },
            );
        }

        self.names.push(Name::TraitImpl(hash, trait_hash));
        assert(self@.names =~= old(self)@.names.push(NameView::TraitImpl(hash, trait_hash)));
        self.trait_impls.push(
            ModuleTraitImpl {
                item: T::named_item(),
                hash,
                type_info: T::type_info(),
                trait_item: trait_item.copy(),
                trait_hash,
            },
        );
        proof {
            lemma_with_trait_impl(old(self)@, self@.trait_impls.last());
        }
        Ok(())
    }

    /// Define a name that stands for another item.
    pub fn reexport<N: IntoComponent>(&mut self, names: Vec<N>, to: &ItemBuf) -> (r: Result<
        (),
        ContextError,
    >)
        requires
            old(self)@.wf(),
        ensures
            ({
                let item = old(self)@.item + components(names@);
                let hash = type_hash(item);

                match r {
                    Err(e) => {
                        &&& final(self)@ == old(self)@
                        &&& old(self)@.names.contains(NameView::Item(hash))
                        &&& e@ == (ContextErrorView::ConflictingReexport { item, hash, to: to@ })
                    },
                    Ok(_) => {
                        let x = final(self)@.reexports.last();
                        &&& !old(self)@.names.contains(NameView::Item(hash))
                        &&& final(self)@ == old(self)@.with_reexport(x)
                        &&& x.item@ == item && x.hash == hash && x.to@ == to@
                    },
                }
            }),
            final(self)@.wf(),
    {
        let item = self.item.join(names);
        let hash = Hash64::type_hash(&item);

        if self.is_taken(&Name::Item(hash)) {
            return Err(ContextError::ConflictingReexport { item, hash, to: to.copy() });
        }

        self.names.push(Name::Item(hash));
        assert(self@.names =~= old(self)@.names.push(NameView::Item(hash)));
        self.reexports.push(ModuleReexport { item, hash, to: to.copy() });
        proof {
            lemma_with_reexport(old(self)@, self@.reexports.last());
        }
        Ok(())
    }

    /// Register a type. A type has to be registered for functions that take an
    /// instance of it to be of use.
    pub fn ty<T: TypeOf + Named + InstallWith>(&mut self) -> (r: Result<TypeMut<'_>, ContextError>)
        requires
            old(self)@.wf(),
        ensures
            match r {
                Err(e) => {
                    ||| {
                        &&& final(self)@ == old(self)@
                        &&& old(self)@.names.contains(NameView::Item(T::hash()))
                        &&& e@ == (ContextErrorView::ConflictingType {
                            item: T::item(),
                            type_info: T::info(),
                            hash: T::hash(),
                        })
                    }
                    ||| {
                        &&& !old(self)@.names.contains(NameView::Item(T::hash()))
                        &&& exists|x: ModuleType| #[trigger]
                            is_type::<T>(x) && T::installed(
                                old(self)@.with_type(x),
                                final(self)@,
                                Err(e),
                            )
                    }
                },
                Ok(h) => {
                    &&& !old(self)@.names.contains(NameView::Item(T::hash()))
                    &&& exists|x: ModuleType, after: ModuleState|
                        is_type::<T>(x) && #[trigger] T::installed(
                            old(self)@.with_type(x),
                            after,
                            Ok(()),
                        ) && after.types.len() > 0 && *h.docs == after.types.last().common.docs
                            && *h.deprecated == after.types.last().common.deprecated && *h.spec
                            == after.types.last().spec && *h.constructor
                            == after.types.last().constructor && *h.item == after.types.last().item
                            && final(self)@ == after.with_types(
                            after.types.update(
                                after.types.len() - 1,
                                touched(
                                    after.types.last(),
                                    *final(h.docs),
                                    *final(h.deprecated),
                                    *final(h.spec),
                                    *final(h.constructor),
                                ),
                            ),
                        )
                    &&& final(self)@.has_type(T::hash())
                },
            },
            keeps_types(old(self)@, final(self)@),
            final(self)@.wf(),
    {
        let hash = T::type_hash();

        if self.is_taken(&Name::Item(hash)) {
            return Err(
                ContextError::ConflictingType {
                    item: T::named_item(),
                    type_info: T::type_info(),
                    hash,
                },
            );
        }

        let index: usize = self.types.len();
        self.names.push(Name::Item(hash));
        assert(self@.names =~= old(self)@.names.push(NameView::Item(hash)));
        self.types_hash.insert(hash.0, index);

        let ty = ModuleType {
            item: T::named_item(),
            hash,
            common: ModuleItemCommon::empty(),
            type_parameters: T::type_parameters(),
            type_info: T::type_info(),
            spec: None,
            constructor: None,
        };
        let ghost x = ty;
        assert(is_type::<T>(x));
        self.types.push(ty);
        proof {
            lemma_with_type(old(self)@, x);
            assert(self@ =~= old(self)@.with_type(x));
        }

        let installed = T::install_with(self);
        proof {
            assert(old(self)@.with_type(x).types[index as int].hash == hash);
            assert(self@.types[index as int].hash == hash);
            lemma_kept_twice(old(self)@, old(self)@.with_type(x), self@);
        }

        if let Err(e) = installed {
            return Err(e);
        }

        assert(installed->Ok_0 == ());

        let ghost after = self@;
        proof {
            assert(T::installed(old(self)@.with_type(x), after, Ok(())));
            assert forall|types: Seq<ModuleType>|
                types.len() == after.types.len() && (forall|i: int|
                    0 <= i < types.len() ==> (#[trigger] types[i]).hash
                        == after.types[i].hash) implies (
            #[trigger] after.with_types(types)).wf() && after.with_types(types).has_type(hash) by {
                assert(types[index as int].hash == hash);
                lemma_types_changed(after, types);
            }
        }
        let n: usize = self.types.len();
        Ok(self.type_at(n - 1))
    }

    /// A handle to a type that is registered.
    pub fn type_meta<T: TypeOf + Named>(&mut self) -> (r: Result<TypeMut<'_>, ContextError>)
        requires
            old(self)@.wf(),
        ensures
            match r {
                Err(e) => {
                    &&& final(self)@ == old(self)@
                    &&& !old(self)@.has_type(T::hash())
                    &&& e@ == (ContextErrorView::MissingType {
                        item: seq![ComponentView::Str(T::shown())],
                        type_info: T::info(),
                    })
                },
                Ok(h) => {
                    let i = old(self)@.type_index(T::hash());
                    let ty = old(self)@.types[i];
                    &&& old(self)@.has_type(T::hash())
                    &&& *h.docs == ty.common.docs && *h.deprecated == ty.common.deprecated
                    &&& *h.spec == ty.spec && *h.constructor == ty.constructor
                    &&& *h.item == ty.item
                    &&& final(self)@ == old(self)@.with_types(
                        old(self)@.types.update(
                            i,
                            touched(
                                ty,
                                *final(h.docs),
                                *final(h.deprecated),
                                *final(h.spec),
                                *final(h.constructor),
                            ),
                        ),
                    )
                },
            },
            final(self)@.wf(),
    {
        let i = match self.find_type(T::type_hash()) {
            Some(i) => i,
            None => return Err(
                ContextError::MissingType {
                    item: full_name(T::display()),
                    type_info: T::type_info(),
                },
            ),
        };

        proof {
            let before = old(self)@;
            assert forall|types: Seq<ModuleType>|
                types.len() == before.types.len() && (forall|i: int|
                    0 <= i < types.len() ==> (#[trigger] types[i]).hash
                        == before.types[i].hash) implies (
            #[trigger] before.with_types(types)).wf() by {
                lemma_types_changed(before, types);
            }
        }
        Ok(self.type_at(i))
    }

    /// Find the index of a type by its hash.
    fn find_type(&self, hash: Hash64) -> (r: Option<usize>)
        requires
            self@.wf(),
        ensures
            match r {
                Some(i) => self@.has_type(hash) && i == self@.type_index(hash) && i
                    < self@.types.len(),
                None => !self@.has_type(hash),
            },
    {
        proof {
            reveal(ModuleState::wf);
        }
        match self.types_hash.get(&hash.0) {
            Some(i) => {
                proof {
                    assert(self@.types[*i as int].hash == hash);
                    lemma_type_index(self@, *i as int);
                }
                Some(*i)
            },
            None => None,
        }
    }

    /// A handle to a variant of an enum that is registered.
    pub fn variant_meta<T: TypeOf + Named>(&mut self, index: usize) -> (r: Result<
        VariantMut<'_>,
        ContextError,
    >)
        requires
            old(self)@.wf(),
        ensures
            match r {
                Err(e) => {
                    let item = seq![ComponentView::Str(T::shown())];
                    let type_info = T::info();
                    &&& final(self)@ == old(self)@
                    &&& if !old(self)@.has_type(T::hash()) {
                        e@ == (ContextErrorView::MissingType { item, type_info })
                    } else {
                        match old(self)@.types[old(self)@.type_index(T::hash())].spec {
                            Some(TypeSpecification::Enum(variants)) => index >= variants@.len()
                                && e@ == (ContextErrorView::MissingVariant { type_info, index }),
                            _ => e@ == (ContextErrorView::MissingEnum { item, type_info }),
                        }
                    }
                },
                Ok(h) => {
                    let i = old(self)@.type_index(T::hash());
                    let ty = old(self)@.types[i];
                    let changed = final(self)@.types[i];
                    &&& old(self)@.has_type(T::hash())
                    &&& ty.spec matches Some(TypeSpecification::Enum(variants)) && {
                        &&& index < variants@.len()
                        &&& h.name == variants@[index as int].name
                        &&& *h.docs == variants@[index as int].docs
                        &&& *h.fields == variants@[index as int].fields
                        &&& *h.constructor == variants@[index as int].constructor
                        &&& final(self)@ == old(self)@.with_types(
                            old(self)@.types.update(i, ModuleType { spec: changed.spec, ..ty }),
                        )
                        &&& changed.spec matches Some(TypeSpecification::Enum(after)) && after@
                            == variants@.update(
                            index as int,
                            Variant {
                                docs: *final(h.docs),
                                fields: *final(h.fields),
                                constructor: *final(h.constructor),
                                ..variants@[index as int]
                            },
                        )
                    }
                },
            },
            final(self)@.wf(),
    {
        let i = match self.find_type(T::type_hash()) {
            Some(i) => i,
            None => return Err(
                ContextError::MissingType {
                    item: full_name(T::display()),
                    type_info: T::type_info(),
                },
            ),
        };

        let len: Option<usize> = match &self.types[i].spec {
            Some(TypeSpecification::Enum(variants)) => Some(variants.len()),
            _ => None,
        };

        match len {
            None => return Err(
                ContextError::MissingEnum {
                    item: full_name(T::display()),
                    type_info: T::type_info(),
                },
            ),
            Some(len) => {
                if index >= len {
                    return Err(
                        ContextError::MissingVariant { type_info: T::type_info(), index },
                    );
                }
            },
        }

        proof {
            let before = old(self)@;
            assert forall|types: Seq<ModuleType>|
                types.len() == before.types.len() && (forall|i: int|
                    0 <= i < types.len() ==> (#[trigger] types[i]).hash
                        == before.types[i].hash) implies (
            #[trigger] before.with_types(types)).wf() by {
                lemma_types_changed(before, types);
            }
        }
        Ok(self.variant_at(i, index))
    }

    /// A handle to a variant.
    fn variant_at(&mut self, i: usize, index: usize) -> (h: VariantMut<'_>)
        requires
            i < old(self)@.types.len(),
            old(self)@.types[i as int].spec matches Some(TypeSpecification::Enum(variants))
                && index < variants@.len(),
        ensures
            old(self)@.types[i as int].spec matches Some(TypeSpecification::Enum(variants)) && {
                let ty = old(self)@.types[i as int];
                let changed = final(self)@.types[i as int];
                let variant = variants@[index as int];
                &&& h.name == variant.name
                &&& *h.docs == variant.docs
                &&& *h.fields == variant.fields
                &&& *h.constructor == variant.constructor
                &&& final(self)@ == old(self)@.with_types(
                    old(self)@.types.update(i as int, ModuleType { spec: changed.spec, ..ty }),
                )
                &&& changed.spec matches Some(TypeSpecification::Enum(after)) && after@
                    == variants@.update(
                    index as int,
                    Variant {
                        docs: *final(h.docs),
                        fields: *final(h.fields),
                        constructor: *final(h.constructor),
                        ..variant
                    },
                )
            },
    {
        match &mut self.types[i].spec {
            Some(TypeSpecification::Enum(variants)) => {
                let variant = &mut variants[index];

                VariantMut {
                    name: variant.name,
                    docs: &mut variant.docs,
                    fields: &mut variant.fields,
                    constructor: &mut variant.constructor,
                }
            },
            _ => vstd::pervasive::unreached(),
        }
    }

    /// The module itself.
    pub fn as_ref(&self) -> (m: &Module)
        ensures
            *m == *self,
    {
        self
    }

    /// A handle to a type.
    fn type_at(&mut self, i: usize) -> (h: TypeMut<'_>)
        requires
            i < old(self)@.types.len(),
        ensures
            *h.docs == old(self)@.types[i as int].common.docs,
            *h.deprecated == old(self)@.types[i as int].common.deprecated,
            *h.spec == old(self)@.types[i as int].spec,
            *h.constructor == old(self)@.types[i as int].constructor,
            *h.item == old(self)@.types[i as int].item,
            final(self)@ == old(self)@.with_types(
                old(self)@.types.update(
                    i as int,
                    touched(
                        old(self)@.types[i as int],
                        *final(h.docs),
                        *final(h.deprecated),
                        *final(h.spec),
                        *final(h.constructor),
                    ),
                ),
            ),
    {
        let ty = &mut self.types[i];

        TypeMut {
            docs: &mut ty.common.docs,
            deprecated: &mut ty.common.deprecated,
            spec: &mut ty.spec,
            constructor: &mut ty.constructor,
            item: &ty.item,
        }
    }
}

impl Default for Module {
    /// Create an empty module for the root path.
    fn default() -> (m: Self)
        ensures
            m@.wf(),
            m.common.is_none(),
            m@ == ModuleState::empty(Seq::empty(), m.common),
    {
        Self::new()
    }
}

/// The name of an item of which only the shown name is known.
fn full_name(name: String) -> (item: ItemBuf)
    ensures
        item@ == seq![ComponentView::Str(name@)],
{
    let mut names: Vec<String> = Vec::new();
    names.push(name);
    let item = ItemBuf::with_item(names);
    assert(item@ =~= seq![ComponentView::Str(name@)]);
    item
}

/// A type with its documentation, structure and constructor set.
pub open spec fn touched(
    ty: ModuleType,
    docs: Docs,
    deprecated: Option<String>,
    structure: Option<TypeSpecification>,
    constructor: Option<TypeConstructor>,
) -> ModuleType {
    ModuleType {
        common: ModuleItemCommon { docs, deprecated },
        spec: structure,
        constructor,
        ..ty
    }
}

} // verus!
