//! Metadata about items, for tools.

use std::sync::Arc;
use vstd::prelude::*;
use vstd::string::*;
use crate::hash::Hash64;
use crate::item::{shown_item, ComponentView, ItemBuf};
use crate::query::Id;
use crate::runtime::ConstValue;
use crate::span::Span;

verus! {

/// A place in a source.
#[derive(Debug, Clone, Copy, PartialEq, Eq, Structural)]
pub struct Location {
    /// The source.
    pub source_id: u32,
    /// The place in the source.
    pub span: Span,
}

impl Location {
    /// The start of the first source.
    pub open spec fn unknown() -> Location {
        Location { source_id: 0, span: Span { start: 0, end: 0 } }
    }
}

impl Default for Location {
    fn default() -> (location: Self)
        ensures
            location == Location::unknown(),
    {
        Location { source_id: 0, span: Span { start: 0, end: 0 } }
    }
}

/// From where an item can be seen.
#[derive(Debug, Clone, Copy, PartialEq, Eq, Structural)]
pub enum Visibility {
    /// From its own module.
    Inherited,
    /// From everywhere.
    Public,
    /// From its crate.
    Crate,
    /// From the parent of its module.
    Super,
    /// From its own module, said explicitly.
    SelfValue,
}

impl Visibility {
    /// Test if the item can be seen from everywhere.
    pub fn is_public(&self) -> (r: bool)
        ensures
            r == (*self == Visibility::Public),
    {
        match self {
            Visibility::Public => true,
            _ => false,
        }
    }
}

/// A check for the type of a value.
#[derive(Debug, Clone, Copy, PartialEq, Eq, Structural)]
pub enum TypeCheck {
    /// The type has the given hash.
    Type(Hash64),
    /// The variant has the given hash.
    Variant(Hash64),
}

/// Metadata about a variable that is captured by a closure.
#[derive(Debug, PartialEq, Eq)]
pub struct CaptureMeta {
    /// The name of the variable.
    pub ident: String,
}

/// The source of an item.
#[derive(Debug, PartialEq, Eq)]
pub struct SourceMeta {
    /// The place of the item.
    pub location: Location,
    /// The path of the source.
    pub path: Option<String>,
}

/// Metadata about a type without fields.
#[derive(Debug, Clone, Copy, PartialEq, Eq, Structural)]
pub struct EmptyMeta {
    /// The hash of the constructor.
    pub hash: Hash64,
}

/// Metadata about a struct.
#[derive(Debug, PartialEq, Eq)]
pub struct StructMeta {
    /// The names of the fields, each once.
    pub fields: Vec<String>,
}

/// Metadata about a tuple.
#[derive(Debug, Clone, Copy, PartialEq, Eq, Structural)]
pub struct TupleMeta {
    /// The number of fields.
    pub args: usize,
    /// The hash of the constructor.
    pub hash: Hash64,
}

/// A module, its name and its visibility.
#[derive(Debug, PartialEq, Eq)]
pub struct ModMeta {
    /// The place of the module.
    pub location: Location,
    /// The name of the module.
    pub item: ItemBuf,
    /// The visibility of the module.
    pub visibility: Visibility,
    /// The module that the module is in.
    pub parent: Option<Arc<ModMeta>>,
}

/// Test if a module and all modules that it is in are public.
pub open spec fn module_is_public(module: ModMeta) -> bool
    decreases module,
{
    &&& module.visibility == Visibility::Public
    &&& match module.parent {
        Some(parent) => module_is_public(*parent),
        None => true,
    }
}

impl ModMeta {
    /// Test if the module is the root of an unknown source.
    pub open spec fn is_default(self) -> bool {
        &&& self.location == Location::unknown()
        &&& self.item@ == Seq::<ComponentView>::empty()
        &&& self.visibility == Visibility::Inherited
        &&& self.parent is None
    }

    /// Test if the module and all modules that it is in are public.
    pub fn is_public(&self) -> (r: bool)
        ensures
            r == module_is_public(*self),
        decreases self,
    {
        if !self.visibility.is_public() {
            return false;
        }

        match &self.parent {
            Some(parent) => parent.is_public(),
            None => true,
        }
    }
}

impl Default for ModMeta {
    fn default() -> (module: Self)
        ensures
            module.is_default(),
    {
        ModMeta {
            location: Location::default(),
            item: ItemBuf::new(),
            visibility: Visibility::Inherited,
            parent: None,
        }
    }
}

/// An item and the module that it belongs to.
#[derive(Debug, PartialEq, Eq)]
pub struct ItemMeta {
    /// The id of the item.
    pub id: Id,
    /// The place of the item.
    pub location: Location,
    /// The name of the item.
    pub item: ItemBuf,
    /// The visibility of the item.
    pub visibility: Visibility,
    /// The module of the item.
    pub module: Arc<ModMeta>,
}

impl ItemMeta {
    /// Test if the item is public, so that it is exported.
    pub fn is_public(&self) -> (r: bool)
        ensures
            r == (self.visibility == Visibility::Public && module_is_public(*self.module)),
    {
        self.visibility.is_public() && self.module.is_public()
    }
}

impl vstd::std_specs::convert::FromSpecImpl<ItemBuf> for ItemMeta {
    open spec fn obeys_from_spec() -> bool {
        false
    }

    open spec fn from_spec(item: ItemBuf) -> ItemMeta {
        arbitrary()
    }
}

impl From<ItemBuf> for ItemMeta {
    fn from(item: ItemBuf) -> (meta: Self)
        ensures
            meta.id == Id(0),
            meta.location == Location::unknown(),
            meta.item == item,
            meta.visibility == Visibility::Inherited,
            meta.module.is_default(),
    {
        ItemMeta {
            id: Id(0),
            location: Location::default(),
            item,
            visibility: Visibility::Inherited,
            module: Arc::new(ModMeta::default()),
        }
    }
}

/// The kind of an item.
#[derive(Debug, PartialEq, Eq)]
pub enum MetaKind {
    /// A struct without fields.
    UnitStruct {
        /// The hash of the type.
        type_hash: Hash64,
        /// The struct.
        empty: EmptyMeta,
    },
    /// A tuple struct.
    TupleStruct {
        /// The hash of the type.
        type_hash: Hash64,
        /// The tuple.
        tuple: TupleMeta,
    },
    /// A struct.
    Struct {
        /// The hash of the type.
        type_hash: Hash64,
        /// The struct.
        object: StructMeta,
    },
    /// A variant without fields.
    UnitVariant {
        /// The hash of the variant.
        type_hash: Hash64,
        /// The name of the enum.
        enum_item: ItemBuf,
        /// The variant.
        empty: EmptyMeta,
    },
    /// A tuple variant.
    TupleVariant {
        /// The hash of the variant.
        type_hash: Hash64,
        /// The name of the enum.
        enum_item: ItemBuf,
        /// The tuple.
        tuple: TupleMeta,
    },
    /// A struct variant.
    StructVariant {
        /// The hash of the variant.
        type_hash: Hash64,
        /// The name of the enum.
        enum_item: ItemBuf,
        /// The struct.
        object: StructMeta,
    },
    /// An enum.
    Enum {
        /// The hash of the type.
        type_hash: Hash64,
    },
    /// A function.
    Function {
        /// The hash of the function.
        type_hash: Hash64,
        /// Whether the function is a test.
        is_test: bool,
        /// Whether the function is a benchmark.
        is_bench: bool,
    },
    /// A closure.
    Closure {
        /// The hash of the closure.
        type_hash: Hash64,
        /// What the closure captures.
        captures: Vec<CaptureMeta>,
        /// Whether the closure moves its environment.
        do_move: bool,
    },
    /// An asynchronous block.
    AsyncBlock {
        /// The hash of the block.
        type_hash: Hash64,
        /// What the block captures.
        captures: Vec<CaptureMeta>,
        /// Whether the block moves its environment.
        do_move: bool,
    },
    /// A constant.
    Const {
        /// The value of the constant.
        const_value: ConstValue,
    },
    /// A constant function.
    ConstFn {
        /// The id of the function.
        id: Id,
        /// Whether the function is a test.
        is_test: bool,
    },
    /// An import.
    Import {
        /// The module of the target.
        module: Arc<ModMeta>,
        /// The place of the import.
        location: Location,
        /// The name of the target.
        target: ItemBuf,
    },
}

/// Metadata about an item.
#[derive(Debug, PartialEq, Eq)]
pub struct Meta {
    /// The item.
    pub item: Arc<ItemMeta>,
    /// The kind of the item.
    pub kind: MetaKind,
    /// The source of the item.
    pub source: Option<SourceMeta>,
}

impl Meta {
    /// The hash of the type that values of the item are checked against.
    /// Variants have none: they are checked against their enum.
    pub open spec fn type_hash(self) -> Option<Hash64> {
        match self.kind {
            MetaKind::UnitStruct { type_hash, .. } => Some(type_hash),
            MetaKind::TupleStruct { type_hash, .. } => Some(type_hash),
            MetaKind::Struct { type_hash, .. } => Some(type_hash),
            MetaKind::Enum { type_hash } => Some(type_hash),
            MetaKind::Function { type_hash, .. } => Some(type_hash),
            MetaKind::Closure { type_hash, .. } => Some(type_hash),
            MetaKind::AsyncBlock { type_hash, .. } => Some(type_hash),
            _ => None,
        }
    }

    /// The number of fields of a tuple, and the check for its type.
    pub open spec fn tuple(self) -> Option<(usize, TypeCheck)> {
        match self.kind {
            MetaKind::UnitStruct { type_hash, .. } => Some((0, TypeCheck::Type(type_hash))),
            MetaKind::TupleStruct { tuple, type_hash } => Some(
                (tuple.args, TypeCheck::Type(type_hash)),
            ),
            MetaKind::UnitVariant { type_hash, .. } => Some((0, TypeCheck::Variant(type_hash))),
            MetaKind::TupleVariant { tuple, type_hash, .. } => Some(
                (tuple.args, TypeCheck::Variant(type_hash)),
            ),
            _ => None,
        }
    }

    /// What is put in front of the name of the item when it is shown.
    pub open spec fn prefix(self) -> Seq<char> {
        match self.kind {
            MetaKind::UnitStruct { .. } => "struct "@,
            MetaKind::TupleStruct { .. } => "struct "@,
            MetaKind::Struct { .. } => "struct "@,
            MetaKind::UnitVariant { .. } => "unit variant "@,
            MetaKind::TupleVariant { .. } => "variant "@,
            MetaKind::StructVariant { .. } => "variant "@,
            MetaKind::Enum { .. } => "enum "@,
            MetaKind::Function { .. } => "fn "@,
            MetaKind::Closure { .. } => "closure "@,
            MetaKind::AsyncBlock { .. } => "async block "@,
            MetaKind::Const { .. } => "const "@,
            MetaKind::ConstFn { .. } => "const fn "@,
            MetaKind::Import { .. } => "import "@,
        }
    }

    /// The hash of the type that values of the item are checked against.
    pub fn type_hash_of(&self) -> (hash: Option<Hash64>)
        ensures
            hash == self.type_hash(),
    {
        match &self.kind {
            MetaKind::UnitStruct { type_hash, .. } => Some(*type_hash),
            MetaKind::TupleStruct { type_hash, .. } => Some(*type_hash),
            MetaKind::Struct { type_hash, .. } => Some(*type_hash),
            MetaKind::Enum { type_hash, .. } => Some(*type_hash),
            MetaKind::Function { type_hash, .. } => Some(*type_hash),
            MetaKind::Closure { type_hash, .. } => Some(*type_hash),
            MetaKind::AsyncBlock { type_hash, .. } => Some(*type_hash),
            MetaKind::UnitVariant { .. } => None,
            MetaKind::TupleVariant { .. } => None,
            MetaKind::StructVariant { .. } => None,
            MetaKind::Const { .. } => None,
            MetaKind::ConstFn { .. } => None,
            MetaKind::Import { .. } => None,
        }
    }

    /// Treat the item as a tuple, and get the number of its fields and the
    /// check for its type.
    pub fn as_tuple(&self) -> (r: Option<(usize, TypeCheck)>)
        ensures
            r == self.tuple(),
    {
        match &self.kind {
            MetaKind::UnitStruct { type_hash, .. } => Some((0, TypeCheck::Type(*type_hash))),
            MetaKind::TupleStruct { tuple, type_hash } => Some(
                (tuple.args, TypeCheck::Type(*type_hash)),
            ),
            MetaKind::UnitVariant { type_hash, .. } => Some((0, TypeCheck::Variant(*type_hash))),
            MetaKind::TupleVariant { tuple, type_hash, .. } => Some(
                (tuple.args, TypeCheck::Variant(*type_hash)),
            ),
            _ => None,
        }
    }

    /// How the item is shown: its kind and its name.
    pub fn display(&self) -> (text: String)
        ensures
            text@ == self.prefix() + shown_item(self.item.item@),
    {
        let prefix = match &self.kind {
            MetaKind::UnitStruct { .. } => "struct ",
            MetaKind::TupleStruct { .. } => "struct ",
            MetaKind::Struct { .. } => "struct ",
            MetaKind::UnitVariant { .. } => "unit variant ",
            MetaKind::TupleVariant { .. } => "variant ",
            MetaKind::StructVariant { .. } => "variant ",
            MetaKind::Enum { .. } => "enum ",
            MetaKind::Function { .. } => "fn ",
            MetaKind::Closure { .. } => "closure ",
            MetaKind::AsyncBlock { .. } => "async block ",
            MetaKind::Const { .. } => "const ",
            MetaKind::ConstFn { .. } => "const fn ",
            MetaKind::Import { .. } => "import ",
        };

        let mut text = prefix.to_owned();
        let item = self.item.item.display();
        text.append(item.as_str());
        text
    }
}

/// A tuple that is checked by its type is checked by the hash that values of it
/// have. One that is checked by its variant has no such hash.
pub proof fn lemma_tuple_type(meta: Meta)
    ensures
        meta.tuple() matches Some((_, TypeCheck::Type(hash))) ==> meta.type_hash() == Some(hash),
        meta.tuple() matches Some((_, TypeCheck::Variant(_))) ==> meta.type_hash() is None,
{
}

/// The module that a module is in.
pub open spec fn parent_of(module: ModMeta) -> ModMeta {
    *module.parent->0
}

/// The module that is `n` levels outside of a module, if there is one.
pub open spec fn enclosing(module: ModMeta, n: nat) -> Option<ModMeta>
    decreases n,
{
    if n == 0 {
        Some(module)
    } else {
        match module.parent {
            Some(_) => enclosing(parent_of(module), (n - 1) as nat),
            None => None,
        }
    }
}

/// Test if the module that is `n` levels outside of a module is public, or not
/// there.
pub open spec fn public_at(module: ModMeta, n: nat) -> bool {
    enclosing(module, n) matches Some(outer) ==> outer.visibility == Visibility::Public
}

/// A module is public exactly when it and all modules around it are.
pub proof fn lemma_public(module: ModMeta)
    ensures
        module_is_public(module) <==> forall|n: nat| #[trigger] public_at(module, n),
    decreases module,
{
    if module.parent is Some {
        let parent = parent_of(module);
        lemma_public(parent);
        assert forall|n: nat| module_is_public(module) implies #[trigger] public_at(module, n) by {
            if n > 0 {
                assert(public_at(parent, (n - 1) as nat));
            }
        }
        if forall|n: nat| #[trigger] public_at(module, n) {
            assert(public_at(module, 0));
            assert forall|n: nat| #[trigger] public_at(parent, n) by {
                assert(public_at(module, n + 1));
            }
        }
    } else {
        assert forall|n: nat| module_is_public(module) implies #[trigger] public_at(module, n) by {
        }
        if forall|n: nat| #[trigger] public_at(module, n) {
            assert(public_at(module, 0));
        }
    }
}

} // verus!
