//! What can be registered in a module.

use vstd::prelude::*;
use crate::hash::Hash64;
use crate::item::ItemBuf;
use crate::runtime::{ConstValue, RuntimeError, TypeInfo};
use crate::item::ComponentView;

verus! {

/// A native function, by a number. The module that registers the function also
/// says which one it is that the number stands for.
#[derive(Debug, Clone, Copy, PartialEq, Eq, Structural)]
pub struct FunctionHandler(pub u64);

/// A native macro, by a number. The module that registers the macro also says
/// which one it is that the number stands for.
#[derive(Debug, Clone, Copy, PartialEq, Eq, Structural)]
pub struct MacroHandler(pub u64);

/// A native attribute macro, by a number that whoever registers it chooses.
#[derive(Debug, Clone, Copy, PartialEq, Eq, Structural)]
pub struct AttributeMacroHandler(pub u64);

/// A native handler of a trait, by a number that whoever registers it chooses.
#[derive(Debug, Clone, Copy, PartialEq, Eq, Structural)]
pub struct TraitHandler(pub u64);

/// A native constructor, by a number that whoever registers it chooses.
#[derive(Debug, Clone, Copy, PartialEq, Eq, Structural)]
pub struct TypeConstructor(pub u64);

/// What turns a constant back into a native value, by a number that the type of
/// the value chooses.
#[derive(Debug, Clone, Copy, PartialEq, Eq, Structural)]
pub struct ConstConstruct(pub u64);

/// A protocol that a type can take part in.
#[derive(Debug, Clone, Copy, PartialEq, Eq)]
pub struct Protocol {
    /// The name of the protocol.
    pub name: &'static str,
    /// The hash of the protocol, by which it is told from others.
    pub hash: Hash64,
}

/// The documentation of something.
#[derive(Debug, PartialEq, Eq)]
pub struct Docs {
    /// The lines of documentation.
    pub docs: Vec<String>,
    /// The names of the arguments.
    pub arguments: Option<Vec<String>>,
}

impl Docs {
    /// Test if there is no documentation.
    pub open spec fn is_none(self) -> bool {
        self.docs@.len() == 0 && self.arguments is None
    }

    /// No documentation.
    pub fn empty() -> (docs: Self)
        ensures
            docs.is_none(),
    {
        Docs { docs: Vec::new(), arguments: None }
    }

    /// Replace the lines of documentation.
    pub fn set_docs(&mut self, docs: Vec<String>)
        ensures
            final(self).docs == docs,
            final(self).arguments == old(self).arguments,
    {
        self.docs = docs;
    }

    /// Replace the names of the arguments.
    pub fn set_arguments(&mut self, arguments: Option<Vec<String>>)
        ensures
            final(self).docs == old(self).docs,
            final(self).arguments == arguments,
    {
        self.arguments = arguments;
    }
}

/// What everything that is registered has.
#[derive(Debug, PartialEq, Eq)]
pub struct ModuleItemCommon {
    /// The documentation.
    pub docs: Docs,
    /// The message of the deprecation, if it is deprecated.
    pub deprecated: Option<String>,
}

impl ModuleItemCommon {
    /// Test if there is neither documentation nor a deprecation.
    pub open spec fn is_none(self) -> bool {
        self.docs.is_none() && self.deprecated is None
    }

    /// No documentation, and not deprecated.
    pub fn empty() -> (common: Self)
        ensures
            common.is_none(),
    {
        ModuleItemCommon { docs: Docs::empty(), deprecated: None }
    }
}

/// A type in documentation.
#[derive(Debug, PartialEq, Eq)]
pub struct DocType {
    /// The hash of the type.
    pub hash: Hash64,
    /// The generic arguments of the type.
    pub generics: Vec<DocType>,
}

/// The documentation of the signature of a function.
#[derive(Debug, PartialEq, Eq)]
pub struct DocFunction {
    /// Whether the function is asynchronous.
    pub is_async: bool,
    /// The number of arguments, if it is known.
    pub args: Option<usize>,
    /// The type that is returned.
    pub return_type: DocType,
    /// The types of the arguments.
    pub argument_types: Vec<DocType>,
}

/// A native function and its signature.
#[derive(Debug, PartialEq, Eq)]
pub struct FunctionDef {
    /// The function.
    pub handler: FunctionHandler,
    /// The signature.
    pub doc: DocFunction,
}

/// A native function which takes an instance of a type.
#[derive(Debug, PartialEq, Eq)]
pub struct InstanceFunctionDef {
    /// The function.
    pub function: FunctionDef,
    /// The hash of the type.
    pub container: Hash64,
    /// The type.
    pub container_type_info: TypeInfo,
}

/// The name of something that is associated with a type.
#[derive(Debug, PartialEq, Eq)]
pub enum AssociatedKind {
    /// A protocol.
    Protocol(Protocol),
    /// A protocol of a field.
    FieldFn(Protocol, String),
    /// A protocol of an index.
    IndexFn(Protocol, usize),
    /// A name.
    Instance(String),
}

/// The mathematical value of an [`AssociatedKind`]: protocols are told apart by
/// their hashes.
pub enum AssociatedKindView {
    /// A protocol.
    Protocol(Hash64),
    /// A protocol of a field.
    FieldFn(Hash64, Seq<char>),
    /// A protocol of an index.
    IndexFn(Hash64, usize),
    /// A name.
    Instance(Seq<char>),
}

impl View for AssociatedKind {
    type V = AssociatedKindView;

    open spec fn view(&self) -> AssociatedKindView {
        match self {
            AssociatedKind::Protocol(protocol) => AssociatedKindView::Protocol(protocol.hash),
            AssociatedKind::FieldFn(protocol, field) => AssociatedKindView::FieldFn(
                protocol.hash,
                field@,
            ),
            AssociatedKind::IndexFn(protocol, index) => AssociatedKindView::IndexFn(
                protocol.hash,
                *index,
            ),
            AssociatedKind::Instance(name) => AssociatedKindView::Instance(name@),
        }
    }
}

impl AssociatedKind {
    /// Copy the name.
    pub fn copy(&self) -> (kind: Self)
        ensures
            kind == *self,
    {
        match self {
            AssociatedKind::Protocol(protocol) => AssociatedKind::Protocol(*protocol),
            AssociatedKind::FieldFn(protocol, field) => AssociatedKind::FieldFn(
                *protocol,
                field.clone(),
            ),
            AssociatedKind::IndexFn(protocol, index) => AssociatedKind::IndexFn(*protocol, *index),
            AssociatedKind::Instance(name) => AssociatedKind::Instance(name.clone()),
        }
    }

    /// Test if two names are the same.
    pub fn same(&self, other: &AssociatedKind) -> (r: bool)
        ensures
            r == (self@ == other@),
    {
        match (self, other) {
            (AssociatedKind::Protocol(a), AssociatedKind::Protocol(b)) => a.hash == b.hash,
            (AssociatedKind::FieldFn(a, x), AssociatedKind::FieldFn(b, y)) => a.hash == b.hash && *x
                == *y,
            (AssociatedKind::IndexFn(a, x), AssociatedKind::IndexFn(b, y)) => a.hash == b.hash && *x
                == *y,
            (AssociatedKind::Instance(x), AssociatedKind::Instance(y)) => *x == *y,
            _ => false,
        }
    }
}

/// The name of something that is associated with a type, with the parameters
/// that it has.
#[derive(Debug, PartialEq, Eq)]
pub struct AssociatedName {
    /// The name.
    pub kind: AssociatedKind,
    /// The hash of the parameters of the function.
    pub function_parameters: Hash64,
}

impl AssociatedName {
    /// The name of a protocol of an index.
    pub fn index(protocol: Protocol, index: usize) -> (name: Self)
        ensures
            name == (AssociatedName {
                kind: AssociatedKind::IndexFn(protocol, index),
                function_parameters: Hash64(crate::hash::EMPTY),
            }),
    {
        AssociatedName {
            kind: AssociatedKind::IndexFn(protocol, index),
            function_parameters: Hash64(crate::hash::EMPTY),
        }
    }
}

/// What can be the name of an instance function.
pub trait ToInstance: Sized {
    /// Test if a name is the one of the instance function.
    spec fn is_instance(self, name: AssociatedName) -> bool;

    /// The name of the instance function.
    fn to_instance(self) -> (name: AssociatedName)
        ensures
            self.is_instance(name),
    ;
}

impl ToInstance for Protocol {
    open spec fn is_instance(self, name: AssociatedName) -> bool {
        name == (AssociatedName {
            kind: AssociatedKind::Protocol(self),
            function_parameters: Hash64(crate::hash::EMPTY),
        })
    }

    fn to_instance(self) -> (name: AssociatedName) {
        AssociatedName {
            kind: AssociatedKind::Protocol(self),
            function_parameters: Hash64(crate::hash::EMPTY),
        }
    }
}

impl ToInstance for &str {
    open spec fn is_instance(self, name: AssociatedName) -> bool {
        &&& name.kind@ == AssociatedKindView::Instance(self@)
        &&& name.function_parameters == Hash64(crate::hash::EMPTY)
    }

    fn to_instance(self) -> (name: AssociatedName) {
        AssociatedName {
            kind: AssociatedKind::Instance(self.to_owned()),
            function_parameters: Hash64(crate::hash::EMPTY),
        }
    }
}

/// What can be the name of a field.
pub trait ToFieldFunction: Sized {
    /// Test if a name is the one of a protocol of the field.
    spec fn is_field_function(self, protocol: Protocol, name: AssociatedName) -> bool;

    /// The name of a protocol of the field.
    fn to_field_function(self, protocol: Protocol) -> (name: AssociatedName)
        ensures
            self.is_field_function(protocol, name),
    ;
}

impl ToFieldFunction for &str {
    open spec fn is_field_function(self, protocol: Protocol, name: AssociatedName) -> bool {
        &&& name.kind matches AssociatedKind::FieldFn(p, field) && p == protocol && field@ == self@
        &&& name.function_parameters == Hash64(crate::hash::EMPTY)
    }

    fn to_field_function(self, protocol: Protocol) -> (name: AssociatedName) {
        AssociatedName {
            kind: AssociatedKind::FieldFn(protocol, self.to_owned()),
            function_parameters: Hash64(crate::hash::EMPTY),
        }
    }
}

/// Something that is associated with a type.
#[derive(Debug, PartialEq, Eq)]
pub struct Associated {
    /// The name.
    pub name: AssociatedName,
    /// The hash of the type.
    pub container: Hash64,
    /// The type.
    pub container_type_info: TypeInfo,
}

/// A function of a module.
#[derive(Debug, PartialEq, Eq)]
pub struct FunctionData {
    /// The name of the function in the module.
    pub item: ItemBuf,
    /// The function.
    pub function: FunctionDef,
}

/// A function that is associated with a type.
#[derive(Debug, PartialEq, Eq)]
pub struct AssociatedFunctionData {
    /// The name of the function and its type.
    pub associated: Associated,
    /// The function.
    pub function: FunctionDef,
}

impl AssociatedFunctionData {
    /// A function which takes an instance of the type that it is associated
    /// with.
    pub fn from_instance_function(name: AssociatedName, f: InstanceFunctionDef) -> (data: Self)
        ensures
            data == (AssociatedFunctionData {
                associated: Associated {
                    name,
                    container: f.container,
                    container_type_info: f.container_type_info,
                },
                function: f.function,
            }),
    {
        AssociatedFunctionData {
            associated: Associated {
                name,
                container: f.container,
                container_type_info: f.container_type_info,
            },
            function: f.function,
        }
    }
}

/// A function, as it is annotated.
#[derive(Debug, PartialEq, Eq)]
pub enum FunctionMetaKind {
    /// A function of a module.
    Function(FunctionData),
    /// A function that is associated with a type.
    AssociatedFunction(AssociatedFunctionData),
}

/// The annotations of a function.
#[derive(Debug, PartialEq, Eq)]
pub struct FunctionMeta {
    /// The function.
    pub kind: FunctionMetaKind,
    /// The lines of documentation.
    pub docs: Vec<String>,
    /// The names of the arguments.
    pub arguments: Option<Vec<String>>,
    /// The message of the deprecation.
    pub deprecated: Option<String>,
}

/// A macro, as it is annotated.
#[derive(Debug, PartialEq, Eq)]
pub enum MacroMetaKind {
    /// A macro.
    Function(ItemBuf, MacroHandler),
    /// An attribute macro.
    Attribute(ItemBuf, AttributeMacroHandler),
}

/// The annotations of a macro.
#[derive(Debug, PartialEq, Eq)]
pub struct MacroMeta {
    /// The macro.
    pub kind: MacroMetaKind,
    /// The lines of documentation.
    pub docs: Vec<String>,
}

/// The annotations of a module.
#[derive(Debug, PartialEq, Eq)]
pub struct ModuleMeta {
    /// The name of the module.
    pub item: ItemBuf,
    /// The lines of documentation.
    pub docs: Vec<String>,
}

/// A function that is registered.
#[derive(Debug, PartialEq, Eq)]
pub struct ModuleFunction {
    /// The function.
    pub handler: FunctionHandler,
    /// The trait that the function belongs to.
    pub trait_hash: Option<Hash64>,
    /// The signature.
    pub doc: DocFunction,
}

/// The kind of an item that is registered.
#[derive(Debug, PartialEq, Eq)]
pub enum ModuleItemKind {
    /// A constant.
    Constant(ConstValue),
    /// A function.
    Function(ModuleFunction),
    /// A macro.
    Macro(MacroHandler),
    /// An attribute macro.
    AttributeMacro(AttributeMacroHandler),
}

/// An item that is registered.
#[derive(Debug, PartialEq, Eq)]
pub struct ModuleItem {
    /// The name of the item.
    pub item: ItemBuf,
    /// The hash of the item.
    pub hash: Hash64,
    /// Documentation and deprecation.
    pub common: ModuleItemCommon,
    /// The kind of the item.
    pub kind: ModuleItemKind,
}

/// The kind of something that is associated with a type.
#[derive(Debug, PartialEq, Eq)]
pub enum ModuleAssociatedKind {
    /// A constant.
    Constant(ConstValue),
    /// A function.
    Function(ModuleFunction),
}

/// Something that is registered as associated with a type.
#[derive(Debug, PartialEq, Eq)]
pub struct ModuleAssociated {
    /// The hash of the type.
    pub container: Hash64,
    /// The type.
    pub container_type_info: TypeInfo,
    /// The name.
    pub name: AssociatedName,
    /// Documentation and deprecation.
    pub common: ModuleItemCommon,
    /// The kind.
    pub kind: ModuleAssociatedKind,
}

/// The fields of a type or variant.
#[derive(Debug, PartialEq, Eq)]
pub enum FieldNames {
    /// Named fields.
    Named(Vec<&'static str>),
    /// A number of unnamed fields.
    Unnamed(usize),
    /// No fields.
    Empty,
}

/// A variant of an enum.
#[derive(Debug, PartialEq, Eq)]
pub struct Variant {
    /// The name of the variant.
    pub name: &'static str,
    /// The fields of the variant.
    pub fields: Option<FieldNames>,
    /// The native constructor of the variant.
    pub constructor: Option<TypeConstructor>,
    /// The documentation of the variant.
    pub docs: Docs,
}

/// The structure of a type.
#[derive(Debug, PartialEq, Eq)]
pub enum TypeSpecification {
    /// A struct.
    Struct(FieldNames),
    /// An enum with its variants.
    Enum(Vec<Variant>),
}

/// A type that is registered.
#[derive(Debug, PartialEq, Eq)]
pub struct ModuleType {
    /// The name of the type.
    pub item: ItemBuf,
    /// The hash of the type.
    pub hash: Hash64,
    /// Documentation and deprecation.
    pub common: ModuleItemCommon,
    /// The hash of the generic parameters of the type.
    pub type_parameters: Hash64,
    /// The type.
    pub type_info: TypeInfo,
    /// The structure of the type, if it is known.
    pub spec: Option<TypeSpecification>,
    /// The native constructor of the type.
    pub constructor: Option<TypeConstructor>,
}

/// A function of a trait.
#[derive(Debug, PartialEq, Eq)]
pub struct TraitFunction {
    /// The name of the function.
    pub name: AssociatedName,
    /// Documentation and deprecation.
    pub common: ModuleItemCommon,
    /// The signature.
    pub doc: DocFunction,
}

/// A trait that is registered.
#[derive(Debug, PartialEq, Eq)]
pub struct ModuleTrait {
    /// The name of the trait.
    pub item: ItemBuf,
    /// The hash of the trait.
    pub hash: Hash64,
    /// Documentation and deprecation.
    pub common: ModuleItemCommon,
    /// What installs the trait for a type.
    pub handler: Option<TraitHandler>,
    /// The functions of the trait.
    pub functions: Vec<TraitFunction>,
}

/// An implementation of a trait that is registered.
#[derive(Debug, PartialEq, Eq)]
pub struct ModuleTraitImpl {
    /// The name of the type.
    pub item: ItemBuf,
    /// The hash of the type.
    pub hash: Hash64,
    /// The type.
    pub type_info: TypeInfo,
    /// The name of the trait.
    pub trait_item: ItemBuf,
    /// The hash of the trait.
    pub trait_hash: Hash64,
}

/// A name that stands for another item.
#[derive(Debug, PartialEq, Eq)]
pub struct ModuleReexport {
    /// The name.
    pub item: ItemBuf,
    /// The hash of the name.
    pub hash: Hash64,
    /// The name of the item that it stands for.
    pub to: ItemBuf,
}

/// Why something cannot be registered.
#[derive(Debug, PartialEq, Eq)]
#[allow(inconsistent_fields)]
pub enum ContextError {
    /// The type is already registered.
    ConflictingType { item: ItemBuf, type_info: TypeInfo, hash: Hash64 },
    /// The type is not registered.
    MissingType { item: ItemBuf, type_info: TypeInfo },
    /// The type is not an enum.
    MissingEnum { item: ItemBuf, type_info: TypeInfo },
    /// The enum has no such variant.
    MissingVariant { type_info: TypeInfo, index: usize },
    /// The value cannot be a constant.
    InvalidConstValue { item: ItemBuf, error: RuntimeError },
    /// The value cannot be an associated constant.
    InvalidAssociatedConstValue {
        container: TypeInfo,
        kind: AssociatedKind,
        error: RuntimeError,
    },
    /// The name of the constant is taken.
    ConflictingConstantName { item: ItemBuf, hash: Hash64 },
    /// The name of the macro is taken.
    ConflictingMacroName { item: ItemBuf, hash: Hash64 },
    /// The name of the function is taken.
    ConflictingFunctionName { item: ItemBuf, hash: Hash64 },
    /// The type has the protocol already.
    ConflictingProtocolFunction { type_info: TypeInfo, name: String },
    /// The field has the protocol already.
    ConflictingFieldFunction { type_info: TypeInfo, name: String, field: String },
    /// The index has the protocol already.
    ConflictingIndexFunction { type_info: TypeInfo, name: String, index: usize },
    /// The type has an instance function of that name already.
    ConflictingInstanceFunction { type_info: TypeInfo, name: String },
    /// The name of the trait is taken.
    ConflictingTrait { item: ItemBuf, hash: Hash64 },
    /// The type has the trait already.
    ConflictingTraitImpl {
        trait_item: ItemBuf,
        trait_hash: Hash64,
        item: ItemBuf,
        hash: Hash64,
    },
    /// The name of the re-export is taken.
    ConflictingReexport { item: ItemBuf, hash: Hash64, to: ItemBuf },
}

/// The mathematical value of a [`ContextError`].
#[verifier::ext_equal]
#[allow(inconsistent_fields)]
pub enum ContextErrorView {
    /// The type is already registered.
    ConflictingType { item: Seq<ComponentView>, type_info: TypeInfo, hash: Hash64 },
    /// The type is not registered.
    MissingType { item: Seq<ComponentView>, type_info: TypeInfo },
    /// The type is not an enum.
    MissingEnum { item: Seq<ComponentView>, type_info: TypeInfo },
    /// The enum has no such variant.
    MissingVariant { type_info: TypeInfo, index: usize },
    /// The value cannot be a constant.
    InvalidConstValue { item: Seq<ComponentView>, error: RuntimeError },
    /// The value cannot be an associated constant.
    InvalidAssociatedConstValue {
        container: TypeInfo,
        kind: AssociatedKind,
        error: RuntimeError,
    },
    /// The name of the constant is taken.
    ConflictingConstantName { item: Seq<ComponentView>, hash: Hash64 },
    /// The name of the macro is taken.
    ConflictingMacroName { item: Seq<ComponentView>, hash: Hash64 },
    /// The name of the function is taken.
    ConflictingFunctionName { item: Seq<ComponentView>, hash: Hash64 },
    /// The type has the protocol already.
    ConflictingProtocolFunction { type_info: TypeInfo, name: Seq<char> },
    /// The field has the protocol already.
    ConflictingFieldFunction { type_info: TypeInfo, name: Seq<char>, field: Seq<char> },
    /// The index has the protocol already.
    ConflictingIndexFunction { type_info: TypeInfo, name: Seq<char>, index: usize },
    /// The type has an instance function of that name already.
    ConflictingInstanceFunction { type_info: TypeInfo, name: Seq<char> },
    /// The name of the trait is taken.
    ConflictingTrait { item: Seq<ComponentView>, hash: Hash64 },
    /// The type has the trait already.
    ConflictingTraitImpl {
        trait_item: Seq<ComponentView>,
        trait_hash: Hash64,
        item: Seq<ComponentView>,
        hash: Hash64,
    },
    /// The name of the re-export is taken.
    ConflictingReexport { item: Seq<ComponentView>, hash: Hash64, to: Seq<ComponentView> },
}

impl View for ContextError {
    type V = ContextErrorView;

    open spec fn view(&self) -> ContextErrorView {
        match *self {
            ContextError::ConflictingType { item, type_info, hash } =>
                ContextErrorView::ConflictingType { item: item@, type_info, hash },
            ContextError::MissingType { item, type_info } => ContextErrorView::MissingType {
                item: item@,
                type_info,
            },
            ContextError::MissingEnum { item, type_info } => ContextErrorView::MissingEnum {
                item: item@,
                type_info,
            },
            ContextError::MissingVariant { type_info, index } => ContextErrorView::MissingVariant {
                type_info,
                index,
            },
            ContextError::InvalidConstValue { item, error } =>
                ContextErrorView::InvalidConstValue { item: item@, error },
            ContextError::InvalidAssociatedConstValue { container, kind, error } =>
                ContextErrorView::InvalidAssociatedConstValue { container, kind, error },
            ContextError::ConflictingConstantName { item, hash } =>
                ContextErrorView::ConflictingConstantName { item: item@, hash },
            ContextError::ConflictingMacroName { item, hash } =>
                ContextErrorView::ConflictingMacroName { item: item@, hash },
            ContextError::ConflictingFunctionName { item, hash } =>
                ContextErrorView::ConflictingFunctionName { item: item@, hash },
            ContextError::ConflictingProtocolFunction { type_info, name } =>
                ContextErrorView::ConflictingProtocolFunction { type_info, name: name@ },
            ContextError::ConflictingFieldFunction { type_info, name, field } =>
                ContextErrorView::ConflictingFieldFunction {
                    type_info,
                    name: name@,
                    field: field@,
                },
            ContextError::ConflictingIndexFunction { type_info, name, index } =>
                ContextErrorView::ConflictingIndexFunction { type_info, name: name@, index },
            ContextError::ConflictingInstanceFunction { type_info, name } =>
                ContextErrorView::ConflictingInstanceFunction { type_info, name: name@ },
            ContextError::ConflictingTrait { item, hash } => ContextErrorView::ConflictingTrait {
                item: item@,
                hash,
            },
            ContextError::ConflictingTraitImpl { trait_item, trait_hash, item, hash } =>
                ContextErrorView::ConflictingTraitImpl {
                    trait_item: trait_item@,
                    trait_hash,
                    item: item@,
                    hash,
                },
            ContextError::ConflictingReexport { item, hash, to } =>
                ContextErrorView::ConflictingReexport { item: item@, hash, to: to@ },
        }
    }
}

} // verus!
