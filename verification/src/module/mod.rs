//! Modules of native functions and types.

mod builders;
mod data;
mod handles;
pub mod laws;
mod module;
pub mod registered_laws;

pub use builders::{
    is_raw, ModuleConstantBuilder, ModuleFunctionBuilder, ModuleRawFunctionBuilder,
};
pub use data::{
    Associated, AssociatedFunctionData, AssociatedKind, AssociatedKindView, AssociatedName,
    AttributeMacroHandler, ConstConstruct, ContextError, ContextErrorView, DocFunction, DocType,
    Docs, FieldNames, FunctionData, FunctionDef, FunctionHandler, FunctionMeta, FunctionMetaKind,
    InstanceFunctionDef, MacroHandler, MacroMeta, MacroMetaKind, ModuleAssociated,
    ModuleAssociatedKind, ModuleFunction, ModuleItem, ModuleItemCommon, ModuleItemKind, ModuleMeta,
    ModuleReexport, ModuleTrait, ModuleTraitImpl, ModuleType, Protocol, ToFieldFunction,
    ToInstance, TraitFunction, TraitHandler, TypeConstructor, TypeSpecification, Variant,
};
pub use handles::{ItemFnMut, ItemMut, TraitMut, TypeMut, VariantMut};
pub use module::{
    associated_name, conflicting, is_associated, is_item, is_type, item_name, keeps_types,
    kind_registered, signature, touched, InstallWith, Module, ModuleState, Name, NameView,
};
