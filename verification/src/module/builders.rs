//! Builders of what is registered under a name.

use vstd::prelude::*;
use crate::item::{IntoComponent, ItemBuf};
use crate::module::handles::{ItemFnMut, ItemMut};
use crate::module::module::{
    associated_constant_registered, associated_registered, constant_registered, function_registered,
    Module,
};
use crate::module::{
    Associated, AssociatedFunctionData, AssociatedName, DocFunction, DocType, FunctionData,
    FunctionDef, FunctionHandler, FunctionMetaKind, ToInstance,
};
use crate::runtime::{ToConstValue, TypeOf};
use crate::hash::Hash64;

verus! {

/// A builder of a constant.
pub struct ModuleConstantBuilder<'a, N, V> {
    /// The module.
    pub module: &'a mut Module,
    /// The name of the constant.
    pub name: N,
    /// The value of the constant.
    pub value: V,
}

impl<'a, N, V: ToConstValue> ModuleConstantBuilder<'a, N, V> {
    /// Register the constant in the module.
    pub fn build(self) -> (r: Result<ItemMut<'a>, crate::module::ContextError>) where
        N: IntoComponent,

        requires
            old(self.module)@.wf(),
        ensures
            constant_registered::<V>(
                old(self.module)@,
                final(self.module)@,
                self.name.component(),
                self.value.const_value(),
                match r {
                    Ok(h) => Ok((*final(h.docs), *final(h.deprecated))),
                    Err(e) => Err(e@),
                },
            ),
            r matches Ok(h) ==> h.docs.is_none() && *h.deprecated is None,
            final(self.module)@.wf(),
    {
        self.module.insert_constant(self.name, self.value)
    }

    /// Register the constant as associated with the type `T`.
    pub fn build_associated<T: TypeOf>(self) -> (r: Result<
        ItemMut<'a>,
        crate::module::ContextError,
    >) where N: ToInstance
        requires
            old(self.module)@.wf(),
        ensures
            exists|n: AssociatedName| #[trigger]
                self.name.is_instance(n) && associated_constant_registered::<V>(
                    old(self.module)@,
                    final(self.module)@,
                    Associated { name: n, container: T::hash(), container_type_info: T::info() },
                    self.value.const_value(),
                    match r {
                        Ok(h) => Ok((*final(h.docs), *final(h.deprecated))),
                        Err(e) => Err(e@),
                    },
                ),
            r matches Ok(h) ==> h.docs.is_none() && *h.deprecated is None,
            final(self.module)@.wf(),
    {
        let name = self.name.to_instance();
        let associated = Associated {
            name,
            container: T::type_hash(),
            container_type_info: T::type_info(),
        };
        self.module.insert_associated_constant(associated, self.value)
    }
}

/// A builder of a function.
pub struct ModuleFunctionBuilder<'a, N> {
    /// The module.
    pub module: &'a mut Module,
    /// The name of the function.
    pub name: N,
    /// The function.
    pub function: FunctionDef,
}

/// A name of one component.
fn single<N: IntoComponent>(name: N) -> (item: ItemBuf)
    ensures
        item@ == seq![name.component()],
{
    let mut names: Vec<N> = Vec::new();
    names.push(name);
    let item = ItemBuf::with_item(names);
    assert(item@ =~= seq![name.component()]);
    item
}

impl<'a, N> ModuleFunctionBuilder<'a, N> {
    /// Register the function in the module.
    pub fn build(self) -> (r: Result<ItemFnMut<'a>, crate::module::ContextError>) where
        N: IntoComponent,

        requires
            old(self.module)@.wf(),
        ensures
            exists|item: ItemBuf| #[trigger] item@ == seq![self.name.component()]
                && function_registered(
                    old(self.module)@,
                    final(self.module)@,
                    FunctionData { item, function: self.function },
                    match r {
                        Ok(h) => Ok((*final(h.docs), *final(h.deprecated), *final(h.doc))),
                        Err(e) => Err(e@),
                    },
                ),
            r matches Ok(h) ==> h.docs.is_none() && *h.deprecated is None && *h.doc
                == self.function.doc,
            final(self.module)@.wf(),
    {
        let item = single(self.name);
        self.module.function_from_meta_kind(
            FunctionMetaKind::Function(FunctionData { item, function: self.function }),
        )
    }

    /// Register the function as associated with the type `T`.
    pub fn build_associated<T: TypeOf>(self) -> (r: Result<
        ItemFnMut<'a>,
        crate::module::ContextError,
    >) where N: ToInstance
        requires
            old(self.module)@.wf(),
        ensures
            exists|n: AssociatedName| #[trigger]
                self.name.is_instance(n) && associated_registered(
                    old(self.module)@,
                    final(self.module)@,
                    Associated { name: n, container: T::hash(), container_type_info: T::info() },
                    self.function,
                    match r {
                        Ok(h) => Ok((*final(h.docs), *final(h.deprecated), *final(h.doc))),
                        Err(e) => Err(e@),
                    },
                ),
            r matches Ok(h) ==> h.docs.is_none() && *h.deprecated is None && *h.doc
                == self.function.doc,
            final(self.module)@.wf(),
    {
        let name = self.name.to_instance();
        let associated = Associated {
            name,
            container: T::type_hash(),
            container_type_info: T::type_info(),
        };
        self.module.function_from_meta_kind(
            FunctionMetaKind::AssociatedFunction(
                AssociatedFunctionData { associated, function: self.function },
            ),
        )
    }
}

/// A builder of a function which works on the virtual machine itself.
pub struct ModuleRawFunctionBuilder<'a, N> {
    /// The module.
    pub module: &'a mut Module,
    /// The name of the function.
    pub name: N,
    /// The function.
    pub handler: FunctionHandler,
}

/// Test if a signature says nothing but that the function is not asynchronous.
pub open spec fn is_raw(doc: DocFunction) -> bool {
    &&& !doc.is_async
    &&& doc.args is None
    &&& doc.return_type.hash == Hash64(crate::hash::EMPTY)
    &&& doc.return_type.generics@.len() == 0
    &&& doc.argument_types@.len() == 0
}

impl<'a, N: IntoComponent> ModuleRawFunctionBuilder<'a, N> {
    /// Register the function in the module.
    pub fn build(self) -> (r: Result<ItemFnMut<'a>, crate::module::ContextError>)
        requires
            old(self.module)@.wf(),
        ensures
            exists|data: FunctionData|
                {
                    &&& data.item@ == seq![self.name.component()]
                    &&& data.function.handler == self.handler
                    &&& #[trigger] is_raw(data.function.doc)
                    &&& function_registered(
                        old(self.module)@,
                        final(self.module)@,
                        data,
                        match r {
                            Ok(h) => Ok((*final(h.docs), *final(h.deprecated), *final(h.doc))),
                            Err(e) => Err(e@),
                        },
                    )
                },
            r matches Ok(h) ==> h.docs.is_none() && *h.deprecated is None && is_raw(*h.doc),
            final(self.module)@.wf(),
    {
        let item = single(self.name);
        let function = FunctionDef {
            handler: self.handler,
            doc: DocFunction {
                is_async: false,
                args: None,
                return_type: DocType { hash: Hash64(crate::hash::EMPTY), generics: Vec::new() },
                argument_types: Vec::new(),
            },
        };
        let data = FunctionData { item, function };
        assert(is_raw(data.function.doc));
        self.module.function_from_meta_kind(FunctionMetaKind::Function(data))
    }
}

impl Module {
    /// Register a constant, in the module or associated with a type.
    pub fn constant<N, V: ToConstValue>(&mut self, name: N, value: V) -> (b: ModuleConstantBuilder<
        '_,
        N,
        V,
    >)
        ensures
            *b.module == *old(self),
            *final(b.module) == *final(self),
            b.name == name,
            b.value == value,
    {
        ModuleConstantBuilder { module: self, name, value }
    }

    /// Register a function, in the module or associated with a type.
    pub fn function<N>(&mut self, name: N, f: FunctionDef) -> (b: ModuleFunctionBuilder<'_, N>)
        ensures
            *b.module == *old(self),
            *final(b.module) == *final(self),
            b.name == name,
            b.function == f,
    {
        ModuleFunctionBuilder { module: self, name, function: f }
    }

    /// Register a function which works on the virtual machine itself.
    pub fn raw_function<N>(&mut self, name: N, handler: FunctionHandler) -> (b:
        ModuleRawFunctionBuilder<'_, N>)
        ensures
            *b.module == *old(self),
            *final(b.module) == *final(self),
            b.name == name,
            b.handler == handler,
    {
        ModuleRawFunctionBuilder { module: self, name, handler }
    }
}

} // verus!
