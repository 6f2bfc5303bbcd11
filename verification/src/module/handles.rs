//! Handles to what has been registered, to add to it.

use vstd::prelude::*;
use crate::item::ItemBuf;
use crate::module::{
    DocFunction, Docs, FieldNames, TraitFunction, TraitHandler, TypeConstructor, TypeSpecification,
};

verus! {

/// A handle to an item.
pub struct ItemMut<'a> {
    /// The documentation of the item.
    pub docs: &'a mut Docs,
    /// The message of the deprecation.
    pub deprecated: &'a mut Option<String>,
}

impl<'a> ItemMut<'a> {
    /// Set the lines of documentation.
    pub fn docs(self, docs: Vec<String>) -> (r: ItemMut<'a>)
        ensures
            r.docs.docs == docs,
            r.docs.arguments == old(self.docs).arguments,
            *r.deprecated == *old(self.deprecated),
            *final(r.docs) == *final(self.docs),
            *final(r.deprecated) == *final(self.deprecated),
    {
        self.docs.set_docs(docs);
        self
    }

    /// Set the message of the deprecation.
    pub fn deprecated(self, message: String) -> (r: ItemMut<'a>)
        ensures
            *r.docs == *old(self.docs),
            *r.deprecated == Some(message),
            *final(r.docs) == *final(self.docs),
            *final(r.deprecated) == *final(self.deprecated),
    {
        *self.deprecated = Some(message);
        self
    }
}

/// A handle to a function.
pub struct ItemFnMut<'a> {
    /// The documentation of the function.
    pub docs: &'a mut Docs,
    /// The message of the deprecation.
    pub deprecated: &'a mut Option<String>,
    /// The signature of the function.
    pub doc: &'a mut DocFunction,
}

impl<'a> ItemFnMut<'a> {
    /// Set the lines of documentation.
    pub fn docs(self, docs: Vec<String>) -> (r: ItemFnMut<'a>)
        ensures
            r.docs.docs == docs,
            r.docs.arguments == old(self.docs).arguments,
            *r.deprecated == *old(self.deprecated),
            *r.doc == *old(self.doc),
            *final(r.docs) == *final(self.docs),
            *final(r.deprecated) == *final(self.deprecated),
            *final(r.doc) == *final(self.doc),
    {
        self.docs.set_docs(docs);
        self
    }
}

/// A handle to a type.
pub struct TypeMut<'a> {
    /// The documentation of the type.
    pub docs: &'a mut Docs,
    /// The message of the deprecation.
    pub deprecated: &'a mut Option<String>,
    /// The structure of the type.
    pub spec: &'a mut Option<TypeSpecification>,
    /// The native constructor of the type.
    pub constructor: &'a mut Option<TypeConstructor>,
    /// The name of the type.
    pub item: &'a ItemBuf,
}

impl<'a> TypeMut<'a> {
    /// Set the lines of documentation.
    pub fn docs(self, docs: Vec<String>) -> (r: TypeMut<'a>)
        ensures
            r.docs.docs == docs,
            r.docs.arguments == old(self.docs).arguments,
            *r.deprecated == *old(self.deprecated),
            *r.spec == *old(self.spec),
            *r.constructor == *old(self.constructor),
            *r.item == *self.item,
            *final(r.docs) == *final(self.docs),
            *final(r.deprecated) == *final(self.deprecated),
            *final(r.spec) == *final(self.spec),
            *final(r.constructor) == *final(self.constructor),
    {
        self.docs.set_docs(docs);
        self
    }
}

/// A handle to a variant of an enum.
pub struct VariantMut<'a> {
    /// The name of the variant.
    pub name: &'static str,
    /// The documentation of the variant.
    pub docs: &'a mut Docs,
    /// The fields of the variant.
    pub fields: &'a mut Option<FieldNames>,
    /// The native constructor of the variant.
    pub constructor: &'a mut Option<TypeConstructor>,
}

/// A handle to a trait.
pub struct TraitMut<'a> {
    /// The documentation of the trait.
    pub docs: &'a mut Docs,
    /// The message of the deprecation.
    pub deprecated: &'a mut Option<String>,
    /// What installs the trait for a type.
    pub handler: &'a mut Option<TraitHandler>,
    /// The functions of the trait.
    pub functions: &'a mut Vec<TraitFunction>,
}

} // verus!
