//! What native types say of themselves.

use vstd::prelude::*;
use crate::hash::Hash64;
use crate::item::{ComponentView, ItemBuf};
use crate::module::ConstConstruct;
use crate::runtime::ConstValue;

verus! {

/// A type, in messages.
#[derive(Debug, Clone, Copy, PartialEq, Eq)]
pub struct TypeInfo {
    /// The hash of the type.
    pub hash: Hash64,
    /// The name of the type.
    pub name: &'static str,
}

/// Why a value cannot be turned into another.
#[derive(Debug, Clone, Copy, PartialEq, Eq)]
pub enum RuntimeError {
    /// The value has no constant form.
    ConstNotSupported {
        /// The type of the value.
        type_info: TypeInfo,
    },
    /// The value is borrowed elsewhere.
    AccessError,
}

/// A type that scripts know of.
pub trait TypeOf {
    /// The hash of the type.
    spec fn hash() -> Hash64;

    /// The hash of the generic parameters of the type.
    spec fn parameters() -> Hash64;

    /// The type, in messages.
    spec fn info() -> TypeInfo;

    /// The hash of the type.
    fn type_hash() -> (hash: Hash64)
        ensures
            hash == Self::hash(),
    ;

    /// The hash of the generic parameters of the type.
    fn type_parameters() -> (hash: Hash64)
        ensures
            hash == Self::parameters(),
    ;

    /// The type, in messages.
    fn type_info() -> (info: TypeInfo)
        ensures
            info == Self::info(),
    ;
}

/// A type that is an item.
pub trait Named {
    /// The name of the item.
    spec fn item() -> Seq<ComponentView>;

    /// How the name of the type is shown.
    spec fn shown() -> Seq<char>;

    /// The name of the item.
    fn named_item() -> (item: ItemBuf)
        ensures
            item@ == Self::item(),
    ;

    /// How the name of the type is shown.
    fn display() -> (name: String)
        ensures
            name@ == Self::shown(),
    ;
}

/// A type whose values can be constants.
pub trait ToConstValue: TypeOf + Sized {
    /// The constant that a value is.
    spec fn const_value(self) -> Result<ConstValue, RuntimeError>;

    /// What turns a constant back into a value of the type, if it is needed.
    spec fn constructs() -> Option<ConstConstruct>;

    /// Convert a value into a constant.
    fn to_const_value(self) -> (r: Result<ConstValue, RuntimeError>)
        ensures
            r == self.const_value(),
    ;

    /// What turns a constant back into a value of the type, if it is needed.
    fn construct() -> (r: Option<ConstConstruct>)
        ensures
            r == Self::constructs(),
    ;
}

} // verus!
