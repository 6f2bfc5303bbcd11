//! Values.

mod const_value;
pub mod debug;
pub mod debug_laws;
mod primitive;
mod static_type;
mod types;
pub mod value;
pub mod value_laws;

pub use const_value::{ConstInstance, ConstValue, Inline, Type};
pub use static_type::{
    BOOL_HASH, BYTE_HASH, CHAR_HASH, FLOAT_HASH, INTEGER_HASH, ITERATOR_HASH, OBJECT_HASH,
    OPTION_HASH, OWNED_TUPLE_HASH, STRING_HASH, TUPLE_HASH, VEC_HASH,
};
pub use types::{Named, RuntimeError, ToConstValue, TypeInfo, TypeOf};
pub use value::{Field, HaltInfo, Key, Number, Value, ValueIterator, VmError};
