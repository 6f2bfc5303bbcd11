//! Values that are known while compiling.

use vstd::prelude::*;
use crate::ast::Float;
use crate::compile::error::ConstError;
use crate::hash::{Hash64, EMPTY};
use crate::list::List;
use crate::runtime::OWNED_TUPLE_HASH;

verus! {

/// A type, by its hash.
#[derive(Debug, Clone, Copy, PartialEq, Eq, Structural)]
pub struct Type {
    /// The hash of the type.
    pub hash: Hash64,
}

/// A value that needs no allocation.
#[derive(Debug, Clone, Copy, PartialEq, Eq, Structural)]
pub enum Inline {
    /// No value at all.
    Empty,
    /// The unit value.
    Unit,
    /// A boolean.
    Bool(bool),
    /// A character.
    Char(char),
    /// A signed integer.
    Signed(i64),
    /// An unsigned integer.
    Unsigned(u64),
    /// A floating point number.
    Float(Float),
    /// A type.
    Type(Type),
    /// A hash.
    Hashed(Hash64),
}

/// A constant value.
#[derive(Debug, PartialEq, Eq)]
pub enum ConstValue {
    /// An inline value.
    Inline(Inline),
    /// A string.
    String(String),
    /// Bytes.
    Bytes(List<u8>),
    /// An instance of a type.
    Instance(Box<ConstInstance>),
}

/// A constant instance of a type.
#[derive(Debug, PartialEq, Eq)]
pub struct ConstInstance {
    /// The hash of the type.
    pub hash: Hash64,
    /// The hash of the variant, for a variant.
    pub variant_hash: Hash64,
    /// The values of the fields.
    pub fields: Vec<ConstValue>,
}

impl ConstValue {
    /// Test if the value is a tuple of two values.
    pub open spec fn is_pair(self) -> bool {
        match self {
            ConstValue::Instance(instance) => instance.hash == Hash64(OWNED_TUPLE_HASH)
                && instance.variant_hash == Hash64(EMPTY) && instance.fields@.len() == 2,
            _ => false,
        }
    }

    /// The two values of a pair.
    pub fn as_pair(&self) -> (r: Result<(&ConstValue, &ConstValue), ConstError>)
        ensures
            match r {
                Ok((a, b)) => self.is_pair() && self->Instance_0.fields@[0] == *a
                    && self->Instance_0.fields@[1] == *b,
                Err(e) => !self.is_pair() && e == ConstError::ExpectedPair,
            },
    {
        match self {
            ConstValue::Instance(instance) => {
                if instance.hash == Hash64(OWNED_TUPLE_HASH)
                    && instance.variant_hash == Hash64(EMPTY)
                    && instance.fields.len() == 2 {
                    Ok((&instance.fields[0], &instance.fields[1]))
                } else {
                    Err(ConstError::ExpectedPair)
                }
            },
            _ => Err(ConstError::ExpectedPair),
        }
    }

    /// The text of a string.
    pub fn as_string(&self) -> (r: Result<&String, ConstError>)
        ensures
            match r {
                Ok(string) => *self == ConstValue::String(*string),
                Err(e) => !(*self is String) && e == ConstError::ExpectedString,
            },
    {
        match self {
            ConstValue::String(string) => Ok(string),
            _ => Err(ConstError::ExpectedString),
        }
    }
}

} // verus!
