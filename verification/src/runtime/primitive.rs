//! The primitive types as constants.

use vstd::prelude::*;
use crate::hash::{Hash64, EMPTY};
use crate::module::ConstConstruct;
use crate::runtime::{
    ConstValue, Inline, RuntimeError, ToConstValue, TypeInfo, TypeOf, BOOL_HASH, CHAR_HASH,
    INTEGER_HASH, STRING_HASH,
};

verus! {

impl TypeOf for bool {
    open spec fn hash() -> Hash64 {
        Hash64(BOOL_HASH)
    }

    open spec fn parameters() -> Hash64 {
        Hash64(EMPTY)
    }

    open spec fn info() -> TypeInfo {
        TypeInfo { hash: Hash64(BOOL_HASH), name: "::std::bool" }
    }

    fn type_hash() -> (hash: Hash64) {
        Hash64(BOOL_HASH)
    }

    fn type_parameters() -> (hash: Hash64) {
        Hash64(EMPTY)
    }

    fn type_info() -> (info: TypeInfo) {
        TypeInfo { hash: Hash64(BOOL_HASH), name: "::std::bool" }
    }
}

impl ToConstValue for bool {
    open spec fn const_value(self) -> Result<ConstValue, RuntimeError> {
        Ok(ConstValue::Inline(Inline::Bool(self)))
    }

    open spec fn constructs() -> Option<ConstConstruct> {
        None
    }

    fn to_const_value(self) -> (r: Result<ConstValue, RuntimeError>) {
        Ok(ConstValue::Inline(Inline::Bool(self)))
    }

    fn construct() -> (r: Option<ConstConstruct>) {
        None
    }
}

impl TypeOf for char {
    open spec fn hash() -> Hash64 {
        Hash64(CHAR_HASH)
    }

    open spec fn parameters() -> Hash64 {
        Hash64(EMPTY)
    }

    open spec fn info() -> TypeInfo {
        TypeInfo { hash: Hash64(CHAR_HASH), name: "::std::char" }
    }

    fn type_hash() -> (hash: Hash64) {
        Hash64(CHAR_HASH)
    }

    fn type_parameters() -> (hash: Hash64) {
        Hash64(EMPTY)
    }

    fn type_info() -> (info: TypeInfo) {
        TypeInfo { hash: Hash64(CHAR_HASH), name: "::std::char" }
    }
}

impl ToConstValue for char {
    open spec fn const_value(self) -> Result<ConstValue, RuntimeError> {
        Ok(ConstValue::Inline(Inline::Char(self)))
    }

    open spec fn constructs() -> Option<ConstConstruct> {
        None
    }

    fn to_const_value(self) -> (r: Result<ConstValue, RuntimeError>) {
        Ok(ConstValue::Inline(Inline::Char(self)))
    }

    fn construct() -> (r: Option<ConstConstruct>) {
        None
    }
}

impl TypeOf for i64 {
    open spec fn hash() -> Hash64 {
        Hash64(INTEGER_HASH)
    }

    open spec fn parameters() -> Hash64 {
        Hash64(EMPTY)
    }

    open spec fn info() -> TypeInfo {
        TypeInfo { hash: Hash64(INTEGER_HASH), name: "::std::int" }
    }

    fn type_hash() -> (hash: Hash64) {
        Hash64(INTEGER_HASH)
    }

    fn type_parameters() -> (hash: Hash64) {
        Hash64(EMPTY)
    }

    fn type_info() -> (info: TypeInfo) {
        TypeInfo { hash: Hash64(INTEGER_HASH), name: "::std::int" }
    }
}

impl ToConstValue for i64 {
    open spec fn const_value(self) -> Result<ConstValue, RuntimeError> {
        Ok(ConstValue::Inline(Inline::Signed(self)))
    }

    open spec fn constructs() -> Option<ConstConstruct> {
        None
    }

    fn to_const_value(self) -> (r: Result<ConstValue, RuntimeError>) {
        Ok(ConstValue::Inline(Inline::Signed(self)))
    }

    fn construct() -> (r: Option<ConstConstruct>) {
        None
    }
}

impl TypeOf for String {
    open spec fn hash() -> Hash64 {
        Hash64(STRING_HASH)
    }

    open spec fn parameters() -> Hash64 {
        Hash64(EMPTY)
    }

    open spec fn info() -> TypeInfo {
        TypeInfo { hash: Hash64(STRING_HASH), name: "::std::string::String" }
    }

    fn type_hash() -> (hash: Hash64) {
        Hash64(STRING_HASH)
    }

    fn type_parameters() -> (hash: Hash64) {
        Hash64(EMPTY)
    }

    fn type_info() -> (info: TypeInfo) {
        TypeInfo { hash: Hash64(STRING_HASH), name: "::std::string::String" }
    }
}

impl ToConstValue for String {
    open spec fn const_value(self) -> Result<ConstValue, RuntimeError> {
        Ok(ConstValue::String(self))
    }

    open spec fn constructs() -> Option<ConstConstruct> {
        None
    }

    fn to_const_value(self) -> (r: Result<ConstValue, RuntimeError>) {
        Ok(ConstValue::String(self))
    }

    fn construct() -> (r: Option<ConstConstruct>) {
        None
    }
}

} // verus!
