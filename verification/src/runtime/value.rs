//! Values of scripts.

use vstd::prelude::*;
use crate::ast::Float;
use crate::hash::Hash64;
use crate::list::List;
use crate::runtime::{
    TypeInfo, BOOL_HASH, BYTE_HASH, CHAR_HASH, FLOAT_HASH, INTEGER_HASH, ITERATOR_HASH, OBJECT_HASH,
    OPTION_HASH, STRING_HASH, TUPLE_HASH, VEC_HASH,
};

verus! {

/// A floating point number, and the text that it is shown as.
#[derive(Debug, PartialEq, Eq)]
pub struct Number {
    /// The number.
    pub value: Float,
    /// The text that it is shown as.
    pub text: String,
}

/// A value.
#[derive(Debug, PartialEq, Eq)]
pub enum Value {
    /// The unit value.
    Unit,
    /// A boolean.
    Bool(bool),
    /// A byte.
    Byte(u8),
    /// A character.
    Char(char),
    /// An integer.
    Integer(i64),
    /// A floating point number.
    Float(Number),
    /// A string.
    String(String),
    /// A vector.
    Vec(List<Value>),
    /// A tuple.
    Tuple(List<Value>),
    /// An object. Its fields are in the order of their names, and no two of them
    /// have the same name.
    Object(List<Field>),
    /// An optional value.
    Option(Option<Box<Value>>),
    /// An iterator.
    Iterator(Box<ValueIterator>),
}

/// A field of an object.
#[derive(Debug, PartialEq, Eq)]
pub struct Field {
    /// The name of the field.
    pub name: String,
    /// The value of the field.
    pub value: Value,
}

/// An iterator over values. Getting to a value can fail.
#[derive(Debug, PartialEq, Eq)]
pub struct ValueIterator {
    /// The name of the iterator.
    pub name: &'static str,
    /// What the iterator gives, first to last.
    pub items: List<Result<Value, VmError>>,
}

/// A value that can be the key of a map.
#[derive(Debug, PartialEq, Eq)]
pub enum Key {
    /// The unit value.
    Unit,
    /// A boolean.
    Bool(bool),
    /// A byte.
    Byte(u8),
    /// A character.
    Char(char),
    /// An integer.
    Integer(i64),
    /// A string.
    String(String),
    /// A vector.
    Vec(List<Key>),
    /// A tuple.
    Tuple(List<Key>),
    /// An optional key.
    Option(Option<Box<Key>>),
}

/// The mathematical value of a [`Key`].
pub enum KeyView {
    /// The unit value.
    Unit,
    /// A boolean.
    Bool(bool),
    /// A byte.
    Byte(u8),
    /// A character.
    Char(char),
    /// An integer.
    Integer(i64),
    /// A string.
    String(Seq<char>),
    /// A vector.
    Vec(List<KeyView>),
    /// A tuple.
    Tuple(List<KeyView>),
    /// An optional key.
    Option(Option<Box<KeyView>>),
}

/// Why an operation on values fails.
#[derive(Debug, PartialEq, Eq)]
#[allow(inconsistent_fields)]
pub enum VmError {
    /// A map has no such key.
    MissingIndexKey {
        /// The type of the map.
        target: TypeInfo,
        /// The key.
        index: Key,
    },
    /// The operation is not there for these types.
    UnsupportedBinaryOperation {
        /// The operation.
        op: &'static str,
        /// The type of the left value.
        lhs: TypeInfo,
        /// The type of the right value.
        rhs: TypeInfo,
    },
    /// One of the numbers is not comparable.
    IllegalFloatComparison {
        /// The left number.
        lhs: Float,
        /// The right number.
        rhs: Float,
    },
    /// The type does not have the protocol.
    MissingProtocolFunction {
        /// The protocol.
        protocol: &'static str,
        /// The type.
        instance: TypeInfo,
    },
    /// A value of another type was expected.
    Expected {
        /// The type that was expected.
        expected: TypeInfo,
        /// The type of the value.
        actual: TypeInfo,
    },
    /// A tuple of another length was expected.
    ExpectedTupleLength {
        /// The length of the tuple.
        actual: usize,
        /// The length that was expected.
        expected: usize,
    },
    /// The value cannot be the key of a map.
    KeyNotSupported {
        /// The type of the value.
        actual: TypeInfo,
    },
    /// The script panicked.
    Panic {
        /// Why it did.
        reason: String,
    },
    /// The script stopped before it was complete.
    Halted {
        /// How it stopped.
        halt: HaltInfo,
    },
}

/// How a script stopped that is not complete.
#[derive(Debug, Clone, Copy, PartialEq, Eq, Structural)]
pub enum HaltInfo {
    /// It yielded a value.
    Yielded,
    /// It has run as many instructions as it may.
    Limited,
}

/// The mathematical value of a key.
pub open spec fn key_view(key: Key) -> KeyView
    decreases key,
{
    match key {
        Key::Unit => KeyView::Unit,
        Key::Bool(x) => KeyView::Bool(x),
        Key::Byte(x) => KeyView::Byte(x),
        Key::Char(x) => KeyView::Char(x),
        Key::Integer(x) => KeyView::Integer(x),
        Key::String(x) => KeyView::String(x@),
        Key::Vec(x) => KeyView::Vec(keys_view(x)),
        Key::Tuple(x) => KeyView::Tuple(keys_view(x)),
        Key::Option(None) => KeyView::Option(None),
        Key::Option(Some(x)) => KeyView::Option(Some(Box::new(key_view(*x)))),
    }
}

/// The mathematical values of keys.
pub open spec fn keys_view(keys: List<Key>) -> List<KeyView>
    decreases keys,
{
    match keys {
        List::Nil => List::Nil,
        List::Cons(head, tail) => List::Cons(
            Box::new(key_view(*head)),
            Box::new(keys_view(*tail)),
        ),
    }
}

impl View for Key {
    type V = KeyView;

    open spec fn view(&self) -> KeyView {
        key_view(*self)
    }
}

/// The type of a value.
pub open spec fn value_type(value: Value) -> TypeInfo {
    match value {
        Value::Unit => tuple_type(),
        Value::Bool(_) => TypeInfo { hash: Hash64(BOOL_HASH), name: "::std::bool" },
        Value::Byte(_) => TypeInfo { hash: Hash64(BYTE_HASH), name: "::std::byte" },
        Value::Char(_) => TypeInfo { hash: Hash64(CHAR_HASH), name: "::std::char" },
        Value::Integer(_) => TypeInfo { hash: Hash64(INTEGER_HASH), name: "::std::int" },
        Value::Float(_) => TypeInfo { hash: Hash64(FLOAT_HASH), name: "::std::float" },
        Value::String(_) => TypeInfo { hash: Hash64(STRING_HASH), name: "::std::string::String" },
        Value::Vec(_) => TypeInfo { hash: Hash64(VEC_HASH), name: "::std::vec::Vec" },
        Value::Tuple(_) => tuple_type(),
        Value::Object(_) => TypeInfo { hash: Hash64(OBJECT_HASH), name: "::std::object::Object" },
        Value::Option(_) => TypeInfo { hash: Hash64(OPTION_HASH), name: "::std::option::Option" },
        Value::Iterator(_) => TypeInfo {
            hash: Hash64(ITERATOR_HASH),
            name: "::std::iter::Iterator",
        },
    }
}

/// The type of tuples.
pub open spec fn tuple_type() -> TypeInfo {
    TypeInfo { hash: Hash64(TUPLE_HASH), name: "::std::tuple::Tuple" }
}

/// Test if a number is not a number.
pub open spec fn is_nan(x: Float) -> bool {
    x.bits % 0x8000_0000_0000_0000 > 0x7ff0_0000_0000_0000
}

/// Test if two numbers are equal. No number is equal to one that is not a
/// number, and the two zeros are equal.
pub open spec fn float_equal(a: Float, b: Float) -> bool {
    &&& !is_nan(a)
    &&& !is_nan(b)
    &&& a.bits == b.bits || (a.bits % 0x8000_0000_0000_0000 == 0 && b.bits
        % 0x8000_0000_0000_0000 == 0)
}

/// The error of comparing two values of types that cannot be compared.
pub open spec fn not_comparable(a: Value, b: Value) -> VmError {
    VmError::UnsupportedBinaryOperation { op: "==", lhs: value_type(a), rhs: value_type(b) }
}

/// Whether two values are equal. If it is `total`, then it is an error if a
/// number is not a number.
pub open spec fn compared(a: Value, b: Value, total: bool) -> Result<bool, VmError>
    decreases a,
{
    match (a, b) {
        (Value::Unit, Value::Unit) => Ok(true),
        (Value::Bool(x), Value::Bool(y)) => Ok(x == y),
        (Value::Byte(x), Value::Byte(y)) => Ok(x == y),
        (Value::Char(x), Value::Char(y)) => Ok(x == y),
        (Value::Integer(x), Value::Integer(y)) => Ok(x == y),
        (Value::Float(x), Value::Float(y)) => if total && (is_nan(x.value) || is_nan(y.value)) {
            Err(VmError::IllegalFloatComparison { lhs: x.value, rhs: y.value })
        } else {
            Ok(float_equal(x.value, y.value))
        },
        (Value::String(x), Value::String(y)) => Ok(x@ == y@),
        (Value::Vec(x), Value::Vec(y)) => list_compared(x, y, total),
        (Value::Tuple(x), Value::Tuple(y)) => list_compared(x, y, total),
        (Value::Object(x), Value::Object(y)) => fields_compared(x, y, total),
        (Value::Option(None), Value::Option(None)) => Ok(true),
        (Value::Option(Some(x)), Value::Option(Some(y))) => compared(*x, *y, total),
        (Value::Option(_), Value::Option(_)) => Ok(false),
        _ => Err(not_comparable(a, b)),
    }
}

/// Whether two lists of values are equal, which is decided by the first two
/// values that are not.
pub open spec fn list_compared(a: List<Value>, b: List<Value>, total: bool) -> Result<bool, VmError>
    decreases a,
{
    match (a, b) {
        (List::Nil, List::Nil) => Ok(true),
        (List::Cons(x, xs), List::Cons(y, ys)) => match compared(*x, *y, total) {
            Ok(true) => list_compared(*xs, *ys, total),
            r => r,
        },
        _ => Ok(false),
    }
}

/// Whether the fields of two objects are equal, which is decided by the first two
/// fields that are not.
pub open spec fn fields_compared(a: List<Field>, b: List<Field>, total: bool) -> Result<
    bool,
    VmError,
>
    decreases a,
{
    match (a, b) {
        (List::Nil, List::Nil) => Ok(true),
        (List::Cons(x, xs), List::Cons(y, ys)) => if x.name@ != y.name@ {
            Ok(false)
        } else {
            match compared(x.value, y.value, total) {
                Ok(true) => fields_compared(*xs, *ys, total),
                r => r,
            }
        },
        _ => Ok(false),
    }
}

/// The key that a value is.
pub open spec fn key_of(value: Value) -> Result<KeyView, VmError>
    decreases value,
{
    match value {
        Value::Unit => Ok(KeyView::Unit),
        Value::Bool(x) => Ok(KeyView::Bool(x)),
        Value::Byte(x) => Ok(KeyView::Byte(x)),
        Value::Char(x) => Ok(KeyView::Char(x)),
        Value::Integer(x) => Ok(KeyView::Integer(x)),
        Value::String(x) => Ok(KeyView::String(x@)),
        Value::Vec(x) => match keys_of(x) {
            Ok(keys) => Ok(KeyView::Vec(keys)),
            Err(e) => Err(e),
        },
        Value::Tuple(x) => match keys_of(x) {
            Ok(keys) => Ok(KeyView::Tuple(keys)),
            Err(e) => Err(e),
        },
        Value::Option(None) => Ok(KeyView::Option(None)),
        Value::Option(Some(x)) => match key_of(*x) {
            Ok(key) => Ok(KeyView::Option(Some(Box::new(key)))),
            Err(e) => Err(e),
        },
        _ => Err(VmError::KeyNotSupported { actual: value_type(value) }),
    }
}

/// The keys that values are.
pub open spec fn keys_of(values: List<Value>) -> Result<List<KeyView>, VmError>
    decreases values,
{
    match values {
        List::Nil => Ok(List::Nil),
        List::Cons(head, tail) => match key_of(*head) {
            Err(e) => Err(e),
            Ok(key) => match keys_of(*tail) {
                Err(e) => Err(e),
                Ok(keys) => Ok(List::Cons(Box::new(key), Box::new(keys))),
            },
        },
    }
}

/// A length as a machine integer, which is the largest one if it is longer.
pub open spec fn clamped(n: nat) -> usize {
    if n >= usize::MAX {
        usize::MAX
    } else {
        n as usize
    }
}

/// The key and the value that a tuple of the two is.
pub open spec fn pair_of(value: Value) -> Result<(KeyView, Value), VmError> {
    match value {
        Value::Tuple(values) => if values@.len() == 2 {
            match key_of(values@[0]) {
                Ok(key) => Ok((key, values@[1])),
                Err(e) => Err(e),
            }
        } else {
            Err(VmError::ExpectedTupleLength { actual: clamped(values@.len()), expected: 2 })
        },
        Value::Unit => Err(VmError::ExpectedTupleLength { actual: 0, expected: 2 }),
        _ => Err(VmError::Expected { expected: tuple_type(), actual: value_type(value) }),
    }
}

/// A field as a tuple of its name and its value.
pub open spec fn field_pair(field: Field) -> Value {
    Value::Tuple(
        List::Cons(
            Box::new(Value::String(field.name)),
            Box::new(List::Cons(Box::new(field.value), Box::new(List::Nil))),
        ),
    )
}

/// What is iterated over.
pub open spec fn iterated(value: Value) -> Result<Seq<Result<Value, VmError>>, VmError> {
    match value {
        Value::Vec(values) => Ok(values@.map_values(|v: Value| Ok::<Value, VmError>(v))),
        Value::Object(fields) => Ok(
            fields@.map_values(|f: Field| Ok::<Value, VmError>(field_pair(f))),
        ),
        Value::Iterator(it) => Ok(it.items@),
        _ => Err(
            VmError::MissingProtocolFunction { protocol: "INTO_ITER", instance: value_type(value) },
        ),
    }
}

impl Number {
    /// Copy the number.
    pub fn copy(&self) -> (number: Self)
        ensures
            number == *self,
    {
        Number { value: self.value, text: self.text.clone() }
    }
}

impl Key {
    /// Copy the key.
    pub fn copy(&self) -> (key: Self)
        ensures
            key == *self,
        decreases self,
    {
        match self {
            Key::Unit => Key::Unit,
            Key::Bool(x) => Key::Bool(*x),
            Key::Byte(x) => Key::Byte(*x),
            Key::Char(x) => Key::Char(*x),
            Key::Integer(x) => Key::Integer(*x),
            Key::String(x) => Key::String(x.clone()),
            Key::Vec(x) => Key::Vec(copy_keys(x)),
            Key::Tuple(x) => Key::Tuple(copy_keys(x)),
            Key::Option(None) => Key::Option(None),
            Key::Option(Some(x)) => Key::Option(Some(Box::new(x.copy()))),
        }
    }

    /// Test if two keys are the same.
    pub fn same(&self, other: &Key) -> (r: bool)
        ensures
            r == (self@ == other@),
        decreases self,
    {
        match (self, other) {
            (Key::Unit, Key::Unit) => true,
            (Key::Bool(x), Key::Bool(y)) => *x == *y,
            (Key::Byte(x), Key::Byte(y)) => *x == *y,
            (Key::Char(x), Key::Char(y)) => *x == *y,
            (Key::Integer(x), Key::Integer(y)) => *x == *y,
            (Key::String(x), Key::String(y)) => *x == *y,
            (Key::Vec(x), Key::Vec(y)) => same_keys(x, y),
            (Key::Tuple(x), Key::Tuple(y)) => same_keys(x, y),
            (Key::Option(None), Key::Option(None)) => true,
            (Key::Option(Some(x)), Key::Option(Some(y))) => x.same(y),
            _ => false,
        }
    }

    /// Convert a value into a key.
    pub fn from_value(value: &Value) -> (r: Result<Key, VmError>)
        ensures
            match r {
                Ok(key) => key_of(*value) == Ok::<KeyView, VmError>(key@),
                Err(e) => key_of(*value) == Err::<KeyView, VmError>(e),
            },
        decreases value,
    {
        match value {
            Value::Unit => Ok(Key::Unit),
            Value::Bool(x) => Ok(Key::Bool(*x)),
            Value::Byte(x) => Ok(Key::Byte(*x)),
            Value::Char(x) => Ok(Key::Char(*x)),
            Value::Integer(x) => Ok(Key::Integer(*x)),
            Value::String(x) => Ok(Key::String(x.clone())),
            Value::Vec(x) => Ok(Key::Vec(to_keys(x)?)),
            Value::Tuple(x) => Ok(Key::Tuple(to_keys(x)?)),
            Value::Option(None) => Ok(Key::Option(None)),
            Value::Option(Some(x)) => Ok(Key::Option(Some(Box::new(Key::from_value(x)?)))),
            _ => Err(VmError::KeyNotSupported { actual: value.type_info() }),
        }
    }

    /// Convert a key into a value.
    pub fn to_value(&self) -> (value: Value)
        ensures
            key_of(value) == Ok::<KeyView, VmError>(self@),
        decreases self,
    {
        match self {
            Key::Unit => Value::Unit,
            Key::Bool(x) => Value::Bool(*x),
            Key::Byte(x) => Value::Byte(*x),
            Key::Char(x) => Value::Char(*x),
            Key::Integer(x) => Value::Integer(*x),
            Key::String(x) => Value::String(x.clone()),
            Key::Vec(x) => Value::Vec(to_values(x)),
            Key::Tuple(x) => Value::Tuple(to_values(x)),
            Key::Option(None) => Value::Option(None),
            Key::Option(Some(x)) => Value::Option(Some(Box::new(x.to_value()))),
        }
    }
}

/// Copy keys.
fn copy_keys(keys: &List<Key>) -> (r: List<Key>)
    ensures
        r == *keys,
    decreases keys,
{
    match keys {
        List::Nil => List::Nil,
        List::Cons(head, tail) => List::Cons(Box::new(head.copy()), Box::new(copy_keys(tail))),
    }
}

/// Test if keys are the same, one after the other.
fn same_keys(a: &List<Key>, b: &List<Key>) -> (r: bool)
    ensures
        r == (keys_view(*a) == keys_view(*b)),
    decreases a,
{
    match (a, b) {
        (List::Nil, List::Nil) => true,
        (List::Cons(x, xs), List::Cons(y, ys)) => x.same(y) && same_keys(xs, ys),
        _ => false,
    }
}

/// Convert values into keys.
fn to_keys(values: &List<Value>) -> (r: Result<List<Key>, VmError>)
    ensures
        match r {
            Ok(keys) => keys_of(*values) == Ok::<List<KeyView>, VmError>(keys_view(keys)),
            Err(e) => keys_of(*values) == Err::<List<KeyView>, VmError>(e),
        },
    decreases values,
{
    match values {
        List::Nil => Ok(List::Nil),
        List::Cons(head, tail) => {
            let key = Key::from_value(head)?;
            let keys = to_keys(tail)?;
            Ok(List::Cons(Box::new(key), Box::new(keys)))
        },
    }
}

/// Convert keys into values.
fn to_values(keys: &List<Key>) -> (values: List<Value>)
    ensures
        keys_of(values) == Ok::<List<KeyView>, VmError>(keys_view(*keys)),
    decreases keys,
{
    match keys {
        List::Nil => List::Nil,
        List::Cons(head, tail) => List::Cons(
            Box::new(head.to_value()),
            Box::new(to_values(tail)),
        ),
    }
}

impl VmError {
    /// Copy the error.
    pub fn copy(&self) -> (e: Self)
        ensures
            e == *self,
    {
        match self {
            VmError::MissingIndexKey { target, index } => VmError::MissingIndexKey {
                target: *target,
                index: index.copy(),
            },
            VmError::UnsupportedBinaryOperation { op, lhs, rhs } =>
                VmError::UnsupportedBinaryOperation { op: *op, lhs: *lhs, rhs: *rhs },
            VmError::IllegalFloatComparison { lhs, rhs } => VmError::IllegalFloatComparison {
                lhs: *lhs,
                rhs: *rhs,
            },
            VmError::MissingProtocolFunction { protocol, instance } =>
                VmError::MissingProtocolFunction { protocol: *protocol, instance: *instance },
            VmError::Expected { expected, actual } => VmError::Expected {
                expected: *expected,
                actual: *actual,
            },
            VmError::ExpectedTupleLength { actual, expected } => VmError::ExpectedTupleLength {
                actual: *actual,
                expected: *expected,
            },
            VmError::KeyNotSupported { actual } => VmError::KeyNotSupported { actual: *actual },
            VmError::Panic { reason } => VmError::Panic { reason: reason.clone() },
            VmError::Halted { halt } => VmError::Halted { halt: *halt },
        }
    }
}

/// Copy values.
fn copy_values(values: &List<Value>) -> (r: List<Value>)
    ensures
        r == *values,
    decreases values,
{
    match values {
        List::Nil => List::Nil,
        List::Cons(head, tail) => List::Cons(Box::new(head.copy()), Box::new(copy_values(tail))),
    }
}

/// Copy the fields of an object.
fn copy_fields(fields: &List<Field>) -> (r: List<Field>)
    ensures
        r == *fields,
    decreases fields,
{
    match fields {
        List::Nil => List::Nil,
        List::Cons(head, tail) => {
            let field = Field { name: head.name.clone(), value: head.value.copy() };
            List::Cons(Box::new(field), Box::new(copy_fields(tail)))
        },
    }
}

/// Copy what an iterator gives.
fn copy_items(items: &List<Result<Value, VmError>>) -> (r: List<Result<Value, VmError>>)
    ensures
        r == *items,
    decreases items,
{
    match items {
        List::Nil => List::Nil,
        List::Cons(head, tail) => {
            let head = match &**head {
                Ok(value) => Ok(value.copy()),
                Err(e) => Err(e.copy()),
            };
            List::Cons(Box::new(head), Box::new(copy_items(tail)))
        },
    }
}

/// The type of tuples.
fn tuple_type_info() -> (info: TypeInfo)
    ensures
        info == tuple_type(),
{
    TypeInfo { hash: Hash64(TUPLE_HASH), name: "::std::tuple::Tuple" }
}

/// Test if a number is not a number.
fn float_is_nan(x: Float) -> (r: bool)
    ensures
        r == is_nan(x),
{
    x.bits % 0x8000_0000_0000_0000 > 0x7ff0_0000_0000_0000
}

/// Test if two numbers are equal.
fn float_eq(a: Float, b: Float) -> (r: bool)
    ensures
        r == float_equal(a, b),
{
    !float_is_nan(a) && !float_is_nan(b) && (a.bits == b.bits || (a.bits % 0x8000_0000_0000_0000
        == 0 && b.bits % 0x8000_0000_0000_0000 == 0))
}

/// Compare lists of values.
fn compare_lists(a: &List<Value>, b: &List<Value>, total: bool) -> (r: Result<bool, VmError>)
    ensures
        r == list_compared(*a, *b, total),
    decreases a,
{
    match (a, b) {
        (List::Nil, List::Nil) => Ok(true),
        (List::Cons(x, xs), List::Cons(y, ys)) => match x.compare(y, total) {
            Ok(true) => compare_lists(xs, ys, total),
            r => r,
        },
        _ => Ok(false),
    }
}

/// Compare the fields of two objects.
fn compare_fields(a: &List<Field>, b: &List<Field>, total: bool) -> (r: Result<bool, VmError>)
    ensures
        r == fields_compared(*a, *b, total),
    decreases a,
{
    match (a, b) {
        (List::Nil, List::Nil) => Ok(true),
        (List::Cons(x, xs), List::Cons(y, ys)) => {
            if x.name != y.name {
                return Ok(false);
            }
            match x.value.compare(&y.value, total) {
                Ok(true) => compare_fields(xs, ys, total),
                r => r,
            }
        },
        _ => Ok(false),
    }
}

impl Value {
    /// Copy the value.
    pub fn copy(&self) -> (value: Self)
        ensures
            value == *self,
        decreases self,
    {
        match self {
            Value::Unit => Value::Unit,
            Value::Bool(x) => Value::Bool(*x),
            Value::Byte(x) => Value::Byte(*x),
            Value::Char(x) => Value::Char(*x),
            Value::Integer(x) => Value::Integer(*x),
            Value::Float(x) => Value::Float(x.copy()),
            Value::String(x) => Value::String(x.clone()),
            Value::Vec(x) => Value::Vec(copy_values(x)),
            Value::Tuple(x) => Value::Tuple(copy_values(x)),
            Value::Object(x) => Value::Object(copy_fields(x)),
            Value::Option(None) => Value::Option(None),
            Value::Option(Some(x)) => Value::Option(Some(Box::new(x.copy()))),
            Value::Iterator(it) => Value::Iterator(
                Box::new(ValueIterator { name: it.name, items: copy_items(&it.items) }),
            ),
        }
    }

    /// The type of the value.
    pub fn type_info(&self) -> (info: TypeInfo)
        ensures
            info == value_type(*self),
    {
        match self {
            Value::Unit => tuple_type_info(),
            Value::Bool(_) => TypeInfo { hash: Hash64(BOOL_HASH), name: "::std::bool" },
            Value::Byte(_) => TypeInfo { hash: Hash64(BYTE_HASH), name: "::std::byte" },
            Value::Char(_) => TypeInfo { hash: Hash64(CHAR_HASH), name: "::std::char" },
            Value::Integer(_) => TypeInfo { hash: Hash64(INTEGER_HASH), name: "::std::int" },
            Value::Float(_) => TypeInfo { hash: Hash64(FLOAT_HASH), name: "::std::float" },
            Value::String(_) => TypeInfo {
                hash: Hash64(STRING_HASH),
                name: "::std::string::String",
            },
            Value::Vec(_) => TypeInfo { hash: Hash64(VEC_HASH), name: "::std::vec::Vec" },
            Value::Tuple(_) => tuple_type_info(),
            Value::Object(_) => TypeInfo {
                hash: Hash64(OBJECT_HASH),
                name: "::std::object::Object",
            },
            Value::Option(_) => TypeInfo {
                hash: Hash64(OPTION_HASH),
                name: "::std::option::Option",
            },
            Value::Iterator(_) => TypeInfo {
                hash: Hash64(ITERATOR_HASH),
                name: "::std::iter::Iterator",
            },
        }
    }

    /// Compare two values.
    fn compare(&self, other: &Value, total: bool) -> (r: Result<bool, VmError>)
        ensures
            r == compared(*self, *other, total),
        decreases self,
    {
        match (self, other) {
            (Value::Unit, Value::Unit) => Ok(true),
            (Value::Bool(x), Value::Bool(y)) => Ok(*x == *y),
            (Value::Byte(x), Value::Byte(y)) => Ok(*x == *y),
            (Value::Char(x), Value::Char(y)) => Ok(*x == *y),
            (Value::Integer(x), Value::Integer(y)) => Ok(*x == *y),
            (Value::Float(x), Value::Float(y)) => {
                if total && (float_is_nan(x.value) || float_is_nan(y.value)) {
                    Err(VmError::IllegalFloatComparison { lhs: x.value, rhs: y.value })
                } else {
                    Ok(float_eq(x.value, y.value))
                }
            },
            (Value::String(x), Value::String(y)) => Ok(*x == *y),
            (Value::Vec(x), Value::Vec(y)) => compare_lists(x, y, total),
            (Value::Tuple(x), Value::Tuple(y)) => compare_lists(x, y, total),
            (Value::Object(x), Value::Object(y)) => compare_fields(x, y, total),
            (Value::Option(None), Value::Option(None)) => Ok(true),
            (Value::Option(Some(x)), Value::Option(Some(y))) => x.compare(y, total),
            (Value::Option(_), Value::Option(_)) => Ok(false),
            _ => Err(
                VmError::UnsupportedBinaryOperation {
                    op: "==",
                    lhs: self.type_info(),
                    rhs: other.type_info(),
                },
            ),
        }
    }

    /// Test if two values are equal. A number that is not a number is not equal
    /// to any.
    pub fn partial_eq(&self, other: &Value) -> (r: Result<bool, VmError>)
        ensures
            r == compared(*self, *other, false),
    {
        self.compare(other, false)
    }

    /// Test if two values are equal. A number that is not a number is an error.
    pub fn eq(&self, other: &Value) -> (r: Result<bool, VmError>)
        ensures
            r == compared(*self, *other, true),
    {
        self.compare(other, true)
    }

    /// Convert a value into a key and a value.
    pub fn into_pair(self) -> (r: Result<(Key, Value), VmError>)
        ensures
            match r {
                Ok((key, value)) => pair_of(self) == Ok::<(KeyView, Value), VmError>((key@, value)),
                Err(e) => pair_of(self) == Err::<(KeyView, Value), VmError>(e),
            },
    {
        let values = match self {
            Value::Tuple(values) => values,
            Value::Unit => return Err(
                VmError::ExpectedTupleLength { actual: 0, expected: 2 },
            ),
            value => return Err(
                VmError::Expected { expected: tuple_type_info(), actual: value.type_info() },
            ),
        };
        let actual: usize = count(&values);

        proof {
            reveal_with_fuel(crate::list::elements, 3);
        }

        match values {
            List::Cons(first, rest) => match *rest {
                List::Cons(second, rest) => match *rest {
                    List::Nil => {
                        let key = Key::from_value(&first)?;
                        Ok((key, *second))
                    },
                    _ => Err(VmError::ExpectedTupleLength { actual, expected: 2 }),
                },
                _ => Err(VmError::ExpectedTupleLength { actual, expected: 2 }),
            },
            _ => Err(VmError::ExpectedTupleLength { actual, expected: 2 }),
        }
    }

    /// Iterate over a value.
    pub fn into_iter(self) -> (r: Result<ValueIterator, VmError>)
        ensures
            match r {
                Ok(it) => iterated(self) == Ok::<Seq<Result<Value, VmError>>, VmError>(it.items@),
                Err(e) => iterated(self) == Err::<Seq<Result<Value, VmError>>, VmError>(e),
            },
    {
        match self {
            Value::Vec(values) => Ok(
                ValueIterator { name: "std::vec::Iter", items: to_items(values) },
            ),
            Value::Object(fields) => Ok(
                ValueIterator { name: "std::object::Iter", items: to_pairs(fields) },
            ),
            Value::Iterator(it) => Ok(*it),
            value => Err(
                VmError::MissingProtocolFunction {
                    protocol: "INTO_ITER",
                    instance: value.type_info(),
                },
            ),
        }
    }
}

/// Count values.
fn count(values: &List<Value>) -> (n: usize)
    ensures
        n == clamped(values@.len()),
    decreases values,
{
    match values {
        List::Nil => 0,
        List::Cons(_, tail) => {
            let n: usize = count(tail);
            if n == usize::MAX {
                n
            } else {
                n + 1
            }
        },
    }
}

/// Values as what an iterator gives.
fn to_items(values: List<Value>) -> (items: List<Result<Value, VmError>>)
    ensures
        items@ == values@.map_values(|v: Value| Ok::<Value, VmError>(v)),
    decreases values,
{
    let ghost wrap = |v: Value| Ok::<Value, VmError>(v);
    match values {
        List::Nil => {
            let items = List::Nil;
            assert(items@ =~= values@.map_values(wrap));
            items
        },
        List::Cons(head, tail) => {
            let ghost rest = tail@;
            let items = List::Cons(Box::new(Ok(*head)), Box::new(to_items(*tail)));
            assert(items@ =~= (seq![*head] + rest).map_values(wrap));
            items
        },
    }
}

/// The fields of an object as what an iterator gives.
fn to_pairs(fields: List<Field>) -> (items: List<Result<Value, VmError>>)
    ensures
        items@ == fields@.map_values(|f: Field| Ok::<Value, VmError>(field_pair(f))),
    decreases fields,
{
    let ghost wrap = |f: Field| Ok::<Value, VmError>(field_pair(f));
    match fields {
        List::Nil => {
            let items = List::Nil;
            assert(items@ =~= fields@.map_values(wrap));
            items
        },
        List::Cons(head, tail) => {
            let ghost field = *head;
            let ghost rest = tail@;
            let Field { name, value } = *head;
            let value = List::Cons(Box::new(value), Box::new(List::Nil));
            let pair = Value::Tuple(List::Cons(Box::new(Value::String(name)), Box::new(value)));
            let items = List::Cons(Box::new(Ok(pair)), Box::new(to_pairs(*tail)));
            assert(items@ =~= (seq![field] + rest).map_values(wrap));
            items
        },
    }
}

impl ValueIterator {
    /// Construct an iterator.
    pub fn from(name: &'static str, items: Vec<Value>) -> (it: Self)
        ensures
            it.name == name,
            it.items@ == items@.map_values(|v: Value| Ok::<Value, VmError>(v)),
    {
        ValueIterator { name, items: to_items(List::from_vec(items)) }
    }

    /// Get the next value.
    pub fn next(self) -> (r: (Result<Option<Value>, VmError>, Self))
        ensures
            match r.0 {
                Ok(None) => self.items@.len() == 0 && r.1.items@ == self.items@,
                Ok(Some(value)) => self.items@.len() > 0 && self.items@[0] == Ok::<Value, VmError>(
                    value,
                ) && r.1.items@ == self.items@.skip(1),
                Err(e) => self.items@.len() > 0 && self.items@[0] == Err::<Value, VmError>(e)
                    && r.1.items@ == self.items@.skip(1),
            },
            r.1.name == self.name,
    {
        match self.items {
            List::Nil => (Ok(None), ValueIterator { name: self.name, items: List::Nil }),
            List::Cons(head, tail) => {
                proof {
                    assert(self.items@.skip(1) =~= tail@);
                }
                let rest = ValueIterator { name: self.name, items: *tail };
                match *head {
                    Ok(value) => (Ok(Some(value)), rest),
                    Err(e) => (Err(e), rest),
                }
            },
        }
    }
}

/// If it is not an error to compare two values totally, then comparing them
/// partially gives the same.
pub proof fn lemma_total(a: Value, b: Value)
    ensures
        compared(a, b, true) is Ok ==> compared(a, b, false) == compared(a, b, true),
    decreases a,
{
    match (a, b) {
        (Value::Vec(x), Value::Vec(y)) => lemma_total_lists(x, y),
        (Value::Tuple(x), Value::Tuple(y)) => lemma_total_lists(x, y),
        (Value::Object(x), Value::Object(y)) => lemma_total_fields(x, y),
        (Value::Option(Some(x)), Value::Option(Some(y))) => lemma_total(*x, *y),
        _ => {},
    }
}

/// If it is not an error to compare two lists totally, then comparing them
/// partially gives the same.
proof fn lemma_total_lists(a: List<Value>, b: List<Value>)
    ensures
        list_compared(a, b, true) is Ok ==> list_compared(a, b, false) == list_compared(a, b, true),
    decreases a,
{
    if let (List::Cons(x, xs), List::Cons(y, ys)) = (a, b) {
        lemma_total(*x, *y);
        lemma_total_lists(*xs, *ys);
    }
}

/// If it is not an error to compare the fields of two objects totally, then
/// comparing them partially gives the same.
proof fn lemma_total_fields(a: List<Field>, b: List<Field>)
    ensures
        fields_compared(a, b, true) is Ok ==> fields_compared(a, b, false) == fields_compared(
            a,
            b,
            true,
        ),
    decreases a,
{
    if let (List::Cons(x, xs), List::Cons(y, ys)) = (a, b) {
        lemma_total(x.value, y.value);
        lemma_total_fields(*xs, *ys);
    }
}

/// If it is not an error to compare two values, then comparing them the other
/// way round gives the same.
pub proof fn lemma_symmetric(a: Value, b: Value, total: bool)
    ensures
        compared(a, b, total) is Ok ==> compared(b, a, total) == compared(a, b, total),
    decreases a,
{
    match (a, b) {
        (Value::Vec(x), Value::Vec(y)) => lemma_symmetric_lists(x, y, total),
        (Value::Tuple(x), Value::Tuple(y)) => lemma_symmetric_lists(x, y, total),
        (Value::Object(x), Value::Object(y)) => lemma_symmetric_fields(x, y, total),
        (Value::Option(Some(x)), Value::Option(Some(y))) => lemma_symmetric(*x, *y, total),
        _ => {},
    }
}

/// If it is not an error to compare two lists, then comparing them the other
/// way round gives the same.
proof fn lemma_symmetric_lists(a: List<Value>, b: List<Value>, total: bool)
    ensures
        list_compared(a, b, total) is Ok ==> list_compared(b, a, total) == list_compared(
            a,
            b,
            total,
        ),
    decreases a,
{
    if let (List::Cons(x, xs), List::Cons(y, ys)) = (a, b) {
        lemma_symmetric(*x, *y, total);
        lemma_symmetric_lists(*xs, *ys, total);
    }
}

/// If it is not an error to compare the fields of two objects, then comparing
/// them the other way round gives the same.
proof fn lemma_symmetric_fields(a: List<Field>, b: List<Field>, total: bool)
    ensures
        fields_compared(a, b, total) is Ok ==> fields_compared(b, a, total) == fields_compared(
            a,
            b,
            total,
        ),
    decreases a,
{
    if let (List::Cons(x, xs), List::Cons(y, ys)) = (a, b) {
        lemma_symmetric(x.value, y.value, total);
        lemma_symmetric_fields(*xs, *ys, total);
    }
}

/// Two values that can be keys are equal exactly if they are the same key.
pub proof fn lemma_key(a: Value, b: Value, total: bool)
    requires
        key_of(a) is Ok,
        key_of(b) is Ok,
    ensures
        compared(a, b, total) == Ok::<bool, VmError>(true) <==> key_of(a) == key_of(b),
    decreases a,
{
    match (a, b) {
        (Value::Vec(x), Value::Vec(y)) => lemma_keys(x, y, total),
        (Value::Tuple(x), Value::Tuple(y)) => lemma_keys(x, y, total),
        (Value::Option(Some(x)), Value::Option(Some(y))) => lemma_key(*x, *y, total),
        _ => {},
    }
}

/// Two lists of values that can be keys are equal exactly if they are the same
/// keys.
proof fn lemma_keys(a: List<Value>, b: List<Value>, total: bool)
    requires
        keys_of(a) is Ok,
        keys_of(b) is Ok,
    ensures
        list_compared(a, b, total) == Ok::<bool, VmError>(true) <==> keys_of(a) == keys_of(b),
    decreases a,
{
    if let (List::Cons(x, xs), List::Cons(y, ys)) = (a, b) {
        lemma_key(*x, *y, total);
        lemma_keys(*xs, *ys, total);
    }
}

} // verus!
