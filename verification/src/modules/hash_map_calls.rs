//! What the native functions of hash maps do when they are called.

use vstd::prelude::*;
use crate::module::FunctionHandler;
use crate::modules::hash_map::{
    clone, equals, extended, from, is_key, is_order, lists_entries, shown_entries, HashMap,
};
use crate::runtime::value::{iterated, KeyView};
use crate::runtime::{Key, TypeOf, Value, ValueIterator, VmError};

verus! {

/// The number of [`HashMap::new`].
pub const NEW: u64 = 0;

/// The number of [`HashMap::with_capacity`].
pub const WITH_CAPACITY: u64 = 1;

/// The number of [`HashMap::len`].
pub const LEN: u64 = 2;

/// The number of [`HashMap::insert`].
pub const INSERT: u64 = 3;

/// The number of [`HashMap::get`].
pub const GET: u64 = 4;

/// The number of [`HashMap::contains_key`].
pub const CONTAINS_KEY: u64 = 5;

/// The number of [`HashMap::remove`].
pub const REMOVE: u64 = 6;

/// The number of [`HashMap::clear`].
pub const CLEAR: u64 = 7;

/// The number of [`HashMap::is_empty`].
pub const IS_EMPTY: u64 = 8;

/// The number of [`HashMap::iter`].
pub const ITER: u64 = 9;

/// The number of [`HashMap::keys`].
pub const KEYS: u64 = 10;

/// The number of [`HashMap::values`].
pub const VALUES: u64 = 11;

/// The number of [`HashMap::extend`].
pub const EXTEND: u64 = 12;

/// The number of [`from`].
pub const FROM: u64 = 13;

/// The number of [`clone`].
pub const CLONE: u64 = 14;

/// The number of [`HashMap::index_set`].
pub const INDEX_SET: u64 = 15;

/// The number of [`HashMap::index_get`].
pub const INDEX_GET: u64 = 16;

/// The number of [`HashMap::string_debug`].
pub const STRING_DEBUG: u64 = 17;

/// The number of [`HashMap::partial_eq`].
pub const PARTIAL_EQ: u64 = 18;

/// The number of [`HashMap::eq`].
pub const EQ: u64 = 19;

/// The number of [`HashMap::capacity`].
pub const CAPACITY: u64 = 20;

/// What a function takes beside the map that it is called on.
#[derive(Debug)]
pub enum Operands {
    /// Nothing.
    Nothing,
    /// A number of entries.
    Size(usize),
    /// A key.
    Key(Key),
    /// A key and a value.
    Entry(Key, Value),
    /// A value.
    Value(Value),
    /// A map.
    HashMap(HashMap),
    /// A text.
    Text(String),
}

/// What a function gives.
#[derive(Debug)]
pub enum Returned {
    /// Nothing.
    Unit,
    /// A number of entries.
    Size(usize),
    /// Whether something holds.
    Bool(bool),
    /// A value that can be missing.
    Optional(Option<Value>),
    /// A value.
    Value(Value),
    /// An iterator.
    Iterator(ValueIterator),
    /// A map.
    HashMap(HashMap),
    /// A text.
    Text(String),
}

/// The value of a key, if the map has it.
pub open spec fn looked_up(map: HashMap, key: Key) -> Option<Value> {
    if map@.contains_key(key@) {
        Some(map@[key@])
    } else {
        None
    }
}

/// Test if an iterator gives the keys of a map.
pub open spec fn lists_keys(it: ValueIterator, map: HashMap) -> bool {
    exists|order: Seq<KeyView>| #[trigger]
        is_order(order, map@) && it.items@.len() == order.len() && forall|i: int|
            0 <= i < order.len() ==> is_key(#[trigger] it.items@[i], order[i])
}

/// Test if an iterator gives the values of a map.
pub open spec fn lists_values(it: ValueIterator, map: HashMap) -> bool {
    exists|order: Seq<KeyView>| #[trigger]
        is_order(order, map@) && it.items@.len() == order.len() && forall|i: int|
            0 <= i < order.len() ==> #[trigger] it.items@[i] == Ok::<Value, VmError>(
                map@[order[i]],
            )
}

/// Test if a text is another one with a map behind it.
pub open spec fn shows(before: Seq<char>, map: HashMap, after: Seq<char>) -> bool {
    exists|order: Seq<KeyView>| #[trigger]
        is_order(order, map@) && after == before + "{"@ + shown_entries(
            order,
            map@,
            order.len(),
        ) + "}"@
}

/// What a function without operands does, if the number is that of one.
pub open spec fn called_alone(
    handler: u64,
    before: HashMap,
    after: HashMap,
    r: Option<Returned>,
) -> bool {
    if handler == CLEAR {
        &&& after@ == Map::<KeyView, Value>::empty()
        &&& after.holds() == before.holds()
        &&& r == Some(Returned::Unit)
    } else {
        &&& after == before
        &&& if handler == NEW {
            r matches Some(Returned::HashMap(map)) && map@ == Map::<KeyView, Value>::empty()
                && map.holds() == 0
        } else if handler == LEN {
            r matches Some(Returned::Size(n)) && n == before@.len()
        } else if handler == CAPACITY {
            r matches Some(Returned::Size(n)) && n == before.holds() && n >= before@.len()
        } else if handler == IS_EMPTY {
            r == Some(Returned::Bool(before@ == Map::<KeyView, Value>::empty()))
        } else if handler == ITER {
            r matches Some(Returned::Iterator(it)) && it.name == "std::collections::map::Iter"
                && lists_entries(it.items@, before@)
        } else if handler == KEYS {
            r matches Some(Returned::Iterator(it)) && it.name == "std::collections::map::Keys"
                && lists_keys(it, before)
        } else if handler == VALUES {
            r matches Some(Returned::Iterator(it)) && it.name == "std::collections::map::Values"
                && lists_values(it, before)
        } else if handler == CLONE {
            r matches Some(Returned::HashMap(map)) && map@ == before@
        } else {
            r is None
        }
    }
}

/// What a function of a key does, if the number is that of one.
pub open spec fn called_with_key(
    handler: u64,
    key: Key,
    before: HashMap,
    after: HashMap,
    r: Option<Result<Returned, VmError>>,
) -> bool {
    if handler == REMOVE {
        &&& after@ == before@.remove(key@)
        &&& after.holds() == before.holds()
        &&& r == Some(Ok::<Returned, VmError>(Returned::Optional(looked_up(before, key))))
    } else {
        &&& after == before
        &&& r == (if handler == GET {
            Some(Ok::<Returned, VmError>(Returned::Optional(looked_up(before, key))))
        } else if handler == CONTAINS_KEY {
            Some(Ok(Returned::Bool(before@.contains_key(key@))))
        } else if handler == INDEX_GET {
            match looked_up(before, key) {
                Some(value) => Some(Ok(Returned::Value(value))),
                None => Some(
                    Err(
                        VmError::MissingIndexKey {
                            target: <HashMap as TypeOf>::info(),
                            index: key,
                        },
                    ),
                ),
            }
        } else {
            None
        })
    }
}

/// What a function of a key and a value does, if the number is that of one.
pub open spec fn called_with_entry(
    handler: u64,
    key: Key,
    value: Value,
    before: HashMap,
    after: HashMap,
    r: Option<Returned>,
) -> bool {
    if handler == INSERT || handler == INDEX_SET {
        &&& after@ == before@.insert(key@, value)
        &&& after.holds() >= before.holds()
        &&& r == Some(
            if handler == INSERT {
                Returned::Optional(looked_up(before, key))
            } else {
                Returned::Unit
            },
        )
    } else {
        after == before && r is None
    }
}

/// What a function of a value does, if the number is that of one.
pub open spec fn called_with_value(
    handler: u64,
    value: Value,
    before: HashMap,
    after: HashMap,
    r: Option<Result<Returned, VmError>>,
) -> bool {
    if handler == EXTEND {
        &&& after.holds() >= before.holds()
        &&& match iterated(value) {
            Ok(items) => {
                let (map, done) = extended(before@, items, 0);
                after@ == map && r == Some(
                    match done {
                        Ok(_) => Ok::<Returned, VmError>(Returned::Unit),
                        Err(e) => Err(e),
                    },
                )
            },
            Err(e) => after@ == before@ && r == Some(Err::<Returned, VmError>(e)),
        }
    } else {
        &&& after == before
        &&& if handler == FROM {
            match iterated(value) {
                Ok(items) => {
                    let (map, done) = extended(Map::empty(), items, 0);
                    match done {
                        Ok(_) => r matches Some(Ok(Returned::HashMap(made))) && made@ == map,
                        Err(e) => r == Some(Err::<Returned, VmError>(e)),
                    }
                },
                Err(e) => r == Some(Err::<Returned, VmError>(e)),
            }
        } else {
            r is None
        }
    }
}

/// What a function of another map does, if the number is that of one.
pub open spec fn called_with_map(
    handler: u64,
    map: HashMap,
    other: HashMap,
    r: Option<Result<Returned, VmError>>,
) -> bool {
    if handler == PARTIAL_EQ || handler == EQ {
        match r {
            Some(Ok(Returned::Bool(equal))) => equals(map@, other@, handler == EQ, Ok(equal)),
            Some(Err(e)) => equals(map@, other@, handler == EQ, Err(e)),
            _ => false,
        }
    } else {
        r is None
    }
}

/// Test if this is what the function of the given number does to a map, and what
/// it gives. There is nothing if no function of that number takes such operands.
pub open spec fn called(
    handler: u64,
    operands: Operands,
    before: HashMap,
    after: HashMap,
    r: Option<Result<Returned, VmError>>,
) -> bool {
    match operands {
        Operands::Nothing => match r {
            Some(Ok(returned)) => called_alone(handler, before, after, Some(returned)),
            Some(Err(_)) => false,
            None => called_alone(handler, before, after, None),
        },
        Operands::Size(n) => after == before && if handler == WITH_CAPACITY {
            r matches Some(Ok(Returned::HashMap(map))) && map@ == Map::<KeyView, Value>::empty()
                && map.holds() == n
        } else {
            r is None
        },
        Operands::Key(key) => called_with_key(handler, key, before, after, r),
        Operands::Entry(key, value) => match r {
            Some(Ok(returned)) => called_with_entry(
                handler,
                key,
                value,
                before,
                after,
                Some(returned),
            ),
            Some(Err(_)) => false,
            None => called_with_entry(handler, key, value, before, after, None),
        },
        Operands::Value(value) => called_with_value(handler, value, before, after, r),
        Operands::HashMap(other) => after == before && called_with_map(handler, before, other, r),
        Operands::Text(text) => after == before && if handler == STRING_DEBUG {
            r matches Some(Ok(Returned::Text(shown))) && shows(text@, before, shown@)
        } else {
            r is None
        },
    }
}

/// Call a function without operands.
fn call_alone(handler: u64, map: &mut HashMap) -> (r: Option<Returned>)
    ensures
        called_alone(handler, *old(map), *final(map), r),
{
    if handler == CLEAR {
        map.clear();
        Some(Returned::Unit)
    } else if handler == NEW {
        Some(Returned::HashMap(HashMap::new()))
    } else if handler == LEN {
        Some(Returned::Size(map.len()))
    } else if handler == CAPACITY {
        Some(Returned::Size(map.capacity()))
    } else if handler == IS_EMPTY {
        Some(Returned::Bool(map.is_empty()))
    } else if handler == ITER {
        Some(Returned::Iterator(map.iter()))
    } else if handler == KEYS {
        Some(Returned::Iterator(map.keys()))
    } else if handler == VALUES {
        Some(Returned::Iterator(map.values()))
    } else if handler == CLONE {
        Some(Returned::HashMap(clone(map)))
    } else {
        None
    }
}

/// Call a function of a key.
fn call_with_key(handler: u64, key: Key, map: &mut HashMap) -> (r: Option<
    Result<Returned, VmError>,
>)
    ensures
        called_with_key(handler, key, *old(map), *final(map), r),
{
    if handler == REMOVE {
        Some(Ok(Returned::Optional(map.remove(key))))
    } else if handler == GET {
        Some(Ok(Returned::Optional(map.get(key))))
    } else if handler == CONTAINS_KEY {
        Some(Ok(Returned::Bool(map.contains_key(key))))
    } else if handler == INDEX_GET {
        match map.index_get(key) {
            Ok(value) => Some(Ok(Returned::Value(value))),
            Err(e) => Some(Err(e)),
        }
    } else {
        None
    }
}

/// Call a function of a key and a value.
fn call_with_entry(handler: u64, key: Key, value: Value, map: &mut HashMap) -> (r: Option<Returned>)
    ensures
        called_with_entry(handler, key, value, *old(map), *final(map), r),
{
    if handler == INSERT {
        Some(Returned::Optional(map.insert(key, value)))
    } else if handler == INDEX_SET {
        map.index_set(key, value);
        Some(Returned::Unit)
    } else {
        None
    }
}

/// Call a function of a value.
fn call_with_value(handler: u64, value: Value, map: &mut HashMap) -> (r: Option<
    Result<Returned, VmError>,
>)
    ensures
        called_with_value(handler, value, *old(map), *final(map), r),
{
    if handler == EXTEND {
        match map.extend(value) {
            Ok(_) => Some(Ok(Returned::Unit)),
            Err(e) => Some(Err(e)),
        }
    } else if handler == FROM {
        match from(value) {
            Ok(made) => Some(Ok(Returned::HashMap(made))),
            Err(e) => Some(Err(e)),
        }
    } else {
        None
    }
}

/// Call a function of another map.
fn call_with_map(handler: u64, map: &HashMap, other: &HashMap) -> (r: Option<
    Result<Returned, VmError>,
>)
    ensures
        called_with_map(handler, *map, *other, r),
{
    let r = if handler == PARTIAL_EQ {
        map.partial_eq(other)
    } else if handler == EQ {
        map.eq(other)
    } else {
        return None;
    };

    match r {
        Ok(equal) => Some(Ok(Returned::Bool(equal))),
        Err(e) => Some(Err(e)),
    }
}

/// Call the function that is registered under a number. Functions that make a map
/// leave the one that they are called on alone.
pub fn call(handler: FunctionHandler, operands: Operands, map: &mut HashMap) -> (r: Option<
    Result<Returned, VmError>,
>)
    ensures
        called(handler.0, operands, *old(map), *final(map), r),
{
    match operands {
        Operands::Nothing => match call_alone(handler.0, map) {
            Some(returned) => Some(Ok(returned)),
            None => None,
        },
        Operands::Size(n) => {
            if handler.0 == WITH_CAPACITY {
                Some(Ok(Returned::HashMap(HashMap::with_capacity(n))))
            } else {
                None
            }
        },
        Operands::Key(key) => call_with_key(handler.0, key, map),
        Operands::Entry(key, value) => match call_with_entry(handler.0, key, value, map) {
            Some(returned) => Some(Ok(returned)),
            None => None,
        },
        Operands::Value(value) => call_with_value(handler.0, value, map),
        Operands::HashMap(other) => call_with_map(handler.0, map, &other),
        Operands::Text(text) => {
            if handler.0 == STRING_DEBUG {
                let mut shown = text;
                map.string_debug(&mut shown);
                Some(Ok(Returned::Text(shown)))
            } else {
                None
            }
        },
    }
}

} // verus!
