//! Maps from keys to values.

use vstd::prelude::*;
use vstd::string::*;
use crate::hash::{ident_hash, type_hash, Hash64, EMPTY};
use crate::hash_laws::{
    lemma_eq, lemma_index_get, lemma_index_set, lemma_into_iter, lemma_partial_eq, lemma_string_debug,
};
use crate::item::{ComponentView, ItemBuf};
use crate::list::List;
use crate::module::{
    ContextError, ContextErrorView, FunctionMeta, InstallWith, Module, ModuleState, ModuleType,
    AssociatedKindView, NameView,
};
use crate::modules::hash_map_calls as handlers;
use crate::modules::hash_map_docs as docs;
use crate::modules::native::{
    all_registered, conflicting_type, function, is_documented, is_function, is_protocol_function,
    lemma_all_registered, meta_name, protocol_function, register_all, register_type, result, Argument,
};
use crate::runtime::debug::{shown, shown_key};
use crate::runtime::value::{compared, iterated, key_of, pair_of, KeyView};
use crate::runtime::{
    Key, Named, TypeInfo, TypeOf, Value, ValueIterator, VmError, BOOL_HASH, INTEGER_HASH,
    ITERATOR_HASH, OPTION_HASH, STRING_HASH, TUPLE_HASH,
};

verus! {

/// A map from keys to values.
///
/// The entries stand in a vector: of a map of the standard library nothing is
/// known unless its keys are plain numbers, and these hold texts and lists.
#[derive(Debug)]
pub struct HashMap {
    entries: Vec<(Key, Value)>,
    capacity: usize,
}

/// Test if no key occurs twice.
pub open spec fn distinct(entries: Seq<(Key, Value)>) -> bool {
    forall|i: int, j: int|
        0 <= i < j < entries.len() ==> (#[trigger] entries[i]).0@ != (#[trigger] entries[j]).0@
}

/// The map that is made of entries.
pub open spec fn map_of(entries: Seq<(Key, Value)>) -> Map<KeyView, Value>
    decreases entries.len(),
{
    if entries.len() == 0 {
        Map::empty()
    } else {
        map_of(entries.drop_last()).insert(entries.last().0@, entries.last().1)
    }
}

/// The map holds the keys of its entries and, of each key that does not occur
/// twice, its value. It is as long as the entries.
pub proof fn lemma_map_of(entries: Seq<(Key, Value)>)
    requires
        distinct(entries),
    ensures
        map_of(entries).dom().finite(),
        map_of(entries).len() == entries.len(),
        forall|i: int|
            0 <= i < entries.len() ==> map_of(entries).contains_key((#[trigger] entries[i]).0@)
                && map_of(entries)[entries[i].0@] == entries[i].1,
        forall|key: KeyView| #[trigger]
            map_of(entries).contains_key(key) ==> exists|i: int|
                0 <= i < entries.len() && (#[trigger] entries[i]).0@ == key,
    decreases entries.len(),
{
    if entries.len() > 0 {
        let rest = entries.drop_last();
        let last = entries.last();
        assert forall|i: int, j: int| 0 <= i < j < rest.len() implies (#[trigger] rest[i]).0@ != (
        #[trigger] rest[j]).0@ by {
            assert(entries[i].0@ != entries[j].0@);
        }
        lemma_map_of(rest);
        if map_of(rest).contains_key(last.0@) {
            let i = choose|i: int| 0 <= i < rest.len() && (#[trigger] rest[i]).0@ == last.0@;
            assert(entries[i].0@ != entries[entries.len() - 1].0@);
        }
        assert forall|i: int| 0 <= i < entries.len() implies map_of(entries).contains_key(
            (#[trigger] entries[i]).0@,
        ) && map_of(entries)[entries[i].0@] == entries[i].1 by {
            if i < rest.len() {
                assert(rest[i] == entries[i]);
            }
        }
        assert forall|key: KeyView| #[trigger] map_of(entries).contains_key(key) implies exists|
            i: int,
        |
            0 <= i < entries.len() && (#[trigger] entries[i]).0@ == key by {
            if key == last.0@ {
                assert(entries[entries.len() - 1].0@ == key);
            } else {
                assert(map_of(rest).contains_key(key));
                let i = choose|i: int| 0 <= i < rest.len() && (#[trigger] rest[i]).0@ == key;
                assert(entries[i].0@ == key);
            }
        }
    } else {
        assert(map_of(entries).dom() =~= Set::empty());
    }
}

/// Replacing the value of an entry replaces it in the map.
proof fn lemma_updated(entries: Seq<(Key, Value)>, i: int, value: Value)
    requires
        distinct(entries),
        0 <= i < entries.len(),
    ensures
        distinct(entries.update(i, (entries[i].0, value))),
        map_of(entries.update(i, (entries[i].0, value))) == map_of(entries).insert(
            entries[i].0@,
            value,
        ),
{
    let after = entries.update(i, (entries[i].0, value));
    assert forall|j: int, k: int| 0 <= j < k < after.len() implies (#[trigger] after[j]).0@ != (
    #[trigger] after[k]).0@ by {
        assert(entries[j].0@ != entries[k].0@);
    }
    lemma_map_of(entries);
    lemma_map_of(after);
    let m = map_of(entries).insert(entries[i].0@, value);
    assert forall|key: KeyView| map_of(after).contains_key(key) == #[trigger] m.contains_key(
        key,
    ) by {
        if map_of(after).contains_key(key) {
            let j = choose|j: int| 0 <= j < after.len() && (#[trigger] after[j]).0@ == key;
            assert(map_of(entries).contains_key(entries[j].0@));
        }
        if map_of(entries).contains_key(key) {
            let j = choose|j: int| 0 <= j < entries.len() && (#[trigger] entries[j]).0@ == key;
            assert(map_of(after).contains_key(after[j].0@));
        }
        assert(map_of(after).contains_key(after[i].0@));
    }
    assert forall|key: KeyView| #[trigger] m.contains_key(key) implies map_of(after)[key]
        == m[key] by {
        assert(map_of(after).contains_key(key));
        let j = choose|j: int| 0 <= j < after.len() && (#[trigger] after[j]).0@ == key;
        assert(map_of(after)[after[j].0@] == after[j].1);
        if j != i {
            assert(map_of(entries)[entries[j].0@] == entries[j].1);
            if j < i {
                assert(entries[j].0@ != entries[i].0@);
            } else {
                assert(entries[i].0@ != entries[j].0@);
            }
        }
    }
    assert(map_of(after) =~= m);
}

/// Removing an entry removes its key from the map.
proof fn lemma_removed(entries: Seq<(Key, Value)>, i: int)
    requires
        distinct(entries),
        0 <= i < entries.len(),
    ensures
        distinct(entries.remove(i)),
        map_of(entries.remove(i)) == map_of(entries).remove(entries[i].0@),
{
    let after = entries.remove(i);
    assert forall|j: int, k: int| 0 <= j < k < after.len() implies (#[trigger] after[j]).0@ != (
    #[trigger] after[k]).0@ by {
        let a = if j < i {
            j
        } else {
            j + 1
        };
        let b = if k < i {
            k
        } else {
            k + 1
        };
        assert(entries[a].0@ != entries[b].0@);
    }
    lemma_map_of(entries);
    lemma_map_of(after);
    let m = map_of(entries).remove(entries[i].0@);
    assert forall|key: KeyView| map_of(after).contains_key(key) == #[trigger] m.contains_key(key)
        && (m.contains_key(key) ==> map_of(after)[key] == m[key]) by {
        if map_of(after).contains_key(key) {
            let j = choose|j: int| 0 <= j < after.len() && (#[trigger] after[j]).0@ == key;
            let a = if j < i {
                j
            } else {
                j + 1
            };
            assert(entries[a] == after[j]);
            assert(map_of(entries).contains_key(entries[a].0@));
            if a < i {
                assert(entries[a].0@ != entries[i].0@);
            } else {
                assert(entries[i].0@ != entries[a].0@);
            }
        }
        if m.contains_key(key) {
            assert(map_of(entries).contains_key(key));
            let j = choose|j: int| 0 <= j < entries.len() && (#[trigger] entries[j]).0@ == key;
            let a = if j < i {
                j
            } else {
                j - 1
            };
            assert(after[a] == entries[j]);
            assert(map_of(after).contains_key(after[a].0@));
        }
    }
    assert(map_of(after) =~= m);
}

/// Putting an entry with a new key behind the others puts it into the map.
proof fn lemma_pushed(entries: Seq<(Key, Value)>, entry: (Key, Value))
    requires
        distinct(entries),
        !map_of(entries).contains_key(entry.0@),
    ensures
        distinct(entries.push(entry)),
        map_of(entries.push(entry)) == map_of(entries).insert(entry.0@, entry.1),
{
    let after = entries.push(entry);
    lemma_map_of(entries);
    assert forall|j: int, k: int| 0 <= j < k < after.len() implies (#[trigger] after[j]).0@ != (
    #[trigger] after[k]).0@ by {
        assert(map_of(entries).contains_key(entries[j].0@));
        if k < entries.len() {
            assert(entries[j].0@ != entries[k].0@);
        }
    }
    assert(after.drop_last() =~= entries);
}

impl View for HashMap {
    type V = Map<KeyView, Value>;

    closed spec fn view(&self) -> Map<KeyView, Value> {
        map_of(self.entries@)
    }
}

/// Test if keys are those of a map, each of them once, in any order.
pub open spec fn is_order(order: Seq<KeyView>, map: Map<KeyView, Value>) -> bool {
    order.no_duplicates() && order.to_set() == map.dom()
}

impl HashMap {
    #[verifier::type_invariant]
    spec fn inv(self) -> bool {
        distinct(self.entries@) && self.entries@.len() <= self.capacity
    }

    /// The keys, in the order of the entries.
    closed spec fn order(self) -> Seq<KeyView> {
        self.entries@.map_values(|e: (Key, Value)| e.0@)
    }

    /// Creates an empty map with a capacity of zero.
    pub fn new() -> (map: Self)
        ensures
            map@ == Map::<KeyView, Value>::empty(),
            map.holds() == 0,
    {
        HashMap { entries: Vec::new(), capacity: 0 }
    }

    /// Creates an empty map with at least the specified capacity.
    pub fn with_capacity(capacity: usize) -> (map: Self)
        ensures
            map@ == Map::<KeyView, Value>::empty(),
            map.holds() == capacity,
    {
        HashMap { entries: Vec::new(), capacity }
    }

    /// The number of entries that the map is sure to be able to hold.
    pub closed spec fn holds(self) -> nat {
        self.capacity as nat
    }

    /// The number of entries in the map.
    pub fn len(&self) -> (n: usize)
        ensures
            n == self@.len(),
            self@.dom().finite(),
    {
        proof {
            use_type_invariant(self);
            lemma_map_of(self.entries@);
        }
        self.entries.len()
    }

    /// The number of entries that the map can hold without reallocating, which
    /// is at least the number of those that it holds.
    pub fn capacity(&self) -> (n: usize)
        ensures
            n == self.holds(),
            n >= self@.len(),
    {
        proof {
            use_type_invariant(self);
            lemma_map_of(self.entries@);
        }
        self.capacity
    }

    /// Test if the map holds no entries.
    pub fn is_empty(&self) -> (r: bool)
        ensures
            r == (self@ == Map::<KeyView, Value>::empty()),
    {
        proof {
            use_type_invariant(self);
            lemma_map_of(self.entries@);
            if self.entries@.len() == 0 {
                assert(self@ =~= Map::empty());
            } else {
                assert(self@.contains_key(self.entries@[0].0@));
            }
        }
        self.entries.len() == 0
    }

    /// The index of the entry with a key.
    fn find(&self, key: &Key) -> (r: Option<usize>)
        ensures
            match r {
                Some(i) => i < self.entries@.len() && self.entries@[i as int].0@ == key@
                    && self@.contains_key(key@) && self@[key@] == self.entries@[i as int].1,
                None => !self@.contains_key(key@),
            },
    {
        proof {
            use_type_invariant(self);
            lemma_map_of(self.entries@);
        }
        let mut i: usize = 0;

        while i < self.entries.len()
            invariant
                i <= self.entries@.len(),
                distinct(self.entries@),
                forall|j: int| 0 <= j < i ==> (#[trigger] self.entries@[j]).0@ != key@,
            decreases self.entries@.len() - i,
        {
            if self.entries[i].0.same(key) {
                proof {
                    lemma_map_of(self.entries@);
                }
                return Some(i);
            }

            i += 1;
        }

        None
    }

    /// Inserts a key-value pair. If the map did have the key, the value is
    /// replaced and the old one is returned.
    pub fn insert(&mut self, key: Key, value: Value) -> (r: Option<Value>)
        ensures
            final(self)@ == old(self)@.insert(key@, value),
            r == (if old(self)@.contains_key(key@) {
                Some(old(self)@[key@])
            } else {
                None
            }),
            final(self).holds() >= old(self).holds(),
            final(self).holds() >= final(self)@.len(),
    {
        proof {
            use_type_invariant(&*self);
            lemma_map_of(self.entries@);
        }
        let found = self.find(&key);
        let mut entries: Vec<(Key, Value)> = Vec::new();
        std::mem::swap(&mut entries, &mut self.entries);

        match found {
            Some(i) => {
                proof {
                    lemma_updated(entries@, i as int, value);
                }
                let key = entries[i].0.copy();
                let previous = entries[i].1.copy();
                entries.set(i, (key, value));
                self.entries = entries;
                Some(previous)
            },
            None => {
                proof {
                    lemma_pushed(entries@, (key, value));
                }
                entries.push((key, value));
                if self.capacity < entries.len() {
                    self.capacity = entries.len();
                }
                self.entries = entries;
                None
            },
        }
    }

    /// The value of a key.
    pub fn get(&self, key: Key) -> (r: Option<Value>)
        ensures
            r == (if self@.contains_key(key@) {
                Some(self@[key@])
            } else {
                None
            }),
    {
        match self.find(&key) {
            Some(i) => Some(self.entries[i].1.copy()),
            None => None,
        }
    }

    /// Test if the map has a key.
    pub fn contains_key(&self, key: Key) -> (r: bool)
        ensures
            r == self@.contains_key(key@),
    {
        match self.find(&key) {
            Some(_) => true,
            None => false,
        }
    }

    /// Removes a key. If the map had it, its value is returned.
    pub fn remove(&mut self, key: Key) -> (r: Option<Value>)
        ensures
            final(self)@ == old(self)@.remove(key@),
            r == (if old(self)@.contains_key(key@) {
                Some(old(self)@[key@])
            } else {
                None
            }),
            final(self).holds() == old(self).holds(),
    {
        proof {
            use_type_invariant(&*self);
        }
        match self.find(&key) {
            Some(i) => {
                proof {
                    lemma_removed(self.entries@, i as int);
                }
                let mut entries: Vec<(Key, Value)> = Vec::new();
                std::mem::swap(&mut entries, &mut self.entries);
                let entry = entries.remove(i);
                self.entries = entries;
                Some(entry.1)
            },
            None => {
                assert(self@.remove(key@) =~= self@);
                None
            },
        }
    }

    /// Removes all entries. The capacity stays.
    pub fn clear(&mut self)
        ensures
            final(self)@ == Map::<KeyView, Value>::empty(),
            final(self).holds() == old(self).holds(),
    {
        self.entries = Vec::new();
    }

    /// The order of the entries is one of the keys.
    proof fn lemma_order(&self)
        requires
            distinct(self.entries@),
        ensures
            is_order(self.order(), self@),
            self.order().len() == self.entries@.len(),
            forall|i: int|
                0 <= i < self.entries@.len() ==> (#[trigger] self.entries@[i]).0@ == self.order()[i]
                    && self@[self.order()[i]] == self.entries@[i].1,
    {
        lemma_map_of(self.entries@);
        let order = self.order();
        assert forall|i: int, j: int| 0 <= i < order.len() && 0 <= j < order.len() && i
            != j implies order[i] != order[j] by {
            if i < j {
                assert(self.entries@[i].0@ != self.entries@[j].0@);
            } else {
                assert(self.entries@[j].0@ != self.entries@[i].0@);
            }
        }
        assert forall|key: KeyView| order.to_set().contains(key) == #[trigger] self@.dom().contains(
            key,
        ) by {
            if order.contains(key) {
                let i = choose|i: int| 0 <= i < order.len() && order[i] == key;
                assert(self@.contains_key(self.entries@[i].0@));
            }
            if self@.contains_key(key) {
                let i = choose|i: int|
                    0 <= i < self.entries@.len() && (#[trigger] self.entries@[i]).0@ == key;
                assert(order[i] == key);
            }
        }
        assert(order.to_set() =~= self@.dom());
    }

    /// An iterator over all entries, as pairs of a key and its value, in any
    /// order.
    pub fn iter(&self) -> (it: ValueIterator)
        ensures
            it.name == "std::collections::map::Iter",
            lists_entries(it.items@, self@),
    {
        proof {
            use_type_invariant(self);
            self.lemma_order();
            reveal_with_fuel(crate::list::elements, 3);
        }
        let mut items: Vec<Value> = Vec::new();
        let mut i: usize = 0;

        while i < self.entries.len()
            invariant
                i <= self.entries@.len(),
                items@.len() == i,
                forall|j: int|
                    0 <= j < i ==> pair_of(#[trigger] items@[j]) == Ok::<(KeyView, Value), VmError>(
                        (self.entries@[j].0@, self.entries@[j].1),
                    ),
            decreases self.entries@.len() - i,
        {
            proof {
                reveal_with_fuel(crate::list::elements, 3);
            }
            let key = self.entries[i].0.to_value();
            let value = self.entries[i].1.copy();
            let pair = List::Cons(
                Box::new(key),
                Box::new(List::Cons(Box::new(value), Box::new(List::Nil))),
            );
            assert(pair@ =~= seq![key, value]);
            items.push(Value::Tuple(pair));
            i += 1;
        }

        let it = ValueIterator::from("std::collections::map::Iter", items);
        proof {
            let order = self.order();
            assert forall|j: int| 0 <= j < order.len() implies is_entry(
                #[trigger] it.items@[j],
                order[j],
                self@[order[j]],
            ) by {
                assert(it.items@[j] == Ok::<Value, VmError>(items@[j]));
                assert(self.entries@[j].0@ == order[j]);
            }
            assert(is_order(order, self@));
        }
        it
    }

    /// An iterator over all keys, in any order.
    pub fn keys(&self) -> (it: ValueIterator)
        ensures
            it.name == "std::collections::map::Keys",
            exists|order: Seq<KeyView>| #[trigger]
                is_order(order, self@) && it.items@.len() == order.len() && forall|i: int|
                    0 <= i < order.len() ==> is_key(#[trigger] it.items@[i], order[i]),
    {
        proof {
            use_type_invariant(self);
            self.lemma_order();
        }
        let mut items: Vec<Value> = Vec::new();
        let mut i: usize = 0;

        while i < self.entries.len()
            invariant
                i <= self.entries@.len(),
                items@.len() == i,
                forall|j: int|
                    0 <= j < i ==> key_of(#[trigger] items@[j]) == Ok::<KeyView, VmError>(
                        self.entries@[j].0@,
                    ),
            decreases self.entries@.len() - i,
        {
            items.push(self.entries[i].0.to_value());
            i += 1;
        }

        let it = ValueIterator::from("std::collections::map::Keys", items);
        proof {
            let order = self.order();
            assert forall|j: int| 0 <= j < order.len() implies is_key(
                #[trigger] it.items@[j],
                order[j],
            ) by {
                assert(it.items@[j] == Ok::<Value, VmError>(items@[j]));
                assert(self.entries@[j].0@ == order[j]);
            }
            assert(is_order(order, self@));
        }
        it
    }

    /// An iterator over all values, in any order.
    pub fn values(&self) -> (it: ValueIterator)
        ensures
            it.name == "std::collections::map::Values",
            exists|order: Seq<KeyView>| #[trigger]
                is_order(order, self@) && it.items@.len() == order.len() && forall|i: int|
                    0 <= i < order.len() ==> #[trigger] it.items@[i] == Ok::<Value, VmError>(
                        self@[order[i]],
                    ),
    {
        proof {
            use_type_invariant(self);
            self.lemma_order();
        }
        let mut items: Vec<Value> = Vec::new();
        let mut i: usize = 0;

        while i < self.entries.len()
            invariant
                i <= self.entries@.len(),
                items@.len() == i,
                forall|j: int| 0 <= j < i ==> #[trigger] items@[j] == self.entries@[j].1,
            decreases self.entries@.len() - i,
        {
            items.push(self.entries[i].1.copy());
            i += 1;
        }

        let it = ValueIterator::from("std::collections::map::Values", items);
        proof {
            let order = self.order();
            assert forall|j: int| 0 <= j < order.len() implies #[trigger] it.items@[j] == Ok::<
                Value,
                VmError,
            >(self@[order[j]]) by {
                assert(it.items@[j] == Ok::<Value, VmError>(items@[j]));
                assert(self.entries@[j].0@ == order[j]);
            }
            assert(is_order(order, self@));
        }
        it
    }

    /// Insert everything that an iterator gives, up to the first error.
    fn insert_all(&mut self, items: ValueIterator) -> (r: Result<(), VmError>)
        ensures
            (final(self)@, r) == extended(old(self)@, items.items@, 0),
            final(self).holds() >= old(self).holds(),
    {
        proof {
            reveal(extended);
        }
        let mut it = items;
        let ghost all = items.items@;
        let ghost mut i: int = 0;

        loop
            invariant
                0 <= i <= all.len(),
                all == items.items@,
                it.items@ == all.skip(i),
                self.holds() >= old(self).holds(),
                extended(self@, all, i) == extended(old(self)@, all, 0),
            decreases all.len() - i,
        {
            proof {
                reveal(extended);
            }
            let (next, rest) = it.next();
            it = rest;

            let value = match next {
                Ok(Some(value)) => value,
                Ok(None) => {
                    assert(i == all.len());
                    return Ok(());
                },
                Err(e) => {
                    assert(all.skip(i)[0] == all[i]);
                    return Err(e);
                },
            };
            assert(all.skip(i)[0] == all[i]);

            let (key, value) = match value.into_pair() {
                Ok(pair) => pair,
                Err(e) => return Err(e),
            };
            self.insert(key, value);

            proof {
                assert(all.skip(i).skip(1) =~= all.skip(i + 1));
                i = i + 1;
            }
        }
    }

    /// Insert everything that a value gives when it is iterated over, up to the
    /// first error.
    pub fn extend(&mut self, value: Value) -> (r: Result<(), VmError>)
        ensures
            match iterated(value) {
                Ok(items) => (final(self)@, r) == extended(old(self)@, items, 0),
                Err(e) => final(self)@ == old(self)@ && r == Err::<(), VmError>(e),
            },
            final(self).holds() >= old(self).holds(),
    {
        let it = match value.into_iter() {
            Ok(it) => it,
            Err(e) => return Err(e),
        };
        self.insert_all(it)
    }

    /// Construct a map of everything that an iterator gives.
    pub fn from_iter(it: ValueIterator) -> (r: Result<Self, VmError>)
        ensures
            match r {
                Ok(map) => extended(Map::empty(), it.items@, 0) == (map@, Ok::<(), VmError>(())),
                Err(e) => extended(Map::empty(), it.items@, 0).1 == Err::<(), VmError>(e),
            },
    {
        let mut map = HashMap::new();
        let r = map.insert_all(it);
        match r {
            Ok(_) => {
                assert(r->Ok_0 == ());
                Ok(map)
            },
            Err(e) => Err(e),
        }
    }

    /// Set the value of a key.
    pub fn index_set(&mut self, key: Key, value: Value)
        ensures
            final(self)@ == old(self)@.insert(key@, value),
            final(self).holds() >= old(self).holds(),
    {
        let _ = self.insert(key, value);
    }

    /// Get the value of a key, which has to be there.
    pub fn index_get(&self, key: Key) -> (r: Result<Value, VmError>)
        ensures
            r == (if self@.contains_key(key@) {
                Ok(self@[key@])
            } else {
                Err(
                    VmError::MissingIndexKey {
                        target: <HashMap as TypeOf>::info(),
                        index: key,
                    },
                )
            }),
    {
        match self.find(&key) {
            Some(i) => Ok(self.entries[i].1.copy()),
            None => Err(VmError::MissingIndexKey { target: HashMap::type_info(), index: key }),
        }
    }

    /// Append the map to a text.
    pub fn string_debug(&self, s: &mut String)
        ensures
            exists|order: Seq<KeyView>| #[trigger]
                is_order(order, self@) && final(s)@ == old(s)@ + "{"@ + shown_entries(
                    order,
                    self@,
                    order.len(),
                ) + "}"@,
    {
        proof {
            use_type_invariant(self);
            self.lemma_order();
        }
        let ghost order = self.order();
        let mut i: usize = 0;
        s.append("{");
        let ghost start = s@;
        assert(s@ =~= start + shown_entries(order, self@, 0));

        while i < self.entries.len()
            invariant
                i <= self.entries@.len(),
                order.len() == self.entries@.len(),
                s@ == start + shown_entries(order, self@, i as nat),
                forall|j: int|
                    0 <= j < self.entries@.len() ==> (#[trigger] self.entries@[j]).0@ == order[j]
                        && self@[order[j]] == self.entries@[j].1,
            decreases self.entries@.len() - i,
        {
            if i > 0 {
                s.append(", ");
            }
            self.entries[i].0.append_debug(s);
            s.append(": ");
            self.entries[i].1.append_debug(s);
            i += 1;
            assert(s@ =~= start + shown_entries(order, self@, i as nat));
        }

        s.append("}");
        assert(is_order(order, self@));
        assert(s@ =~= old(s)@ + "{"@ + shown_entries(order, self@, order.len()) + "}"@);
    }

    /// Compare two maps.
    fn compare(&self, other: &Self, total: bool) -> (r: Result<bool, VmError>)
        ensures
            equals(self@, other@, total, r),
    {
        proof {
            use_type_invariant(self);
            lemma_map_of(self.entries@);
        }
        if self.len() != other.len() {
            return Ok(false);
        }

        let mut i: usize = 0;

        while i < self.entries.len()
            invariant
                i <= self.entries@.len(),
                distinct(self.entries@),
                self@.len() == other@.len(),
                forall|j: int|
                    0 <= j < i ==> other@.contains_key((#[trigger] self.entries@[j]).0@)
                        && compared(
                        self.entries@[j].1,
                        other@[self.entries@[j].0@],
                        total,
                    ) == Ok::<bool, VmError>(true),
            decreases self.entries@.len() - i,
        {
            proof {
                lemma_map_of(self.entries@);
                assert(self@.contains_key(self.entries@[i as int].0@));
            }
            let found = other.find(&self.entries[i].0);

            let j = match found {
                Some(j) => j,
                None => return Ok(false),
            };

            let value = &self.entries[i].1;
            let r = if total {
                value.eq(&other.entries[j].1)
            } else {
                value.partial_eq(&other.entries[j].1)
            };

            match r {
                Ok(true) => {},
                r => return r,
            }

            i += 1;
        }

        proof {
            assert forall|key: KeyView| #[trigger] self@.contains_key(key) implies same_at(
                self@,
                other@,
                key,
                total,
            ) by {
                let j = choose|j: int|
                    0 <= j < self.entries@.len() && (#[trigger] self.entries@[j]).0@ == key;
                assert(other@.contains_key(self.entries@[j].0@));
            }
        }
        Ok(true)
    }

    /// Test if two maps are equal. A number that is not a number is not equal to
    /// any.
    pub fn partial_eq(&self, other: &Self) -> (r: Result<bool, VmError>)
        ensures
            equals(self@, other@, false, r),
    {
        self.compare(other, false)
    }

    /// Test if two maps are equal. A number that is not a number is an error.
    pub fn eq(&self, other: &Self) -> (r: Result<bool, VmError>)
        ensures
            equals(self@, other@, true, r),
    {
        self.compare(other, true)
    }
}

/// Test if what an iterator gives is an entry.
pub open spec fn is_entry(item: Result<Value, VmError>, key: KeyView, value: Value) -> bool {
    item matches Ok(v) && pair_of(v) == Ok::<(KeyView, Value), VmError>((key, value))
}

/// Test if what an iterator gives is a key.
pub open spec fn is_key(item: Result<Value, VmError>, key: KeyView) -> bool {
    item matches Ok(v) && key_of(v) == Ok::<KeyView, VmError>(key)
}

/// Test if an iterator gives the entries of a map, each of them once, in any
/// order.
pub open spec fn lists_entries(
    items: Seq<Result<Value, VmError>>,
    map: Map<KeyView, Value>,
) -> bool {
    exists|order: Seq<KeyView>| #[trigger]
        is_order(order, map) && items.len() == order.len() && forall|i: int|
            0 <= i < order.len() ==> is_entry(#[trigger] items[i], order[i], map[order[i]])
}

/// A map after the items from index `i` on have been inserted as pairs, up to
/// the first error.
#[verifier::opaque]
pub open spec fn extended(
    map: Map<KeyView, Value>,
    items: Seq<Result<Value, VmError>>,
    i: int,
) -> (Map<KeyView, Value>, Result<(), VmError>)
    decreases items.len() - i,
{
    if i < 0 || i >= items.len() {
        (map, Ok(()))
    } else {
        match items[i] {
            Err(e) => (map, Err(e)),
            Ok(item) => match pair_of(item) {
                Err(e) => (map, Err(e)),
                Ok((key, value)) => extended(map.insert(key, value), items, i + 1),
            },
        }
    }
}

/// How the first `n` entries are shown, with a comma between them.
pub open spec fn shown_entries(
    order: Seq<KeyView>,
    map: Map<KeyView, Value>,
    n: nat,
) -> Seq<char>
    decreases n,
{
    if n == 0 {
        Seq::empty()
    } else {
        let entry = shown_key(order[n - 1]) + ": "@ + shown(map[order[n - 1]]);
        let before = shown_entries(order, map, (n - 1) as nat);
        if n == 1 {
            entry
        } else {
            before + ", "@ + entry
        }
    }
}

/// Test if both maps have a key, with values that are equal.
pub open spec fn same_at(
    a: Map<KeyView, Value>,
    b: Map<KeyView, Value>,
    key: KeyView,
    total: bool,
) -> bool {
    b.contains_key(key) && compared(a[key], b[key], total) == Ok::<bool, VmError>(true)
}

/// Test if this is the result of comparing two maps. They are equal if they have
/// the same number of keys, and the values of every key are equal. They are not
/// if they have different numbers of keys, one lacks a key that the other has or
/// the values of a key are not equal. It is an error to compare them if it is to
/// compare the values of a key. Which of the last two it is, where both hold,
/// depends on the order of the keys.
pub open spec fn equals(
    a: Map<KeyView, Value>,
    b: Map<KeyView, Value>,
    total: bool,
    r: Result<bool, VmError>,
) -> bool {
    match r {
        Ok(true) => a.len() == b.len() && forall|key: KeyView| #[trigger]
            a.contains_key(key) ==> same_at(a, b, key, total),
        Ok(false) => a.len() != b.len() || exists|key: KeyView| #[trigger]
            a.contains_key(key) && (!b.contains_key(key) || compared(a[key], b[key], total) == Ok::<
                bool,
                VmError,
            >(false)),
        Err(e) => a.len() == b.len() && exists|key: KeyView| #[trigger]
            a.contains_key(key) && b.contains_key(key) && compared(a[key], b[key], total) == Err::<
                bool,
                VmError,
            >(e),
    }
}

/// Convert a value into a map. Everything that it gives when it is iterated over
/// has to be a pair.
pub fn from(value: Value) -> (r: Result<HashMap, VmError>)
    ensures
        match (iterated(value), r) {
            (Ok(items), Ok(map)) => extended(Map::empty(), items, 0) == (map@, Ok::<(), VmError>(
                (),
            )),
            (Ok(items), Err(e)) => extended(Map::empty(), items, 0).1 == Err::<(), VmError>(e),
            (Err(e), Err(f)) => e == f,
            (Err(_), Ok(_)) => false,
        },
{
    match value.into_iter() {
        Ok(it) => HashMap::from_iter(it),
        Err(e) => Err(e),
    }
}

/// Clone a map.
pub fn clone(this: &HashMap) -> (map: HashMap)
    ensures
        map@ == this@,
{
    proof {
        use_type_invariant(this);
    }
    let mut entries: Vec<(Key, Value)> = Vec::new();
    let mut i: usize = 0;

    while i < this.entries.len()
        invariant
            i <= this.entries@.len(),
            entries@ =~= this.entries@.take(i as int),
        decreases this.entries@.len() - i,
    {
        entries.push((this.entries[i].0.copy(), this.entries[i].1.copy()));
        i += 1;
    }

    assert(entries@ =~= this.entries@);
    HashMap { entries, capacity: this.capacity }
}

impl TypeOf for HashMap {
    open spec fn hash() -> Hash64 {
        type_hash(<HashMap as Named>::item())
    }

    open spec fn parameters() -> Hash64 {
        Hash64(EMPTY)
    }

    open spec fn info() -> TypeInfo {
        TypeInfo { hash: <HashMap as TypeOf>::hash(), name: "::std::collections::HashMap" }
    }

    fn type_hash() -> (hash: Hash64) {
        Hash64::type_hash(&HashMap::named_item())
    }

    fn type_parameters() -> (hash: Hash64) {
        Hash64(EMPTY)
    }

    fn type_info() -> (info: TypeInfo) {
        TypeInfo { hash: HashMap::type_hash(), name: "::std::collections::HashMap" }
    }
}

impl Named for HashMap {
    open spec fn item() -> Seq<ComponentView> {
        seq![
            ComponentView::Crate("std"@),
            ComponentView::Str("collections"@),
            ComponentView::Str("HashMap"@),
        ]
    }

    open spec fn shown() -> Seq<char> {
        "::std::collections::HashMap"@
    }

    fn named_item() -> (item: ItemBuf) {
        let item = ItemBuf::with_crate_item("std", vec!["collections", "HashMap"]);
        assert(item@ =~= <HashMap as Named>::item());
        item
    }

    fn display() -> (name: String) {
        "::std::collections::HashMap".to_owned()
    }
}

impl InstallWith for HashMap {
    open spec fn installed(
        before: ModuleState,
        after: ModuleState,
        r: Result<(), ContextError>,
    ) -> bool {
        after == before && r is Ok
    }

    fn install_with(module: &mut Module) -> (r: Result<(), ContextError>) {
        Ok(())
    }
}

/// Test if these are the annotations of the functions of hash maps, in the order
/// in which they are registered.
#[verifier::opaque]
pub open spec fn are_functions(metas: Seq<FunctionMeta>) -> bool {
    let ty = <HashMap as TypeOf>::info();
    let map = ty.hash.0;
    &&& metas.len() == 22
    &&& is_function(metas[0], ty, "new"@, handlers::NEW, Seq::empty(), map, docs::NEW@)
    &&& is_function(
        metas[1],
        ty,
        "with_capacity"@,
        handlers::WITH_CAPACITY,
        seq![("capacity", INTEGER_HASH)],
        map,
        docs::WITH_CAPACITY@,
    )
    &&& is_function(metas[2], ty, "len"@, handlers::LEN, seq![("self", map)], INTEGER_HASH, docs::LEN@)
    &&& is_function(
        metas[3],
        ty,
        "capacity"@,
        handlers::CAPACITY,
        seq![("self", map)],
        INTEGER_HASH,
        docs::CAPACITY@,
    )
    &&& is_function(
        metas[4],
        ty,
        "insert"@,
        handlers::INSERT,
        seq![("self", map), ("key", EMPTY), ("value", EMPTY)],
        OPTION_HASH,
        docs::INSERT@,
    )
    &&& is_function(
        metas[5],
        ty,
        "get"@,
        handlers::GET,
        seq![("self", map), ("key", EMPTY)],
        OPTION_HASH,
        docs::GET@,
    )
    &&& is_function(
        metas[6],
        ty,
        "contains_key"@,
        handlers::CONTAINS_KEY,
        seq![("self", map), ("key", EMPTY)],
        BOOL_HASH,
        docs::CONTAINS_KEY@,
    )
    &&& is_function(
        metas[7],
        ty,
        "remove"@,
        handlers::REMOVE,
        seq![("self", map), ("key", EMPTY)],
        OPTION_HASH,
        docs::REMOVE@,
    )
    &&& is_function(metas[8], ty, "clear"@, handlers::CLEAR, seq![("self", map)], TUPLE_HASH, docs::CLEAR@)
    &&& is_function(metas[9], ty, "is_empty"@, handlers::IS_EMPTY, seq![("self", map)], BOOL_HASH, docs::IS_EMPTY@)
    &&& is_function(metas[10], ty, "iter"@, handlers::ITER, seq![("self", map)], ITERATOR_HASH, ""@)
    &&& is_function(metas[11], ty, "keys"@, handlers::KEYS, seq![("self", map)], ITERATOR_HASH, docs::KEYS@)
    &&& is_function(metas[12], ty, "values"@, handlers::VALUES, seq![("self", map)], ITERATOR_HASH, docs::VALUES@)
    &&& is_function(
        metas[13],
        ty,
        "extend"@,
        handlers::EXTEND,
        seq![("self", map), ("value", EMPTY)],
        TUPLE_HASH,
        docs::EXTEND@,
    )
    &&& is_function(metas[14], ty, "from"@, handlers::FROM, seq![("value", EMPTY)], map, docs::FROM@)
    &&& is_function(metas[15], ty, "clone"@, handlers::CLONE, seq![("this", map)], map, docs::CLONE@)
    &&& is_protocol_function(metas[16], ty, "INTO_ITER", handlers::ITER, seq![("self", map)], ITERATOR_HASH)
    &&& is_protocol_function(
        metas[17],
        ty,
        "INDEX_SET",
        handlers::INDEX_SET,
        seq![("self", map), ("key", EMPTY), ("value", EMPTY)],
        TUPLE_HASH,
    )
    &&& is_protocol_function(
        metas[18],
        ty,
        "INDEX_GET",
        handlers::INDEX_GET,
        seq![("self", map), ("key", EMPTY)],
        EMPTY,
    )
    &&& is_protocol_function(
        metas[19],
        ty,
        "STRING_DEBUG",
        handlers::STRING_DEBUG,
        seq![("self", map), ("s", STRING_HASH)],
        TUPLE_HASH,
    )
    &&& is_protocol_function(
        metas[20],
        ty,
        "PARTIAL_EQ",
        handlers::PARTIAL_EQ,
        seq![("self", map), ("other", map)],
        BOOL_HASH,
    )
    &&& is_protocol_function(
        metas[21],
        ty,
        "EQ",
        handlers::EQ,
        seq![("self", map), ("other", map)],
        BOOL_HASH,
    )
}

/// Annotate the functions of hash maps.
#[verifier::spinoff_prover]
#[verifier::rlimit(60)]
fn functions() -> (metas: Vec<FunctionMeta>)
    ensures
        are_functions(metas@),
{
    proof {
        reveal(are_functions);
    }
    let ty = HashMap::type_info();
    let map: u64 = ty.hash.0;
    let mut metas: Vec<FunctionMeta> = Vec::new();

    let arguments: Vec<Argument> = Vec::new();
    metas.push(function(ty, "new", handlers::NEW, arguments, map, docs::NEW));

    let arguments: Vec<Argument> = vec![("capacity", INTEGER_HASH)];
    assert(arguments@ =~= seq![("capacity", INTEGER_HASH)]);
    metas.push(
        function(
            ty,
            "with_capacity",
            handlers::WITH_CAPACITY,
            arguments,
            map,
            docs::WITH_CAPACITY,
        ),
    );

    let arguments: Vec<Argument> = vec![("self", map)];
    assert(arguments@ =~= seq![("self", map)]);
    metas.push(function(ty, "len", handlers::LEN, arguments, INTEGER_HASH, docs::LEN));

    let arguments: Vec<Argument> = vec![("self", map)];
    assert(arguments@ =~= seq![("self", map)]);
    metas.push(
        function(ty, "capacity", handlers::CAPACITY, arguments, INTEGER_HASH, docs::CAPACITY),
    );

    let arguments: Vec<Argument> = vec![("self", map), ("key", EMPTY), ("value", EMPTY)];
    assert(arguments@ =~= seq![("self", map), ("key", EMPTY), ("value", EMPTY)]);
    metas.push(function(ty, "insert", handlers::INSERT, arguments, OPTION_HASH, docs::INSERT));

    let arguments: Vec<Argument> = vec![("self", map), ("key", EMPTY)];
    assert(arguments@ =~= seq![("self", map), ("key", EMPTY)]);
    metas.push(function(ty, "get", handlers::GET, arguments, OPTION_HASH, docs::GET));

    let arguments: Vec<Argument> = vec![("self", map), ("key", EMPTY)];
    assert(arguments@ =~= seq![("self", map), ("key", EMPTY)]);
    metas.push(
        function(
            ty,
            "contains_key",
            handlers::CONTAINS_KEY,
            arguments,
            BOOL_HASH,
            docs::CONTAINS_KEY,
        ),
    );

    let arguments: Vec<Argument> = vec![("self", map), ("key", EMPTY)];
    assert(arguments@ =~= seq![("self", map), ("key", EMPTY)]);
    metas.push(function(ty, "remove", handlers::REMOVE, arguments, OPTION_HASH, docs::REMOVE));

    let arguments: Vec<Argument> = vec![("self", map)];
    assert(arguments@ =~= seq![("self", map)]);
    metas.push(function(ty, "clear", handlers::CLEAR, arguments, TUPLE_HASH, docs::CLEAR));

    let arguments: Vec<Argument> = vec![("self", map)];
    assert(arguments@ =~= seq![("self", map)]);
    metas.push(function(ty, "is_empty", handlers::IS_EMPTY, arguments, BOOL_HASH, docs::IS_EMPTY));

    let arguments: Vec<Argument> = vec![("self", map)];
    assert(arguments@ =~= seq![("self", map)]);
    metas.push(function(ty, "iter", handlers::ITER, arguments, ITERATOR_HASH, ""));

    let arguments: Vec<Argument> = vec![("self", map)];
    assert(arguments@ =~= seq![("self", map)]);
    metas.push(function(ty, "keys", handlers::KEYS, arguments, ITERATOR_HASH, docs::KEYS));

    let arguments: Vec<Argument> = vec![("self", map)];
    assert(arguments@ =~= seq![("self", map)]);
    metas.push(function(ty, "values", handlers::VALUES, arguments, ITERATOR_HASH, docs::VALUES));

    let arguments: Vec<Argument> = vec![("self", map), ("value", EMPTY)];
    assert(arguments@ =~= seq![("self", map), ("value", EMPTY)]);
    metas.push(function(ty, "extend", handlers::EXTEND, arguments, TUPLE_HASH, docs::EXTEND));

    let arguments: Vec<Argument> = vec![("value", EMPTY)];
    assert(arguments@ =~= seq![("value", EMPTY)]);
    metas.push(function(ty, "from", handlers::FROM, arguments, map, docs::FROM));

    let arguments: Vec<Argument> = vec![("this", map)];
    assert(arguments@ =~= seq![("this", map)]);
    metas.push(function(ty, "clone", handlers::CLONE, arguments, map, docs::CLONE));

    let arguments: Vec<Argument> = vec![("self", map)];
    assert(arguments@ =~= seq![("self", map)]);
    metas.push(protocol_function(ty, "INTO_ITER", handlers::ITER, arguments, ITERATOR_HASH));

    let arguments: Vec<Argument> = vec![("self", map), ("key", EMPTY), ("value", EMPTY)];
    assert(arguments@ =~= seq![("self", map), ("key", EMPTY), ("value", EMPTY)]);
    metas.push(protocol_function(ty, "INDEX_SET", handlers::INDEX_SET, arguments, TUPLE_HASH));

    let arguments: Vec<Argument> = vec![("self", map), ("key", EMPTY)];
    assert(arguments@ =~= seq![("self", map), ("key", EMPTY)]);
    metas.push(protocol_function(ty, "INDEX_GET", handlers::INDEX_GET, arguments, EMPTY));

    let arguments: Vec<Argument> = vec![("self", map), ("s", STRING_HASH)];
    assert(arguments@ =~= seq![("self", map), ("s", STRING_HASH)]);
    metas.push(protocol_function(ty, "STRING_DEBUG", handlers::STRING_DEBUG, arguments, TUPLE_HASH));

    let arguments: Vec<Argument> = vec![("self", map), ("other", map)];
    assert(arguments@ =~= seq![("self", map), ("other", map)]);
    metas.push(protocol_function(ty, "PARTIAL_EQ", handlers::PARTIAL_EQ, arguments, BOOL_HASH));

    let arguments: Vec<Argument> = vec![("self", map), ("other", map)];
    assert(arguments@ =~= seq![("self", map), ("other", map)]);
    metas.push(protocol_function(ty, "EQ", handlers::EQ, arguments, BOOL_HASH));

    metas
}

/// Where a function stands among those of hash maps, by what it is called.
spec fn place_of(text: Seq<char>) -> int {
    if text == "new"@ {
        0
    } else if text == "with_capacity"@ {
        1
    } else if text == "len"@ {
        2
    } else if text == "capacity"@ {
        3
    } else if text == "insert"@ {
        4
    } else if text == "get"@ {
        5
    } else if text == "contains_key"@ {
        6
    } else if text == "remove"@ {
        7
    } else if text == "clear"@ {
        8
    } else if text == "is_empty"@ {
        9
    } else if text == "iter"@ {
        10
    } else if text == "keys"@ {
        11
    } else if text == "values"@ {
        12
    } else if text == "extend"@ {
        13
    } else if text == "from"@ {
        14
    } else if text == "clone"@ {
        15
    } else {
        -1
    }
}

/// Where a function of a protocol stands among those of hash maps.
spec fn place_of_protocol(hash: Hash64) -> int {
    if hash == ident_hash("INTO_ITER"@) {
        16
    } else if hash == ident_hash("INDEX_SET"@) {
        17
    } else if hash == ident_hash("INDEX_GET"@) {
        18
    } else if hash == ident_hash("STRING_DEBUG"@) {
        19
    } else if hash == ident_hash("PARTIAL_EQ"@) {
        20
    } else if hash == ident_hash("EQ"@) {
        21
    } else {
        -1
    }
}

/// Where a name stands among those of hash maps.
spec fn place(name: NameView) -> int {
    match name {
        NameView::Associated(_, AssociatedKindView::Instance(text), _) => place_of(text),
        NameView::Associated(_, AssociatedKindView::Protocol(hash), _) => place_of_protocol(hash),
        _ => -1,
    }
}

/// What the functions are called tells them apart: no two of these names have the
/// same length and the same third character.
proof fn lemma_places()
    ensures
        place_of("new"@) == 0,
        place_of("with_capacity"@) == 1,
        place_of("len"@) == 2,
        place_of("capacity"@) == 3,
        place_of("insert"@) == 4,
        place_of("get"@) == 5,
        place_of("contains_key"@) == 6,
        place_of("remove"@) == 7,
        place_of("clear"@) == 8,
        place_of("is_empty"@) == 9,
        place_of("iter"@) == 10,
        place_of("keys"@) == 11,
        place_of("values"@) == 12,
        place_of("extend"@) == 13,
        place_of("from"@) == 14,
        place_of("clone"@) == 15,
{
    reveal_strlit("new");
    reveal_strlit("with_capacity");
    reveal_strlit("len");
    reveal_strlit("capacity");
    reveal_strlit("insert");
    reveal_strlit("get");
    reveal_strlit("contains_key");
    reveal_strlit("remove");
    reveal_strlit("clear");
    reveal_strlit("is_empty");
    reveal_strlit("iter");
    reveal_strlit("keys");
    reveal_strlit("values");
    reveal_strlit("extend");
    reveal_strlit("from");
    reveal_strlit("clone");
    assert("new"@.len() == 3 && "new"@[2] == 'w');
    assert("with_capacity"@.len() == 13 && "with_capacity"@[2] == 't');
    assert("len"@.len() == 3 && "len"@[2] == 'n');
    assert("capacity"@.len() == 8 && "capacity"@[2] == 'p');
    assert("insert"@.len() == 6 && "insert"@[2] == 's');
    assert("get"@.len() == 3 && "get"@[2] == 't');
    assert("contains_key"@.len() == 12 && "contains_key"@[2] == 'n');
    assert("remove"@.len() == 6 && "remove"@[2] == 'm');
    assert("clear"@.len() == 5 && "clear"@[2] == 'e');
    assert("is_empty"@.len() == 8 && "is_empty"@[2] == '_');
    assert("iter"@.len() == 4 && "iter"@[2] == 'e');
    assert("keys"@.len() == 4 && "keys"@[2] == 'y');
    assert("values"@.len() == 6 && "values"@[2] == 'l');
    assert("extend"@.len() == 6 && "extend"@[2] == 't');
    assert("from"@.len() == 4 && "from"@[2] == 'o');
    assert("clone"@.len() == 5 && "clone"@[2] == 'o');
}

/// The hashes of the protocols tell them apart.
proof fn lemma_protocol_places()
    ensures
        place_of_protocol(ident_hash("INTO_ITER"@)) == 16,
        place_of_protocol(ident_hash("INDEX_SET"@)) == 17,
        place_of_protocol(ident_hash("INDEX_GET"@)) == 18,
        place_of_protocol(ident_hash("STRING_DEBUG"@)) == 19,
        place_of_protocol(ident_hash("PARTIAL_EQ"@)) == 20,
        place_of_protocol(ident_hash("EQ"@)) == 21,
{
    lemma_into_iter();
    lemma_index_set();
    lemma_index_get();
    lemma_string_debug();
    lemma_partial_eq();
    lemma_eq();
}

/// Every function takes a name of its own, which stands where the function does.
#[verifier::spinoff_prover]
proof fn lemma_names(metas: Seq<FunctionMeta>, item: Seq<ComponentView>)
    requires
        are_functions(metas),
    ensures
        metas.len() == 22,
        forall|i: int|
            0 <= i < 22 ==> {
                let name = #[trigger] meta_name(item, metas[i]);
                place(name) == i && is_of_maps(name)
            },
{
    reveal(are_functions);
    reveal(is_function);
    reveal(is_protocol_function);
    lemma_places();
    lemma_protocol_places();
}

/// Test if a name is that of hash maps or of something associated with them.
pub open spec fn is_of_maps(name: NameView) -> bool {
    match name {
        NameView::Item(hash) => hash == <HashMap as TypeOf>::hash(),
        NameView::Associated(hash, _, _) => hash == <HashMap as TypeOf>::hash(),
        _ => false,
    }
}

/// Test if hash maps are registered in a module, or refused: first the type and
/// then its functions, up to the first one that is refused.
pub open spec fn is_setup(
    before: ModuleState,
    after: ModuleState,
    r: Result<(), ContextErrorView>,
) -> bool {
    if before.names.contains(NameView::Item(<HashMap as TypeOf>::hash())) {
        after == before && r == Err::<(), ContextErrorView>(conflicting_type::<HashMap>())
    } else {
        exists|x: ModuleType, metas: Seq<FunctionMeta>|
            is_documented::<HashMap>(x, ""@) && are_functions(metas) && #[trigger] all_registered(
                before.with_type(x),
                after,
                metas,
                0,
                r,
            )
    }
}

/// Where nothing of hash maps is registered, all of their functions can be.
proof fn lemma_setup(
    before: ModuleState,
    ty: ModuleType,
    metas: Seq<FunctionMeta>,
    after: ModuleState,
    r: Result<(), ContextErrorView>,
)
    requires
        forall|name: NameView| #[trigger] before.names.contains(name) ==> !is_of_maps(name),
        is_documented::<HashMap>(ty, ""@),
        are_functions(metas),
        all_registered(before.with_type(ty), after, metas, 0, r),
    ensures
        r is Ok,
{
    let start = before.with_type(ty);
    lemma_names(metas, start.item);
    assert forall|i: int| 0 <= i < metas.len() implies !start.names.contains(
        #[trigger] meta_name(start.item, metas[i]),
    ) by {
        let name = meta_name(start.item, metas[i]);
        assert(place(name) == i && is_of_maps(name));
        if start.names.contains(name) {
            assert(before.names.contains(name));
        }
    }
    assert forall|j: int, k: int| 0 <= j < k < metas.len() implies #[trigger] meta_name(
        start.item,
        metas[j],
    ) != #[trigger] meta_name(start.item, metas[k]) by {
        assert(place(meta_name(start.item, metas[j])) == j);
    }
    lemma_all_registered(start, after, metas, 0, r);
}

/// Register hash maps. Where a module holds neither their type nor anything that
/// is associated with it, this succeeds.
#[verifier::spinoff_prover]
pub fn setup(module: &mut Module) -> (r: Result<(), ContextError>)
    requires
        old(module)@.wf(),
    ensures
        is_setup(old(module)@, final(module)@, result(r)),
        (forall|name: NameView| #[trigger]
            old(module)@.names.contains(name) ==> !is_of_maps(name)) ==> r is Ok,
        final(module)@.wf(),
{
    let ghost before = module@;
    register_type::<HashMap>(module, "")?;
    let ghost ty = choose|x: ModuleType| #[trigger]
        is_documented::<HashMap>(x, ""@) && module@ == before.with_type(x);
    let metas = functions();
    let ghost all = metas@;
    let r = register_all(module, metas);
    proof {
        assert(all_registered(before.with_type(ty), module@, all, 0, result(r)));
        if forall|name: NameView| #[trigger] before.names.contains(name) ==> !is_of_maps(name) {
            lemma_setup(before, ty, all, module@, result(r));
        }
    }
    r
}

} // verus!
