//! Laws of how the functions of hash maps relate to each other.

use vstd::prelude::*;
use crate::modules::hash_map::{
    equals, extended, is_entry, is_key, is_order, same_at, shown_entries, HashMap,
};
use crate::modules::hash_map_calls as handlers;
use crate::modules::hash_map_calls::{called, Operands, Returned};
use crate::runtime::debug::{shown, shown_key};
use crate::runtime::debug_laws::listed;
use crate::runtime::value::{compared, iterated, key_of, pair_of, KeyView};
use crate::runtime::{Key, TypeOf, Value, VmError};
use crate::text_laws::lemma_joined;

verus! {

/// No two functions have the same number.
pub proof fn lemma_handlers()
    ensures
        seq![
            handlers::NEW,
            handlers::WITH_CAPACITY,
            handlers::LEN,
            handlers::CAPACITY,
            handlers::INSERT,
            handlers::GET,
            handlers::CONTAINS_KEY,
            handlers::REMOVE,
            handlers::CLEAR,
            handlers::IS_EMPTY,
            handlers::ITER,
            handlers::KEYS,
            handlers::VALUES,
            handlers::EXTEND,
            handlers::FROM,
            handlers::CLONE,
            handlers::INDEX_SET,
            handlers::INDEX_GET,
            handlers::STRING_DEBUG,
            handlers::PARTIAL_EQ,
            handlers::EQ,
        ].no_duplicates(),
{
}

/// A value that has been inserted under a key is what the key gives. Other keys
/// give what they gave before.
pub proof fn lemma_insert_get(
    key: Key,
    value: Value,
    other: Key,
    a: HashMap,
    b: HashMap,
    c: HashMap,
    inserted: Option<Result<Returned, VmError>>,
    got: Option<Result<Returned, VmError>>,
)
    requires
        called(handlers::INSERT, Operands::Entry(key, value), a, b, inserted),
        called(handlers::GET, Operands::Key(other), b, c, got),
    ensures
        c == b,
        key@ == other@ ==> got == Some(Ok::<Returned, VmError>(Returned::Optional(Some(value)))),
        key@ != other@ ==> got == Some(
            Ok::<Returned, VmError>(
                Returned::Optional(
                    if a@.contains_key(other@) {
                        Some(a@[other@])
                    } else {
                        None
                    },
                ),
            ),
        ),
        // The value that was there before is given back.
        inserted == Some(
            Ok::<Returned, VmError>(
                Returned::Optional(
                    if a@.contains_key(key@) {
                        Some(a@[key@])
                    } else {
                        None
                    },
                ),
            ),
        ),
{
}

/// A key that has been removed is not there, and gave its value. Other keys stay.
pub proof fn lemma_remove_contains(
    key: Key,
    other: Key,
    a: HashMap,
    b: HashMap,
    c: HashMap,
    removed: Option<Result<Returned, VmError>>,
    contained: Option<Result<Returned, VmError>>,
)
    requires
        called(handlers::REMOVE, Operands::Key(key), a, b, removed),
        called(handlers::CONTAINS_KEY, Operands::Key(other), b, c, contained),
    ensures
        c == b,
        contained == Some(
            Ok::<Returned, VmError>(
                Returned::Bool(key@ != other@ && a@.contains_key(other@)),
            ),
        ),
        removed == Some(
            Ok::<Returned, VmError>(
                Returned::Optional(
                    if a@.contains_key(key@) {
                        Some(a@[key@])
                    } else {
                        None
                    },
                ),
            ),
        ),
        a@.contains_key(other@) && key@ != other@ ==> b@[other@] == a@[other@],
{
}

/// A value that has been set by an index is what the index gives. An index that is
/// not there is an error with the key.
pub proof fn lemma_index(
    key: Key,
    value: Value,
    other: Key,
    a: HashMap,
    b: HashMap,
    c: HashMap,
    set: Option<Result<Returned, VmError>>,
    got: Option<Result<Returned, VmError>>,
)
    requires
        called(handlers::INDEX_SET, Operands::Entry(key, value), a, b, set),
        called(handlers::INDEX_GET, Operands::Key(other), b, c, got),
    ensures
        c == b,
        set == Some(Ok::<Returned, VmError>(Returned::Unit)),
        key@ == other@ ==> got == Some(Ok::<Returned, VmError>(Returned::Value(value))),
        key@ != other@ && a@.contains_key(other@) ==> got == Some(
            Ok::<Returned, VmError>(Returned::Value(a@[other@])),
        ),
        key@ != other@ && !a@.contains_key(other@) ==> got == Some(
            Err::<Returned, VmError>(
                VmError::MissingIndexKey { target: <HashMap as TypeOf>::info(), index: other },
            ),
        ),
{
}

/// A map that has been cleared is empty, and holds as much as before. A new one is
/// empty too.
pub proof fn lemma_cleared(
    capacity: usize,
    a: HashMap,
    b: HashMap,
    cleared: Option<Result<Returned, VmError>>,
    c: HashMap,
    n: Option<Result<Returned, VmError>>,
    made: Option<Result<Returned, VmError>>,
    sized: Option<Result<Returned, VmError>>,
)
    requires
        called(handlers::CLEAR, Operands::Nothing, a, b, cleared),
        called(handlers::LEN, Operands::Nothing, b, c, n),
        called(handlers::NEW, Operands::Nothing, a, a, made),
        called(handlers::WITH_CAPACITY, Operands::Size(capacity), a, a, sized),
    ensures
        c == b,
        b.holds() == a.holds(),
        n == Some(Ok::<Returned, VmError>(Returned::Size(0))),
        made matches Some(Ok(Returned::HashMap(map))) && map@.dom() == Set::<KeyView>::empty()
            && map.holds() == 0,
        sized matches Some(Ok(Returned::HashMap(map))) && map@.dom() == Set::<KeyView>::empty()
            && map.holds() == capacity,
{
}

/// Inserting under a key that is not there makes a map longer by one, and under one
/// that is there does not.
pub proof fn lemma_insert_len(
    key: Key,
    value: Value,
    a: HashMap,
    b: HashMap,
    inserted: Option<Result<Returned, VmError>>,
    before: Option<Result<Returned, VmError>>,
    after: Option<Result<Returned, VmError>>,
)
    requires
        a@.dom().finite(),
        called(handlers::LEN, Operands::Nothing, a, a, before),
        called(handlers::INSERT, Operands::Entry(key, value), a, b, inserted),
        called(handlers::LEN, Operands::Nothing, b, b, after),
    ensures
        before matches Some(Ok(Returned::Size(n))) && after matches Some(Ok(Returned::Size(m))) && m
            == n + (if a@.contains_key(key@) {
            0int
        } else {
            1int
        }),
{
}

/// The clone of a map has what the map has, and a map is empty exactly if its length
/// is zero.
pub proof fn lemma_clone_empty(
    a: HashMap,
    cloned: Option<Result<Returned, VmError>>,
    empty: Option<Result<Returned, VmError>>,
    n: Option<Result<Returned, VmError>>,
)
    requires
        a@.dom().finite(),
        called(handlers::CLONE, Operands::Nothing, a, a, cloned),
        called(handlers::IS_EMPTY, Operands::Nothing, a, a, empty),
        called(handlers::LEN, Operands::Nothing, a, a, n),
    ensures
        cloned matches Some(Ok(Returned::HashMap(map))) && map@ == a@,
        empty matches Some(Ok(Returned::Bool(e))) && n matches Some(Ok(Returned::Size(n))) && (e
            <==> n == 0),
{
    if a@.len() == 0 {
        assert(a@.dom() =~= Set::empty());
        assert(a@ =~= Map::empty());
    }
}

/// A function that takes other operands is not there, and does nothing.
pub proof fn lemma_not_called(
    operands: Operands,
    a: HashMap,
    b: HashMap,
    got: Option<Result<Returned, VmError>>,
)
    requires
        called(handlers::GET, operands, a, b, got),
    ensures
        a == b,
        !(operands is Key) ==> got is None,
        operands is Key ==> got is Some,
{
}

/// The pairs that iterating gives are inserted in order: what a key gives in the end
/// is the value of the last pair with it, and other keys are as they were.
pub proof fn lemma_extended_last(
    map: Map<KeyView, Value>,
    items: Seq<Result<Value, VmError>>,
    i: int,
    key: KeyView,
)
    requires
        0 <= i <= items.len(),
        extended(map, items, i).1 is Ok,
    ensures
        ({
            let after = extended(map, items, i).0;
            &&& forall|j: int|
                i <= j < items.len() ==> #[trigger] items[j] is Ok && pair_of(items[j]->Ok_0) is Ok
            &&& after.contains_key(key) <==> map.contains_key(key) || exists|j: int|
                i <= j < items.len() && #[trigger] is_of(items[j], key)
            &&& (forall|j: int| i <= j < items.len() ==> !#[trigger] is_of(items[j], key))
                && map.contains_key(key) ==> after[key] == map[key]
            &&& forall|j: int|
                i <= j < items.len() && #[trigger] is_of(items[j], key) && (forall|k: int|
                    j < k < items.len() ==> !#[trigger] is_of(items[k], key)) ==> after[key]
                    == pair_value(items[j])
        }),
    decreases items.len() - i,
{
    reveal(extended);
    if i < items.len() {
        let (first, value) = pair_of(items[i]->Ok_0)->Ok_0;
        let next = map.insert(first, value);
        lemma_extended_last(next, items, i + 1, key);
        assert(is_of(items[i], key) == (first == key));
        if first == key {
            assert(is_of(items[i], key));
        }
    }
}

/// Test if an item is a pair with the key.
pub open spec fn is_of(item: Result<Value, VmError>, key: KeyView) -> bool {
    item is Ok && pair_of(item->Ok_0) is Ok && pair_of(item->Ok_0)->Ok_0.0 == key
}

/// The value of an item that is a pair.
pub open spec fn pair_value(item: Result<Value, VmError>) -> Value {
    let (_, value) = pair_of(item->Ok_0)->Ok_0;
    value
}

/// Inserting stops at the first item that is an error or not a pair, with what has
/// been inserted before it.
pub proof fn lemma_extended_error(
    map: Map<KeyView, Value>,
    items: Seq<Result<Value, VmError>>,
    k: int,
)
    requires
        0 <= k < items.len(),
        items[k] is Err || pair_of(items[k]->Ok_0) is Err,
        extended(map, items.take(k), 0).1 is Ok,
    ensures
        extended(map, items, 0) == (
            extended(map, items.take(k), 0).0,
            Err::<(), VmError>(
                match items[k] {
                    Err(e) => e,
                    Ok(item) => pair_of(item)->Err_0,
                },
            ),
        ),
{
    lemma_extended_error_from(map, items, 0, k);
}

/// Inserting from index `i` on stops at the first item that cannot be inserted.
proof fn lemma_extended_error_from(
    map: Map<KeyView, Value>,
    items: Seq<Result<Value, VmError>>,
    i: int,
    k: int,
)
    requires
        0 <= i <= k < items.len(),
        items[k] is Err || pair_of(items[k]->Ok_0) is Err,
        extended(map, items.take(k), i).1 is Ok,
    ensures
        extended(map, items, i) == (
            extended(map, items.take(k), i).0,
            Err::<(), VmError>(
                match items[k] {
                    Err(e) => e,
                    Ok(item) => pair_of(item)->Err_0,
                },
            ),
        ),
    decreases k - i,
{
    reveal(extended);
    if i < k {
        assert(items.take(k)[i] == items[i]);
        let (key, value) = pair_of(items[i]->Ok_0)->Ok_0;
        lemma_extended_error_from(map.insert(key, value), items, i + 1, k);
    }
}

/// If no two values of the same key are an error to compare, then two maps can be
/// compared. They are equal exactly if they have the same keys, with equal values.
pub proof fn lemma_equal_decided(
    a: Map<KeyView, Value>,
    b: Map<KeyView, Value>,
    total: bool,
    r: Result<bool, VmError>,
)
    requires
        a.dom().finite(),
        b.dom().finite(),
        equals(a, b, total, r),
        forall|key: KeyView| #[trigger]
            a.contains_key(key) && b.contains_key(key) ==> compared(a[key], b[key], total) is Ok,
    ensures
        r is Ok,
        r->Ok_0 <==> a.dom() == b.dom() && forall|key: KeyView| #[trigger]
            a.contains_key(key) ==> compared(a[key], b[key], total) == Ok::<bool, VmError>(true),
{
    if r == Ok::<bool, VmError>(true) {
        crate::modules::hash_map_laws::lemma_equal_keys(a, b, total);
        assert forall|key: KeyView| #[trigger] a.contains_key(key) implies compared(
            a[key],
            b[key],
            total,
        ) == Ok::<bool, VmError>(true) by {
            assert(same_at(a, b, key, total));
        }
    }
}

/// The entries of a map are shown with commas between them, each one as its key and
/// its value.
pub proof fn lemma_shown_entries(order: Seq<KeyView>, map: Map<KeyView, Value>, n: nat)
    ensures
        shown_entries(order, map, n) == listed(
            n,
            |i: int| shown_key(order[i]) + ": "@ + shown(map[order[i]]),
        ),
    decreases n,
{
    reveal_strlit(", ");
    let part = |i: int| shown_key(order[i]) + ": "@ + shown(map[order[i]]);
    let f = |i: int|
        if i == 0 {
            part(i)
        } else {
            seq![',', ' '] + part(i)
        };
    if n == 0 {
        lemma_joined(0, f);
    } else {
        let m = (n - 1) as nat;
        lemma_shown_entries(order, map, m);
        lemma_joined(m, f);
        assert(", "@ =~= seq![',', ' ']);
        if n == 1 {
            lemma_joined(0, f);
            assert(shown_entries(order, map, n) =~= crate::text_laws::joined(n, f));
        } else {
            assert(shown_entries(order, map, n) =~= crate::text_laws::joined(m, f) + f(m as int));
        }
    }
}

/// A map that was made with a capacity has it. A capacity is never below the number
/// of entries, clearing keeps it, and inserting does not lower it.
pub proof fn lemma_capacity(
    size: usize,
    key: Key,
    value: Value,
    a: HashMap,
    b: HashMap,
    made: Option<Result<Returned, VmError>>,
    n: Option<Result<Returned, VmError>>,
    len: Option<Result<Returned, VmError>>,
    changed: Option<Result<Returned, VmError>>,
    after: Option<Result<Returned, VmError>>,
)
    requires
        called(handlers::CAPACITY, Operands::Nothing, a, a, n),
        called(handlers::LEN, Operands::Nothing, a, a, len),
        called(handlers::CAPACITY, Operands::Nothing, b, b, after),
    ensures
        n matches Some(Ok(Returned::Size(n))) && len matches Some(Ok(Returned::Size(len))) && len
            <= n,
        called(handlers::WITH_CAPACITY, Operands::Size(size), a, a, made) && made == Some(
            Ok::<Returned, VmError>(Returned::HashMap(a)),
        ) ==> n == Some(Ok::<Returned, VmError>(Returned::Size(size))),
        called(handlers::CLEAR, Operands::Nothing, a, b, changed) ==> after == n,
        called(handlers::REMOVE, Operands::Key(key), a, b, changed) ==> after == n,
        called(handlers::INSERT, Operands::Entry(key, value), a, b, changed) ==> (after matches Some(
            Ok(Returned::Size(m)),
        ) && n matches Some(Ok(Returned::Size(n))) && n <= m),
{
}

/// Iterating over the keys gives every key of the map once, and nothing else.
pub proof fn lemma_keys(a: HashMap, b: HashMap, r: Option<Result<Returned, VmError>>)
    requires
        called(handlers::KEYS, Operands::Nothing, a, b, r),
    ensures
        b == a,
        ({
            &&& r matches Some(Ok(Returned::Iterator(it)))
            &&& it.name == "std::collections::map::Keys"
            &&& it.items@.len() == a@.dom().len()
            &&& forall|i: int|
                0 <= i < it.items@.len() ==> #[trigger] it.items@[i] is Ok && key_of(
                    it.items@[i]->Ok_0,
                ) is Ok && a@.contains_key(key_of(it.items@[i]->Ok_0)->Ok_0)
            &&& forall|key: KeyView| #[trigger]
                a@.contains_key(key) ==> exists|i: int|
                    0 <= i < it.items@.len() && is_key(#[trigger] it.items@[i], key)
        }),
{
    let it = r->0->Ok_0->Iterator_0;
    let order = choose|order: Seq<KeyView>| #[trigger]
        is_order(order, a@) && it.items@.len() == order.len() && forall|i: int|
            0 <= i < order.len() ==> is_key(#[trigger] it.items@[i], order[i]);
    order.unique_seq_to_set();
    assert forall|i: int| 0 <= i < it.items@.len() implies #[trigger] it.items@[i] is Ok && key_of(
        it.items@[i]->Ok_0,
    ) is Ok && a@.contains_key(key_of(it.items@[i]->Ok_0)->Ok_0) by {
        assert(is_key(it.items@[i], order[i]));
        assert(order.to_set().contains(order[i]));
    }
    assert forall|key: KeyView| #[trigger] a@.contains_key(key) implies exists|i: int|
        0 <= i < it.items@.len() && is_key(#[trigger] it.items@[i], key) by {
        assert(order.to_set().contains(key));
        let i = choose|i: int| 0 <= i < order.len() && order[i] == key;
        assert(is_key(it.items@[i], order[i]));
    }
}

/// Iterating over the values gives the value of every key, and nothing else.
pub proof fn lemma_values(a: HashMap, b: HashMap, r: Option<Result<Returned, VmError>>)
    requires
        called(handlers::VALUES, Operands::Nothing, a, b, r),
    ensures
        b == a,
        ({
            &&& r matches Some(Ok(Returned::Iterator(it)))
            &&& it.name == "std::collections::map::Values"
            &&& it.items@.len() == a@.dom().len()
            &&& forall|i: int|
                0 <= i < it.items@.len() ==> is_some_value(#[trigger] it.items@[i], a@)
            &&& forall|key: KeyView| #[trigger]
                a@.contains_key(key) ==> exists|i: int|
                    0 <= i < it.items@.len() && is_value(#[trigger] it.items@[i], a@, key)
        }),
{
    let it = r->0->Ok_0->Iterator_0;
    let order = choose|order: Seq<KeyView>| #[trigger]
        is_order(order, a@) && it.items@.len() == order.len() && forall|i: int|
            0 <= i < order.len() ==> #[trigger] it.items@[i] == Ok::<Value, VmError>(
                a@[order[i]],
            );
    order.unique_seq_to_set();
    assert forall|i: int| 0 <= i < it.items@.len() implies is_some_value(
        #[trigger] it.items@[i],
        a@,
    ) by {
        assert(order.to_set().contains(order[i]));
        assert(is_value(it.items@[i], a@, order[i]));
    }
    assert forall|key: KeyView| #[trigger] a@.contains_key(key) implies exists|i: int|
        0 <= i < it.items@.len() && is_value(#[trigger] it.items@[i], a@, key) by {
        assert(order.to_set().contains(key));
        let i = choose|i: int| 0 <= i < order.len() && order[i] == key;
        assert(is_value(it.items@[i], a@, order[i]));
    }
}

/// Test if what an iterator gives is the value of some key.
pub open spec fn is_some_value(item: Result<Value, VmError>, map: Map<KeyView, Value>) -> bool {
    exists|key: KeyView| #[trigger] is_value(item, map, key)
}

/// Test if what an iterator gives is the value of a key.
pub open spec fn is_value(
    item: Result<Value, VmError>,
    map: Map<KeyView, Value>,
    key: KeyView,
) -> bool {
    map.contains_key(key) && item == Ok::<Value, VmError>(map[key])
}

/// Iterating over a map gives a pair of every key and its value, and nothing else.
pub proof fn lemma_iter(a: HashMap, b: HashMap, r: Option<Result<Returned, VmError>>)
    requires
        called(handlers::ITER, Operands::Nothing, a, b, r),
    ensures
        b == a,
        ({
            &&& r matches Some(Ok(Returned::Iterator(it)))
            &&& it.name == "std::collections::map::Iter"
            &&& it.items@.len() == a@.dom().len()
            &&& forall|key: KeyView| #[trigger]
                a@.contains_key(key) ==> exists|i: int|
                    0 <= i < it.items@.len() && is_pair(#[trigger] it.items@[i], key, a@[key])
        }),
{
    let it = r->0->Ok_0->Iterator_0;
    let order = choose|order: Seq<KeyView>| #[trigger]
        is_order(order, a@) && it.items@.len() == order.len() && forall|i: int|
            0 <= i < order.len() ==> is_entry(#[trigger] it.items@[i], order[i], a@[order[i]]);
    order.unique_seq_to_set();
    assert forall|key: KeyView| #[trigger] a@.contains_key(key) implies exists|i: int|
        0 <= i < it.items@.len() && is_pair(#[trigger] it.items@[i], key, a@[key]) by {
        assert(order.to_set().contains(key));
        let i = choose|i: int| 0 <= i < order.len() && order[i] == key;
        assert(is_entry(it.items@[i], order[i], a@[order[i]]));
        assert(is_pair(it.items@[i], key, a@[key]));
    }
}

/// Test if what an iterator gives is the pair of a key and a value.
pub open spec fn is_pair(item: Result<Value, VmError>, key: KeyView, value: Value) -> bool {
    item is Ok && pair_of(item->Ok_0) is Ok && pair_of(item->Ok_0)->Ok_0.0 == key && pair_of(
        item->Ok_0,
    )->Ok_0.1 == value
}

/// A map that is made from a value is what an empty map becomes by being extended by
/// it, and it fails in the same way.
pub proof fn lemma_from_extend(
    value: Value,
    a: HashMap,
    b: HashMap,
    empty: HashMap,
    full: HashMap,
    made: Option<Result<Returned, VmError>>,
    filled: Option<Result<Returned, VmError>>,
)
    requires
        called(handlers::FROM, Operands::Value(value), a, b, made),
        called(handlers::EXTEND, Operands::Value(value), empty, full, filled),
        empty@ == Map::<KeyView, Value>::empty(),
    ensures
        b == a,
        made is Some && filled is Some,
        filled == Some(Ok::<Returned, VmError>(Returned::Unit)) <==> made->0 is Ok,
        made matches Some(Ok(r)) ==> (r matches Returned::HashMap(map) && map@ == full@),
        made matches Some(Err(e)) ==> filled == Some(Err::<Returned, VmError>(e)),
{
}

/// What a value gives when it is iterated over is inserted in order. If it cannot be
/// iterated over, that is the error, and the map stays as it is.
pub proof fn lemma_extend(
    value: Value,
    a: HashMap,
    b: HashMap,
    r: Option<Result<Returned, VmError>>,
)
    requires
        called(handlers::EXTEND, Operands::Value(value), a, b, r),
    ensures
        iterated(value) matches Err(e) ==> b@ == a@ && r == Some(Err::<Returned, VmError>(e)),
        iterated(value) matches Ok(items) ==> b@ == extended(a@, items, 0).0 && match r {
            Some(Ok(returned)) => returned is Unit && extended(a@, items, 0).1 is Ok,
            Some(Err(e)) => extended(a@, items, 0).1 == Err::<(), VmError>(e),
            None => false,
        },
{
}

/// Two maps are equal exactly if they have the same keys, and the values of each are
/// equal. Unless it is to be total, a number that is not one is equal to none.
/// Otherwise it cannot be compared.
pub proof fn lemma_equal_called(
    a: HashMap,
    b: HashMap,
    c: HashMap,
    total: bool,
    r: Option<Result<Returned, VmError>>,
)
    requires
        a@.dom().finite(),
        b@.dom().finite(),
        called(
            if total {
                handlers::EQ
            } else {
                handlers::PARTIAL_EQ
            },
            Operands::HashMap(b),
            a,
            c,
            r,
        ),
        forall|key: KeyView| #[trigger]
            a@.contains_key(key) && b@.contains_key(key) ==> compared(
                a@[key],
                b@[key],
                total,
            ) is Ok,
    ensures
        c == a,
        r matches Some(Ok(Returned::Bool(equal))) && (equal <==> a@.dom() == b@.dom() && forall|
            key: KeyView,
        | #[trigger]
            a@.contains_key(key) ==> compared(a@[key], b@[key], total) == Ok::<bool, VmError>(
                true,
            )),
{
    match r {
        Some(Ok(Returned::Bool(equal))) => lemma_equal_decided(a@, b@, total, Ok(equal)),
        Some(Err(e)) => lemma_equal_decided(a@, b@, total, Err(e)),
        _ => {},
    }
}

} // verus!
