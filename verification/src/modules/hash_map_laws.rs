//! Laws of hash maps.

use vstd::prelude::*;
use crate::modules::hash_map::{equals, extended, is_entry, is_order, lists_entries, same_at};
use crate::runtime::value::{lemma_symmetric, lemma_total, KeyView};
use crate::runtime::{Value, VmError};

verus! {

/// Inserting the entries of a map that are listed from index `i` on.
proof fn lemma_extended_from(
    base: Map<KeyView, Value>,
    items: Seq<Result<Value, VmError>>,
    map: Map<KeyView, Value>,
    order: Seq<KeyView>,
    i: int,
)
    requires
        0 <= i <= items.len(),
        items.len() == order.len(),
        order.to_set() == map.dom(),
        forall|j: int| 0 <= j < order.len()
            ==> is_entry(#[trigger] items[j], order[j], map[order[j]]),
        forall|j: int| 0 <= j < i ==> base.contains_key(#[trigger] order[j]),
        forall|j: int| 0 <= j < i ==> base[#[trigger] order[j]] == map[order[j]],
    ensures
        extended(base, items, i) == (base.union_prefer_right(map), Ok::<(), VmError>(())),
    decreases items.len() - i,
{
    reveal(extended);
    if i < items.len() {
        let next = base.insert(order[i], map[order[i]]);
        assert(is_entry(items[i], order[i], map[order[i]]));
        assert(order.to_set().contains(order[i]));
        lemma_extended_from(next, items, map, order, i + 1);
        assert(next.union_prefer_right(map) =~= base.union_prefer_right(map));
    } else {
        assert forall|key: KeyView| #[trigger] map.contains_key(key) implies base.contains_key(key)
            && base[key] == map[key] by {
            assert(order.to_set().contains(key));
            let j = choose|j: int| 0 <= j < order.len() && order[j] == key;
            assert(base.contains_key(order[j]));
        }
        assert(base.union_prefer_right(map) =~= base);
    }
}

/// A map that is extended with what iterating over another one gives holds the
/// entries of both. Where both have a key, the value is the one of the other.
pub proof fn lemma_extended(
    base: Map<KeyView, Value>,
    items: Seq<Result<Value, VmError>>,
    map: Map<KeyView, Value>,
)
    requires
        lists_entries(items, map),
    ensures
        extended(base, items, 0) == (base.union_prefer_right(map), Ok::<(), VmError>(())),
{
    let order = choose|order: Seq<KeyView>| #[trigger]
        is_order(order, map) && items.len() == order.len() && forall|i: int|
            0 <= i < order.len() ==> is_entry(#[trigger] items[i], order[i], map[order[i]]);
    lemma_extended_from(base, items, map, order, 0);
}

/// A map that is made of what iterating over a map gives is that map.
pub proof fn lemma_round_trip(items: Seq<Result<Value, VmError>>, map: Map<KeyView, Value>)
    requires
        lists_entries(items, map),
    ensures
        extended(Map::empty(), items, 0) == (map, Ok::<(), VmError>(())),
{
    lemma_extended(Map::empty(), items, map);
    assert(Map::<KeyView, Value>::empty().union_prefer_right(map) =~= map);
}

/// Maps that are equal have the same keys.
pub proof fn lemma_equal_keys(a: Map<KeyView, Value>, b: Map<KeyView, Value>, total: bool)
    requires
        a.dom().finite(),
        b.dom().finite(),
        equals(a, b, total, Ok(true)),
    ensures
        a.dom() == b.dom(),
{
    assert forall|key: KeyView| #[trigger] a.dom().contains(key) implies b.dom().contains(key) by {
        assert(a.contains_key(key));
        assert(same_at(a, b, key, total));
    }
    vstd::set_lib::lemma_subset_equality(a.dom(), b.dom());
}

/// If a map is equal to another one, then the other one is equal to it.
pub proof fn lemma_equal_symmetric(a: Map<KeyView, Value>, b: Map<KeyView, Value>, total: bool)
    requires
        a.dom().finite(),
        b.dom().finite(),
        equals(a, b, total, Ok(true)),
    ensures
        equals(b, a, total, Ok(true)),
{
    lemma_equal_keys(a, b, total);
    assert forall|key: KeyView| #[trigger] b.contains_key(key) implies same_at(
        b,
        a,
        key,
        total,
    ) by {
        assert(a.dom().contains(key));
        assert(a.contains_key(key));
        assert(same_at(a, b, key, total));
        lemma_symmetric(a[key], b[key], total);
    }
}

/// If two maps are equal when they are compared totally, then they are when they
/// are compared partially.
pub proof fn lemma_equal_total(a: Map<KeyView, Value>, b: Map<KeyView, Value>)
    requires
        equals(a, b, true, Ok(true)),
    ensures
        equals(a, b, false, Ok(true)),
{
    assert forall|key: KeyView| #[trigger] a.contains_key(key) implies same_at(
        a,
        b,
        key,
        false,
    ) by {
        assert(same_at(a, b, key, true));
        lemma_total(a[key], b[key]);
    }
}

} // verus!
