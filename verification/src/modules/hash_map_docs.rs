//! The documentation of the functions of hash maps.

use vstd::prelude::*;

verus! {

/// Documentation of `new`.
pub const NEW: &'static str = " Creates an empty `HashMap`.

 The hash map is initially created with a capacity of 0, so it will not
 allocate until it is first inserted into.

 # Examples

 ```rune
 use std::collections::HashMap;
 let map = HashMap::new();
 ```";

/// Documentation of `with_capacity`.
pub const WITH_CAPACITY: &'static str = " Creates an empty `HashMap` with at least the specified capacity.

 The hash map will be able to hold at least `capacity` elements without
 reallocating. This method is allowed to allocate for more elements than
 `capacity`. If `capacity` is 0, the hash map will not allocate.

 # Examples

 ```rune
 use std::collections::HashMap;
 let map = HashMap::with_capacity(10);
 ```";

/// Documentation of `len`.
pub const LEN: &'static str = " Returns the number of elements in the map.

 # Examples

 ```rune
 use std::collections::HashMap;

 let a = HashMap::new();
 assert_eq!(a.len(), 0);
 a.insert(1, \"a\");
 assert_eq!(a.len(), 1);
 ```";

/// Documentation of `capacity`.
pub const CAPACITY: &'static str = " Returns the number of elements the map can hold without reallocating.

 This number is a lower bound; the `HashMap<K, V>` might be able to hold
 more, but is guaranteed to be able to hold at least this many.

 # Examples

 ```rune
 use std::collections::HashMap;
 let map = HashMap::with_capacity(100);
 assert!(map.capacity() >= 100);
 ```";

/// Documentation of `is_empty`.
pub const IS_EMPTY: &'static str = " Returns `true` if the map contains no elements.

 # Examples

 ```rune
 use std::collections::HashMap;

 let a = HashMap::new();
 assert!(a.is_empty());
 a.insert(1, \"a\");
 assert!(!a.is_empty());
 ```";

/// Documentation of `insert`.
pub const INSERT: &'static str = " Inserts a key-value pair into the map.

 If the map did not have this key present, [`None`] is returned.

 If the map did have this key present, the value is updated, and the old
 value is returned. The key is not updated, though; this matters for
 types that can be `==` without being identical. See the [module-level
 documentation] for more.

 [module-level documentation]: crate::collections#insert-and-complex-keys

 # Examples

 ```rune
 use std::collections::HashMap;

 let map = HashMap::new();
 assert_eq!(map.insert(37, \"a\"), None);
 assert_eq!(map.is_empty(), false);

 map.insert(37, \"b\");
 assert_eq!(map.insert(37, \"c\"), Some(\"b\"));
 assert_eq!(map[37], \"c\");
 ```";

/// Documentation of `get`.
pub const GET: &'static str = " Returns the value corresponding to the [`Key`].

 # Examples

 ```rune
 use std::collections::HashMap;

 let map = HashMap::new();
 map.insert(1, \"a\");
 assert_eq!(map.get(1), Some(\"a\"));
 assert_eq!(map.get(2), None);
 ```";

/// Documentation of `contains_key`.
pub const CONTAINS_KEY: &'static str = " Returns `true` if the map contains a value for the specified [`Key`].

 # Examples

 ```rune
 use std::collections::HashMap;

 let map = HashMap::new();
 map.insert(1, \"a\");
 assert_eq!(map.contains_key(1), true);
 assert_eq!(map.contains_key(2), false);
 ```";

/// Documentation of `remove`.
pub const REMOVE: &'static str = " Removes a key from the map, returning the value at the [`Key`] if the
 key was previously in the map.

 # Examples

 ```rune
 use std::collections::HashMap;

 let map = HashMap::new();
 map.insert(1, \"a\");
 assert_eq!(map.remove(1), Some(\"a\"));
 assert_eq!(map.remove(1), None);
 ```";

/// Documentation of `clear`.
pub const CLEAR: &'static str = " Clears the map, removing all key-value pairs. Keeps the allocated memory
 for reuse.

 # Examples

 ```rune
 use std::collections::HashMap;

 let a = HashMap::new();
 a.insert(1, \"a\");
 a.clear();
 assert!(a.is_empty());
 ```";

/// Documentation of `keys`.
pub const KEYS: &'static str = " An iterator visiting all keys in arbitrary order.

 # Examples

 ```rune
 use std::collections::HashMap;

 let map = HashMap::from([
     (\"a\", 1),
     (\"b\", 2),
     (\"c\", 3),
 ]);

 let keys = map.keys().collect::<Vec>();
 keys.sort::<String>();
 assert_eq!(keys, [\"a\", \"b\", \"c\"]);
 ```

 # Performance

 In the current implementation, iterating over keys takes O(capacity)
 time instead of O(len) because it internally visits empty buckets too.";

/// Documentation of `values`.
pub const VALUES: &'static str = " An iterator visiting all values in arbitrary order.

 # Examples

 ```rune
 use std::collections::HashMap;

 let map = HashMap::from([
     (\"a\", 1),
     (\"b\", 2),
     (\"c\", 3),
 ]);

 let values = map.values().collect::<Vec>();
 values.sort::<i64>();
 assert_eq!(values, [1, 2, 3]);
 ```

 # Performance

 In the current implementation, iterating over values takes O(capacity)
 time instead of O(len) because it internally visits empty buckets too.";

/// Documentation of `extend`.
pub const EXTEND: &'static str = " Extend this map from an iterator.

 # Examples

 ```rune
 use std::collections::HashMap;

 let map = HashMap::new();

 map.extend([
     (\"a\", 1),
     (\"b\", 2),
     (\"c\", 3),
 ]);
 ```";

/// Documentation of `from`.
pub const FROM: &'static str = " Convert a hashmap from a `value`.

 The hashmap can be converted from anything that implements the [`INTO_ITER`]
 protocol, and each item produces should be a tuple pair.";

/// Documentation of `clone`.
pub const CLONE: &'static str = " Clone the map.

 # Examples

 ```rune
 use std::collections::HashMap;

 let a = HashMap::from([(\"a\", 1), (\"b\", 2)]);
 let b = a.clone();

 b.insert(\"c\", 3);

 assert_eq!(a.len(), 2);
 assert_eq!(b.len(), 3);
 ```";

} // verus!
