//! Sets of paths.

use vstd::prelude::*;

verus! {

/// Test if one sequence is before another one, from index `i` on: at the first
/// index where they are different it has the lower element, or it ends there.
pub open spec fn lower_from<T>(a: Seq<T>, b: Seq<T>, lower: spec_fn(T, T) -> bool, i: int) -> bool
    decreases b.len() - i,
{
    if i < 0 || i >= b.len() {
        false
    } else if i >= a.len() {
        true
    } else if a[i] != b[i] {
        lower(a[i], b[i])
    } else {
        lower_from(a, b, lower, i + 1)
    }
}

/// Test if a relation puts all elements in one order.
pub open spec fn is_order<T>(lower: spec_fn(T, T) -> bool) -> bool {
    &&& forall|x: T, y: T| #[trigger] lower(x, y) ==> !lower(y, x)
    &&& forall|x: T, y: T, z: T|
        #![trigger lower(x, y), lower(y, z)]
        lower(x, y) && lower(y, z) ==> lower(x, z)
    &&& forall|x: T, y: T| x != y ==> #[trigger] lower(x, y) || lower(y, x)
}

proof fn lemma_lower_asymmetric<T>(a: Seq<T>, b: Seq<T>, lower: spec_fn(T, T) -> bool, i: int)
    requires
        is_order(lower),
        0 <= i,
        lower_from(a, b, lower, i),
    ensures
        !lower_from(b, a, lower, i),
    decreases b.len() - i,
{
    if i < b.len() && i < a.len() && a[i] == b[i] {
        lemma_lower_asymmetric(a, b, lower, i + 1);
    }
}

proof fn lemma_lower_transitive<T>(
    a: Seq<T>,
    b: Seq<T>,
    c: Seq<T>,
    lower: spec_fn(T, T) -> bool,
    i: int,
)
    requires
        is_order(lower),
        0 <= i,
        lower_from(a, b, lower, i),
        lower_from(b, c, lower, i),
    ensures
        lower_from(a, c, lower, i),
    decreases c.len() - i,
{
    if i < a.len() && i < b.len() && i < c.len() {
        if a[i] == b[i] && b[i] == c[i] {
            lemma_lower_transitive(a, b, c, lower, i + 1);
        } else if a[i] == c[i] {
            assert(lower(a[i], b[i]) ==> !lower(b[i], a[i]));
        }
    }
}

proof fn lemma_lower_total<T>(a: Seq<T>, b: Seq<T>, lower: spec_fn(T, T) -> bool, i: int)
    requires
        is_order(lower),
        0 <= i <= a.len(),
        i <= b.len(),
        a.take(i) == b.take(i),
    ensures
        a == b || lower_from(a, b, lower, i) || lower_from(b, a, lower, i),
    decreases b.len() - i,
{
    if i < a.len() && i < b.len() {
        if a[i] == b[i] {
            assert(a.take(i + 1) =~= a.take(i).push(a[i]));
            assert(b.take(i + 1) =~= b.take(i).push(b[i]));
            lemma_lower_total(a, b, lower, i + 1);
        } else {
            assert(lower(a[i], b[i]) || lower(b[i], a[i]));
        }
    } else if i == a.len() && i == b.len() {
        assert(a =~= a.take(i));
        assert(b =~= b.take(i));
    }
}

/// The order of sequences puts all sequences in one order, if the one of their
/// elements does.
proof fn lemma_lower_order<T>(lower: spec_fn(T, T) -> bool)
    requires
        is_order(lower),
    ensures
        is_order(|a: Seq<T>, b: Seq<T>| lower_from(a, b, lower, 0)),
{
    assert forall|a: Seq<T>, b: Seq<T>| #[trigger] lower_from(a, b, lower, 0) implies !lower_from(
        b,
        a,
        lower,
        0,
    ) by {
        lemma_lower_asymmetric(a, b, lower, 0);
    }
    assert forall|a: Seq<T>, b: Seq<T>, c: Seq<T>|
        #![trigger lower_from(a, b, lower, 0), lower_from(b, c, lower, 0)]
        lower_from(a, b, lower, 0) && lower_from(b, c, lower, 0) implies lower_from(
        a,
        c,
        lower,
        0,
    ) by {
        lemma_lower_transitive(a, b, c, lower, 0);
    }
    assert forall|a: Seq<T>, b: Seq<T>| a != b implies #[trigger] lower_from(a, b, lower, 0)
        || lower_from(b, a, lower, 0) by {
        assert(a.take(0) =~= b.take(0));
        lemma_lower_total(a, b, lower, 0);
    }
}

/// The order of bytes.
pub open spec fn byte_lower() -> spec_fn(u8, u8) -> bool {
    |a: u8, b: u8| a < b
}

/// The order of components, by their bytes.
pub open spec fn component_lower() -> spec_fn(Seq<u8>, Seq<u8>) -> bool {
    |a: Seq<u8>, b: Seq<u8>| lower_from(a, b, byte_lower(), 0)
}

/// Test if one path is before another one, by their components.
pub open spec fn before(a: Seq<Seq<u8>>, b: Seq<Seq<u8>>) -> bool {
    lower_from(a, b, component_lower(), 0)
}

/// Paths are in one order.
pub proof fn lemma_before()
    ensures
        is_order(|a: Seq<Seq<u8>>, b: Seq<Seq<u8>>| before(a, b)),
        forall|a: Seq<Seq<u8>>, b: Seq<Seq<u8>>| #[trigger] before(a, b) ==> !before(b, a),
        forall|a: Seq<Seq<u8>>, b: Seq<Seq<u8>>, c: Seq<Seq<u8>>|
            #![trigger before(a, b), before(b, c)]
            before(a, b) && before(b, c) ==> before(a, c),
        forall|a: Seq<Seq<u8>>, b: Seq<Seq<u8>>| a != b ==> #[trigger] before(a, b) || before(b, a),
{
    assert(is_order(byte_lower()));
    lemma_lower_order(byte_lower());
    assert(component_lower() == (|a: Seq<u8>, b: Seq<u8>| lower_from(a, b, byte_lower(), 0)));
    lemma_lower_order(component_lower());
    let order = |a: Seq<Seq<u8>>, b: Seq<Seq<u8>>| lower_from(a, b, component_lower(), 0);
    assert forall|a: Seq<Seq<u8>>, b: Seq<Seq<u8>>| #[trigger] before(
        a,
        b,
    ) implies !before(b, a) by {
        assert(order(a, b));
    }
    assert forall|a: Seq<Seq<u8>>, b: Seq<Seq<u8>>, c: Seq<Seq<u8>>|
        #![trigger before(a, b), before(b, c)]
        before(a, b) && before(b, c) implies before(a, c) by {
        assert(order(a, b) && order(b, c));
    }
    assert forall|a: Seq<Seq<u8>>, b: Seq<Seq<u8>>| a != b implies #[trigger] before(a, b)
        || before(b, a) by {
        assert(order(a, b) || order(b, a));
    }
}

/// A path. A component is held as bytes: what sort of component it is, and then
/// its name.
#[derive(Debug, PartialEq, Eq)]
pub struct Path {
    /// The components of the path.
    pub components: Vec<Vec<u8>>,
}

impl View for Path {
    type V = Seq<Seq<u8>>;

    open spec fn view(&self) -> Seq<Seq<u8>> {
        self.components@.map_values(|c: Vec<u8>| c@)
    }
}

/// The mathematical values of paths.
pub open spec fn paths_view(paths: Seq<Path>) -> Seq<Seq<Seq<u8>>> {
    paths.map_values(|p: Path| p@)
}

/// How two things are ordered.
#[derive(Debug, Clone, Copy, PartialEq, Eq, Structural)]
enum Order {
    Before,
    Same,
    Behind,
}

/// Compare two components.
fn compare_components(a: &Vec<u8>, b: &Vec<u8>) -> (r: Order)
    ensures
        match r {
            Order::Before => a@ != b@ && component_lower()(a@, b@),
            Order::Same => a@ == b@,
            Order::Behind => a@ != b@ && !component_lower()(a@, b@),
        },
{
    let mut i: usize = 0;

    while i < b.len()
        invariant
            i <= a@.len(),
            i <= b@.len(),
            a@.take(i as int) =~= b@.take(i as int),
            component_lower()(a@, b@) == lower_from(a@, b@, byte_lower(), i as int),
        decreases b@.len() - i,
    {
        if i >= a.len() {
            return Order::Before;
        }

        if a[i] != b[i] {
            return if a[i] < b[i] {
                Order::Before
            } else {
                Order::Behind
            };
        }

        assert(a@.take(i + 1) =~= a@.take(i as int).push(a@[i as int]));
        assert(b@.take(i + 1) =~= b@.take(i as int).push(b@[i as int]));
        i += 1;
    }

    if a.len() == b.len() {
        assert(a@.take(i as int) =~= a@);
        assert(b@.take(i as int) =~= b@);
        Order::Same
    } else {
        Order::Behind
    }
}

impl Path {
    /// Compare two paths.
    fn compare(&self, other: &Path) -> (r: Order)
        ensures
            match r {
                Order::Before => before(self@, other@),
                Order::Same => self@ == other@,
                Order::Behind => self@ != other@ && !before(self@, other@),
            },
    {
        let mut i: usize = 0;

        while i < other.components.len()
            invariant
                i <= self.components@.len(),
                i <= other.components@.len(),
                self@.take(i as int) =~= other@.take(i as int),
                before(self@, other@) == lower_from(self@, other@, component_lower(), i as int),
            decreases other.components@.len() - i,
        {
            if i >= self.components.len() {
                return Order::Before;
            }

            assert(self@[i as int] == self.components@[i as int]@);
            assert(other@[i as int] == other.components@[i as int]@);
            match compare_components(&self.components[i], &other.components[i]) {
                Order::Same => {},
                r => return r,
            }

            assert(self@.take(i + 1) =~= self@.take(i as int).push(self@[i as int]));
            assert(other@.take(i + 1) =~= other@.take(i as int).push(other@[i as int]));
            i += 1;
        }

        if self.components.len() == other.components.len() {
            assert(self@.take(i as int) =~= self@);
            assert(other@.take(i as int) =~= other@);
            Order::Same
        } else {
            Order::Behind
        }
    }
}

/// Test if every path is before those behind it.
pub open spec fn is_sorted(paths: Seq<Seq<Seq<u8>>>) -> bool {
    forall|i: int, j: int| 0 <= i < j < paths.len() ==> before(paths[i], paths[j])
}

/// A set of paths, in order.
///
/// The paths stand in a vector: of a set of the standard library nothing is known
/// unless it holds plain numbers.
#[derive(Debug)]
pub struct PathSet {
    /// The paths, in order.
    pub paths: Vec<Path>,
}

impl View for PathSet {
    type V = Seq<Seq<Seq<u8>>>;

    /// The paths, in order.
    open spec fn view(&self) -> Seq<Seq<Seq<u8>>> {
        paths_view(self.paths@)
    }
}

impl PathSet {
    /// Construct an empty set.
    pub fn new() -> (set: Self)
        ensures
            is_sorted(set@),
            set@ == Seq::<Seq<Seq<u8>>>::empty(),
    {
        let set = PathSet { paths: Vec::new() };
        assert(set@ =~= Seq::empty());
        set
    }

    /// Insert a path, unless it is there.
    pub fn insert(&mut self, path: Path)
        requires
            is_sorted(old(self)@),
        ensures
            is_sorted(final(self)@),
            final(self)@.to_set() == old(self)@.to_set().insert(path@),
    {
        proof {
            lemma_before();
        }
        let mut i: usize = 0;

        while i < self.paths.len()
            invariant
                i <= self.paths@.len(),
                self@ == old(self)@,
                is_sorted(self@),
                forall|j: int| 0 <= j < i ==> before(#[trigger] self@[j], path@),
            decreases self.paths@.len() - i,
        {
            assert(self@[i as int] == self.paths@[i as int]@);
            match self.paths[i].compare(&path) {
                Order::Before => {},
                Order::Same => {
                    assert(self@.contains(path@));
                    assert(self@.to_set() =~= old(self)@.to_set().insert(path@));
                    return;
                },
                Order::Behind => {
                    proof {
                        lemma_before();
                        lemma_inserted(self@, i as int, path@);
                    }
                    let ghost previous = self@;
                    self.paths.insert(i, path);
                    assert(self@ =~= previous.insert(i as int, path@));
                    return;
                },
            }
            i += 1;
        }

        proof {
            lemma_inserted(self@, i as int, path@);
        }
        let ghost previous = self@;
        self.paths.push(path);
        assert(self@ =~= previous.insert(i as int, path@));
    }
}

/// Inserting a path in its place keeps the order, and puts it into the set.
proof fn lemma_inserted(paths: Seq<Seq<Seq<u8>>>, i: int, path: Seq<Seq<u8>>)
    requires
        is_sorted(paths),
        0 <= i <= paths.len(),
        forall|j: int| 0 <= j < i ==> before(#[trigger] paths[j], path),
        i < paths.len() ==> before(path, paths[i]),
    ensures
        is_sorted(paths.insert(i, path)),
        paths.insert(i, path).to_set() == paths.to_set().insert(path),
{
    lemma_before();
    let after = paths.insert(i, path);
    assert forall|j: int, k: int| 0 <= j < k < after.len() implies before(after[j], after[k]) by {
        if j == i && k > i + 1 {
            assert(before(paths[i], paths[k - 1]));
        }
    }
    assert forall|p: Seq<Seq<u8>>| #[trigger] after.to_set().contains(p)
        == paths.to_set().insert(path).contains(p) by {
        if paths.contains(p) {
            let j = choose|j: int| 0 <= j < paths.len() && paths[j] == p;
            if j < i {
                assert(after[j] == p);
            } else {
                assert(after[j + 1] == p);
            }
        }
        assert(after[i] == path);
        if after.contains(p) {
            let j = choose|j: int| 0 <= j < after.len() && after[j] == p;
            if j < i {
                assert(paths[j] == p);
            } else if j > i {
                assert(paths[j - 1] == p);
            }
        }
    }
    assert(after.to_set() =~= paths.to_set().insert(path));
}

/// There is one order of a set of paths.
pub proof fn lemma_unique(a: Seq<Seq<Seq<u8>>>, b: Seq<Seq<Seq<u8>>>)
    requires
        is_sorted(a),
        is_sorted(b),
        a.to_set() == b.to_set(),
    ensures
        a == b,
    decreases a.len(),
{
    lemma_before();
    if a.len() == 0 {
        if b.len() > 0 {
            assert(b.to_set().contains(b[0]));
            assert(a.contains(b[0]));
        }
        assert(a =~= b);
    } else {
        let last = a.last();
        assert(a.to_set().contains(last));
        assert(b.contains(last));
        let k = choose|k: int| 0 <= k < b.len() && b[k] == last;
        if k < b.len() - 1 {
            assert(b.to_set().contains(b.last()));
            assert(a.contains(b.last()));
            let j = choose|j: int| 0 <= j < a.len() && a[j] == b.last();
            assert(before(b[k], b[b.len() - 1]));
            if j < a.len() - 1 {
                assert(before(a[j], a[a.len() - 1]));
            }
        }
        let x = a.drop_last();
        let y = b.drop_last();
        assert forall|p: Seq<Seq<u8>>| #[trigger] x.to_set().contains(p) == y.to_set().contains(
            p,
        ) by {
            if x.contains(p) {
                let j = choose|j: int| 0 <= j < x.len() && x[j] == p;
                assert(before(a[j], a[a.len() - 1]));
                assert(a.contains(a[j]));
                assert(b.to_set().contains(p));
                let i = choose|i: int| 0 <= i < b.len() && b[i] == p;
                assert(y[i] == p);
            }
            if y.contains(p) {
                let j = choose|j: int| 0 <= j < y.len() && y[j] == p;
                assert(before(b[j], b[b.len() - 1]));
                assert(b.contains(b[j]));
                assert(a.to_set().contains(p));
                let i = choose|i: int| 0 <= i < a.len() && a[i] == p;
                assert(x[i] == p);
            }
        }
        assert(x.to_set() =~= y.to_set());
        lemma_unique(x, y);
        assert(a =~= x.push(last));
        assert(b =~= y.push(last));
    }
}

} // verus!
