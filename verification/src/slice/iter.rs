//! An iterator over slices.

use vstd::prelude::*;

verus! {

/// An iterator over the elements of a slice, from both ends.
pub struct Iter<'a, T> {
    slice: &'a [T],
    start: usize,
    end: usize,
}

impl<'a, T> Iter<'a, T> {
    #[verifier::type_invariant]
    spec fn inv(self) -> bool {
        self.start <= self.end <= self.slice@.len()
    }

    /// Construct an iterator over a slice.
    pub fn new(slice: &'a [T]) -> (it: Self)
        ensures
            it@ == slice@,
    {
        let it = Iter { slice, start: 0, end: slice.len() };
        assert(it@ =~= slice@);
        it
    }

    /// The number of elements that are left.
    pub fn len(&self) -> (n: usize)
        ensures
            n == self@.len(),
    {
        proof {
            use_type_invariant(self);
        }
        self.end - self.start
    }

    /// Test if no element is left.
    pub fn is_empty(&self) -> (r: bool)
        ensures
            r == (self@.len() == 0),
    {
        proof {
            use_type_invariant(self);
        }
        self.start == self.end
    }

    /// The bounds of the number of elements that are left, which are exact.
    pub fn size_hint(&self) -> (r: (usize, Option<usize>))
        ensures
            r.0 == self@.len(),
            r.1 == Some(r.0),
    {
        let exact: usize = self.len();
        (exact, Some(exact))
    }

    /// Count the elements that are left.
    pub fn count(self) -> (n: usize)
        ensures
            n == self@.len(),
    {
        self.len()
    }

    /// Move the start behind `offset` elements.
    fn post_inc_start(&mut self, offset: usize)
        requires
            offset <= old(self)@.len(),
        ensures
            final(self).slice == old(self).slice,
            final(self).start == old(self).start + offset,
            final(self).end == old(self).end,
            final(self)@ == old(self)@.skip(offset as int),
    {
        proof {
            use_type_invariant(&*self);
        }
        self.start = self.start + offset;
        assert(self@ =~= old(self)@.skip(offset as int));
    }

    /// Move the end before `offset` elements.
    fn pre_dec_end(&mut self, offset: usize)
        requires
            offset <= old(self)@.len(),
        ensures
            final(self).slice == old(self).slice,
            final(self).start == old(self).start,
            final(self).end == old(self).end - offset,
            final(self)@ == old(self)@.take(old(self)@.len() - offset),
    {
        proof {
            use_type_invariant(&*self);
        }
        self.end = self.end - offset;
        assert(self@ =~= old(self)@.take(old(self)@.len() - offset));
    }

    /// Take the first element.
    pub fn next(&mut self) -> (r: Option<&'a T>)
        ensures
            match r {
                Some(x) => old(self)@.len() > 0 && *x == old(self)@[0] && final(self)@
                    == old(self)@.skip(1),
                None => old(self)@.len() == 0 && final(self)@ == old(self)@,
            },
    {
        self.nth(0)
    }

    /// Take the last element.
    pub fn next_back(&mut self) -> (r: Option<&'a T>)
        ensures
            match r {
                Some(x) => old(self)@.len() > 0 && *x == old(self)@.last() && final(self)@
                    == old(self)@.drop_last(),
                None => old(self)@.len() == 0 && final(self)@ == old(self)@,
            },
    {
        self.nth_back(0)
    }

    /// Drop `n` elements at the front, and take the next one. If there are not
    /// so many, all are dropped.
    pub fn nth(&mut self, n: usize) -> (r: Option<&'a T>)
        ensures
            match r {
                Some(x) => n < old(self)@.len() && *x == old(self)@[n as int] && final(self)@
                    == old(self)@.skip(n + 1),
                None => n >= old(self)@.len() && final(self)@.len() == 0,
            },
    {
        proof {
            use_type_invariant(&*self);
        }
        let len: usize = self.len();

        if n >= len {
            self.post_inc_start(len);
            return None;
        }

        self.post_inc_start(n);
        proof {
            use_type_invariant(&*self);
        }
        let x = &self.slice[self.start];
        self.post_inc_start(1);
        assert(self@ =~= old(self)@.skip(n + 1));
        Some(x)
    }

    /// Drop `n` elements at the back, and take the next one. If there are not so
    /// many, all are dropped.
    pub fn nth_back(&mut self, n: usize) -> (r: Option<&'a T>)
        ensures
            match r {
                Some(x) => n < old(self)@.len() && *x == old(self)@[old(self)@.len() - 1 - n]
                    && final(self)@ == old(self)@.take(old(self)@.len() - 1 - n),
                None => n >= old(self)@.len() && final(self)@.len() == 0,
            },
    {
        proof {
            use_type_invariant(&*self);
        }
        let len: usize = self.len();

        if n >= len {
            self.pre_dec_end(len);
            return None;
        }

        self.pre_dec_end(n);
        self.pre_dec_end(1);
        proof {
            use_type_invariant(&*self);
        }
        assert(self@ =~= old(self)@.take(old(self)@.len() - 1 - n));
        Some(&self.slice[self.end])
    }

    /// The last of the elements that are left.
    pub fn last(self) -> (r: Option<&'a T>)
        ensures
            match r {
                Some(x) => self@.len() > 0 && *x == self@.last(),
                None => self@.len() == 0,
            },
    {
        let mut it = self;
        it.next_back()
    }

    /// Combine all elements that are left, from the first to the last.
    pub fn fold<B, F: Fn(B, &'a T) -> B>(self, init: B, f: F) -> (r: B)
        requires
            forall|acc: B, i: int|
                0 <= i < self@.len() ==> call_requires(f, (acc, &#[trigger] self@[i])),
        ensures
            exists|accs: Seq<B>| #[trigger] folds(f, self@, init, accs) && r == accs.last(),
    {
        let mut it = self;
        let mut acc: B = init;
        let ghost mut accs: Seq<B> = seq![init];
        let ghost mut done: Seq<T> = Seq::empty();

        while !it.is_empty()
            invariant
                done + it@ =~= self@,
                folds(f, done, init, accs),
                acc == accs.last(),
                forall|acc: B, i: int|
                    0 <= i < self@.len() ==> call_requires(f, (acc, &#[trigger] self@[i])),
            decreases it@.len(),
        {
            let ghost before = it@;
            if let Some(x) = it.next() {
                assert(self@[done.len() as int] == *x);
                acc = f(acc, x);
                proof {
                    done = done.push(*x);
                    accs = accs.push(acc);
                }
            }
        }

        proof {
            assert(done =~= self@);
        }
        acc
    }

    /// Call a function on every element that is left, from the first to the last.
    pub fn for_each<F: Fn(&'a T)>(self, f: F)
        requires
            forall|i: int| 0 <= i < self@.len() ==> call_requires(f, (&#[trigger] self@[i],)),
        ensures
            forall|i: int| 0 <= i < self@.len() ==> called(f, &#[trigger] self@[i]),
    {
        let mut it = self;
        let ghost mut n: int = 0;

        while !it.is_empty()
            invariant
                0 <= n <= self@.len(),
                it@ =~= self@.skip(n),
                forall|i: int| 0 <= i < self@.len() ==> call_requires(f, (&#[trigger] self@[i],)),
                forall|i: int| 0 <= i < n ==> called(f, &#[trigger] self@[i]),
            decreases it@.len(),
        {
            if let Some(x) = it.next() {
                assert(*x == self@[n]);
                let done = f(x);
                proof {
                    assert(done == ());
                    assert(called(f, x));
                    n = n + 1;
                }
            }
        }
    }

    /// Take elements up to and with the first one for which a test answers
    /// `stop`. Gives its index and the element.
    fn take_until<F: Fn(&'a T) -> bool>(&mut self, f: &F, stop: bool) -> (r: Option<
        (usize, &'a T),
    >)
        requires
            forall|i: int| 0 <= i < old(self)@.len() ==> call_requires(
                *f,
                (&#[trigger] old(self)@[i],),
            ),
        ensures
            match r {
                Some((n, x)) => {
                    &&& n < old(self)@.len() && *x == old(self)@[n as int]
                    &&& call_ensures(*f, (x,), stop)
                    &&& forall|i: int|
                        0 <= i < n ==> call_ensures(*f, (&#[trigger] old(self)@[i],), !stop)
                    &&& final(self)@ == old(self)@.skip(n + 1)
                },
                None => {
                    &&& forall|i: int|
                        0 <= i < old(self)@.len() ==> call_ensures(
                            *f,
                            (&#[trigger] old(self)@[i],),
                            !stop,
                        )
                    &&& final(self)@.len() == 0
                },
            },
    {
        let len: usize = self.len();
        let mut n: usize = 0;

        while !self.is_empty()
            invariant
                0 <= n <= len,
                len == old(self)@.len(),
                self@ =~= old(self)@.skip(n as int),
                forall|i: int| 0 <= i < old(self)@.len() ==> call_requires(
                    *f,
                    (&#[trigger] old(self)@[i],),
                ),
                forall|i: int|
                    0 <= i < n ==> call_ensures(*f, (&#[trigger] old(self)@[i],), !stop),
            decreases self@.len(),
        {
            if let Some(x) = self.next() {
                assert(*x == old(self)@[n as int]);
                if f(x) == stop {
                    assert(self@ =~= old(self)@.skip(n + 1));
                    return Some((n, x));
                }
                n += 1;
            }
        }

        None
    }

    /// Test if all elements that are left pass a test. Elements are taken up to
    /// and with the first one that does not.
    pub fn all<F: Fn(&'a T) -> bool>(&mut self, f: F) -> (r: bool)
        requires
            forall|i: int| 0 <= i < old(self)@.len() ==> call_requires(
                f,
                (&#[trigger] old(self)@[i],),
            ),
        ensures
            if r {
                &&& forall|i: int|
                    0 <= i < old(self)@.len() ==> call_ensures(
                        f,
                        (&#[trigger] old(self)@[i],),
                        true,
                    )
                &&& final(self)@.len() == 0
            } else {
                exists|n: int| #[trigger] stops(f, old(self)@, n, false) && final(self)@
                    == old(self)@.skip(n + 1)
            },
    {
        match self.take_until(&f, false) {
            Some((n, _)) => {
                assert(stops(f, old(self)@, n as int, false));
                false
            },
            None => true,
        }
    }

    /// Test if one of the elements that are left passes a test. Elements are
    /// taken up to and with the first one that does.
    pub fn any<F: Fn(&'a T) -> bool>(&mut self, f: F) -> (r: bool)
        requires
            forall|i: int| 0 <= i < old(self)@.len() ==> call_requires(
                f,
                (&#[trigger] old(self)@[i],),
            ),
        ensures
            if r {
                exists|n: int| #[trigger] stops(f, old(self)@, n, true) && final(self)@
                    == old(self)@.skip(n + 1)
            } else {
                &&& forall|i: int|
                    0 <= i < old(self)@.len() ==> call_ensures(
                        f,
                        (&#[trigger] old(self)@[i],),
                        false,
                    )
                &&& final(self)@.len() == 0
            },
    {
        match self.take_until(&f, true) {
            Some((n, _)) => {
                assert(stops(f, old(self)@, n as int, true));
                true
            },
            None => false,
        }
    }

    /// Find the first element that passes a test. Elements are taken up to and
    /// with it.
    pub fn find<F: Fn(&'a T) -> bool>(&mut self, f: F) -> (r: Option<&'a T>)
        requires
            forall|i: int| 0 <= i < old(self)@.len() ==> call_requires(
                f,
                (&#[trigger] old(self)@[i],),
            ),
        ensures
            match r {
                Some(x) => exists|n: int| #[trigger]
                    stops(f, old(self)@, n, true) && *x == old(self)@[n] && final(self)@
                        == old(self)@.skip(n + 1),
                None => {
                    &&& forall|i: int|
                        0 <= i < old(self)@.len() ==> call_ensures(
                            f,
                            (&#[trigger] old(self)@[i],),
                            false,
                        )
                    &&& final(self)@.len() == 0
                },
            },
    {
        match self.take_until(&f, true) {
            Some((n, x)) => {
                assert(stops(f, old(self)@, n as int, true));
                Some(x)
            },
            None => None,
        }
    }

    /// Find the index of the first element that passes a test. Elements are
    /// taken up to and with it.
    pub fn position<F: Fn(&'a T) -> bool>(&mut self, f: F) -> (r: Option<usize>)
        requires
            forall|i: int| 0 <= i < old(self)@.len() ==> call_requires(
                f,
                (&#[trigger] old(self)@[i],),
            ),
        ensures
            match r {
                Some(n) => stops(f, old(self)@, n as int, true) && final(self)@
                    == old(self)@.skip(n + 1),
                None => {
                    &&& forall|i: int|
                        0 <= i < old(self)@.len() ==> call_ensures(
                            f,
                            (&#[trigger] old(self)@[i],),
                            false,
                        )
                    &&& final(self)@.len() == 0
                },
            },
    {
        match self.take_until(&f, true) {
            Some((n, _)) => Some(n),
            None => None,
        }
    }

    /// Find the index of the last element that passes a test. Elements are
    /// taken from the back, up to and with it.
    pub fn rposition<F: Fn(&'a T) -> bool>(&mut self, f: F) -> (r: Option<usize>)
        requires
            forall|i: int| 0 <= i < old(self)@.len() ==> call_requires(
                f,
                (&#[trigger] old(self)@[i],),
            ),
        ensures
            match r {
                Some(n) => {
                    &&& n < old(self)@.len()
                    &&& call_ensures(f, (&old(self)@[n as int],), true)
                    &&& forall|i: int|
                        n < i < old(self)@.len() ==> call_ensures(
                            f,
                            (&#[trigger] old(self)@[i],),
                            false,
                        )
                    &&& final(self)@ == old(self)@.take(n as int)
                },
                None => {
                    &&& forall|i: int|
                        0 <= i < old(self)@.len() ==> call_ensures(
                            f,
                            (&#[trigger] old(self)@[i],),
                            false,
                        )
                    &&& final(self)@.len() == 0
                },
            },
    {
        let mut i: usize = self.len();

        while !self.is_empty()
            invariant
                i <= old(self)@.len(),
                self@ =~= old(self)@.take(i as int),
                forall|j: int| 0 <= j < old(self)@.len() ==> call_requires(
                    f,
                    (&#[trigger] old(self)@[j],),
                ),
                forall|j: int|
                    i <= j < old(self)@.len() ==> call_ensures(
                        f,
                        (&#[trigger] old(self)@[j],),
                        false,
                    ),
            decreases self@.len(),
        {
            if let Some(x) = self.next_back() {
                i -= 1;
                assert(*x == old(self)@[i as int]);
                if f(x) {
                    assert(self@ =~= old(self)@.take(i as int));
                    return Some(i);
                }
            }
        }

        None
    }

    /// Find the first result that a function gives of an element. Elements are
    /// taken up to and with the one that it is of.
    pub fn find_map<B, F: Fn(&'a T) -> Option<B>>(&mut self, f: F) -> (r: Option<B>)
        requires
            forall|i: int| 0 <= i < old(self)@.len() ==> call_requires(
                f,
                (&#[trigger] old(self)@[i],),
            ),
        ensures
            match r {
                Some(y) => exists|n: int|
                    {
                        &&& 0 <= n < old(self)@.len()
                        &&& call_ensures(f, (&#[trigger] old(self)@[n],), Some(y))
                        &&& forall|i: int|
                            0 <= i < n ==> call_ensures(
                                f,
                                (&#[trigger] old(self)@[i],),
                                None,
                            )
                        &&& final(self)@ == old(self)@.skip(n + 1)
                    },
                None => {
                    &&& forall|i: int|
                        0 <= i < old(self)@.len() ==> call_ensures(
                            f,
                            (&#[trigger] old(self)@[i],),
                            None,
                        )
                    &&& final(self)@.len() == 0
                },
            },
    {
        let ghost mut n: int = 0;

        while !self.is_empty()
            invariant
                0 <= n <= old(self)@.len(),
                self@ =~= old(self)@.skip(n),
                forall|i: int| 0 <= i < old(self)@.len() ==> call_requires(
                    f,
                    (&#[trigger] old(self)@[i],),
                ),
                forall|i: int|
                    0 <= i < n ==> call_ensures(f, (&#[trigger] old(self)@[i],), None),
            decreases self@.len(),
        {
            if let Some(x) = self.next() {
                assert(*x == old(self)@[n]);
                match f(x) {
                    Some(y) => {
                        assert(self@ =~= old(self)@.skip(n + 1));
                        return Some(y);
                    },
                    None => {},
                }
                proof {
                    n = n + 1;
                }
            }
        }

        None
    }
}

impl<'a, T> View for Iter<'a, T> {
    type V = Seq<T>;

    /// The elements that are left.
    closed spec fn view(&self) -> Seq<T> {
        self.slice@.subrange(self.start as int, self.end as int)
    }
}

/// Test if a function can have been called on an element.
pub open spec fn called<'a, T: 'a, F: Fn(&'a T)>(f: F, x: &'a T) -> bool {
    call_ensures(f, (x,), ())
}

/// Test if a test answers `stop` at index `n`, and not before.
pub open spec fn stops<'a, T: 'a, F: Fn(&'a T) -> bool>(
    f: F,
    elements: Seq<T>,
    n: int,
    stop: bool,
) -> bool {
    &&& 0 <= n < elements.len()
    &&& call_ensures(f, (&elements[n],), stop)
    &&& forall|i: int| 0 <= i < n ==> call_ensures(f, (&#[trigger] elements[i],), !stop)
}

/// Test if `accs` is what a function makes of `init` and the elements, one after
/// the other.
pub open spec fn folds<'a, T: 'a, B, F: Fn(B, &'a T) -> B>(
    f: F,
    elements: Seq<T>,
    init: B,
    accs: Seq<B>,
) -> bool {
    &&& accs.len() == elements.len() + 1
    &&& accs[0] == init
    &&& forall|i: int|
        0 <= i < elements.len() ==> call_ensures(
            f,
            (#[trigger] accs[i], &elements[i]),
            accs[i + 1],
        )
}

} // verus!
