//! An iterator over slices through which they can be changed.

use vstd::prelude::*;

verus! {

/// An iterator over the elements of a slice, from both ends, through which they
/// can be changed. What has been taken from it can be changed independently of
/// what is left.
pub struct IterMut<'a, T> {
    /// The elements that are left.
    pub rest: &'a mut [T],
}

impl<'a, T> IterMut<'a, T> {
    /// Construct an iterator over a slice.
    pub fn new(slice: &'a mut [T]) -> (it: Self)
        ensures
            it.rest@ == old(slice)@,
            final(it.rest)@ == final(slice)@,
    {
        IterMut { rest: slice }
    }

    /// The number of elements that are left.
    pub fn len(&self) -> (n: usize)
        ensures
            n == old(self.rest)@.len(),
    {
        self.rest.len()
    }

    /// Test if no element is left.
    pub fn is_empty(&self) -> (r: bool)
        ensures
            r == (old(self.rest)@.len() == 0),
    {
        self.rest.len() == 0
    }

    /// The bounds of the number of elements that are left, which are exact.
    pub fn size_hint(&self) -> (r: (usize, Option<usize>))
        ensures
            r.0 == old(self.rest)@.len(),
            r.1 == Some(r.0),
    {
        let exact: usize = self.len();
        (exact, Some(exact))
    }

    /// Count the elements that are left, none of which is changed.
    pub fn count(self) -> (n: usize)
        ensures
            n == old(self.rest)@.len(),
            final(self.rest)@ == old(self.rest)@,
    {
        self.rest.len()
    }

    /// Move the start behind `offset` elements, which are not changed.
    fn post_inc_start(&mut self, offset: usize)
        requires
            offset <= old(self).rest@.len(),
        ensures
            final(self).rest@ == old(self).rest@.skip(offset as int),
            final(old(self).rest)@ == old(self).rest@.take(offset as int)
                + final(final(self).rest)@,
    {
        let mut rest: &'a mut [T] = &mut [];
        std::mem::swap(&mut rest, &mut self.rest);
        let (_, rest) = rest.split_at_mut(offset);
        self.rest = rest;
    }

    /// Move the end before `offset` elements, which are not changed.
    fn pre_dec_end(&mut self, offset: usize)
        requires
            offset <= old(self).rest@.len(),
        ensures
            final(self).rest@ == old(self).rest@.take(old(self).rest@.len() - offset),
            final(old(self).rest)@ == final(final(self).rest)@ + old(self).rest@.skip(
                old(self).rest@.len() - offset,
            ),
    {
        let mut rest: &'a mut [T] = &mut [];
        std::mem::swap(&mut rest, &mut self.rest);
        let n: usize = rest.len() - offset;
        let (rest, _) = rest.split_at_mut(n);
        self.rest = rest;
    }

    /// Take the first element.
    pub fn next(&mut self) -> (r: Option<&'a mut T>)
        ensures
            match r {
                Some(x) => {
                    &&& old(self).rest@.len() > 0
                    &&& *x == old(self).rest@[0]
                    &&& final(self).rest@ == old(self).rest@.skip(1)
                    &&& final(old(self).rest)@ == seq![*final(x)] + final(final(self).rest)@
                },
                None => {
                    &&& old(self).rest@.len() == 0
                    &&& final(self).rest@ == old(self).rest@
                    &&& final(old(self).rest)@ == final(final(self).rest)@
                },
            },
    {
        let mut rest: &'a mut [T] = &mut [];
        std::mem::swap(&mut rest, &mut self.rest);
        if rest.len() == 0 {
            self.rest = rest;
            return None;
        }
        let (first, rest) = rest.split_at_mut(1);
        self.rest = rest;
        first.first_mut()
    }

    /// Take the last element.
    pub fn next_back(&mut self) -> (r: Option<&'a mut T>)
        ensures
            match r {
                Some(x) => {
                    &&& old(self).rest@.len() > 0
                    &&& *x == old(self).rest@.last()
                    &&& final(self).rest@ == old(self).rest@.drop_last()
                    &&& final(old(self).rest)@ == final(final(self).rest)@.push(*final(x))
                },
                None => {
                    &&& old(self).rest@.len() == 0
                    &&& final(self).rest@ == old(self).rest@
                    &&& final(old(self).rest)@ == final(final(self).rest)@
                },
            },
    {
        let mut rest: &'a mut [T] = &mut [];
        std::mem::swap(&mut rest, &mut self.rest);
        let len: usize = rest.len();
        if len == 0 {
            self.rest = rest;
            return None;
        }
        let (rest, last) = rest.split_at_mut(len - 1);
        self.rest = rest;
        last.first_mut()
    }

    /// Drop `n` elements at the front, and take the next one. If there are not
    /// so many, all are dropped. What is dropped is not changed.
    pub fn nth(&mut self, n: usize) -> (r: Option<&'a mut T>)
        ensures
            match r {
                Some(x) => {
                    &&& n < old(self).rest@.len()
                    &&& *x == old(self).rest@[n as int]
                    &&& final(self).rest@ == old(self).rest@.skip(n + 1)
                    &&& final(old(self).rest)@ == old(self).rest@.take(n as int).push(*final(x))
                        + final(final(self).rest)@
                },
                None => {
                    &&& n >= old(self).rest@.len()
                    &&& final(self).rest@.len() == 0
                    &&& final(old(self).rest)@ == old(self).rest@ + final(final(self).rest)@
                },
            },
    {
        let len: usize = self.rest.len();

        if n >= len {
            self.post_inc_start(len);
            return None;
        }

        self.post_inc_start(n);
        self.next()
    }

    /// Drop `n` elements at the back, and take the next one. If there are not so
    /// many, all are dropped. What is dropped is not changed.
    pub fn nth_back(&mut self, n: usize) -> (r: Option<&'a mut T>)
        ensures
            match r {
                Some(x) => {
                    let i = old(self).rest@.len() - 1 - n;
                    &&& n < old(self).rest@.len()
                    &&& *x == old(self).rest@[i]
                    &&& final(self).rest@ == old(self).rest@.take(i)
                    &&& final(old(self).rest)@ == final(final(self).rest)@.push(*final(x))
                        + old(self).rest@.skip(i + 1)
                },
                None => {
                    &&& n >= old(self).rest@.len()
                    &&& final(self).rest@.len() == 0
                    &&& final(old(self).rest)@ == final(final(self).rest)@ + old(self).rest@
                },
            },
    {
        let len: usize = self.rest.len();

        if n >= len {
            self.pre_dec_end(len);
            return None;
        }

        self.pre_dec_end(n);
        self.next_back()
    }

    /// The last of the elements that are left. The others are not changed.
    pub fn last(self) -> (r: Option<&'a mut T>)
        ensures
            match r {
                Some(x) => {
                    &&& old(self.rest)@.len() > 0
                    &&& *x == old(self.rest)@.last()
                    &&& final(self.rest)@ == old(self.rest)@.drop_last().push(*final(x))
                },
                None => old(self.rest)@.len() == 0 && final(self.rest)@ == old(self.rest)@,
            },
    {
        let mut it = self;
        it.next_back()
    }

    /// Call a function on every element that is left, from the first to the last.
    pub fn for_each<F: Fn(&'a mut T)>(self, f: F)
        requires
            forall|x: &'a mut T| call_requires(f, (x,)),
        ensures
            final(self.rest)@.len() == old(self.rest)@.len(),
            forall|i: int| #[trigger]
                within(i, old(self.rest)@.len() as int) ==> exists|x: &'a mut T| #[trigger]
                    called(f, x) && *x == old(self.rest)@[i] && *final(x) == final(self.rest)@[i],
    {
        let ghost before = self.rest@;
        let ghost mut n: int = 0;
        let mut it = self;

        while !it.is_empty()
            invariant
                forall|x: &'a mut T| call_requires(f, (x,)),
                0 <= n,
                before == old(self.rest)@,
                before.len() == n + it.rest@.len(),
                before.skip(n) == it.rest@,
                final(self.rest)@.len() == n + final(it.rest)@.len(),
                final(self.rest)@.skip(n) == final(it.rest)@,
                forall|i: int| #[trigger]
                    within(i, n) ==> exists|x: &'a mut T| #[trigger]
                        called(f, x) && *x == before[i] && *final(x) == final(self.rest)@[i],
            decreases it.rest@.len(),
        {
            if let Some(x) = it.next() {
                let ghost y = x;
                let done = f({ x });
                proof {
                    assert(done == ());
                    assert(before[n] == before.skip(n)[0]);
                    assert(final(self.rest)@[n] == final(self.rest)@.skip(n)[0]);
                    assert(final(self.rest)@.skip(n + 1) =~= final(self.rest)@.skip(n).skip(1));
                    assert(before.skip(n + 1) =~= before.skip(n).skip(1));
                    let z = choose|z: &'a mut T| #[trigger]
                        call_ensures(f, (z,), ()) && *z == *y && *final(z) == *final(y);
                    assert(called(f, z));
                    assert forall|i: int| #[trigger] within(i, n + 1) implies exists|x: &'a mut T|
                        #[trigger] called(f, x) && *x == before[i] && *final(x)
                            == final(self.rest)@[i] by {
                        if i < n {
                            assert(within(i, n));
                        }
                    }
                    n = n + 1;
                }
            }
        }

        proof {
            let len = old(self.rest)@.len() as int;
            assert forall|i: int| #[trigger] within(i, len) implies exists|x: &'a mut T| #[trigger]
                called(f, x) && *x == old(self.rest)@[i] && *final(x) == final(self.rest)@[i] by {
                assert(within(i, n));
            }
        }
    }

    /// Take elements up to and with the first one for which a test does not
    /// answer `go`. Gives its index.
    fn take_until<F: Fn(&'a mut T) -> bool>(&mut self, f: &F, go: bool, stop: bool) -> (r: Option<
        usize,
    >)
        requires
            go != stop,
            forall|x: &'a mut T| call_requires(*f, (x,)),
        ensures
            final(self).rest@ == old(self).rest@.skip(taken(r, old(self).rest@.len())),
            final(old(self).rest)@.len() == old(self).rest@.len() - final(self).rest@.len()
                + final(final(self).rest)@.len(),
            final(old(self).rest)@.skip(
                taken(r, old(self).rest@.len()),
            ) == final(final(self).rest)@,
            r matches Some(n) ==> n < old(self).rest@.len() && exists|x: &'a mut T| #[trigger]
                gave(*f, x, stop) && *x == old(self).rest@[n as int]
                    && *final(x) == final(old(self).rest)@[n as int],
            forall|i: int| #[trigger]
                within(i, passed(r, old(self).rest@.len())) ==> exists|x: &'a mut T| #[trigger]
                    gave(*f, x, go) && *x == old(self).rest@[i]
                        && *final(x) == final(old(self).rest)@[i],
    {
        let ghost before = self.rest@;
        let len: usize = self.len();
        let mut i: usize = 0;
        let ghost mut n: int = 0;

        while !self.is_empty()
            invariant
                go != stop,
                forall|x: &'a mut T| call_requires(*f, (x,)),
                before == old(self).rest@,
                len == before.len(),
                n == i,
                before.len() == n + self.rest@.len(),
                before.skip(n) == self.rest@,
                final(old(self).rest)@.len() == n + final(self.rest)@.len(),
                final(old(self).rest)@.skip(n) == final(self.rest)@,
                forall|j: int| #[trigger]
                    within(j, n) ==> exists|x: &'a mut T| #[trigger]
                        gave(*f, x, go) && *x == before[j]
                            && *final(x) == final(old(self).rest)@[j],
            decreases self.rest@.len(),
        {
            if let Some(x) = self.next() {
                let ghost y = x;
                let answer = f({ x });
                proof {
                    assert(before[n] == before.skip(n)[0]);
                    assert(final(old(self).rest)@[n] == final(old(self).rest)@.skip(n)[0]);
                    assert(
                        final(old(self).rest)@.skip(n + 1) =~= final(old(self).rest)@.skip(
                            n,
                        ).skip(1)
                    );
                    assert(before.skip(n + 1) =~= before.skip(n).skip(1));
                    let z = choose|z: &'a mut T| #[trigger]
                        call_ensures(*f, (z,), answer) && *z == *y && *final(z) == *final(y);
                    assert(gave(*f, z, answer));
                }
                if answer != go {
                    proof {
                        let len = passed(Some(i), old(self).rest@.len());
                        assert forall|j: int| #[trigger] within(j, len) implies exists|x: &'a mut T|
                            #[trigger] gave(*f, x, go) && *x == old(self).rest@[j]
                                && *final(x) == final(old(self).rest)@[j] by {
                            assert(within(j, n));
                        }
                    }
                    return Some(i);
                }
                i += 1;
                proof {
                    assert forall|j: int| #[trigger] within(j, n + 1) implies exists|x: &'a mut T|
                        #[trigger] gave(*f, x, go) && *x == before[j] && *final(x)
                            == final(old(self).rest)@[j] by {
                        if j < n {
                            assert(within(j, n));
                        }
                    }
                    n = n + 1;
                }
            }
        }

        proof {
            let len = passed(None, old(self).rest@.len());
            assert forall|j: int| #[trigger] within(j, len) implies exists|x: &'a mut T|
                #[trigger] gave(*f, x, go) && *x == old(self).rest@[j]
                    && *final(x) == final(old(self).rest)@[j] by {
                assert(within(j, n));
            }
        }
        None
    }

    /// Test if all elements that are left pass a test. Elements are taken up to
    /// and with the first one that does not.
    pub fn all<F: Fn(&'a mut T) -> bool>(&mut self, f: F) -> (r: bool)
        requires
            forall|x: &'a mut T| call_requires(f, (x,)),
        ensures
            exists|stopped: Option<usize>|
                {
                    &&& #[trigger] is_passed(stopped, r)
                    &&& final(self).rest@ == old(self).rest@.skip(
                        taken(stopped, old(self).rest@.len()),
                    )
                    &&& final(old(self).rest)@.len() == old(self).rest@.len()
                        - final(self).rest@.len() + final(final(self).rest)@.len()
                    &&& final(old(self).rest)@.skip(
                        taken(stopped, old(self).rest@.len()),
                    ) == final(final(self).rest)@
                    &&& stopped matches Some(n)
                        ==> n < old(self).rest@.len() && exists|x: &'a mut T| #[trigger]
                        gave(f, x, false) && *x == old(self).rest@[n as int]
                            && *final(x) == final(old(self).rest)@[n as int]
                    &&& forall|i: int| #[trigger]
                        within(i, passed(stopped, old(self).rest@.len()))
                            ==> exists|x: &'a mut T| #[trigger]
                            gave(f, x, true) && *x == old(self).rest@[i]
                                && *final(x) == final(old(self).rest)@[i]
                },
    {
        let stopped = self.take_until(&f, true, false);
        let r = stopped.is_none();
        assert(is_passed(stopped, r));
        r
    }

    /// Test if one of the elements that are left passes a test. Elements are
    /// taken up to and with the first one that does.
    pub fn any<F: Fn(&'a mut T) -> bool>(&mut self, f: F) -> (r: bool)
        requires
            forall|x: &'a mut T| call_requires(f, (x,)),
        ensures
            exists|stopped: Option<usize>|
                {
                    &&& #[trigger] is_stopped(stopped, r)
                    &&& final(self).rest@ == old(self).rest@.skip(
                        taken(stopped, old(self).rest@.len()),
                    )
                    &&& final(old(self).rest)@.len() == old(self).rest@.len()
                        - final(self).rest@.len() + final(final(self).rest)@.len()
                    &&& final(old(self).rest)@.skip(
                        taken(stopped, old(self).rest@.len()),
                    ) == final(final(self).rest)@
                    &&& stopped matches Some(n)
                        ==> n < old(self).rest@.len() && exists|x: &'a mut T| #[trigger]
                        gave(f, x, true) && *x == old(self).rest@[n as int]
                            && *final(x) == final(old(self).rest)@[n as int]
                    &&& forall|i: int| #[trigger]
                        within(i, passed(stopped, old(self).rest@.len()))
                            ==> exists|x: &'a mut T| #[trigger]
                            gave(f, x, false) && *x == old(self).rest@[i]
                                && *final(x) == final(old(self).rest)@[i]
                },
    {
        let stopped = self.take_until(&f, false, true);
        let r = stopped.is_some();
        assert(is_stopped(stopped, r));
        r
    }

    /// Find the index of the first element that passes a test. Elements are
    /// taken up to and with it.
    pub fn position<F: Fn(&'a mut T) -> bool>(&mut self, f: F) -> (r: Option<usize>)
        requires
            forall|x: &'a mut T| call_requires(f, (x,)),
        ensures
            final(self).rest@ == old(self).rest@.skip(taken(r, old(self).rest@.len())),
            final(old(self).rest)@.len() == old(self).rest@.len() - final(self).rest@.len()
                + final(final(self).rest)@.len(),
            final(old(self).rest)@.skip(
                taken(r, old(self).rest@.len()),
            ) == final(final(self).rest)@,
            r matches Some(n) ==> n < old(self).rest@.len() && exists|x: &'a mut T| #[trigger]
                gave(f, x, true) && *x == old(self).rest@[n as int]
                    && *final(x) == final(old(self).rest)@[n as int],
            forall|i: int| #[trigger]
                within(i, passed(r, old(self).rest@.len())) ==> exists|x: &'a mut T| #[trigger]
                    gave(f, x, false) && *x == old(self).rest@[i]
                        && *final(x) == final(old(self).rest)@[i],
    {
        self.take_until(&f, false, true)
    }

    /// Find the first element that passes a test, and its index. Elements are
    /// taken up to and with it. Those before it are not changed.
    fn find_at<F: Fn(&&'a mut T) -> bool>(&mut self, f: &F) -> (r: (Option<&'a mut T>, Ghost<int>))
        requires
            forall|x: &&'a mut T| call_requires(*f, (x,)),
        ensures
            is_found(r.1@, old(self).rest@.len(), r.0 is Some),
            final(self).rest@ == old(self).rest@.skip(taken_at(r.1@, r.0 is Some)),
            final(old(self).rest)@.len() == taken_at(r.1@, r.0 is Some)
                + final(final(self).rest)@.len(),
            final(old(self).rest)@.skip(taken_at(r.1@, r.0 is Some)) == final(final(self).rest)@,
            final(old(self).rest)@.take(r.1@) == old(self).rest@.take(r.1@),
            forall|i: int| #[trigger]
                within(i, r.1@) ==> exists|x: &'a mut T| #[trigger]
                    gave_shared(*f, x, false) && *x == old(self).rest@[i],
            r.0 is Some ==> exists|x: &'a mut T| #[trigger]
                gave_shared(*f, x, true) && *x == old(self).rest@[r.1@],
            r.0 matches Some(x)
                ==> *x == old(self).rest@[r.1@] && *final(x) == final(old(self).rest)@[r.1@],
    {
        let ghost before = self.rest@;
        let ghost mut n: int = 0;

        while !self.is_empty()
            invariant
                forall|x: &&'a mut T| call_requires(*f, (x,)),
                before == old(self).rest@,
                0 <= n <= before.len(),
                before.len() == n + self.rest@.len(),
                before.skip(n) == self.rest@,
                final(old(self).rest)@.len() == n + final(self.rest)@.len(),
                final(old(self).rest)@.skip(n) == final(self.rest)@,
                final(old(self).rest)@.take(n) =~= before.take(n),
                forall|i: int| #[trigger]
                    within(i, n) ==> exists|x: &'a mut T| #[trigger]
                        gave_shared(*f, x, false) && *x == before[i],
            decreases self.rest@.len(),
        {
            if let Some(x) = self.next() {
                let ghost y = x;
                let answer = f(&x);
                proof {
                    assert(before[n] == before.skip(n)[0]);
                    assert(final(old(self).rest)@[n] == final(old(self).rest)@.skip(n)[0]);
                    assert(
                        final(old(self).rest)@.skip(n + 1) =~= final(old(self).rest)@.skip(
                            n,
                        ).skip(1)
                    );
                    assert(before.skip(n + 1) =~= before.skip(n).skip(1));
                    assert(gave_shared(*f, y, answer));
                }
                if answer {
                    return (Some(x), Ghost(n));
                }
                proof {
                    assert forall|i: int| #[trigger] within(i, n + 1) implies exists|x: &'a mut T|
                        #[trigger] gave_shared(*f, x, false) && *x == before[i] by {
                        if i < n {
                            assert(within(i, n));
                        }
                    }
                    assert(final(old(self).rest)@.take(n + 1) =~= final(old(self).rest)@.take(n).push(
                        final(old(self).rest)@[n],
                    ));
                    assert(before.take(n + 1) =~= before.take(n).push(before[n]));
                    n = n + 1;
                }
            }
        }

        (None, Ghost(n))
    }

    /// Find the first element that passes a test. Elements are taken up to and
    /// with it. Those before it are not changed.
    pub fn find<F: Fn(&&'a mut T) -> bool>(&mut self, f: F) -> (r: Option<&'a mut T>)
        requires
            forall|x: &&'a mut T| call_requires(f, (x,)),
        ensures
            exists|n: int|
                {
                    &&& #[trigger] is_found(n, old(self).rest@.len(), r is Some)
                    &&& final(self).rest@ == old(self).rest@.skip(taken_at(n, r is Some))
                    &&& final(old(self).rest)@.len() == taken_at(n, r is Some)
                        + final(final(self).rest)@.len()
                    &&& final(old(self).rest)@.skip(
                        taken_at(n, r is Some),
                    ) == final(final(self).rest)@
                    &&& final(old(self).rest)@.take(n) == old(self).rest@.take(n)
                    &&& forall|i: int| #[trigger]
                        within(i, n) ==> exists|x: &'a mut T| #[trigger]
                            gave_shared(f, x, false) && *x == old(self).rest@[i]
                    &&& r is Some ==> exists|x: &'a mut T| #[trigger]
                        gave_shared(f, x, true) && *x == old(self).rest@[n]
                    &&& r matches Some(x)
                        ==> *x == old(self).rest@[n] && *final(x) == final(old(self).rest)@[n]
                },
    {
        let (r, Ghost(n)) = self.find_at(&f);
        assert(is_found(n, old(self).rest@.len(), r is Some));
        r
    }

    /// Find the first result that a function gives of an element, and the index
    /// of that element. Elements are taken up to and with it.
    fn find_map_at<B, F: Fn(&'a mut T) -> Option<B>>(&mut self, f: &F) -> (r: (
        Option<B>,
        Ghost<int>,
    ))
        requires
            forall|x: &'a mut T| call_requires(*f, (x,)),
        ensures
            is_found(r.1@, old(self).rest@.len(), r.0 is Some),
            final(self).rest@ == old(self).rest@.skip(taken_at(r.1@, r.0 is Some)),
            final(old(self).rest)@.len() == taken_at(r.1@, r.0 is Some)
                + final(final(self).rest)@.len(),
            final(old(self).rest)@.skip(taken_at(r.1@, r.0 is Some)) == final(final(self).rest)@,
            forall|i: int| #[trigger]
                within(i, r.1@) ==> exists|x: &'a mut T| #[trigger]
                    gave(*f, x, None) && *x == old(self).rest@[i]
                        && *final(x) == final(old(self).rest)@[i],
            r.0 is Some ==> exists|x: &'a mut T| #[trigger]
                gave(*f, x, r.0) && *x == old(self).rest@[r.1@]
                    && *final(x) == final(old(self).rest)@[r.1@],
    {
        let ghost before = self.rest@;
        let ghost mut n: int = 0;

        while !self.is_empty()
            invariant
                forall|x: &'a mut T| call_requires(*f, (x,)),
                before == old(self).rest@,
                0 <= n <= before.len(),
                before.len() == n + self.rest@.len(),
                before.skip(n) == self.rest@,
                final(old(self).rest)@.len() == n + final(self.rest)@.len(),
                final(old(self).rest)@.skip(n) == final(self.rest)@,
                forall|i: int| #[trigger]
                    within(i, n) ==> exists|x: &'a mut T| #[trigger]
                        gave(*f, x, None) && *x == before[i]
                            && *final(x) == final(old(self).rest)@[i],
            decreases self.rest@.len(),
        {
            if let Some(x) = self.next() {
                let ghost y = x;
                let answer = f({ x });
                proof {
                    assert(before[n] == before.skip(n)[0]);
                    assert(final(old(self).rest)@[n] == final(old(self).rest)@.skip(n)[0]);
                    assert(
                        final(old(self).rest)@.skip(n + 1) =~= final(old(self).rest)@.skip(
                            n,
                        ).skip(1)
                    );
                    assert(before.skip(n + 1) =~= before.skip(n).skip(1));
                    let z = choose|z: &'a mut T| #[trigger]
                        call_ensures(*f, (z,), answer) && *z == *y && *final(z) == *final(y);
                    assert(gave(*f, z, answer));
                }
                if answer.is_some() {
                    return (answer, Ghost(n));
                }
                proof {
                    assert forall|i: int| #[trigger] within(i, n + 1) implies exists|x: &'a mut T|
                        #[trigger] gave(*f, x, None) && *x == before[i] && *final(x)
                            == final(old(self).rest)@[i] by {
                        if i < n {
                            assert(within(i, n));
                        }
                    }
                    n = n + 1;
                }
            }
        }

        (None, Ghost(n))
    }

    /// Find the first result that a function gives of an element. Elements are
    /// taken up to and with the one that it is of.
    pub fn find_map<B, F: Fn(&'a mut T) -> Option<B>>(&mut self, f: F) -> (r: Option<B>)
        requires
            forall|x: &'a mut T| call_requires(f, (x,)),
        ensures
            exists|n: int|
                {
                    &&& #[trigger] is_found(n, old(self).rest@.len(), r is Some)
                    &&& final(self).rest@ == old(self).rest@.skip(taken_at(n, r is Some))
                    &&& final(old(self).rest)@.len() == taken_at(n, r is Some)
                        + final(final(self).rest)@.len()
                    &&& final(old(self).rest)@.skip(
                        taken_at(n, r is Some),
                    ) == final(final(self).rest)@
                    &&& forall|i: int| #[trigger]
                        within(i, n) ==> exists|x: &'a mut T| #[trigger]
                            gave(f, x, None) && *x == old(self).rest@[i]
                                && *final(x) == final(old(self).rest)@[i]
                    &&& r is Some ==> exists|x: &'a mut T| #[trigger]
                        gave(f, x, r) && *x == old(self).rest@[n]
                            && *final(x) == final(old(self).rest)@[n]
                },
    {
        let (r, Ghost(n)) = self.find_map_at(&f);
        assert(is_found(n, old(self).rest@.len(), r is Some));
        r
    }

    /// Find the index of the last element that passes a test. Elements are
    /// taken from the back, up to and with it.
    pub fn rposition<F: Fn(&'a mut T) -> bool>(&mut self, f: F) -> (r: Option<usize>)
        requires
            forall|x: &'a mut T| call_requires(f, (x,)),
        ensures
            r matches Some(n) ==> n < old(self).rest@.len() && exists|x: &'a mut T| #[trigger]
                gave(f, x, true) && *x == old(self).rest@[n as int] && *final(x) == from_back(
                    final(old(self).rest)@,
                    old(self).rest@.len() - n,
                ),
            final(self).rest@ == old(self).rest@.take(kept(r)),
            final(old(self).rest)@.len() == final(final(self).rest)@.len() + old(self).rest@.len()
                - kept(r),
            final(old(self).rest)@.take(
                final(final(self).rest)@.len() as int,
            ) == final(final(self).rest)@,
            forall|i: int| #[trigger]
                within(i, old(self).rest@.len() - passed_back(r))
                    ==> exists|x: &'a mut T| #[trigger]
                    gave(f, x, false) && *x == from_back(old(self).rest@, i + 1) && *final(x)
                        == from_back(final(old(self).rest)@, i + 1),
    {
        let ghost before = self.rest@;
        let mut i: usize = self.len();
        let ghost mut n: int = 0;

        while !self.is_empty()
            invariant
                forall|x: &'a mut T| call_requires(f, (x,)),
                before == old(self).rest@,
                n == before.len() - i,
                0 <= n,
                i == self.rest@.len(),
                before.take(i as int) == self.rest@,
                final(old(self).rest)@.len() == n + final(self.rest)@.len(),
                final(old(self).rest)@.take(final(self.rest)@.len() as int) == final(self.rest)@,
                forall|j: int| #[trigger]
                    within(j, n) ==> exists|x: &'a mut T| #[trigger]
                        gave(f, x, false) && *x == from_back(before, j + 1)
                            && *final(x) == from_back(
                            final(old(self).rest)@,
                            j + 1,
                        ),
            decreases self.rest@.len(),
        {
            if let Some(x) = self.next_back() {
                let ghost y = x;
                i -= 1;
                let answer = f({ x });
                proof {
                    let all = final(old(self).rest)@;
                    let left = final(self.rest)@;
                    assert(before.take(i as int) =~= before.take(i + 1).drop_last());
                    assert(before[i as int] == before.take(i + 1)[i as int]);
                    assert(from_back(before, n + 1) == before[i as int]);
                    assert(
                        all[all.len() - (n + 1)] == all.take(
                            left.len() as int + 1,
                        )[left.len() as int]
                    );
                    assert(
                        all.take(left.len() as int) =~= all.take(left.len() as int + 1).drop_last()
                    );
                    let z = choose|z: &'a mut T| #[trigger]
                        call_ensures(f, (z,), answer) && *z == *y && *final(z) == *final(y);
                    assert(gave(f, z, answer));
                }
                if answer {
                    return Some(i);
                }
                proof {
                    assert forall|j: int| #[trigger] within(j, n + 1) implies exists|x: &'a mut T|
                        #[trigger] gave(f, x, false) && *x == from_back(before, j + 1) && *final(x)
                            == from_back(final(old(self).rest)@, j + 1) by {
                        if j < n {
                            assert(within(j, n));
                        }
                    }
                    n = n + 1;
                }
            }
        }

        None
    }

    /// Combine all elements that are left, from the first to the last.
    pub fn fold<B, F: Fn(B, &'a mut T) -> B>(self, init: B, f: F) -> (r: B)
        requires
            forall|acc: B, x: &'a mut T| call_requires(f, (acc, x)),
        ensures
            final(self.rest)@.len() == old(self.rest)@.len(),
            exists|accs: Seq<B>|
                {
                    &&& #[trigger] is_chain(accs, init, r, old(self.rest)@.len())
                    &&& forall|i: int| #[trigger]
                        within(i, old(self.rest)@.len() as int) ==> exists|x: &'a mut T| #[trigger]
                            combined(f, accs[i], x, accs[i + 1]) && *x == old(self.rest)@[i]
                                && *final(x) == final(self.rest)@[i]
                },
    {
        let ghost before = self.rest@;
        let ghost mut n: int = 0;
        let ghost mut accs: Seq<B> = seq![init];
        let mut it = self;
        let mut acc: B = init;

        while !it.is_empty()
            invariant
                forall|acc: B, x: &'a mut T| call_requires(f, (acc, x)),
                0 <= n,
                before == old(self.rest)@,
                before.len() == n + it.rest@.len(),
                before.skip(n) == it.rest@,
                final(self.rest)@.len() == n + final(it.rest)@.len(),
                final(self.rest)@.skip(n) == final(it.rest)@,
                is_chain(accs, init, acc, n as nat),
                forall|i: int| #[trigger]
                    within(i, n) ==> exists|x: &'a mut T| #[trigger]
                        combined(f, accs[i], x, accs[i + 1]) && *x == before[i] && *final(x)
                            == final(self.rest)@[i],
            decreases it.rest@.len(),
        {
            if let Some(x) = it.next() {
                let ghost y = x;
                let ghost previous = acc;
                acc = f(acc, { x });
                proof {
                    assert(before[n] == before.skip(n)[0]);
                    assert(final(self.rest)@[n] == final(self.rest)@.skip(n)[0]);
                    assert(final(self.rest)@.skip(n + 1) =~= final(self.rest)@.skip(n).skip(1));
                    assert(before.skip(n + 1) =~= before.skip(n).skip(1));
                    let z = choose|z: &'a mut T| #[trigger]
                        call_ensures(f, (previous, z), acc) && *z == *y && *final(z) == *final(y);
                    let after = accs.push(acc);
                    assert(combined(f, previous, z, acc));
                    assert forall|i: int| #[trigger] within(i, n + 1) implies exists|x: &'a mut T|
                        #[trigger] combined(f, after[i], x, after[i + 1]) && *x == before[i]
                            && *final(x) == final(self.rest)@[i] by {
                        if i < n {
                            assert(within(i, n));
                            let w = choose|w: &'a mut T| #[trigger]
                                combined(f, accs[i], w, accs[i + 1]) && *w == before[i] && *final(w)
                                    == final(self.rest)@[i];
                            assert(combined(f, after[i], w, after[i + 1]));
                        } else {
                            assert(combined(f, after[i], z, after[i + 1]));
                        }
                    }
                    accs = accs.push(acc);
                    n = n + 1;
                }
            }
        }

        assert(is_chain(accs, init, acc, old(self.rest)@.len()));
        acc
    }
}

/// Test if a function can have been called on a reference.
pub open spec fn called<'a, T: 'a, F: Fn(&'a mut T)>(f: F, x: &'a mut T) -> bool {
    call_ensures(f, (x,), ())
}

/// Test if a function can have given an answer on a reference.
pub open spec fn gave<'a, T: 'a, B, F: Fn(&'a mut T) -> B>(f: F, x: &'a mut T, answer: B) -> bool {
    call_ensures(f, (x,), answer)
}

/// Test if an index is one of the first `n`.
pub open spec fn within(i: int, n: int) -> bool {
    0 <= i < n
}

/// The number of elements that have been passed by, up to the one at which it
/// was stopped.
pub open spec fn passed(r: Option<usize>, len: nat) -> int {
    match r {
        Some(n) => n as int,
        None => len as int,
    }
}

/// The number of elements that have been taken, up to and with the one at which
/// it was stopped.
pub open spec fn taken(r: Option<usize>, len: nat) -> int {
    match r {
        Some(n) => n + 1,
        None => len as int,
    }
}

/// Test if a test was passed by an element at which it was stopped.
pub open spec fn is_stopped(stopped: Option<usize>, r: bool) -> bool {
    r == (stopped is Some)
}

/// Test if a test was passed by all elements, and not stopped.
pub open spec fn is_passed(stopped: Option<usize>, r: bool) -> bool {
    r == (stopped is None)
}

/// Test if an element was found at an index, or none was found up to the end.
pub open spec fn is_found(n: int, len: nat, found: bool) -> bool {
    if found {
        0 <= n < len
    } else {
        n == len
    }
}

/// The number of elements that have been taken, up to and with the one that was
/// found.
pub open spec fn taken_at(n: int, found: bool) -> int {
    if found {
        n + 1
    } else {
        n
    }
}

/// Test if a function can have given an answer on a shared reference.
pub open spec fn gave_shared<'a, T: 'a, F: Fn(&&'a mut T) -> bool>(
    f: F,
    x: &'a mut T,
    answer: bool,
) -> bool {
    call_ensures(f, (&x,), answer)
}

/// The number of elements that are left before the one at which it was stopped.
pub open spec fn kept(r: Option<usize>) -> int {
    match r {
        Some(n) => n as int,
        None => 0,
    }
}

/// The number of elements that have not been passed by from the back.
pub open spec fn passed_back(r: Option<usize>) -> int {
    match r {
        Some(n) => n + 1,
        None => 0,
    }
}

/// The element that is the `n`th one from the back.
pub open spec fn from_back<T>(elements: Seq<T>, n: int) -> T {
    elements[elements.len() - n]
}

/// Test if results are put together one after the other, `n` times.
pub open spec fn is_chain<B>(accs: Seq<B>, init: B, last: B, n: nat) -> bool {
    &&& accs.len() == n + 1
    &&& accs[0] == init
    &&& accs[n as int] == last
}

/// Test if a function can have combined a result and a reference.
pub open spec fn combined<'a, T: 'a, B, F: Fn(B, &'a mut T) -> B>(
    f: F,
    acc: B,
    x: &'a mut T,
    next: B,
) -> bool {
    call_ensures(f, (acc, x), next)
}

} // verus!
