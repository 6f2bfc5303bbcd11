//! Laws of how far an iterator has come.

use vstd::prelude::*;
use crate::slice::iter_mut::{
    from_back, is_chain, is_found, is_passed, is_stopped, kept, passed, passed_back, taken,
    taken_at, within,
};

verus! {

/// From the front, what has been passed by is what comes before the element at which
/// it was stopped, or everything. Only that element is taken in addition.
pub proof fn lemma_passed(r: Option<usize>, len: nat, i: int)
    requires
        r matches Some(n) ==> n < len,
        0 <= i < len,
    ensures
        within(i, passed(r, len)) <==> (r matches Some(n) ==> i < n),
        within(i, taken(r, len)) <==> (r matches Some(n) ==> i <= n),
        0 <= passed(r, len) <= taken(r, len) <= len,
        r is None ==> passed(r, len) == len && taken(r, len) == len,
{
}

/// From the back, what has been passed by is what comes behind the element at which
/// it was stopped, or everything. The elements before it are left.
pub proof fn lemma_passed_back(r: Option<usize>, len: nat, i: int)
    requires
        r matches Some(n) ==> n < len,
        0 <= i < len,
    ensures
        within(i, kept(r)) <==> (r matches Some(n) && i < n),
        within(i, passed_back(r)) <==> (r matches Some(n) && i <= n),
        0 <= kept(r) <= passed_back(r) <= len,
        r is None ==> kept(r) == 0 && passed_back(r) == 0,
{
}

/// All elements pass a test exactly if it was not stopped, and any does exactly if it
/// was.
pub proof fn lemma_stopped(stopped: Option<usize>, r: bool)
    ensures
        is_stopped(stopped, r) <==> (r <==> stopped is Some),
        is_passed(stopped, r) <==> (r <==> stopped is None),
        is_stopped(stopped, r) <==> is_passed(stopped, !r),
{
}

/// An element that was found is one of the elements, and it is the last one that was
/// taken. If none was found, all were taken.
pub proof fn lemma_found(n: int, len: nat, found: bool)
    requires
        is_found(n, len, found),
    ensures
        0 <= taken_at(n, found) <= len,
        found ==> within(n, len as int) && within(n, taken_at(n, found)) && !within(
            n + 1,
            taken_at(n, found),
        ),
        !found ==> taken_at(n, found) == len,
{
}

/// The elements from the back are those from the front in the other order.
pub proof fn lemma_from_back<T>(elements: Seq<T>, n: int)
    requires
        0 < n <= elements.len(),
    ensures
        from_back(elements, n) == elements.reverse()[n - 1],
        from_back(elements, 1) == elements.last(),
        from_back(elements, elements.len() as int) == elements[0],
{
}

/// Without elements the result is the one at the start. Each element gives one more
/// result, and the last one counts.
pub proof fn lemma_chain<B>(accs: Seq<B>, init: B, last: B, next: B, n: nat)
    requires
        is_chain(accs, init, last, n),
    ensures
        n == 0 ==> init == last,
        accs.first() == init,
        accs.last() == last,
        is_chain(accs.push(next), init, next, n + 1),
{
}

} // verus!
