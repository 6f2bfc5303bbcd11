//! Immutable singly linked lists.
//!
//! The nodes of the intermediate representation hold their children in lists.
//! A list is a plain algebraic value: two lists are equal exactly when their
//! elements are, which is what lets a contract say that a lowered tree *is* a
//! given tree.

use vstd::prelude::*;

verus! {

/// An immutable list.
#[derive(Debug, PartialEq, Eq)]
pub enum List<T> {
    /// The empty list.
    Nil,
    /// A first element and the rest of the list.
    Cons(Box<T>, Box<List<T>>),
}

/// The elements of a list, first to last.
pub open spec fn elements<T>(list: List<T>) -> Seq<T>
    decreases list,
{
    match list {
        List::Nil => Seq::empty(),
        List::Cons(head, tail) => seq![*head] + elements(*tail),
    }
}

impl<T> View for List<T> {
    type V = Seq<T>;

    /// The elements of the list, first to last.
    open spec fn view(&self) -> Seq<T> {
        elements(*self)
    }
}

/// The list that holds the elements of `s` from index `i` on.
pub open spec fn list_from<T>(s: Seq<T>, i: int) -> List<T>
    decreases s.len() - i,
{
    if i < 0 || i >= s.len() {
        List::Nil
    } else {
        List::Cons(Box::new(s[i]), Box::new(list_from(s, i + 1)))
    }
}

/// The list that holds the elements of `s`.
#[verifier::opaque]
pub open spec fn list_of<T>(s: Seq<T>) -> List<T> {
    list_from(s, 0)
}

/// `list` with `item` put behind its last element.
pub open spec fn list_append<T>(list: List<T>, item: T) -> List<T>
    decreases list,
{
    match list {
        List::Nil => List::Cons(Box::new(item), Box::new(List::Nil)),
        List::Cons(head, tail) => List::Cons(head, Box::new(list_append(*tail, item))),
    }
}

/// The elements of the list built from a sequence are those of the sequence.
pub proof fn lemma_list_from_view<T>(s: Seq<T>, i: int)
    requires
        0 <= i <= s.len(),
    ensures
        list_from(s, i)@ =~= s.skip(i),
    decreases s.len() - i,
{
    if i < s.len() {
        lemma_list_from_view(s, i + 1);
        assert(s.skip(i) =~= seq![s[i]] + s.skip(i + 1));
    }
}

/// A list and the sequence of its elements determine each other.
pub proof fn lemma_list_of_view<T>(list: List<T>)
    ensures
        list_of(list@) == list,
    decreases list,
{
    reveal(list_of);
    if let List::Cons(head, tail) = list {
        lemma_list_of_view(*tail);
        lemma_list_from_shift(list@, tail@, 0);
    }
}

/// Building from a sequence with one element put in front, one index further
/// on, builds the same list.
proof fn lemma_list_from_shift<T>(s: Seq<T>, rest: Seq<T>, i: int)
    requires
        0 <= i <= rest.len(),
        s.len() == rest.len() + 1,
        s.skip(1) =~= rest,
    ensures
        list_from(s, i + 1) == list_from(rest, i),
    decreases rest.len() - i,
{
    if i < rest.len() {
        assert(s[i + 1] == s.skip(1)[i]);
        lemma_list_from_shift(s, rest, i + 1);
    }
}

/// Appending to a list appends to its elements.
pub proof fn lemma_list_append_view<T>(list: List<T>, item: T)
    ensures
        list_append(list, item)@ =~= list@.push(item),
    decreases list,
{
    if let List::Cons(head, tail) = list {
        lemma_list_append_view(*tail, item);
    }
}

impl<T> List<T> {
    /// Build a list of the elements of a vector, in order.
    pub fn from_vec(items: Vec<T>) -> (list: Self)
        ensures
            list == list_of(items@),
            list@ == items@,
    {
        proof {
            reveal(list_of);
        }
        let mut rest = items;
        let mut list: List<T> = List::Nil;
        let ghost all = items@;

        while rest.len() > 0
            invariant
                rest@.len() <= all.len(),
                rest@ =~= all.take(rest@.len() as int),
                list == list_from(all, rest@.len() as int),
            decreases rest.len(),
        {
            proof {
                reveal(list_of);
            }
            let n = rest.len();
            if let Some(item) = rest.pop() {
                assert(item == all[n - 1]);
                list = List::Cons(Box::new(item), Box::new(list));
            }
        }

        proof {
            lemma_list_from_view(all, 0);
            assert(all.skip(0) =~= all);
        }
        list
    }

    /// Put an element behind the last one.
    pub fn append(self, item: T) -> (list: Self)
        ensures
            list == list_append(self, item),
            list@ == self@.push(item),
        decreases self,
    {
        proof {
            lemma_list_append_view(self, item);
        }
        match self {
            List::Nil => List::Cons(Box::new(item), Box::new(List::Nil)),
            List::Cons(head, tail) => {
                let tail = (*tail).append(item);
                List::Cons(head, Box::new(tail))
            },
        }
    }

    /// Test if the list holds no element.
    pub fn is_empty(&self) -> (empty: bool)
        ensures
            empty == (self@.len() == 0),
            empty == (*self is Nil),
    {
        match self {
            List::Nil => true,
            List::Cons(..) => false,
        }
    }
}

impl<T: Copy> List<T> {
    /// Copy a list.
    pub fn copy(&self) -> (list: Self)
        ensures
            list == *self,
        decreases self,
    {
        match self {
            List::Nil => List::Nil,
            List::Cons(head, tail) => List::Cons(Box::new(**head), Box::new(tail.copy())),
        }
    }
}

impl List<u8> {
    /// The bytes of the list as a vector.
    pub fn to_vec(&self) -> (bytes: Vec<u8>)
        ensures
            bytes@ == self@,
    {
        let mut bytes: Vec<u8> = Vec::new();
        self.extend(&mut bytes);
        bytes
    }

    /// Push the bytes of the list onto a vector.
    fn extend(&self, bytes: &mut Vec<u8>)
        ensures
            final(bytes)@ =~= old(bytes)@ + self@,
        decreases self,
    {
        if let List::Cons(head, tail) = self {
            bytes.push(**head);
            tail.extend(bytes);
        }
    }
}

} // verus!
