//! A two-ended list: elements can be pushed, popped and peeked at either
//! end. The spine is a growable array rather than doubly linked nodes,
//! which Verus cannot hold; the behaviour at both ends is the same.

use vstd::prelude::*;

verus! {

/// The two-ended list; in specifications it is the sequence of its
/// elements, front first.
pub struct List<T> {
    items: Vec<T>,
}

/// Walks the elements by value, from either end.
pub struct IntoIter<T>(List<T>);

/// Marks a position at the front of a borrowed list.
pub struct Iter<'a, T> {
    list: &'a List<T>,
}

impl<T> View for List<T> {
    type V = Seq<T>;

    closed spec fn view(&self) -> Seq<T> {
        self.items@
    }
}

impl<T> View for IntoIter<T> {
    type V = Seq<T>;

    closed spec fn view(&self) -> Seq<T> {
        self.0@
    }
}

impl<'a, T> View for Iter<'a, T> {
    type V = Seq<T>;

    closed spec fn view(&self) -> Seq<T> {
        self.list@
    }
}

impl<T> List<T> {
    /// The empty list.
    pub fn new() -> (list: List<T>)
        ensures
            list@ == Seq::<T>::empty(),
    {
        List { items: Vec::new() }
    }

    /// A borrowing walker positioned at the front of the list.
    pub fn iter(&self) -> (it: Iter<'_, T>)
        ensures
            it@ == self@,
    {
        Iter { list: self }
    }

    /// A consuming walker over the elements.
    pub fn into_iter(self) -> (it: IntoIter<T>)
        ensures
            it@ == self@,
    {
        IntoIter(self)
    }

    /// Puts `elem` at the front.
    pub fn push_front(&mut self, elem: T)
        ensures
            final(self)@ == seq![elem] + old(self)@,
    {
        self.items.insert(0, elem);
        proof {
            assert(self.items@ =~= seq![elem] + old(self)@);
        }
    }

    /// Puts `elem` at the back.
    pub fn push_back(&mut self, elem: T)
        ensures
            final(self)@ == old(self)@.push(elem),
    {
        self.items.push(elem);
    }

    /// Removes and returns the back element, or `None` when the list is
    /// empty.
    pub fn pop_back(&mut self) -> (result: Option<T>)
        ensures
            old(self)@.len() == 0 ==> result is None && final(self)@ == old(self)@,
            old(self)@.len() > 0 ==> result == Some(old(self)@.last()) && final(self)@ == old(
                self,
            )@.drop_last(),
    {
        if self.items.len() == 0 {
            None
        } else {
            Some(self.items.pop().unwrap())
        }
    }

    /// Removes and returns the front element, or `None` when the list is
    /// empty.
    pub fn pop_front(&mut self) -> (result: Option<T>)
        ensures
            old(self)@.len() == 0 ==> result is None && final(self)@ == old(self)@,
            old(self)@.len() > 0 ==> result == Some(old(self)@[0]) && final(self)@ == old(
                self,
            )@.drop_first(),
    {
        if self.items.len() == 0 {
            None
        } else {
            let elem = self.items.remove(0);
            proof {
                assert(self.items@ =~= old(self)@.drop_first());
            }
            Some(elem)
        }
    }

    /// A reference to the front element, or `None` when the list is empty.
    pub fn peek(&self) -> (result: Option<&T>)
        ensures
            self@.len() == 0 ==> result is None,
            self@.len() > 0 ==> result is Some && *result.unwrap() == self@[0],
    {
        if self.items.len() == 0 {
            None
        } else {
            Some(&self.items[0])
        }
    }

    /// A reference to the back element, or `None` when the list is empty.
    pub fn peek_back(&self) -> (result: Option<&T>)
        ensures
            self@.len() == 0 ==> result is None,
            self@.len() > 0 ==> result is Some && *result.unwrap() == self@.last(),
    {
        if self.items.len() == 0 {
            None
        } else {
            Some(&self.items[self.items.len() - 1])
        }
    }

    /// A mutable reference to the front element, or `None` when the list is
    /// empty; writing through it rewrites the front of the list.
    pub fn peek_mut(&mut self) -> (result: Option<&mut T>)
        ensures
            old(self)@.len() == 0 ==> result is None && final(self)@ == old(self)@,
            old(self)@.len() > 0 ==> result is Some && *result.unwrap() == old(self)@[0]
                && final(self)@ == old(self)@.update(0, *final(result.unwrap())),
    {
        if self.items.len() == 0 {
            None
        } else {
            Some(&mut self.items[0])
        }
    }

    /// A mutable reference to the back element, or `None` when the list is
    /// empty; writing through it rewrites the back of the list.
    pub fn peek_back_mut(&mut self) -> (result: Option<&mut T>)
        ensures
            old(self)@.len() == 0 ==> result is None && final(self)@ == old(self)@,
            old(self)@.len() > 0 ==> result is Some && *result.unwrap() == old(self)@.last()
                && final(self)@ == old(self)@.update(
                old(self)@.len() - 1,
                *final(result.unwrap()),
            ),
    {
        if self.items.len() == 0 {
            None
        } else {
            let last: usize = self.items.len() - 1;
            Some(&mut self.items[last])
        }
    }
}

impl<T> IntoIter<T> {
    /// Takes the next element from the front; `None` once all are consumed.
    pub fn next(&mut self) -> (result: Option<T>)
        ensures
            old(self)@.len() == 0 ==> result is None && final(self)@ == old(self)@,
            old(self)@.len() > 0 ==> result == Some(old(self)@[0]) && final(self)@ == old(
                self,
            )@.drop_first(),
    {
        self.0.pop_front()
    }

    /// Takes the next element from the back; `None` once all are consumed.
    pub fn next_back(&mut self) -> (result: Option<T>)
        ensures
            old(self)@.len() == 0 ==> result is None && final(self)@ == old(self)@,
            old(self)@.len() > 0 ==> result == Some(old(self)@.last()) && final(self)@ == old(
                self,
            )@.drop_last(),
    {
        self.0.pop_back()
    }
}

} // verus!
