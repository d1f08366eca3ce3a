//! A persistent singly linked list: nodes are reference-counted, so several
//! lists may share a tail. `prepend` and `tail` return new lists and leave
//! the receiver untouched.

use std::rc::Rc;
use vstd::prelude::*;

verus! {

/// One shared node: an element and the link to the rest of the list.
pub struct Node<T> {
    elem: T,
    next: Option<Rc<Node<T>>>,
}

/// The list itself: just its head link.
pub struct List<T> {
    head: Option<Rc<Node<T>>>,
}

/// Walks the elements by shared reference, front first.
pub struct Iter<'a, T> {
    next: Option<&'a Node<T>>,
}

/// Walks the elements by mutable reference; reference-counted nodes cannot
/// be borrowed mutably, so this walker offers no step.
pub struct IterMut<'a, T> {
    next: Option<&'a mut Node<T>>,
}

/// Holds a list whose nodes may still be shared; shared nodes cannot be
/// taken apart into owned elements, so this walker offers no step.
pub struct IntoIter<T>(List<T>);

/// The sequence of elements hanging off a link, head first.
pub closed spec fn link_seq<T>(link: Option<Rc<Node<T>>>) -> Seq<T>
    decreases link,
{
    match link {
        None => Seq::empty(),
        Some(node) => seq![node.elem] + link_seq(node.next),
    }
}

impl<T> View for List<T> {
    type V = Seq<T>;

    closed spec fn view(&self) -> Seq<T> {
        link_seq(self.head)
    }
}

impl<T> View for IntoIter<T> {
    type V = Seq<T>;

    closed spec fn view(&self) -> Seq<T> {
        self.0@
    }
}

impl<'a, T> View for Iter<'a, T> {
    type V = Seq<T>;

    closed spec fn view(&self) -> Seq<T> {
        match self.next {
            None => Seq::empty(),
            Some(node) => seq![node.elem] + link_seq(node.next),
        }
    }
}

impl<T> List<T> {
    /// Wraps the list for consumption.
    pub fn into_iter(self) -> (it: IntoIter<T>)
        ensures
            it@ == self@,
    {
        IntoIter(self)
    }

    /// A borrowing walker positioned at the front of the list.
    pub fn iter(&self) -> (it: Iter<'_, T>)
        ensures
            it@ == self@,
    {
        Iter {
            next: match &self.head {
                None => None,
                Some(node) => Some(&**node),
            },
        }
    }

    /// The empty list.
    pub fn new() -> (list: Self)
        ensures
            list@ == Seq::<T>::empty(),
    {
        List { head: None }
    }

    /// A new list with `elem` in front of all elements of `self`; the
    /// receiver is shared, not copied.
    pub fn prepend(&self, elem: T) -> (list: List<T>)
        ensures
            list@ == seq![elem] + self@,
    {
        List {
            head: Some(
                Rc::new(
                    Node {
                        elem,
                        next: match &self.head {
                            None => None,
                            Some(node) => Some(node.clone()),
                        },
                    },
                ),
            ),
        }
    }

    /// A list of all elements of `self` but the first; the empty list stays
    /// empty.
    pub fn tail(&self) -> (list: List<T>)
        ensures
            self@.len() == 0 ==> list@ == Seq::<T>::empty(),
            self@.len() > 0 ==> list@ == self@.drop_first(),
    {
        List {
            head: match &self.head {
                None => None,
                Some(node) => match &node.next {
                    None => None,
                    Some(next_node) => Some(next_node.clone()),
                },
            },
        }
    }

    /// A reference to the first element, or `None` when the list is empty.
    pub fn head(&self) -> (result: Option<&T>)
        ensures
            self@.len() == 0 ==> result is None,
            self@.len() > 0 ==> result is Some && *result.unwrap() == self@[0],
    {
        match &self.head {
            None => None,
            Some(node) => Some(&node.elem),
        }
    }
}

impl<'a, T> Iter<'a, T> {
    /// Borrows the next element, front first; `None` once all are visited.
    pub fn next(&mut self) -> (result: Option<&'a T>)
        ensures
            old(self)@.len() == 0 ==> result is None && final(self)@ == old(self)@,
            old(self)@.len() > 0 ==> result is Some && *result.unwrap() == old(self)@[0]
                && final(self)@ == old(self)@.drop_first(),
    {
        match self.next.take() {
            None => None,
            Some(node) => {
                self.next = match &node.next {
                    None => None,
                    Some(next_node) => Some(&**next_node),
                };
                Some(&node.elem)
            },
        }
    }
}

} // verus!
