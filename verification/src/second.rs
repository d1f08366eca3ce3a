//! A generic singly linked stack whose links are `Option<Box<Node<T>>>`,
//! with peeking and three ways of walking the elements: by value, by shared
//! reference and by mutable reference.

use vstd::prelude::*;

verus! {

/// One heap node: an element and the link to the rest of the stack.
pub struct Node<T> {
    elem: T,
    next: Option<Box<Node<T>>>,
}

/// The stack itself: just its head link.
pub struct List<T> {
    head: Option<Box<Node<T>>>,
}

/// Walks the elements by value, popping from the front.
pub struct IntoIter<T>(List<T>);

/// Walks the elements by shared reference, front first.
pub struct Iter<'a, T> {
    next: Option<&'a Node<T>>,
}

/// Walks the elements by mutable reference, front first.
pub struct IterMut<'a, T> {
    next: Option<&'a mut Node<T>>,
}

/// The sequence of elements hanging off a link, head first.
pub closed spec fn link_seq<T>(link: Option<Box<Node<T>>>) -> Seq<T>
    decreases link,
{
    match link {
        None => Seq::empty(),
        Some(node) => seq![node.elem] + link_seq(node.next),
    }
}

impl<T> View for List<T> {
    type V = Seq<T>;

    closed spec fn view(&self) -> Seq<T> {
        link_seq(self.head)
    }
}

impl<T> View for IntoIter<T> {
    type V = Seq<T>;

    closed spec fn view(&self) -> Seq<T> {
        self.0@
    }
}

impl<'a, T> View for Iter<'a, T> {
    type V = Seq<T>;

    closed spec fn view(&self) -> Seq<T> {
        match self.next {
            None => Seq::empty(),
            Some(node) => seq![node.elem] + link_seq(node.next),
        }
    }
}

impl<'a, T> View for IterMut<'a, T> {
    type V = Seq<T>;

    closed spec fn view(&self) -> Seq<T> {
        match self.next {
            None => Seq::empty(),
            Some(node) => seq![node.elem] + link_seq(node.next),
        }
    }
}

impl<T> List<T> {
    /// A borrowing walker positioned at the front of the list.
    pub fn iter(&self) -> (it: Iter<'_, T>)
        ensures
            it@ == self@,
    {
        Iter {
            next: match &self.head {
                None => None,
                Some(node) => Some(&**node),
            },
        }
    }

    /// A mutating walker positioned at the front of the list.
    pub fn iter_mut(&mut self) -> (it: IterMut<'_, T>)
        ensures
            it@ == old(self)@,
    {
        IterMut {
            next: match &mut self.head {
                None => None,
                Some(node) => Some(&mut **node),
            },
        }
    }

    /// A consuming walker that yields the elements front first.
    pub fn into_iter(self) -> (it: IntoIter<T>)
        ensures
            it@ == self@,
    {
        IntoIter(self)
    }

    /// The empty stack.
    pub fn new() -> (list: Self)
        ensures
            list@ == Seq::<T>::empty(),
    {
        List { head: None }
    }

    /// Pushes `elem` on top of the stack.
    pub fn push(&mut self, elem: T)
        ensures
            final(self)@ == seq![elem] + old(self)@,
    {
        let new_node: Box<Node<T>> = Box::new(Node {
            elem,
            next: self.head.take(),
        });
        self.head = Some(new_node);
    }

    /// Removes and returns the top of the stack, or `None` when it is empty.
    pub fn pop(&mut self) -> (result: Option<T>)
        ensures
            old(self)@.len() == 0 ==> result is None && final(self)@ == old(self)@,
            old(self)@.len() > 0 ==> result == Some(old(self)@[0]) && final(self)@ == old(
                self,
            )@.drop_first(),
    {
        match self.head.take() {
            None => None,
            Some(node) => {
                self.head = node.next;
                Some(node.elem)
            },
        }
    }

    /// A reference to the top element, or `None` when the stack is empty.
    pub fn peek(&self) -> (result: Option<&T>)
        ensures
            self@.len() == 0 ==> result is None,
            self@.len() > 0 ==> result is Some && *result.unwrap() == self@[0],
    {
        match &self.head {
            None => None,
            Some(node) => Some(&node.elem),
        }
    }

    /// A mutable reference to the top element, or `None` when the stack is
    /// empty; writing through it rewrites the top of the stack.
    pub fn peek_mut(&mut self) -> (result: Option<&mut T>)
        ensures
            old(self)@.len() == 0 ==> result is None && final(self)@ == old(self)@,
            old(self)@.len() > 0 ==> result is Some && *result.unwrap() == old(self)@[0]
                && final(self)@ == old(self)@.update(0, *final(result.unwrap())),
    {
        match &mut self.head {
            None => None,
            Some(node) => Some(&mut node.elem),
        }
    }
}

impl<T> IntoIter<T> {
    /// Takes the next element, front first; `None` once all are consumed.
    pub fn next(&mut self) -> (result: Option<T>)
        ensures
            old(self)@.len() == 0 ==> result is None && final(self)@ == old(self)@,
            old(self)@.len() > 0 ==> result == Some(old(self)@[0]) && final(self)@ == old(
                self,
            )@.drop_first(),
    {
        self.0.pop()
    }
}

impl<'a, T> Iter<'a, T> {
    /// Borrows the next element, front first; `None` once all are visited.
    pub fn next(&mut self) -> (result: Option<&'a T>)
        ensures
            old(self)@.len() == 0 ==> result is None && final(self)@ == old(self)@,
            old(self)@.len() > 0 ==> result is Some && *result.unwrap() == old(self)@[0]
                && final(self)@ == old(self)@.drop_first(),
    {
        match self.next.take() {
            None => None,
            Some(node) => {
                self.next = match &node.next {
                    None => None,
                    Some(next_node) => Some(&**next_node),
                };
                Some(&node.elem)
            },
        }
    }
}

impl<'a, T> IterMut<'a, T> {
    /// Mutably borrows the next element, front first; `None` once all are
    /// visited. Writing through the reference rewrites that element in the
    /// list the walker was made from.
    pub fn next(&mut self) -> (result: Option<&'a mut T>)
        ensures
            old(self)@.len() == 0 ==> result is None && final(self)@ == old(self)@,
            old(self)@.len() > 0 ==> result is Some && *result.unwrap() == old(self)@[0]
                && final(self)@ == old(self)@.drop_first(),
    {
        match self.next.take() {
            None => None,
            Some(node) => {
                self.next = match &mut node.next {
                    None => None,
                    Some(next_node) => Some(&mut **next_node),
                };
                Some(&mut node.elem)
            },
        }
    }
}

} // verus!
