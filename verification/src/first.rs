//! A singly linked, owning stack: every node lives in its own heap box, and
//! the list is viewed in specifications as the sequence of its elements from
//! the top of the stack down.

use vstd::prelude::*;

verus! {

/// One heap node: an element and the link to the rest of the stack.
pub struct Node<T> {
    elem: T,
    next: Link<T>,
}

/// A link is either the end of the stack or a boxed node.
pub enum Link<T> {
    Empty,
    More(Box<Node<T>>),
}

/// The stack itself: just its head link.
pub struct List<T> {
    head: Link<T>,
}

/// The sequence of elements hanging off a link, head first.
pub closed spec fn link_seq<T>(link: Link<T>) -> Seq<T>
    decreases link,
{
    match link {
        Link::Empty => Seq::empty(),
        Link::More(node) => seq![node.elem] + link_seq(node.next),
    }
}

impl<T> View for List<T> {
    type V = Seq<T>;

    closed spec fn view(&self) -> Seq<T> {
        link_seq(self.head)
    }
}

impl<T> List<T> {
    /// The empty stack.
    pub fn new() -> (list: Self)
        ensures
            list@ == Seq::<T>::empty(),
    {
        List { head: Link::Empty }
    }

    /// Pushes `elem` on top of the stack.
    pub fn push(&mut self, elem: T)
        ensures
            final(self)@ == seq![elem] + old(self)@,
    {
        let new_node: Box<Node<T>> = Box::new(Node {
            elem,
            next: core::mem::replace(&mut self.head, Link::Empty),
        });
        self.head = Link::More(new_node);
    }

    /// Removes and returns the top of the stack, or `None` when it is empty.
    pub fn pop(&mut self) -> (result: Option<T>)
        ensures
            old(self)@.len() == 0 ==> result is None && final(self)@ == old(self)@,
            old(self)@.len() > 0 ==> result == Some(old(self)@[0]) && final(self)@ == old(
                self,
            )@.drop_first(),
    {
        let result: Option<T>;
        match core::mem::replace(&mut self.head, Link::Empty) {
            Link::Empty => {
                result = None;
            },
            Link::More(node) => {
                self.head = node.next;
                result = Some(node.elem);
            },
        };
        result
    }
}

} // verus!
