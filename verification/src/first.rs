//! A stack of `i32` whose link is an explicit two-variant enum.
//!
//! The chain is an inductive datatype: a link either is empty or owns the one
//! node behind it, so every chain is finite and free of cycles, and no node has
//! two owners. Ownership moves by replacing a link with `Empty` and taking what
//! it held.

use crate::model::{popped, pushed, top};
use vstd::prelude::*;

verus! {

/// The possibly-absent owner of the next node.
enum Link {
    Empty,
    More(Box<Node>),
}

/// One element and the link to the rest of the chain.
struct Node {
    elem: i32,
    next: Link,
}

/// A last-in-first-out stack of `i32`.
pub struct List {
    head: Link,
}

impl Link {
    /// The elements reachable from this link, nearest first.
    spec fn elems(self) -> Seq<i32>
        decreases self,
    {
        match self {
            Link::Empty => Seq::empty(),
            Link::More(node) => seq![node.elem] + node.next.elems(),
        }
    }
}

/// Installs `src` in the slot `dest` and hands back what the slot held, so
/// that the old chain and the new one each have one owner throughout. It
/// neither unwinds nor opens an invariant, as teardown needs.
fn replace(dest: &mut Link, src: Link) -> (held: Link)
    ensures
        held == *old(dest),
        *final(dest) == src,
    opens_invariants none
    no_unwind
{
    let mut held = src;
    core::mem::swap(dest, &mut held);
    held
}

impl View for List {
    type V = Seq<i32>;

    /// The elements of the stack from the head down.
    closed spec fn view(&self) -> Seq<i32> {
        self.head.elems()
    }
}

impl List {
    /// Makes an empty stack.
    pub fn new() -> (list: Self)
        ensures
            list@ == Seq::<i32>::empty(),
    {
        List { head: Link::Empty }
    }

    /// Puts `elem` on top of the stack: a new node takes over the old chain
    /// and becomes the head.
    pub fn push(&mut self, elem: i32)
        ensures
            final(self)@ == pushed(old(self)@, elem),
    {
        let node = Box::new(Node { elem, next: replace(&mut self.head, Link::Empty) });
        self.head = Link::More(node);
    }

    /// Removes the top element and returns it. An empty stack gives `None` and
    /// stays as it is.
    pub fn pop(&mut self) -> (elem: Option<i32>)
        ensures
            elem == top(old(self)@),
            final(self)@ == popped(old(self)@),
    {
        match replace(&mut self.head, Link::Empty) {
            Link::Empty => None,
            Link::More(node) => {
                self.head = node.next;
                Some(node.elem)
            },
        }
    }
}

impl Drop for List {
    /// Releases the chain node by node, in a loop: each node gives up its
    /// successor before it is freed, so that freeing it frees nothing else and
    /// the depth of the call stack does not grow with the chain.
    fn drop(&mut self)
        ensures
            final(self)@ == Seq::<i32>::empty(),
        opens_invariants none
        no_unwind
    {
        let mut cur_link = replace(&mut self.head, Link::Empty);
        loop
            invariant
                self@ == Seq::<i32>::empty(),
            decreases cur_link.elems().len(),
        {
            match cur_link {
                Link::Empty => {
                    break ;
                },
                Link::More(mut boxed_node) => {
                    cur_link = replace(&mut boxed_node.next, Link::Empty);
                },
            }
        }
    }
}

} // verus!
