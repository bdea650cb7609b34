//! A generic stack whose link is an optional owning box, with peeking and
//! three kinds of traversal: by value, by shared borrow and by exclusive borrow.
//!
//! As in [`crate::first`], the chain is an inductive datatype, so it is finite,
//! free of cycles, and each node has one owner. A link is read and cleared in
//! one step, by taking it.
//!
//! A traversal is viewed as the sequence of the elements it has yet to yield.
//! Each step yields the head of that sequence and keeps the rest, which is what
//! a pop does to a stack; an exhausted traversal has the empty view and stays
//! exhausted.

use crate::model::{lemma_pushed_all_reverses, popped, pushed, pushed_all, top};
use vstd::prelude::*;
use vstd::std_specs::iter::IteratorSpecImpl;

verus! {

/// The possibly-absent owner of the next node.
type Link<T> = Option<Box<Node<T>>>;

/// One element and the link to the rest of the chain. Nothing outside this
/// module can make or take apart a node; it is public so that contracts can
/// speak of the node that an exclusive traversal holds.
pub struct Node<T> {
    elem: T,
    next: Link<T>,
}

/// A last-in-first-out stack of `T`.
pub struct List<T> {
    head: Link<T>,
}

/// The elements reachable from `link`, nearest first.
spec fn link_elems<T>(link: Link<T>) -> Seq<T>
    decreases link,
{
    match link {
        None => Seq::empty(),
        Some(node) => seq![node.elem] + link_elems(node.next),
    }
}

/// Moves the link out of its slot and leaves `None` behind. It does what
/// `Option::take` does, and is known neither to unwind nor to open an
/// invariant, as teardown needs.
fn take_link<T>(slot: &mut Link<T>) -> (taken: Link<T>)
    ensures
        taken == *old(slot),
        *final(slot) == None::<Box<Node<T>>>,
    opens_invariants none
    no_unwind
{
    let mut taken = None;
    core::mem::swap(slot, &mut taken);
    taken
}

impl<T> View for Node<T> {
    type V = Seq<T>;

    /// The node's element, then those of the chain behind it.
    closed spec fn view(&self) -> Seq<T> {
        seq![self.elem] + link_elems(self.next)
    }
}

impl<T> View for List<T> {
    type V = Seq<T>;

    /// The elements of the stack from the head down.
    closed spec fn view(&self) -> Seq<T> {
        link_elems(self.head)
    }
}

impl<T> List<T> {
    /// Makes an empty stack.
    pub fn new() -> (list: Self)
        ensures
            list@ == Seq::<T>::empty(),
    {
        List { head: None }
    }

    /// Puts `elem` on top of the stack: a new node takes over the old chain
    /// and becomes the head.
    pub fn push(&mut self, elem: T)
        ensures
            final(self)@ == pushed(old(self)@, elem),
    {
        let node = Box::new(Node { elem, next: self.head.take() });
        self.head = Some(node);
    }

    /// Pushes the elements of `elements` one after another, first to last. The
    /// last of them ends up on top: the run lies on the stack in reverse.
    pub fn push_many(&mut self, elements: Vec<T>)
        ensures
            final(self)@ == pushed_all(old(self)@, elements@),
            final(self)@ == elements@.reverse() + old(self)@,
    {
        for elem in it: elements.into_iter()
            invariant
                it.seq() == elements@,
                self@ == pushed_all(old(self)@, elements@.take(it.index())),
        {
            assert(elements@.take(it.index() + 1).drop_last() == elements@.take(it.index()));
            self.push(elem);
        }
        proof {
            assert(elements@.take(elements@.len() as int) == elements@);
            lemma_pushed_all_reverses(old(self)@, elements@);
        }
    }

    /// Removes the top element and returns it. An empty stack gives `None` and
    /// stays as it is.
    pub fn pop(&mut self) -> (elem: Option<T>)
        ensures
            elem == top(old(self)@),
            final(self)@ == popped(old(self)@),
    {
        match self.head.take() {
            None => None,
            Some(node) => {
                self.head = node.next;
                Some(node.elem)
            },
        }
    }

    /// Borrows the top element without removing it; `None` on an empty stack.
    pub fn peek(&self) -> (elem: Option<&T>)
        ensures
            self@.len() == 0 ==> elem is None,
            self@.len() > 0 ==> elem == Some(&self@[0]),
    {
        match &self.head {
            None => None,
            Some(node) => Some(&node.elem),
        }
    }

    /// Borrows the top element for writing; `None` on an empty stack. What the
    /// borrow holds when it ends is the top element from then on, and the rest
    /// of the stack stays as it is.
    pub fn peek_mut(&mut self) -> (elem: Option<&mut T>)
        ensures
            old(self)@.len() == 0 ==> elem is None && final(self)@ == old(self)@,
            old(self)@.len() > 0 ==> elem is Some && *elem.unwrap() == old(self)@[0]
                && final(self)@ == old(self)@.update(0, *final(elem.unwrap())),
    {
        match &mut self.head {
            None => None,
            Some(node) => Some(&mut node.elem),
        }
    }

    /// Starts a traversal that borrows the elements from the head down. The
    /// stack itself is not changed, so each call starts afresh at the head.
    pub fn iter<'a>(&'a self) -> (iter: Iter<'a, T>)
        ensures
            iter@ == self@,
    {
        Iter {
            next: match &self.head {
                None => None,
                Some(node) => Some(&**node),
            },
        }
    }

    /// Turns the stack into a traversal that owns it and pops as it goes.
    pub fn into_iter(self) -> (iter: IntoIter<T>)
        ensures
            iter@ == self@,
    {
        IntoIter(self)
    }

    /// Starts a traversal that borrows the elements for writing, from the
    /// head down. Once the traversal and the borrows it handed out have ended,
    /// the stack holds what the node under the cursor holds then.
    pub fn iter_mut<'a>(&'a mut self) -> (iter: IterMut<'a, T>)
        ensures
            iter@ == old(self)@,
            iter@.len() == 0 <==> iter.cursor() is None,
            final(self)@ == (match iter.cursor() {
                None => Seq::<T>::empty(),
                Some(node) => final(node)@,
            }),
    {
        IterMut {
            next: match &mut self.head {
                None => None,
                Some(node) => Some(&mut **node),
            },
        }
    }
}

impl<T> Drop for List<T> {
    /// Releases the chain node by node, in a loop: each node gives up its
    /// successor before it is freed, so that freeing it frees nothing else and
    /// the depth of the call stack does not grow with the chain.
    fn drop(&mut self)
        ensures
            final(self)@ == Seq::<T>::empty(),
        opens_invariants none
        no_unwind
    {
        let mut cur_link = take_link(&mut self.head);
        loop
            invariant
                self@ == Seq::<T>::empty(),
            decreases link_elems(cur_link).len(),
        {
            match cur_link {
                None => {
                    break ;
                },
                Some(mut boxed_node) => {
                    cur_link = take_link(&mut boxed_node.next);
                },
            }
        }
    }
}

/// A traversal that owns its stack and hands out the elements by value.
pub struct IntoIter<T>(List<T>);

impl<T> View for IntoIter<T> {
    type V = Seq<T>;

    /// The elements still to come, next first.
    closed spec fn view(&self) -> Seq<T> {
        self.0@
    }
}

impl<T> Iterator for IntoIter<T> {
    type Item = T;

    /// Pops the next element off the owned stack; `None` once it is empty, and
    /// from then on.
    fn next(&mut self) -> (item: Option<T>)
        ensures
            item == top(old(self)@),
            final(self)@ == popped(old(self)@),
    {
        self.0.pop()
    }
}

/// The items still to come are the elements in view, and `next` is proved to
/// keep the iterator laws over them.
impl<T> IteratorSpecImpl for IntoIter<T> {
    open spec fn obeys_prophetic_iter_laws(&self) -> bool {
        true
    }

    open spec fn remaining(&self) -> Seq<T> {
        self@
    }

    open spec fn will_return_none(&self) -> bool {
        true
    }

    open spec fn decrease(&self) -> Option<nat> {
        Some(self@.len())
    }

    open spec fn initial_value_relation(&self, init: &Self) -> bool {
        self@ == init@
    }

    open spec fn peek(&self, index: int) -> Option<T> {
        if 0 <= index < self@.len() {
            Some(self@[index])
        } else {
            None
        }
    }
}

/// A traversal that borrows the elements of a stack.
pub struct Iter<'a, T> {
    next: Option<&'a Node<T>>,
}

impl<'a, T> View for Iter<'a, T> {
    type V = Seq<T>;

    /// The elements still to come, next first.
    closed spec fn view(&self) -> Seq<T> {
        match self.next {
            None => Seq::empty(),
            Some(node) => node@,
        }
    }
}

impl<'a, T> Iterator for Iter<'a, T> {
    type Item = &'a T;

    /// Yields the element at the current position and moves on to its
    /// successor; `None` once the end is reached, and from then on.
    fn next(&mut self) -> (item: Option<&'a T>)
        ensures
            old(self)@.len() == 0 ==> item is None,
            old(self)@.len() > 0 ==> item == Some(&old(self)@[0]),
            final(self)@ == popped(old(self)@),
    {
        match self.next {
            None => None,
            Some(node) => {
                self.next = match &node.next {
                    None => None,
                    Some(succ) => Some(&**succ),
                };
                Some(&node.elem)
            },
        }
    }
}

/// The items still to come are borrows of the elements in view, and `next` is
/// proved to keep the iterator laws over them.
impl<'a, T> IteratorSpecImpl for Iter<'a, T> {
    open spec fn obeys_prophetic_iter_laws(&self) -> bool {
        true
    }

    open spec fn remaining(&self) -> Seq<&'a T> {
        self@.map_values(|e: T| &e)
    }

    open spec fn will_return_none(&self) -> bool {
        true
    }

    open spec fn decrease(&self) -> Option<nat> {
        Some(self@.len())
    }

    open spec fn initial_value_relation(&self, init: &Self) -> bool {
        self@ == init@
    }

    open spec fn peek(&self, index: int) -> Option<&'a T> {
        if 0 <= index < self@.len() {
            Some(&self@[index])
        } else {
            None
        }
    }
}

/// A traversal that borrows the elements of a stack for writing.
pub struct IterMut<'a, T> {
    next: Option<&'a mut Node<T>>,
}

impl<'a, T> View for IterMut<'a, T> {
    type V = Seq<T>;

    /// The elements still to come, next first, as they are now.
    open spec fn view(&self) -> Seq<T> {
        match self.cursor() {
            None => Seq::empty(),
            Some(node) => (*node)@,
        }
    }
}

impl<'a, T> IterMut<'a, T> {
    /// The borrow of the node to visit next, if any is left.
    pub closed spec fn cursor(&self) -> Option<&'a mut Node<T>> {
        self.next
    }

    /// A traversal that is no longer used leaves the elements it has not
    /// reached as they are: the node under its cursor holds in the end what it
    /// holds now.
    pub proof fn lemma_unvisited_stay(self)
        requires
            has_resolved(self),
        ensures
            self.cursor() matches Some(node) ==> *final(node) == *node,
    {
    }
}

impl<'a, T> Iterator for IterMut<'a, T> {
    type Item = &'a mut T;

    /// Yields the element at the current position for writing and moves on to
    /// its successor; `None` once the end is reached, and from then on. The
    /// traversal gives up its borrow of the node as it yields the element, so
    /// no two borrows of one element are ever handed out. The node that was
    /// under the cursor will hold in the end what the yielded borrow holds when
    /// it ends, followed by what the node under the new cursor holds then.
    fn next(&mut self) -> (item: Option<&'a mut T>)
        ensures
            old(self)@.len() == 0 ==> item is None,
            old(self)@.len() > 0 ==> item is Some && *item.unwrap() == old(self)@[0],
            final(self)@ == popped(old(self)@),
            final(self)@.len() == 0 <==> final(self).cursor() is None,
            old(self).cursor() matches Some(node) ==> final(node)@ == seq![
                *final(item.unwrap()),
            ] + (match final(self).cursor() {
                None => Seq::<T>::empty(),
                Some(succ) => final(succ)@,
            }),
    {
        match self.next.take() {
            None => None,
            Some(node) => {
                self.next = match &mut node.next {
                    None => None,
                    Some(succ) => Some(&mut **succ),
                };
                Some(&mut node.elem)
            },
        }
    }
}

/// The iterator laws describe the items still to come as one sequence of
/// values. An exclusive borrow is more than a value: it also stands for what
/// will have been written through it, which no sequence fixed in advance can
/// hold. So this traversal claims nothing under those laws; the clauses on its
/// `next` are its whole contract.
impl<'a, T> IteratorSpecImpl for IterMut<'a, T> {
    open spec fn obeys_prophetic_iter_laws(&self) -> bool {
        false
    }

    open spec fn remaining(&self) -> Seq<&'a mut T> {
        arbitrary()
    }

    open spec fn will_return_none(&self) -> bool {
        true
    }

    open spec fn decrease(&self) -> Option<nat> {
        Some(self@.len())
    }

    open spec fn initial_value_relation(&self, init: &Self) -> bool {
        self@ == init@
    }

    open spec fn peek(&self, index: int) -> Option<&'a mut T> {
        None
    }
}

} // verus!
