//! The mathematical model shared by both stacks, and the laws that follow
//! from it.
//!
//! A stack is the sequence of its elements from the head down, so index 0 is
//! the element that the next pop returns. A traversal is modelled the same way:
//! by the sequence of the elements that it has yet to yield.

use vstd::prelude::*;

verus! {

/// The stack `s` after `elem` was pushed onto it.
pub open spec fn pushed<T>(s: Seq<T>, elem: T) -> Seq<T> {
    seq![elem] + s
}

/// What a pop returns on `s`: its head, or `None` where it is empty.
pub open spec fn top<T>(s: Seq<T>) -> Option<T> {
    if s.len() == 0 {
        None
    } else {
        Some(s[0])
    }
}

/// The stack `s` after one pop: without its head, or unchanged where it is
/// empty.
pub open spec fn popped<T>(s: Seq<T>) -> Seq<T> {
    if s.len() == 0 {
        s
    } else {
        s.drop_first()
    }
}

/// The stack `s` after each element of `elems` was pushed onto it, first to
/// last.
pub open spec fn pushed_all<T>(s: Seq<T>, elems: Seq<T>) -> Seq<T>
    decreases elems.len(),
{
    if elems.len() == 0 {
        s
    } else {
        pushed(pushed_all(s, elems.drop_last()), elems.last())
    }
}

/// What `n` pops in a row return on `s`, the first pop first.
pub open spec fn pop_results<T>(s: Seq<T>, n: nat) -> Seq<Option<T>>
    decreases n,
{
    if n == 0 {
        Seq::empty()
    } else {
        seq![top(s)] + pop_results(popped(s), (n - 1) as nat)
    }
}

/// The stack `s` after `n` pops in a row.
pub open spec fn popped_n<T>(s: Seq<T>, n: nat) -> Seq<T>
    decreases n,
{
    if n == 0 {
        s
    } else {
        popped_n(popped(s), (n - 1) as nat)
    }
}

/// A pop undoes the push before it: it returns the element that was pushed
/// and leaves the stack as it was.
pub proof fn lemma_pop_undoes_push<T>(s: Seq<T>, elem: T)
    ensures
        top(pushed(s, elem)) == Some(elem),
        popped(pushed(s, elem)) == s,
{
}

/// Writing `elem` over the head of a stack makes `elem` what the next pop
/// returns, and leaves everything below the head as it was.
pub proof fn lemma_rewritten_top<T>(s: Seq<T>, elem: T)
    requires
        s.len() > 0,
    ensures
        top(s.update(0, elem)) == Some(elem),
        popped(s.update(0, elem)) == popped(s),
{
}

/// Pushing a run of elements one by one puts them on the stack in reverse:
/// the last one pushed ends up at the head.
pub proof fn lemma_pushed_all_reverses<T>(s: Seq<T>, elems: Seq<T>)
    ensures
        pushed_all(s, elems) == elems.reverse() + s,
    decreases elems.len(),
{
    if elems.len() > 0 {
        lemma_pushed_all_reverses(s, elems.drop_last());
    }
}

/// Popping `n` times walks down the stack from the head: the `i`-th pop
/// returns the element at index `i` while there is one and `None` from then
/// on, and what is left is the stack without its first `n` elements, or the
/// empty stack where it had fewer. The same holds of `n` steps of a traversal,
/// which yields the head of what it has yet to yield and keeps the rest.
pub proof fn lemma_pops_walk_down<T>(s: Seq<T>, n: nat)
    ensures
        pop_results(s, n).len() == n,
        forall|i: int|
            0 <= i < n ==> #[trigger] pop_results(s, n)[i] == if i < s.len() {
                Some(s[i])
            } else {
                None
            },
        popped_n(s, n) == if n <= s.len() {
            s.skip(n as int)
        } else {
            Seq::<T>::empty()
        },
    decreases n,
{
    if n > 0 {
        lemma_pops_walk_down(popped(s), (n - 1) as nat);
    }
}

/// The LIFO law: after a run of pushes, as many pops return the pushed
/// elements in exactly the reverse order, and leave the stack as it was
/// before the pushes.
pub proof fn lemma_lifo<T>(s: Seq<T>, elems: Seq<T>)
    ensures
        pop_results(pushed_all(s, elems), elems.len()) == elems.reverse().map_values(
            |e: T| Some(e),
        ),
        popped_n(pushed_all(s, elems), elems.len()) == s,
{
    lemma_pushed_all_reverses(s, elems);
    lemma_pops_walk_down(pushed_all(s, elems), elems.len());
}

/// Popping an empty stack changes nothing, however often it is done: every
/// pop returns `None` and the stack stays empty.
pub proof fn lemma_empty_stays_empty<T>(n: nat)
    ensures
        pop_results(Seq::<T>::empty(), n) == Seq::new(n, |i: int| None::<T>),
        popped_n(Seq::<T>::empty(), n) == Seq::<T>::empty(),
{
    lemma_pops_walk_down(Seq::<T>::empty(), n);
}

} // verus!
