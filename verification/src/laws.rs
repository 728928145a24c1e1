//! What holds between the operations, for every collection and every outcome.
//!
//! An operation is spoken of through `call_ensures`: `call_ensures(op, args,
//! out)` says that `out` is what a call of `op` on `args` returned.

use crate::room::can_hold;
use crate::smallvec::FunctionalSmallVec;
use crate::vec::FunctionalVec;
use crate::vecdeque::FunctionalVecDeque;
use vstd::prelude::*;

verus! {

/// Clearing a dynamic array twice leaves what clearing it once leaves.
pub proof fn vec_clear_twice_is_clear_once<C: FunctionalVec>(c: C, once: C, twice: C)
    requires
        call_ensures(C::clear_new, (c,), once),
        call_ensures(C::clear_new, (once,), twice),
    ensures
        twice.items() == once.items(),
        twice.items() == Seq::<C::Item>::empty(),
{
}

/// Clearing a small array twice leaves what clearing it once leaves.
pub proof fn small_clear_twice_is_clear_once<C: FunctionalSmallVec>(c: C, once: C, twice: C)
    requires
        call_ensures(C::clear_new, (c,), once),
        call_ensures(C::clear_new, (once,), twice),
    ensures
        twice.items() == once.items(),
        twice.items() == Seq::<C::Item>::empty(),
{
}

/// Splitting a dynamic array at an index within it and appending the part
/// from the index on to the part before it gives the elements back. (The
/// array can hold its own length: that much is asked so that the parts may
/// be appended.)
pub proof fn vec_split_then_append_restores<C: FunctionalVec>(
    c: C,
    at: usize,
    parts: (C, C),
    whole: C,
)
    requires
        at <= c.items().len(),
        can_hold::<C::Item>(c.items().len() as int),
        call_ensures(C::split_off_new, (c, at), parts),
        call_ensures(C::append_new, (parts.1, parts.0), whole),
    ensures
        whole.items() == c.items(),
{
    assert(whole.items() =~= c.items());
}

/// Splitting a queue at an index within it and appending the part from the
/// index on to the part before it gives the elements back. (The queue can
/// hold its own length: that much is asked so that the parts may be
/// appended.)
pub proof fn deque_split_then_append_restores<C: FunctionalVecDeque>(
    c: C,
    at: usize,
    parts: (C, C),
    whole: C,
)
    requires
        at <= c.items().len(),
        can_hold::<C::Item>(c.items().len() as int),
        call_ensures(C::split_off_new, (c, at), parts),
        call_ensures(C::append_new, (parts.1, parts.0), whole),
    ensures
        whole.items() == c.items(),
{
    assert(whole.items() =~= c.items());
}

/// A chain of two operations ends as the same two operations end with the
/// value between them bound to a name: where each operation's result holds
/// what a function of the elements it was given says, both ways end with the
/// second function of the first function of the elements at the start.
pub proof fn chain_ends_as_binding_does<C, T, F: FnOnce(C) -> C, G: FnOnce(C) -> C>(
    contents: spec_fn(C) -> Seq<T>,
    first: F,
    second: G,
    first_does: spec_fn(Seq<T>) -> Seq<T>,
    second_does: spec_fn(Seq<T>) -> Seq<T>,
    start: C,
    chained: (C, C),
    bound: (C, C),
)
    requires
        forall|c: C, out: C|
            call_ensures(first, (c,), out) ==> contents(out) == first_does(contents(c)),
        forall|c: C, out: C|
            call_ensures(second, (c,), out) ==> contents(out) == second_does(contents(c)),
        call_ensures(first, (start,), chained.0),
        call_ensures(second, (chained.0,), chained.1),
        call_ensures(first, (start,), bound.0),
        call_ensures(second, (bound.0,), bound.1),
    ensures
        contents(chained.1) == contents(bound.1),
        contents(chained.1) == second_does(first_does(contents(start))),
{
}

} // verus!
