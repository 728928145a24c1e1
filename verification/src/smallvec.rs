//! Chainable mutations of a small array: a dynamic array that keeps its
//! first elements inline and moves to the heap when they no longer fit.

use crate::model::{
    deduped, deduped_by_eq, deduped_by_key, lemma_deduped_len, ready_on_any, ready_on_mut,
    ready_on_pairs, resized, resized_with, retained_mut, spliced, swap_removed, truncated,
};
use crate::room::{can_grow_to, can_hold};
use ::smallvec::CollectionAllocErr;
use ::smallvec::SmallVec;
use std::alloc::Layout;
use vstd::prelude::*;
use vstd::std_specs::cmp::PartialEqSpec;

verus! {

/// `std::alloc::Layout`, carried through as it comes: nothing is said of it.
#[verifier::external_type_specification]
#[verifier::external_body]
pub struct ExLayout(Layout);

/// Why room for more elements could not be had.
#[derive(Debug, Clone, Copy, PartialEq, Eq)]
pub enum AllocFailure {
    /// The size asked for is beyond what a collection can have.
    CapacityOverflow,
    /// The allocator gave no memory of this layout.
    AllocErr { layout: Layout },
}

/// The mutations of a small array, each taking the array by value and
/// handing it back, beside whatever the mutation in place returns.
///
/// `items` is the sequence of elements that a value holds; every contract is
/// stated over it. Where an operation may have to find more room, the array
/// takes it in powers of two: such an operation requires `can_grow_to` of
/// the new length.
pub trait FunctionalSmallVec: Sized {
    type Item;

    /// The elements held, first to last.
    spec fn items(&self) -> Seq<Self::Item>;

    /// How many elements are kept inline.
    spec fn inline_size() -> nat;

    /// Moves the elements of `other` behind those of `self`.
    fn append_new(self, other: Self) -> (out: Self)
        requires
            can_grow_to::<Self::Item>((self.items().len() + other.items().len()) as int),
        ensures
            out.items() == self.items() + other.items(),
    ;

    /// Removes every element.
    fn clear_new(self) -> (out: Self)
        ensures
            out.items() == Seq::<Self::Item>::empty(),
    ;

    /// Cuts each run of equal neighbours down to its first element, where
    /// `==` on the elements is their `eq_spec`.
    fn dedup_new(self) -> (out: Self) where Self::Item: PartialEq<Self::Item>
        ensures
            out.items().len() <= self.items().len(),
            <Self::Item as PartialEqSpec>::obeys_eq_spec() ==> out.items() == deduped_by_eq(
                self.items(),
            ),
    ;

    /// Cuts each run of neighbours that `same_bucket` holds together down to
    /// its first element. `same_bucket` gets an element and the last one kept
    /// before it. Where it changes neither and answers as a relation `same`
    /// does, the result is `deduped` by `same`.
    fn dedup_by_new<F>(self, same_bucket: F) -> (out: Self) where
        F: FnMut(&mut Self::Item, &mut Self::Item) -> bool,

        requires
            ready_on_pairs::<Self::Item, F>(same_bucket),
        ensures
            out.items().len() <= self.items().len(),
            forall|same: spec_fn(Self::Item, Self::Item) -> bool|
                (forall|a: &mut Self::Item, b: &mut Self::Item, answer: bool|
                    call_ensures(same_bucket, (a, b), answer) ==> *final(a) == *a && *final(b)
                        == *b && answer == same(*a, *b)) ==> out.items() == #[trigger] deduped(
                    self.items(),
                    same,
                ),
    ;

    /// Cuts each run of neighbours with equal keys down to its first element.
    /// Where `key` changes no element and gives what a function `by` gives,
    /// and `==` on the keys is their `eq_spec`, the result is
    /// `deduped_by_key` by `by`.
    fn dedup_by_key_new<F, K>(self, key: F) -> (out: Self) where
        F: FnMut(&mut Self::Item) -> K,
        K: PartialEq<K>,

        requires
            ready_on_any::<Self::Item, K, F>(key),
        ensures
            out.items().len() <= self.items().len(),
            forall|by: spec_fn(Self::Item) -> K|
                (<K as PartialEqSpec>::obeys_eq_spec() && forall|a: &mut Self::Item, k: K|
                    call_ensures(key, (a,), k) ==> *final(a) == *a && k == by(*a))
                    ==> out.items() == #[trigger] deduped_by_key(self.items(), by),
    ;

    /// Adds a copy of each element of `slice` at the end.
    fn extend_from_slice_new(self, slice: &[Self::Item]) -> (out: Self) where Self::Item: Copy
        requires
            can_grow_to::<Self::Item>((self.items().len() + slice@.len()) as int),
        ensures
            out.items() == self.items() + slice@,
    ;

    /// Sets the room to `new_cap` elements, or to the inline size if that is
    /// more; does nothing where `new_cap` is less than the length.
    fn grow_new(self, new_cap: usize) -> (out: Self)
        requires
            new_cap < self.items().len() || can_hold::<Self::Item>(new_cap as int),
        ensures
            out.items() == self.items(),
    ;

    /// Puts `element` in at `index`, moving what follows one place on.
    fn insert_new(self, index: usize, element: Self::Item) -> (out: Self)
        requires
            index <= self.items().len(),
            can_grow_to::<Self::Item>((self.items().len() + 1) as int),
        ensures
            out.items() == self.items().insert(index as int, element),
    ;

    /// Puts a copy of each element of `slice` in at `index`, moving what
    /// follows on.
    fn insert_from_slice_new(self, index: usize, slice: &[Self::Item]) -> (out: Self) where
        Self::Item: Copy,

        requires
            index <= self.items().len(),
            can_grow_to::<Self::Item>((self.items().len() + slice@.len()) as int),
        ensures
            out.items() == spliced(self.items(), index as int, slice@),
    ;

    /// Puts the elements of `iterable` in at `index`, in their order, moving
    /// what follows on.
    fn insert_many_new(self, index: usize, iterable: Vec<Self::Item>) -> (out: Self)
        requires
            index <= self.items().len(),
            can_grow_to::<Self::Item>((self.items().len() + iterable@.len()) as int),
        ensures
            out.items() == spliced(self.items(), index as int, iterable@),
    ;

    /// Takes the last element off, if there is one.
    fn pop_new(self) -> (out: (Option<Self::Item>, Self))
        ensures
            self.items().len() > 0 ==> out.0 == Some(self.items().last()) && out.1.items()
                == self.items().drop_last(),
            self.items().len() == 0 ==> out.0.is_none() && out.1.items() == self.items(),
    ;

    /// Adds `value` at the end.
    fn push_new(self, value: Self::Item) -> (out: Self)
        requires
            can_grow_to::<Self::Item>((self.items().len() + 1) as int),
        ensures
            out.items() == self.items().push(value),
    ;

    /// Takes out the element at `index`, moving what follows one place back.
    fn remove_new(self, index: usize) -> (out: (Self::Item, Self))
        requires
            index < self.items().len(),
        ensures
            out.0 == self.items()[index as int],
            out.1.items() == self.items().remove(index as int),
    ;

    /// Makes room for `additional` more elements, or more.
    fn reserve_new(self, additional: usize) -> (out: Self)
        requires
            can_grow_to::<Self::Item>((self.items().len() + additional) as int),
        ensures
            out.items() == self.items(),
    ;

    /// Makes room for `additional` more elements.
    fn reserve_exact_new(self, additional: usize) -> (out: Self)
        requires
            can_hold::<Self::Item>((self.items().len() + additional) as int),
        ensures
            out.items() == self.items(),
    ;

    /// Brings the length to `len`, by cutting or by adding clones of `value`.
    fn resize_new(self, len: usize, value: Self::Item) -> (out: Self) where Self::Item: Clone
        requires
            len <= self.items().len() || can_grow_to::<Self::Item>(len as int),
        ensures
            resized(self.items(), len as int, value, out.items()),
    ;

    /// Brings the length to `new_len`, by cutting or by adding what `f` gives.
    fn resize_with_new<F>(self, new_len: usize, f: F) -> (out: Self) where
        F: FnMut() -> Self::Item,

        requires
            new_len <= self.items().len() || can_grow_to::<Self::Item>(new_len as int),
            new_len > self.items().len() ==> call_requires(f, ()),
        ensures
            resized_with(self.items(), new_len as int, f, out.items()),
    ;

    /// Keeps the elements that `f` accepts, in their order, as `f` leaves
    /// them. Where `f` answers on an element as `keep` does and leaves it as
    /// `step` gives, the result is `retained_mut` by them.
    fn retain_new<F>(self, f: F) -> (out: Self) where F: FnMut(&mut Self::Item) -> bool
        requires
            ready_on_mut::<Self::Item, F>(f, self.items()),
        ensures
            out.items().len() <= self.items().len(),
            forall|step: spec_fn(Self::Item) -> Self::Item, keep: spec_fn(Self::Item) -> bool|
                (forall|r: &mut Self::Item, answer: bool|
                    self.items().contains(*r) && call_ensures(f, (r,), answer) ==> *final(r)
                        == step(*r) && answer == keep(*r)) ==> out.items()
                    == #[trigger] retained_mut(self.items(), step, keep),
    ;

    /// The same as `retain_new`.
    fn retain_mut_new<F>(self, f: F) -> (out: Self) where F: FnMut(&mut Self::Item) -> bool
        requires
            ready_on_mut::<Self::Item, F>(f, self.items()),
        ensures
            out.items().len() <= self.items().len(),
            forall|step: spec_fn(Self::Item) -> Self::Item, keep: spec_fn(Self::Item) -> bool|
                (forall|r: &mut Self::Item, answer: bool|
                    self.items().contains(*r) && call_ensures(f, (r,), answer) ==> *final(r)
                        == step(*r) && answer == keep(*r)) ==> out.items()
                    == #[trigger] retained_mut(self.items(), step, keep),
    ;

    /// Gives back the room that no element uses, moving the elements inline
    /// where they fit.
    fn shrink_to_fit_new(self) -> (out: Self)
        ensures
            out.items() == self.items(),
    ;

    /// Takes out the element at `index` and puts the last element in its place.
    fn swap_remove_new(self, index: usize) -> (out: (Self::Item, Self))
        requires
            index < self.items().len(),
        ensures
            out.0 == self.items()[index as int],
            out.1.items() == swap_removed(self.items(), index as int),
    ;

    /// Keeps the first `len` elements.
    fn truncate_new(self, len: usize) -> (out: Self)
        ensures
            out.items() == truncated(self.items(), len as int),
    ;

    /// Tries to set the room to `new_cap` elements, or to the inline size if
    /// that is more. The elements stay as they are whatever the outcome. It
    /// succeeds where `new_cap` is less than the length or fits inline, and
    /// fails with `CapacityOverflow` where the array cannot hold `new_cap`.
    fn try_grow_new(self, new_cap: usize) -> (out: (Result<(), AllocFailure>, Self))
        ensures
            out.1.items() == self.items(),
            new_cap < self.items().len() || new_cap <= Self::inline_size() ==> out.0.is_ok(),
            new_cap >= self.items().len() && !can_hold::<Self::Item>(new_cap as int) ==> out.0
                matches Err(AllocFailure::CapacityOverflow),
    ;

    /// Tries to make room for `additional` more elements, or more. The
    /// elements stay as they are whatever the outcome. It succeeds where
    /// nothing is asked for or the new length fits inline, and fails with
    /// `CapacityOverflow` where the array cannot hold the new length.
    fn try_reserve_new(self, additional: usize) -> (out: (Result<(), AllocFailure>, Self))
        ensures
            out.1.items() == self.items(),
            additional == 0 || self.items().len() + additional <= Self::inline_size()
                ==> out.0.is_ok(),
            !can_hold::<Self::Item>((self.items().len() + additional) as int) ==> out.0
                matches Err(AllocFailure::CapacityOverflow),
    ;

    /// Tries to make room for `additional` more elements. The elements stay
    /// as they are whatever the outcome. It succeeds where nothing is asked
    /// for or the new length fits inline, and fails with `CapacityOverflow`
    /// where the array cannot hold the new length.
    fn try_reserve_exact_new(self, additional: usize) -> (out: (Result<(), AllocFailure>, Self))
        ensures
            out.1.items() == self.items(),
            additional == 0 || self.items().len() + additional <= Self::inline_size()
                ==> out.0.is_ok(),
            !can_hold::<Self::Item>((self.items().len() + additional) as int) ==> out.0
                matches Err(AllocFailure::CapacityOverflow),
    ;
}

/// A small array of `u64` that keeps up to four elements inline: a
/// `smallvec::SmallVec<[u64; 4]>`, of which nothing is known here but what
/// the functions below say of `small_items`.
#[verifier::external_body]
#[derive(Debug)]
pub struct SmallArray {
    inner: SmallVec<[u64; 4]>,
}

/// The elements that a small array holds, first to last.
pub uninterp spec fn small_items(a: SmallArray) -> Seq<u64>;

impl View for SmallArray {
    type V = Seq<u64>;

    open spec fn view(&self) -> Seq<u64> {
        small_items(*self)
    }
}

/// `SmallVec::new`: an array without elements.
#[verifier::external_body]
fn small_new() -> (a: SmallArray)
    ensures
        small_items(a) == Seq::<u64>::empty(),
{
    SmallArray { inner: SmallVec::new() }
}

/// `SmallVec::from_vec`: an array of the vector's elements, in their order.
#[verifier::external_body]
fn small_from_vec(v: Vec<u64>) -> (a: SmallArray)
    ensures
        small_items(a) == v@,
{
    SmallArray { inner: SmallVec::from_vec(v) }
}

/// `SmallVec::into_vec`: a vector of the array's elements, in their order.
#[verifier::external_body]
fn small_into_vec(a: SmallArray) -> (v: Vec<u64>)
    ensures
        v@ == small_items(a),
{
    a.inner.into_vec()
}

/// `SmallVec::len`: the number of elements.
#[verifier::external_body]
fn small_len(a: &SmallArray) -> (n: usize)
    ensures
        n == small_items(*a).len(),
{
    a.inner.len()
}

impl SmallArray {
    /// An array without elements.
    pub fn new() -> (out: Self)
        ensures
            out@ == Seq::<u64>::empty(),
    {
        small_new()
    }

    /// An array of the elements of `v`, in their order.
    pub fn from_vec(v: Vec<u64>) -> (out: Self)
        ensures
            out@ == v@,
    {
        small_from_vec(v)
    }

    /// The elements as a vector, in their order.
    pub fn into_vec(self) -> (out: Vec<u64>)
        ensures
            out@ == self@,
    {
        small_into_vec(self)
    }

    /// The number of elements.
    pub fn len(&self) -> (n: usize)
        ensures
            n == self@.len(),
    {
        small_len(self)
    }
}

/// `SmallVec::append`: the elements of `other` are moved behind those of
/// `a`. Room is asked for first, for the next power of two.
#[verifier::external_body]
fn small_append(a: &mut SmallArray, other: SmallArray)
    requires
        can_grow_to::<u64>((small_items(*old(a)).len() + small_items(other).len()) as int),
    ensures
        small_items(*final(a)) == small_items(*old(a)) + small_items(other),
{
    let mut other = other;
    a.inner.append(&mut other.inner)
}

/// `SmallVec::clear`: no element is left.
#[verifier::external_body]
fn small_clear(a: &mut SmallArray)
    ensures
        small_items(*final(a)) == Seq::<u64>::empty(),
{
    a.inner.clear()
}

/// `SmallVec::dedup`: each run of equal neighbours is cut down to its first
/// element.
#[verifier::external_body]
fn small_dedup(a: &mut SmallArray)
    ensures
        small_items(*final(a)) == deduped_by_eq(small_items(*old(a))),
{
    a.inner.dedup()
}

/// `SmallVec::dedup_by`: the array gets no longer. The closure is called on
/// an element and the last element kept before it; where it changes neither
/// and answers as `same` does, an element leaves when the answer is true.
#[verifier::external_body]
fn small_dedup_by<F: FnMut(&mut u64, &mut u64) -> bool>(a: &mut SmallArray, same_bucket: F)
    requires
        ready_on_pairs::<u64, F>(same_bucket),
    ensures
        small_items(*final(a)).len() <= small_items(*old(a)).len(),
        forall|same: spec_fn(u64, u64) -> bool|
            (forall|x: &mut u64, y: &mut u64, answer: bool|
                call_ensures(same_bucket, (x, y), answer) ==> *final(x) == *x && *final(y) == *y
                    && answer == same(*x, *y)) ==> small_items(*final(a)) == #[trigger] deduped(
                small_items(*old(a)),
                same,
            ),
{
    a.inner.dedup_by(same_bucket)
}

/// `SmallVec::dedup_by_key`: the array gets no longer. Where the closure
/// changes no element and gives the key that `by` gives, and `==` on the
/// keys is their `eq_spec`, all but the first of each run of neighbours
/// with equal keys leave.
#[verifier::external_body]
fn small_dedup_by_key<K: PartialEq<K>, F: FnMut(&mut u64) -> K>(a: &mut SmallArray, key: F)
    requires
        ready_on_any::<u64, K, F>(key),
    ensures
        small_items(*final(a)).len() <= small_items(*old(a)).len(),
        forall|by: spec_fn(u64) -> K|
            (<K as PartialEqSpec>::obeys_eq_spec() && forall|x: &mut u64, k: K|
                call_ensures(key, (x,), k) ==> *final(x) == *x && k == by(*x)) ==> small_items(
                *final(a),
            ) == #[trigger] deduped_by_key(small_items(*old(a)), by),
{
    a.inner.dedup_by_key(key)
}

/// `SmallVec::extend_from_slice`: the elements of `slice` are copied to the
/// end. Room is asked for first, for the next power of two.
#[verifier::external_body]
fn small_extend_from_slice(a: &mut SmallArray, slice: &[u64])
    requires
        can_grow_to::<u64>((small_items(*old(a)).len() + slice@.len()) as int),
    ensures
        small_items(*final(a)) == small_items(*old(a)) + slice@,
{
    a.inner.extend_from_slice(slice)
}

/// `SmallVec::grow`: the elements stay as they are. It panics where the
/// size of `new_cap` elements cannot be computed, unless `new_cap` is less
/// than the length.
#[verifier::external_body]
fn small_grow(a: &mut SmallArray, new_cap: usize)
    requires
        new_cap < small_items(*old(a)).len() || can_hold::<u64>(new_cap as int),
    ensures
        small_items(*final(a)) == small_items(*old(a)),
{
    a.inner.grow(new_cap)
}

/// `SmallVec::insert`: `element` is put in at `index`, which must not be
/// greater than the length. A full array asks for room first, for the next
/// power of two.
#[verifier::external_body]
fn small_insert(a: &mut SmallArray, index: usize, element: u64)
    requires
        index <= small_items(*old(a)).len(),
        can_grow_to::<u64>((small_items(*old(a)).len() + 1) as int),
    ensures
        small_items(*final(a)) == small_items(*old(a)).insert(index as int, element),
{
    a.inner.insert(index, element)
}

/// `SmallVec::insert_from_slice`: the elements of `slice` are copied in at
/// `index`, which must not be greater than the length. Room is asked for
/// first, for the next power of two.
#[verifier::external_body]
fn small_insert_from_slice(a: &mut SmallArray, index: usize, slice: &[u64])
    requires
        index <= small_items(*old(a)).len(),
        can_grow_to::<u64>((small_items(*old(a)).len() + slice@.len()) as int),
    ensures
        small_items(*final(a)) == spliced(small_items(*old(a)), index as int, slice@),
{
    a.inner.insert_from_slice(index, slice)
}

/// `SmallVec::insert_many`, handed a vector: its elements are put in at
/// `index`, in their order; `index` must not be greater than the length.
/// Room is asked for first, for the next power of two.
#[verifier::external_body]
fn small_insert_many(a: &mut SmallArray, index: usize, iterable: Vec<u64>)
    requires
        index <= small_items(*old(a)).len(),
        can_grow_to::<u64>((small_items(*old(a)).len() + iterable@.len()) as int),
    ensures
        small_items(*final(a)) == spliced(small_items(*old(a)), index as int, iterable@),
{
    a.inner.insert_many(index, iterable)
}

/// `SmallVec::pop`: the last element leaves and is returned; of an empty
/// array the result is `None`.
#[verifier::external_body]
fn small_pop(a: &mut SmallArray) -> (res: Option<u64>)
    ensures
        small_items(*old(a)).len() > 0 ==> res == Some(small_items(*old(a)).last())
            && small_items(*final(a)) == small_items(*old(a)).drop_last(),
        small_items(*old(a)).len() == 0 ==> res.is_none() && small_items(*final(a))
            == small_items(*old(a)),
{
    a.inner.pop()
}

/// `SmallVec::push`: `value` is added at the end. A full array asks for
/// room first, for the next power of two.
#[verifier::external_body]
fn small_push(a: &mut SmallArray, value: u64)
    requires
        can_grow_to::<u64>((small_items(*old(a)).len() + 1) as int),
    ensures
        small_items(*final(a)) == small_items(*old(a)).push(value),
{
    a.inner.push(value)
}

/// `SmallVec::remove`: the element at `index` leaves and is returned, and
/// what follows moves one place back. `index` must be within the array.
#[verifier::external_body]
fn small_remove(a: &mut SmallArray, index: usize) -> (res: u64)
    requires
        index < small_items(*old(a)).len(),
    ensures
        res == small_items(*old(a))[index as int],
        small_items(*final(a)) == small_items(*old(a)).remove(index as int),
{
    a.inner.remove(index)
}

/// `SmallVec::reserve`: the elements stay as they are. Room is asked for
/// the next power of two.
#[verifier::external_body]
fn small_reserve(a: &mut SmallArray, additional: usize)
    requires
        can_grow_to::<u64>((small_items(*old(a)).len() + additional) as int),
    ensures
        small_items(*final(a)) == small_items(*old(a)),
{
    a.inner.reserve(additional)
}

/// `SmallVec::reserve_exact`: the elements stay as they are.
#[verifier::external_body]
fn small_reserve_exact(a: &mut SmallArray, additional: usize)
    requires
        can_hold::<u64>((small_items(*old(a)).len() + additional) as int),
    ensures
        small_items(*final(a)) == small_items(*old(a)),
{
    a.inner.reserve_exact(additional)
}

/// `SmallVec::resize`: a longer array is cut to `len`; a shorter one gets
/// `value` at the end until its length is `len`. Room is asked for first,
/// for the next power of two.
#[verifier::external_body]
fn small_resize(a: &mut SmallArray, len: usize, value: u64)
    requires
        len <= small_items(*old(a)).len() || can_grow_to::<u64>(len as int),
    ensures
        resized(small_items(*old(a)), len as int, value, small_items(*final(a))),
{
    a.inner.resize(len, value)
}

/// `SmallVec::resize_with`: a longer array is cut to `new_len`; a shorter
/// one keeps its elements and gets, up to `new_len`, what the calls of `f`
/// gave. Room is asked for first, for the next power of two.
#[verifier::external_body]
fn small_resize_with<F: FnMut() -> u64>(a: &mut SmallArray, new_len: usize, f: F)
    requires
        new_len <= small_items(*old(a)).len() || can_grow_to::<u64>(new_len as int),
        new_len > small_items(*old(a)).len() ==> call_requires(f, ()),
    ensures
        resized_with(small_items(*old(a)), new_len as int, f, small_items(*final(a))),
{
    a.inner.resize_with(new_len, f)
}

/// `SmallVec::retain`: the array gets no longer. The closure is called once
/// on each element, in order; where it answers as `keep` does and leaves
/// the element as `step` gives, the elements with a true answer stay, in
/// their order and as the closure left them.
#[verifier::external_body]
fn small_retain<F: FnMut(&mut u64) -> bool>(a: &mut SmallArray, f: F)
    requires
        ready_on_mut::<u64, F>(f, small_items(*old(a))),
    ensures
        small_items(*final(a)).len() <= small_items(*old(a)).len(),
        forall|step: spec_fn(u64) -> u64, keep: spec_fn(u64) -> bool|
            (forall|r: &mut u64, answer: bool|
                small_items(*old(a)).contains(*r) && call_ensures(f, (r,), answer) ==> *final(r)
                    == step(*r) && answer == keep(*r)) ==> small_items(*final(a))
                == #[trigger] retained_mut(small_items(*old(a)), step, keep),
{
    a.inner.retain(f)
}

/// `SmallVec::retain_mut`: as `SmallVec::retain`, which it calls.
#[verifier::external_body]
fn small_retain_mut<F: FnMut(&mut u64) -> bool>(a: &mut SmallArray, f: F)
    requires
        ready_on_mut::<u64, F>(f, small_items(*old(a))),
    ensures
        small_items(*final(a)).len() <= small_items(*old(a)).len(),
        forall|step: spec_fn(u64) -> u64, keep: spec_fn(u64) -> bool|
            (forall|r: &mut u64, answer: bool|
                small_items(*old(a)).contains(*r) && call_ensures(f, (r,), answer) ==> *final(r)
                    == step(*r) && answer == keep(*r)) ==> small_items(*final(a))
                == #[trigger] retained_mut(small_items(*old(a)), step, keep),
{
    a.inner.retain_mut(f)
}

/// `SmallVec::shrink_to_fit`: the elements stay as they are.
#[verifier::external_body]
fn small_shrink_to_fit(a: &mut SmallArray)
    ensures
        small_items(*final(a)) == small_items(*old(a)),
{
    a.inner.shrink_to_fit()
}

/// `SmallVec::swap_remove`: the element at `index` leaves and is returned,
/// and the last element takes its place. `index` must be within the array.
#[verifier::external_body]
fn small_swap_remove(a: &mut SmallArray, index: usize) -> (res: u64)
    requires
        index < small_items(*old(a)).len(),
    ensures
        res == small_items(*old(a))[index as int],
        small_items(*final(a)) == swap_removed(small_items(*old(a)), index as int),
{
    a.inner.swap_remove(index)
}

/// `SmallVec::truncate`: the first `len` elements stay; a shorter array
/// stays as it is.
#[verifier::external_body]
fn small_truncate(a: &mut SmallArray, len: usize)
    ensures
        small_items(*final(a)) == truncated(small_items(*old(a)), len as int),
{
    a.inner.truncate(len)
}

/// `SmallVec::try_grow`: the elements stay as they are. It returns `Ok`
/// at once where `new_cap` is less than the length, and where it is at
/// most the four inline places; where the size of `new_cap` elements
/// cannot be computed, the error is `CapacityOverflow`.
#[verifier::external_body]
fn small_try_grow(a: &mut SmallArray, new_cap: usize) -> (res: Result<(), AllocFailure>)
    ensures
        small_items(*final(a)) == small_items(*old(a)),
        new_cap < small_items(*old(a)).len() || new_cap <= 4 ==> res.is_ok(),
        new_cap >= small_items(*old(a)).len() && !can_hold::<u64>(new_cap as int) ==> res
            matches Err(AllocFailure::CapacityOverflow),
{
    match a.inner.try_grow(new_cap) {
        Ok(()) => Ok(()),
        Err(CollectionAllocErr::CapacityOverflow) => Err(AllocFailure::CapacityOverflow),
        Err(CollectionAllocErr::AllocErr { layout }) => Err(AllocFailure::AllocErr { layout }),
    }
}

/// `SmallVec::try_reserve`: the elements stay as they are. It returns
/// `Ok` at once where there is room already, as there is for four
/// elements; where the new length is beyond what the array can hold, the
/// error is `CapacityOverflow`.
#[verifier::external_body]
fn small_try_reserve(a: &mut SmallArray, additional: usize) -> (res: Result<(), AllocFailure>)
    ensures
        small_items(*final(a)) == small_items(*old(a)),
        additional == 0 || small_items(*old(a)).len() + additional <= 4 ==> res.is_ok(),
        !can_hold::<u64>((small_items(*old(a)).len() + additional) as int) ==> res
            matches Err(AllocFailure::CapacityOverflow),
{
    match a.inner.try_reserve(additional) {
        Ok(()) => Ok(()),
        Err(CollectionAllocErr::CapacityOverflow) => Err(AllocFailure::CapacityOverflow),
        Err(CollectionAllocErr::AllocErr { layout }) => Err(AllocFailure::AllocErr { layout }),
    }
}

/// `SmallVec::try_reserve_exact`: as `SmallVec::try_reserve`.
#[verifier::external_body]
fn small_try_reserve_exact(a: &mut SmallArray, additional: usize) -> (res: Result<
    (),
    AllocFailure,
>)
    ensures
        small_items(*final(a)) == small_items(*old(a)),
        additional == 0 || small_items(*old(a)).len() + additional <= 4 ==> res.is_ok(),
        !can_hold::<u64>((small_items(*old(a)).len() + additional) as int) ==> res
            matches Err(AllocFailure::CapacityOverflow),
{
    match a.inner.try_reserve_exact(additional) {
        Ok(()) => Ok(()),
        Err(CollectionAllocErr::CapacityOverflow) => Err(AllocFailure::CapacityOverflow),
        Err(CollectionAllocErr::AllocErr { layout }) => Err(AllocFailure::AllocErr { layout }),
    }
}

impl FunctionalSmallVec for SmallArray {
    type Item = u64;

    open spec fn items(&self) -> Seq<u64> {
        self@
    }

    open spec fn inline_size() -> nat {
        4
    }

    fn append_new(self, other: Self) -> (out: Self) {
        let mut this = self;
        small_append(&mut this, other);
        this
    }

    fn clear_new(self) -> (out: Self) {
        let mut this = self;
        small_clear(&mut this);
        this
    }

    fn dedup_new(self) -> (out: Self) {
        let mut this = self;
        small_dedup(&mut this);
        proof {
            lemma_deduped_len(self@, |x: u64, y: u64| x.eq_spec(&y));
        }
        this
    }

    fn dedup_by_new<F>(self, same_bucket: F) -> (out: Self) where
        F: FnMut(&mut u64, &mut u64) -> bool,
     {
        let mut this = self;
        small_dedup_by(&mut this, same_bucket);
        this
    }

    fn dedup_by_key_new<F, K>(self, key: F) -> (out: Self) where
        F: FnMut(&mut u64) -> K,
        K: PartialEq<K>,
     {
        let mut this = self;
        small_dedup_by_key(&mut this, key);
        this
    }

    fn extend_from_slice_new(self, slice: &[u64]) -> (out: Self) {
        let mut this = self;
        small_extend_from_slice(&mut this, slice);
        this
    }

    fn grow_new(self, new_cap: usize) -> (out: Self) {
        let mut this = self;
        small_grow(&mut this, new_cap);
        this
    }

    fn insert_new(self, index: usize, element: u64) -> (out: Self) {
        let mut this = self;
        small_insert(&mut this, index, element);
        this
    }

    fn insert_from_slice_new(self, index: usize, slice: &[u64]) -> (out: Self) {
        let mut this = self;
        small_insert_from_slice(&mut this, index, slice);
        this
    }

    fn insert_many_new(self, index: usize, iterable: Vec<u64>) -> (out: Self) {
        let mut this = self;
        small_insert_many(&mut this, index, iterable);
        this
    }

    fn pop_new(self) -> (out: (Option<u64>, Self)) {
        let mut this = self;
        let res = small_pop(&mut this);
        (res, this)
    }

    fn push_new(self, value: u64) -> (out: Self) {
        let mut this = self;
        small_push(&mut this, value);
        this
    }

    fn remove_new(self, index: usize) -> (out: (u64, Self)) {
        let mut this = self;
        let res = small_remove(&mut this, index);
        (res, this)
    }

    fn reserve_new(self, additional: usize) -> (out: Self) {
        let mut this = self;
        small_reserve(&mut this, additional);
        this
    }

    fn reserve_exact_new(self, additional: usize) -> (out: Self) {
        let mut this = self;
        small_reserve_exact(&mut this, additional);
        this
    }

    fn resize_new(self, len: usize, value: u64) -> (out: Self) {
        let mut this = self;
        small_resize(&mut this, len, value);
        this
    }

    fn resize_with_new<F>(self, new_len: usize, f: F) -> (out: Self) where F: FnMut() -> u64 {
        let mut this = self;
        small_resize_with(&mut this, new_len, f);
        this
    }

    fn retain_new<F>(self, f: F) -> (out: Self) where F: FnMut(&mut u64) -> bool {
        let mut this = self;
        small_retain(&mut this, f);
        this
    }

    fn retain_mut_new<F>(self, f: F) -> (out: Self) where F: FnMut(&mut u64) -> bool {
        let mut this = self;
        small_retain_mut(&mut this, f);
        this
    }

    fn shrink_to_fit_new(self) -> (out: Self) {
        let mut this = self;
        small_shrink_to_fit(&mut this);
        this
    }

    fn swap_remove_new(self, index: usize) -> (out: (u64, Self)) {
        let mut this = self;
        let res = small_swap_remove(&mut this, index);
        (res, this)
    }

    fn truncate_new(self, len: usize) -> (out: Self) {
        let mut this = self;
        small_truncate(&mut this, len);
        this
    }

    fn try_grow_new(self, new_cap: usize) -> (out: (Result<(), AllocFailure>, Self)) {
        let mut this = self;
        let res = small_try_grow(&mut this, new_cap);
        (res, this)
    }

    fn try_reserve_new(self, additional: usize) -> (out: (Result<(), AllocFailure>, Self)) {
        let mut this = self;
        let res = small_try_reserve(&mut this, additional);
        (res, this)
    }

    fn try_reserve_exact_new(self, additional: usize) -> (out: (Result<(), AllocFailure>, Self)) {
        let mut this = self;
        let res = small_try_reserve_exact(&mut this, additional);
        (res, this)
    }
}

} // verus!
