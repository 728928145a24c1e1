//! Chainable mutations of `Vec`.

use crate::model::{
    decides_as, deduped, deduped_by_eq, deduped_by_key, extended, lemma_retained_is_filter,
    lemma_retained_len, ready_on, ready_on_any, ready_on_mut, ready_on_pairs, resized,
    resized_with, retained, retained_mut, swap_removed, truncated,
};
use crate::room::can_hold;
use std::collections::TryReserveError;
use std::ops::Range;
use vstd::prelude::*;
use vstd::std_specs::cmp::PartialEqSpec;

verus! {

/// The mutations of a dynamic array, each taking the array by value and
/// handing it back, beside whatever the mutation in place returns.
///
/// `items` is the sequence of elements that a value holds; every contract is
/// stated over it.
pub trait FunctionalVec: Sized {
    type Item;

    /// The elements held, first to last.
    spec fn items(&self) -> Seq<Self::Item>;

    /// Moves the elements of `other` behind those of `self`.
    fn append_new(self, other: Self) -> (out: Self)
        requires
            can_hold::<Self::Item>((self.items().len() + other.items().len()) as int),
        ensures
            out.items() == self.items() + other.items(),
    ;

    /// Removes every element.
    fn clear_new(self) -> (out: Self)
        ensures
            out.items() == Seq::<Self::Item>::empty(),
    ;

    /// Cuts each run of equal neighbours down to its first element, where
    /// `==` on the elements is their `eq_spec`.
    fn dedup_new(self) -> (out: Self) where Self::Item: PartialEq
        ensures
            out.items().len() <= self.items().len(),
            <Self::Item as PartialEqSpec>::obeys_eq_spec() ==> out.items() == deduped_by_eq(
                self.items(),
            ),
    ;

    /// Cuts each run of neighbours that `same_bucket` holds together down to
    /// its first element. `same_bucket` gets an element and the last one kept
    /// before it. Where it changes neither and answers as a relation `same`
    /// does, the result is `deduped` by `same`.
    fn dedup_by_new<F>(self, same_bucket: F) -> (out: Self) where
        F: FnMut(&mut Self::Item, &mut Self::Item) -> bool,

        requires
            ready_on_pairs::<Self::Item, F>(same_bucket),
        ensures
            out.items().len() <= self.items().len(),
            forall|same: spec_fn(Self::Item, Self::Item) -> bool|
                (forall|a: &mut Self::Item, b: &mut Self::Item, answer: bool|
                    call_ensures(same_bucket, (a, b), answer) ==> *final(a) == *a && *final(b)
                        == *b && answer == same(*a, *b)) ==> out.items() == #[trigger] deduped(
                    self.items(),
                    same,
                ),
    ;

    /// Cuts each run of neighbours with equal keys down to its first element.
    /// Where `key` changes no element and gives what a function `by` gives,
    /// and `==` on the keys is their `eq_spec`, the result is
    /// `deduped_by_key` by `by`.
    fn dedup_by_key_new<F, K>(self, key: F) -> (out: Self) where
        F: FnMut(&mut Self::Item) -> K,
        K: PartialEq<K>,

        requires
            ready_on_any::<Self::Item, K, F>(key),
        ensures
            out.items().len() <= self.items().len(),
            forall|by: spec_fn(Self::Item) -> K|
                (<K as PartialEqSpec>::obeys_eq_spec() && forall|a: &mut Self::Item, k: K|
                    call_ensures(key, (a,), k) ==> *final(a) == *a && k == by(*a))
                    ==> out.items() == #[trigger] deduped_by_key(self.items(), by),
    ;

    /// Adds a clone of each element of `other` at the end.
    fn extend_from_slice_new(self, other: &[Self::Item]) -> (out: Self) where Self::Item: Clone
        requires
            can_hold::<Self::Item>((self.items().len() + other@.len()) as int),
        ensures
            extended(self.items(), other@, out.items()),
    ;

    /// Adds a clone of each element in the range `src` at the end.
    fn extend_from_within_new(self, src: Range<usize>) -> (out: Self) where Self::Item: Clone
        requires
            src.start <= src.end <= self.items().len(),
            can_hold::<Self::Item>((self.items().len() + (src.end - src.start)) as int),
        ensures
            extended(
                self.items(),
                self.items().subrange(src.start as int, src.end as int),
                out.items(),
            ),
    ;

    /// Puts `element` in at `index`, moving what follows one place on.
    fn insert_new(self, index: usize, element: Self::Item) -> (out: Self)
        requires
            index <= self.items().len(),
            can_hold::<Self::Item>((self.items().len() + 1) as int),
        ensures
            out.items() == self.items().insert(index as int, element),
    ;

    /// Takes out the element at `index`, moving what follows one place back.
    fn remove_new(self, index: usize) -> (out: (Self::Item, Self))
        requires
            index < self.items().len(),
        ensures
            out.0 == self.items()[index as int],
            out.1.items() == self.items().remove(index as int),
    ;

    /// Brings the length to `new_len`, by cutting or by adding clones of `value`.
    fn resize_new(self, new_len: usize, value: Self::Item) -> (out: Self) where Self::Item: Clone
        requires
            new_len <= self.items().len() || can_hold::<Self::Item>(new_len as int),
        ensures
            resized(self.items(), new_len as int, value, out.items()),
    ;

    /// Brings the length to `new_len`, by cutting or by adding what `f` gives.
    fn resize_with_new<F>(self, new_len: usize, f: F) -> (out: Self) where
        F: FnMut() -> Self::Item,

        requires
            new_len <= self.items().len() || can_hold::<Self::Item>(new_len as int),
            new_len > self.items().len() ==> call_requires(f, ()),
        ensures
            resized_with(self.items(), new_len as int, f, out.items()),
    ;

    /// Makes room for `additional` more elements, or more.
    fn reserve_new(self, additional: usize) -> (out: Self)
        requires
            can_hold::<Self::Item>((self.items().len() + additional) as int),
        ensures
            out.items() == self.items(),
    ;

    /// Makes room for `additional` more elements.
    fn reserve_exact_new(self, additional: usize) -> (out: Self)
        requires
            can_hold::<Self::Item>((self.items().len() + additional) as int),
        ensures
            out.items() == self.items(),
    ;

    /// Adds `item` at the end.
    fn push_new(self, item: Self::Item) -> (out: Self)
        requires
            can_hold::<Self::Item>((self.items().len() + 1) as int),
        ensures
            out.items() == self.items().push(item),
    ;

    /// Takes the last element off, if there is one.
    fn pop_new(self) -> (out: (Option<Self::Item>, Self))
        ensures
            self.items().len() > 0 ==> out.0 == Some(self.items().last()) && out.1.items()
                == self.items().drop_last(),
            self.items().len() == 0 ==> out.0.is_none() && out.1.items() == self.items(),
    ;

    /// Keeps the elements that `f` accepts, in their order. Where `f` answers
    /// on the elements as a predicate `keep` does, the result is the filter
    /// by `keep`.
    fn retain_new<F>(self, f: F) -> (out: Self) where F: FnMut(&Self::Item) -> bool
        requires
            ready_on::<Self::Item, F>(f, self.items()),
        ensures
            retained(self.items(), f, out.items()),
            out.items().len() <= self.items().len(),
            forall|keep: spec_fn(Self::Item) -> bool|
                decides_as(f, self.items(), keep) ==> out.items()
                    == #[trigger] self.items().filter(keep),
    ;

    /// Keeps the elements that `f` accepts, in their order, as `f` leaves
    /// them. Where `f` answers on an element as `keep` does and leaves it as
    /// `step` gives, the result is `retained_mut` by them.
    fn retain_mut_new<F>(self, f: F) -> (out: Self) where F: FnMut(&mut Self::Item) -> bool
        requires
            ready_on_mut::<Self::Item, F>(f, self.items()),
        ensures
            out.items().len() <= self.items().len(),
            forall|step: spec_fn(Self::Item) -> Self::Item, keep: spec_fn(Self::Item) -> bool|
                (forall|r: &mut Self::Item, answer: bool|
                    self.items().contains(*r) && call_ensures(f, (r,), answer) ==> *final(r)
                        == step(*r) && answer == keep(*r)) ==> out.items()
                    == #[trigger] retained_mut(self.items(), step, keep),
    ;

    /// Gives back room down to `min_capacity` elements, or to the length.
    fn shrink_to_new(self, min_capacity: usize) -> (out: Self)
        ensures
            out.items() == self.items(),
    ;

    /// Gives back the room that no element uses.
    fn shrink_to_fit_new(self) -> (out: Self)
        ensures
            out.items() == self.items(),
    ;

    /// Splits at `at`: the elements from `at` on come first in the result,
    /// the elements before `at` second.
    fn split_off_new(self, at: usize) -> (out: (Self, Self))
        requires
            at <= self.items().len(),
        ensures
            out.0.items() == self.items().subrange(at as int, self.items().len() as int),
            out.1.items() == self.items().subrange(0, at as int),
    ;

    /// Takes out the element at `index` and puts the last element in its place.
    fn swap_remove_new(self, index: usize) -> (out: (Self::Item, Self))
        requires
            index < self.items().len(),
        ensures
            out.0 == self.items()[index as int],
            out.1.items() == swap_removed(self.items(), index as int),
    ;

    /// Keeps the first `len` elements.
    fn truncate_new(self, len: usize) -> (out: Self)
        ensures
            out.items() == truncated(self.items(), len as int),
    ;

    /// Tries to make room for `additional` more elements, or more. The
    /// elements stay as they are whatever the outcome. Asking for nothing
    /// succeeds, and the outcome is an error where the collection cannot
    /// hold that many.
    fn try_reserve_new(self, additional: usize) -> (out: (Result<(), TryReserveError>, Self))
        ensures
            out.1.items() == self.items(),
            additional == 0 ==> out.0.is_ok(),
            !can_hold::<Self::Item>((self.items().len() + additional) as int) ==> out.0.is_err(),
    ;

    /// Tries to make room for `additional` more elements. The elements stay
    /// as they are whatever the outcome. Asking for nothing succeeds, and
    /// the outcome is an error where the collection cannot hold that many.
    fn try_reserve_exact_new(self, additional: usize) -> (out: (
        Result<(), TryReserveError>,
        Self,
    ))
        ensures
            out.1.items() == self.items(),
            additional == 0 ==> out.0.is_ok(),
            !can_hold::<Self::Item>((self.items().len() + additional) as int) ==> out.0.is_err(),
    ;
}

/// `Vec::dedup`: the vector gets no longer, and where `==` on `T` is its
/// `eq_spec`, each run of equal neighbours is cut down to its first element.
#[verifier::external_body]
fn vec_dedup<T: PartialEq>(v: &mut Vec<T>)
    ensures
        final(v)@.len() <= old(v)@.len(),
        <T as PartialEqSpec>::obeys_eq_spec() ==> final(v)@ == deduped_by_eq(old(v)@),
{
    v.dedup()
}

/// `Vec::dedup_by`: the vector gets no longer. The closure is called on an
/// element and the last element kept before it; where it changes neither and
/// answers as `same` does, an element leaves when the answer is true.
#[verifier::external_body]
fn vec_dedup_by<T, F: FnMut(&mut T, &mut T) -> bool>(v: &mut Vec<T>, same_bucket: F)
    requires
        ready_on_pairs::<T, F>(same_bucket),
    ensures
        final(v)@.len() <= old(v)@.len(),
        forall|same: spec_fn(T, T) -> bool|
            (forall|a: &mut T, b: &mut T, answer: bool|
                call_ensures(same_bucket, (a, b), answer) ==> *final(a) == *a && *final(b) == *b
                    && answer == same(*a, *b)) ==> final(v)@ == #[trigger] deduped(old(v)@, same),
{
    v.dedup_by(same_bucket)
}

/// `Vec::dedup_by_key`: the vector gets no longer. Where the closure changes
/// no element and gives the key that `by` gives, and `==` on the keys is
/// their `eq_spec`, all but the first of each run of neighbours with equal
/// keys leave.
#[verifier::external_body]
fn vec_dedup_by_key<T, K: PartialEq<K>, F: FnMut(&mut T) -> K>(v: &mut Vec<T>, key: F)
    requires
        ready_on_any::<T, K, F>(key),
    ensures
        final(v)@.len() <= old(v)@.len(),
        forall|by: spec_fn(T) -> K|
            (<K as PartialEqSpec>::obeys_eq_spec() && forall|a: &mut T, k: K|
                call_ensures(key, (a,), k) ==> *final(a) == *a && k == by(*a)) ==> final(v)@
                == #[trigger] deduped_by_key(old(v)@, by),
{
    v.dedup_by_key(key)
}

/// `Vec::extend_from_within`: a clone of each element in the range is added
/// at the end, in order. The range must lie within the vector.
#[verifier::external_body]
fn vec_extend_from_within<T: Clone>(v: &mut Vec<T>, src: Range<usize>)
    requires
        src.start <= src.end <= old(v)@.len(),
        can_hold::<T>((old(v)@.len() + (src.end - src.start)) as int),
    ensures
        extended(old(v)@, old(v)@.subrange(src.start as int, src.end as int), final(v)@),
{
    v.extend_from_within(src)
}

/// `Vec::resize_with`: a longer vector is cut to `new_len`; a shorter one
/// keeps its elements and gets, up to `new_len`, what the calls of `f` gave.
#[verifier::external_body]
fn vec_resize_with<T, F: FnMut() -> T>(v: &mut Vec<T>, new_len: usize, f: F)
    requires
        new_len <= old(v)@.len() || can_hold::<T>(new_len as int),
        new_len > old(v)@.len() ==> call_requires(f, ()),
    ensures
        resized_with(old(v)@, new_len as int, f, final(v)@),
{
    v.resize_with(new_len, f)
}

/// `Vec::reserve_exact`: the elements stay as they are.
#[verifier::external_body]
fn vec_reserve_exact<T>(v: &mut Vec<T>, additional: usize)
    requires
        can_hold::<T>((old(v)@.len() + additional) as int),
    ensures
        final(v)@ == old(v)@,
{
    v.reserve_exact(additional)
}

/// `Vec::retain`: the closure is called once on each element, in order, and
/// the elements on which it answered `true` stay, in their order.
#[verifier::external_body]
fn vec_retain<T, F: FnMut(&T) -> bool>(v: &mut Vec<T>, f: F)
    requires
        ready_on::<T, F>(f, old(v)@),
    ensures
        retained(old(v)@, f, final(v)@),
{
    v.retain(f)
}

/// `Vec::retain_mut`: the vector gets no longer. The closure is called once
/// on each element, in order; where it answers as `keep` does and leaves the
/// element as `step` gives, the elements with a true answer stay, in their
/// order and as the closure left them.
#[verifier::external_body]
fn vec_retain_mut<T, F: FnMut(&mut T) -> bool>(v: &mut Vec<T>, f: F)
    requires
        ready_on_mut::<T, F>(f, old(v)@),
    ensures
        final(v)@.len() <= old(v)@.len(),
        forall|step: spec_fn(T) -> T, keep: spec_fn(T) -> bool|
            (forall|r: &mut T, answer: bool|
                old(v)@.contains(*r) && call_ensures(f, (r,), answer) ==> *final(r) == step(*r)
                    && answer == keep(*r)) ==> final(v)@ == #[trigger] retained_mut(
                old(v)@,
                step,
                keep,
            ),
{
    v.retain_mut(f)
}

/// `Vec::shrink_to`: the elements stay as they are.
#[verifier::external_body]
fn vec_shrink_to<T>(v: &mut Vec<T>, min_capacity: usize)
    ensures
        final(v)@ == old(v)@,
{
    v.shrink_to(min_capacity)
}

/// `Vec::shrink_to_fit`: the elements stay as they are.
#[verifier::external_body]
fn vec_shrink_to_fit<T>(v: &mut Vec<T>)
    ensures
        final(v)@ == old(v)@,
{
    v.shrink_to_fit()
}

/// `Vec::try_reserve`: the elements stay as they are whatever the outcome.
/// It does nothing where the capacity is sufficient already, as it is for
/// no more elements. After `Ok` the capacity is at least the length plus
/// `additional`, and a vector never has room for more than `can_hold`
/// allows: so beyond that the outcome is an error. (vstd says of this
/// function that the elements stay, and nothing of the outcome.)
#[verifier::external_body]
fn vec_try_reserve<T>(v: &mut Vec<T>, additional: usize) -> (res: Result<(), TryReserveError>)
    ensures
        final(v)@ == old(v)@,
        additional == 0 ==> res.is_ok(),
        !can_hold::<T>((old(v)@.len() + additional) as int) ==> res.is_err(),
{
    v.try_reserve(additional)
}

/// `Vec::try_reserve_exact`: as `Vec::try_reserve`.
#[verifier::external_body]
fn vec_try_reserve_exact<T>(v: &mut Vec<T>, additional: usize) -> (res: Result<
    (),
    TryReserveError,
>)
    ensures
        final(v)@ == old(v)@,
        additional == 0 ==> res.is_ok(),
        !can_hold::<T>((old(v)@.len() + additional) as int) ==> res.is_err(),
{
    v.try_reserve_exact(additional)
}

impl<T> FunctionalVec for Vec<T> {
    type Item = T;

    open spec fn items(&self) -> Seq<T> {
        self@
    }

    fn append_new(self, other: Self) -> (out: Self) {
        let mut this = self;
        let mut other = other;
        this.append(&mut other);
        this
    }

    fn clear_new(self) -> (out: Self) {
        let mut this = self;
        this.clear();
        this
    }

    fn dedup_new(self) -> (out: Self) where T: PartialEq {
        let mut this = self;
        vec_dedup(&mut this);
        this
    }

    fn dedup_by_new<F>(self, same_bucket: F) -> (out: Self) where
        F: FnMut(&mut T, &mut T) -> bool,
     {
        let mut this = self;
        vec_dedup_by(&mut this, same_bucket);
        this
    }

    fn dedup_by_key_new<F, K>(self, key: F) -> (out: Self) where
        F: FnMut(&mut T) -> K,
        K: PartialEq<K>,
     {
        let mut this = self;
        vec_dedup_by_key(&mut this, key);
        this
    }

    fn extend_from_slice_new(self, other: &[T]) -> (out: Self) where T: Clone {
        let mut this = self;
        this.extend_from_slice(other);
        assert(this@.subrange(0, self@.len() as int) =~= self@);
        this
    }

    fn extend_from_within_new(self, src: Range<usize>) -> (out: Self) where T: Clone {
        let mut this = self;
        vec_extend_from_within(&mut this, src);
        this
    }

    fn insert_new(self, index: usize, element: T) -> (out: Self) {
        let mut this = self;
        this.insert(index, element);
        this
    }

    fn remove_new(self, index: usize) -> (out: (T, Self)) {
        let mut this = self;
        let res = this.remove(index);
        (res, this)
    }

    fn resize_new(self, new_len: usize, value: T) -> (out: Self) where T: Clone {
        let mut this = self;
        this.resize(new_len, value);
        this
    }

    fn resize_with_new<F>(self, new_len: usize, f: F) -> (out: Self) where F: FnMut() -> T {
        let mut this = self;
        vec_resize_with(&mut this, new_len, f);
        this
    }

    fn reserve_new(self, additional: usize) -> (out: Self) {
        let mut this = self;
        this.reserve(additional);
        this
    }

    fn reserve_exact_new(self, additional: usize) -> (out: Self) {
        let mut this = self;
        vec_reserve_exact(&mut this, additional);
        this
    }

    fn push_new(self, item: T) -> (out: Self) {
        let mut this = self;
        this.push(item);
        this
    }

    fn pop_new(self) -> (out: (Option<T>, Self)) {
        let mut this = self;
        let res = this.pop();
        (res, this)
    }

    fn retain_new<F>(self, f: F) -> (out: Self) where F: FnMut(&T) -> bool {
        let mut this = self;
        vec_retain(&mut this, f);
        proof {
            lemma_retained_len(self@, f, this@);
            assert forall|keep: spec_fn(T) -> bool| decides_as(f, self@, keep) implies this@
                == #[trigger] self@.filter(keep) by {
                lemma_retained_is_filter(self@, f, this@, keep);
            }
        }
        this
    }

    fn retain_mut_new<F>(self, f: F) -> (out: Self) where F: FnMut(&mut T) -> bool {
        let mut this = self;
        vec_retain_mut(&mut this, f);
        this
    }

    fn shrink_to_new(self, min_capacity: usize) -> (out: Self) {
        let mut this = self;
        vec_shrink_to(&mut this, min_capacity);
        this
    }

    fn shrink_to_fit_new(self) -> (out: Self) {
        let mut this = self;
        vec_shrink_to_fit(&mut this);
        this
    }

    fn split_off_new(self, at: usize) -> (out: (Self, Self)) {
        let mut this = self;
        let res = this.split_off(at);
        (res, this)
    }

    fn swap_remove_new(self, index: usize) -> (out: (T, Self)) {
        let mut this = self;
        let res = this.swap_remove(index);
        (res, this)
    }

    fn truncate_new(self, len: usize) -> (out: Self) {
        let mut this = self;
        this.truncate(len);
        this
    }

    fn try_reserve_new(self, additional: usize) -> (out: (Result<(), TryReserveError>, Self)) {
        let mut this = self;
        let res = vec_try_reserve(&mut this, additional);
        (res, this)
    }

    fn try_reserve_exact_new(self, additional: usize) -> (out: (
        Result<(), TryReserveError>,
        Self,
    )) {
        let mut this = self;
        let res = vec_try_reserve_exact(&mut this, additional);
        (res, this)
    }
}

} // verus!
