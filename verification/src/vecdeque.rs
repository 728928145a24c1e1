//! Chainable mutations of `VecDeque`.

use crate::model::{
    decides_as, front_swap_removed, lemma_retained_is_filter, lemma_retained_len, ready_on,
    ready_on_mut, resized, resized_with, retained, retained_mut, rotated_left, rotated_right,
    swap_removed, swapped, truncated,
};
use crate::room::can_hold;
use std::collections::TryReserveError;
use std::collections::VecDeque;
use vstd::prelude::*;

verus! {

/// The mutations of a double-ended queue, each taking the queue by value and
/// handing it back, beside whatever the mutation in place returns.
///
/// `items` is the sequence of elements that a value holds, front to back;
/// every contract is stated over it.
pub trait FunctionalVecDeque: Sized {
    type Item;

    /// The elements held, front to back.
    spec fn items(&self) -> Seq<Self::Item>;

    /// Moves the elements of `other` behind those of `self`.
    fn append_new(self, other: Self) -> (out: Self)
        requires
            can_hold::<Self::Item>((self.items().len() + other.items().len()) as int),
        ensures
            out.items() == self.items() + other.items(),
    ;

    /// Puts `value` in at `index`, moving what follows one place on.
    fn insert_new(self, index: usize, value: Self::Item) -> (out: Self)
        requires
            index <= self.items().len(),
            can_hold::<Self::Item>((self.items().len() + 1) as int),
        ensures
            out.items() == self.items().insert(index as int, value),
    ;

    /// Lays the elements out in one piece of memory; they stay as they are.
    fn make_contiguous_new(self) -> (out: Self)
        ensures
            out.items() == self.items(),
    ;

    /// Takes the last element off, if there is one.
    fn pop_back_new(self) -> (out: (Option<Self::Item>, Self))
        ensures
            self.items().len() > 0 ==> out.0 == Some(self.items().last()) && out.1.items()
                == self.items().drop_last(),
            self.items().len() == 0 ==> out.0.is_none() && out.1.items() == self.items(),
    ;

    /// Takes the first element off, if there is one.
    fn pop_front_new(self) -> (out: (Option<Self::Item>, Self))
        ensures
            self.items().len() > 0 ==> out.0 == Some(self.items().first()) && out.1.items()
                == self.items().drop_first(),
            self.items().len() == 0 ==> out.0.is_none() && out.1.items() == self.items(),
    ;

    /// Adds `value` at the end.
    fn push_back_new(self, value: Self::Item) -> (out: Self)
        requires
            can_hold::<Self::Item>((self.items().len() + 1) as int),
        ensures
            out.items() == self.items().push(value),
    ;

    /// Adds `value` at the front.
    fn push_front_new(self, value: Self::Item) -> (out: Self)
        requires
            can_hold::<Self::Item>((self.items().len() + 1) as int),
        ensures
            out.items() == seq![value] + self.items(),
    ;

    /// Takes out the element at `index`, if there is one, moving what
    /// follows one place back.
    fn remove_new(self, index: usize) -> (out: (Option<Self::Item>, Self))
        ensures
            index < self.items().len() ==> out.0 == Some(self.items()[index as int])
                && out.1.items() == self.items().remove(index as int),
            index >= self.items().len() ==> out.0.is_none() && out.1.items() == self.items(),
    ;

    /// Makes room for `additional` more elements, or more.
    fn reserve_new(self, additional: usize) -> (out: Self)
        requires
            can_hold::<Self::Item>((self.items().len() + additional) as int),
        ensures
            out.items() == self.items(),
    ;

    /// Makes room for `additional` more elements.
    fn reserve_exact_new(self, additional: usize) -> (out: Self)
        requires
            can_hold::<Self::Item>((self.items().len() + additional) as int),
        ensures
            out.items() == self.items(),
    ;

    /// Brings the length to `new_len`, by cutting at the back or by adding
    /// clones of `value` there.
    fn resize_new(self, new_len: usize, value: Self::Item) -> (out: Self) where Self::Item: Clone
        requires
            new_len <= self.items().len() || can_hold::<Self::Item>(new_len as int),
        ensures
            resized(self.items(), new_len as int, value, out.items()),
    ;

    /// Brings the length to `new_len`, by cutting at the back or by adding
    /// there what `generator` gives.
    fn resize_with_new<F>(self, new_len: usize, generator: F) -> (out: Self) where
        F: FnMut() -> Self::Item,

        requires
            new_len <= self.items().len() || can_hold::<Self::Item>(new_len as int),
            new_len > self.items().len() ==> call_requires(generator, ()),
        ensures
            resized_with(self.items(), new_len as int, generator, out.items()),
    ;

    /// Keeps the elements that `f` accepts, in their order. Where `f` answers
    /// on the elements as a predicate `keep` does, the result is the filter
    /// by `keep`.
    fn retain_new<F>(self, f: F) -> (out: Self) where F: FnMut(&Self::Item) -> bool
        requires
            ready_on::<Self::Item, F>(f, self.items()),
        ensures
            retained(self.items(), f, out.items()),
            out.items().len() <= self.items().len(),
            forall|keep: spec_fn(Self::Item) -> bool|
                decides_as(f, self.items(), keep) ==> out.items()
                    == #[trigger] self.items().filter(keep),
    ;

    /// Keeps the elements that `f` accepts, in their order, as `f` leaves
    /// them. Where `f` answers on an element as `keep` does and leaves it as
    /// `step` gives, the result is `retained_mut` by them.
    fn retain_mut_new<F>(self, f: F) -> (out: Self) where F: FnMut(&mut Self::Item) -> bool
        requires
            ready_on_mut::<Self::Item, F>(f, self.items()),
        ensures
            out.items().len() <= self.items().len(),
            forall|step: spec_fn(Self::Item) -> Self::Item, keep: spec_fn(Self::Item) -> bool|
                (forall|r: &mut Self::Item, answer: bool|
                    self.items().contains(*r) && call_ensures(f, (r,), answer) ==> *final(r)
                        == step(*r) && answer == keep(*r)) ==> out.items()
                    == #[trigger] retained_mut(self.items(), step, keep),
    ;

    /// Turns the queue `mid` places to the left.
    fn rotate_left_new(self, mid: usize) -> (out: Self)
        requires
            mid <= self.items().len(),
        ensures
            out.items() == rotated_left(self.items(), mid as int),
    ;

    /// Turns the queue `mid` places to the right.
    fn rotate_right_new(self, mid: usize) -> (out: Self)
        requires
            mid <= self.items().len(),
        ensures
            out.items() == rotated_right(self.items(), mid as int),
    ;

    /// Gives back room down to `min_capacity` elements, or to the length.
    fn shrink_to_new(self, min_capacity: usize) -> (out: Self)
        ensures
            out.items() == self.items(),
    ;

    /// Gives back the room that no element uses.
    fn shrink_to_fit_new(self) -> (out: Self)
        ensures
            out.items() == self.items(),
    ;

    /// Splits at `at`: the elements from `at` on come first in the result,
    /// the elements before `at` second.
    fn split_off_new(self, at: usize) -> (out: (Self, Self))
        requires
            at <= self.items().len(),
        ensures
            out.0.items() == self.items().subrange(at as int, self.items().len() as int),
            out.1.items() == self.items().subrange(0, at as int),
    ;

    /// Exchanges the elements at `i` and `j`.
    fn swap_new(self, i: usize, j: usize) -> (out: Self)
        requires
            i < self.items().len(),
            j < self.items().len(),
        ensures
            out.items() == swapped(self.items(), i as int, j as int),
    ;

    /// Takes out the element at `index`, if there is one, and puts the last
    /// element in its place.
    fn swap_remove_back_new(self, index: usize) -> (out: (Option<Self::Item>, Self))
        ensures
            index < self.items().len() ==> out.0 == Some(self.items()[index as int])
                && out.1.items() == swap_removed(self.items(), index as int),
            index >= self.items().len() ==> out.0.is_none() && out.1.items() == self.items(),
    ;

    /// Takes out the element at `index`, if there is one, and puts the first
    /// element in its place.
    fn swap_remove_front_new(self, index: usize) -> (out: (Option<Self::Item>, Self))
        ensures
            index < self.items().len() ==> out.0 == Some(self.items()[index as int])
                && out.1.items() == front_swap_removed(self.items(), index as int),
            index >= self.items().len() ==> out.0.is_none() && out.1.items() == self.items(),
    ;

    /// Keeps the first `len` elements.
    fn truncate_new(self, len: usize) -> (out: Self)
        ensures
            out.items() == truncated(self.items(), len as int),
    ;

    /// Tries to make room for `additional` more elements, or more. The
    /// elements stay as they are whatever the outcome. Asking for nothing
    /// succeeds, and the outcome is an error where the collection cannot
    /// hold that many.
    fn try_reserve_new(self, additional: usize) -> (out: (Result<(), TryReserveError>, Self))
        ensures
            out.1.items() == self.items(),
            additional == 0 ==> out.0.is_ok(),
            !can_hold::<Self::Item>((self.items().len() + additional) as int) ==> out.0.is_err(),
    ;

    /// Tries to make room for `additional` more elements. The elements stay
    /// as they are whatever the outcome. Asking for nothing succeeds, and
    /// the outcome is an error where the collection cannot hold that many.
    fn try_reserve_exact_new(self, additional: usize) -> (out: (
        Result<(), TryReserveError>,
        Self,
    ))
        ensures
            out.1.items() == self.items(),
            additional == 0 ==> out.0.is_ok(),
            !can_hold::<Self::Item>((self.items().len() + additional) as int) ==> out.0.is_err(),
    ;
}

/// `VecDeque::make_contiguous`: the order of the elements does not change.
#[verifier::external_body]
fn deque_make_contiguous<T>(v: &mut VecDeque<T>)
    ensures
        final(v)@ == old(v)@,
{
    v.make_contiguous();
}

/// `VecDeque::reserve_exact`: the elements stay as they are.
#[verifier::external_body]
fn deque_reserve_exact<T>(v: &mut VecDeque<T>, additional: usize)
    requires
        can_hold::<T>((old(v)@.len() + additional) as int),
    ensures
        final(v)@ == old(v)@,
{
    v.reserve_exact(additional)
}

/// `VecDeque::resize_with`: a longer queue is cut at the back to `new_len`;
/// a shorter one keeps its elements and gets at the back, up to `new_len`,
/// what the calls of `generator` gave.
#[verifier::external_body]
fn deque_resize_with<T, F: FnMut() -> T>(v: &mut VecDeque<T>, new_len: usize, generator: F)
    requires
        new_len <= old(v)@.len() || can_hold::<T>(new_len as int),
        new_len > old(v)@.len() ==> call_requires(generator, ()),
    ensures
        resized_with(old(v)@, new_len as int, generator, final(v)@),
{
    v.resize_with(new_len, generator)
}

/// `VecDeque::retain`: the closure is called once on each element, in
/// order, and the elements on which it answered `true` stay, in their order.
#[verifier::external_body]
fn deque_retain<T, F: FnMut(&T) -> bool>(v: &mut VecDeque<T>, f: F)
    requires
        ready_on::<T, F>(f, old(v)@),
    ensures
        retained(old(v)@, f, final(v)@),
{
    v.retain(f)
}

/// `VecDeque::retain_mut`: the queue gets no longer. The closure is called
/// once on each element, in order; where it answers as `keep` does and
/// leaves the element as `step` gives, the elements with a true answer stay,
/// in their order and as the closure left them.
#[verifier::external_body]
fn deque_retain_mut<T, F: FnMut(&mut T) -> bool>(v: &mut VecDeque<T>, f: F)
    requires
        ready_on_mut::<T, F>(f, old(v)@),
    ensures
        final(v)@.len() <= old(v)@.len(),
        forall|step: spec_fn(T) -> T, keep: spec_fn(T) -> bool|
            (forall|r: &mut T, answer: bool|
                old(v)@.contains(*r) && call_ensures(f, (r,), answer) ==> *final(r) == step(*r)
                    && answer == keep(*r)) ==> final(v)@ == #[trigger] retained_mut(
                old(v)@,
                step,
                keep,
            ),
{
    v.retain_mut(f)
}

/// `VecDeque::rotate_left`: the first `n` elements go to the back, in their
/// order. `n` must not be greater than the length.
#[verifier::external_body]
fn deque_rotate_left<T>(v: &mut VecDeque<T>, n: usize)
    requires
        n <= old(v)@.len(),
    ensures
        final(v)@ == rotated_left(old(v)@, n as int),
{
    v.rotate_left(n)
}

/// `VecDeque::rotate_right`: the last `n` elements go to the front, in their
/// order. `n` must not be greater than the length.
#[verifier::external_body]
fn deque_rotate_right<T>(v: &mut VecDeque<T>, n: usize)
    requires
        n <= old(v)@.len(),
    ensures
        final(v)@ == rotated_right(old(v)@, n as int),
{
    v.rotate_right(n)
}

/// `VecDeque::shrink_to`: the elements stay as they are.
#[verifier::external_body]
fn deque_shrink_to<T>(v: &mut VecDeque<T>, min_capacity: usize)
    ensures
        final(v)@ == old(v)@,
{
    v.shrink_to(min_capacity)
}

/// `VecDeque::shrink_to_fit`: the elements stay as they are.
#[verifier::external_body]
fn deque_shrink_to_fit<T>(v: &mut VecDeque<T>)
    ensures
        final(v)@ == old(v)@,
{
    v.shrink_to_fit()
}

/// `VecDeque::swap`: the elements at `i` and `j` change places. Both must
/// be within the queue.
#[verifier::external_body]
fn deque_swap<T>(v: &mut VecDeque<T>, i: usize, j: usize)
    requires
        i < old(v)@.len(),
        j < old(v)@.len(),
    ensures
        final(v)@ == swapped(old(v)@, i as int, j as int),
{
    v.swap(i, j)
}

/// `VecDeque::swap_remove_back`: within the queue, the element at `index`
/// is returned and the last element takes its place; beyond it, the result
/// is `None` and nothing changes.
#[verifier::external_body]
fn deque_swap_remove_back<T>(v: &mut VecDeque<T>, index: usize) -> (res: Option<T>)
    ensures
        index < old(v)@.len() ==> res == Some(old(v)@[index as int]) && final(v)@
            == swap_removed(old(v)@, index as int),
        index >= old(v)@.len() ==> res.is_none() && final(v)@ == old(v)@,
{
    v.swap_remove_back(index)
}

/// `VecDeque::swap_remove_front`: within the queue, the element at `index`
/// is returned and the first element takes its place; beyond it, the result
/// is `None` and nothing changes.
#[verifier::external_body]
fn deque_swap_remove_front<T>(v: &mut VecDeque<T>, index: usize) -> (res: Option<T>)
    ensures
        index < old(v)@.len() ==> res == Some(old(v)@[index as int]) && final(v)@
            == front_swap_removed(old(v)@, index as int),
        index >= old(v)@.len() ==> res.is_none() && final(v)@ == old(v)@,
{
    v.swap_remove_front(index)
}

/// `VecDeque::try_reserve`: the elements stay as they are whatever the
/// outcome. It does nothing where the capacity is sufficient already, as it
/// is for no more elements. After `Ok` the capacity is at least the length
/// plus `additional`, and a queue never has room for more than `can_hold`
/// allows: so beyond that the outcome is an error.
#[verifier::external_body]
fn deque_try_reserve<T>(v: &mut VecDeque<T>, additional: usize) -> (res: Result<
    (),
    TryReserveError,
>)
    ensures
        final(v)@ == old(v)@,
        additional == 0 ==> res.is_ok(),
        !can_hold::<T>((old(v)@.len() + additional) as int) ==> res.is_err(),
{
    v.try_reserve(additional)
}

/// `VecDeque::try_reserve_exact`: as `VecDeque::try_reserve`.
#[verifier::external_body]
fn deque_try_reserve_exact<T>(v: &mut VecDeque<T>, additional: usize) -> (res: Result<
    (),
    TryReserveError,
>)
    ensures
        final(v)@ == old(v)@,
        additional == 0 ==> res.is_ok(),
        !can_hold::<T>((old(v)@.len() + additional) as int) ==> res.is_err(),
{
    v.try_reserve_exact(additional)
}

impl<T> FunctionalVecDeque for VecDeque<T> {
    type Item = T;

    open spec fn items(&self) -> Seq<T> {
        self@
    }

    fn append_new(self, other: Self) -> (out: Self) {
        let mut this = self;
        let mut other = other;
        this.append(&mut other);
        this
    }

    fn insert_new(self, index: usize, value: T) -> (out: Self) {
        let mut this = self;
        this.insert(index, value);
        this
    }

    fn make_contiguous_new(self) -> (out: Self) {
        let mut this = self;
        deque_make_contiguous(&mut this);
        this
    }

    fn pop_back_new(self) -> (out: (Option<T>, Self)) {
        let mut this = self;
        let res = this.pop_back();
        (res, this)
    }

    fn pop_front_new(self) -> (out: (Option<T>, Self)) {
        let mut this = self;
        let res = this.pop_front();
        (res, this)
    }

    fn push_back_new(self, value: T) -> (out: Self) {
        let mut this = self;
        this.push_back(value);
        this
    }

    fn push_front_new(self, value: T) -> (out: Self) {
        let mut this = self;
        this.push_front(value);
        this
    }

    fn remove_new(self, index: usize) -> (out: (Option<T>, Self)) {
        let mut this = self;
        let res = this.remove(index);
        (res, this)
    }

    fn reserve_new(self, additional: usize) -> (out: Self) {
        let mut this = self;
        this.reserve(additional);
        this
    }

    fn reserve_exact_new(self, additional: usize) -> (out: Self) {
        let mut this = self;
        deque_reserve_exact(&mut this, additional);
        this
    }

    fn resize_new(self, new_len: usize, value: T) -> (out: Self) where T: Clone {
        let mut this = self;
        this.resize(new_len, value);
        this
    }

    fn resize_with_new<F>(self, new_len: usize, generator: F) -> (out: Self) where
        F: FnMut() -> T,
     {
        let mut this = self;
        deque_resize_with(&mut this, new_len, generator);
        this
    }

    fn retain_new<F>(self, f: F) -> (out: Self) where F: FnMut(&T) -> bool {
        let mut this = self;
        deque_retain(&mut this, f);
        proof {
            lemma_retained_len(self@, f, this@);
            assert forall|keep: spec_fn(T) -> bool| decides_as(f, self@, keep) implies this@
                == #[trigger] self@.filter(keep) by {
                lemma_retained_is_filter(self@, f, this@, keep);
            }
        }
        this
    }

    fn retain_mut_new<F>(self, f: F) -> (out: Self) where F: FnMut(&mut T) -> bool {
        let mut this = self;
        deque_retain_mut(&mut this, f);
        this
    }

    fn rotate_left_new(self, mid: usize) -> (out: Self) {
        let mut this = self;
        deque_rotate_left(&mut this, mid);
        this
    }

    fn rotate_right_new(self, mid: usize) -> (out: Self) {
        let mut this = self;
        deque_rotate_right(&mut this, mid);
        this
    }

    fn shrink_to_new(self, min_capacity: usize) -> (out: Self) {
        let mut this = self;
        deque_shrink_to(&mut this, min_capacity);
        this
    }

    fn shrink_to_fit_new(self) -> (out: Self) {
        let mut this = self;
        deque_shrink_to_fit(&mut this);
        this
    }

    fn split_off_new(self, at: usize) -> (out: (Self, Self)) {
        let mut this = self;
        let res = this.split_off(at);
        (res, this)
    }

    fn swap_new(self, i: usize, j: usize) -> (out: Self) {
        let mut this = self;
        deque_swap(&mut this, i, j);
        this
    }

    fn swap_remove_back_new(self, index: usize) -> (out: (Option<T>, Self)) {
        let mut this = self;
        let res = deque_swap_remove_back(&mut this, index);
        (res, this)
    }

    fn swap_remove_front_new(self, index: usize) -> (out: (Option<T>, Self)) {
        let mut this = self;
        let res = deque_swap_remove_front(&mut this, index);
        (res, this)
    }

    fn truncate_new(self, len: usize) -> (out: Self) {
        let mut this = self;
        this.truncate(len);
        this
    }

    fn try_reserve_new(self, additional: usize) -> (out: (Result<(), TryReserveError>, Self)) {
        let mut this = self;
        let res = deque_try_reserve(&mut this, additional);
        (res, this)
    }

    fn try_reserve_exact_new(self, additional: usize) -> (out: (
        Result<(), TryReserveError>,
        Self,
    )) {
        let mut this = self;
        let res = deque_try_reserve_exact(&mut this, additional);
        (res, this)
    }
}

} // verus!
