//! What each operation does to a sequence of elements, and what is asked of
//! a closure handed to one.

use vstd::prelude::*;
use vstd::std_specs::cmp::PartialEqSpec;

verus! {

/// `s` cut down to its first `len` elements; `s` itself where it is not longer.
pub open spec fn truncated<T>(s: Seq<T>, len: int) -> Seq<T> {
    if 0 <= len <= s.len() {
        s.subrange(0, len)
    } else {
        s
    }
}

/// `s` without the element at `index`, the last element moved into its place.
pub open spec fn swap_removed<T>(s: Seq<T>, index: int) -> Seq<T>
    recommends
        0 <= index < s.len(),
{
    s.update(index, s.last()).drop_last()
}

/// `s` without the element at `index`, the first element moved into its place.
pub open spec fn front_swap_removed<T>(s: Seq<T>, index: int) -> Seq<T>
    recommends
        0 <= index < s.len(),
{
    s.update(index, s.first()).subrange(1, s.len() as int)
}

/// `s` with the elements at `i` and `j` exchanged.
pub open spec fn swapped<T>(s: Seq<T>, i: int, j: int) -> Seq<T>
    recommends
        0 <= i < s.len(),
        0 <= j < s.len(),
{
    s.update(i, s[j]).update(j, s[i])
}

/// `s` turned `n` places to the left: the element at `n` comes first.
pub open spec fn rotated_left<T>(s: Seq<T>, n: int) -> Seq<T>
    recommends
        0 <= n <= s.len(),
{
    s.subrange(n, s.len() as int) + s.subrange(0, n)
}

/// `s` turned `n` places to the right: the last `n` elements come first.
pub open spec fn rotated_right<T>(s: Seq<T>, n: int) -> Seq<T>
    recommends
        0 <= n <= s.len(),
{
    s.subrange(s.len() - n, s.len() as int) + s.subrange(0, s.len() - n)
}

/// `s` with the elements of `extra` put in at `index`.
pub open spec fn spliced<T>(s: Seq<T>, index: int, extra: Seq<T>) -> Seq<T>
    recommends
        0 <= index <= s.len(),
{
    s.subrange(0, index) + extra + s.subrange(index, s.len() as int)
}

/// `s` where each run of neighbours that `same` holds together is cut down
/// to its first element. `same` is asked about an element and the last
/// element kept before it, in that order.
pub open spec fn deduped<T>(s: Seq<T>, same: spec_fn(T, T) -> bool) -> Seq<T>
    decreases s.len(),
{
    if s.len() == 0 {
        s
    } else {
        let front = deduped(s.drop_last(), same);
        if front.len() > 0 && same(s.last(), front.last()) {
            front
        } else {
            front.push(s.last())
        }
    }
}

/// Cutting runs down never makes a sequence longer.
pub proof fn lemma_deduped_len<T>(s: Seq<T>, same: spec_fn(T, T) -> bool)
    ensures
        deduped(s, same).len() <= s.len(),
    decreases s.len(),
{
    if s.len() > 0 {
        lemma_deduped_len(s.drop_last(), same);
    }
}

/// `deduped` where two elements are held together by the equality of their keys.
pub open spec fn deduped_by_key<T, K: PartialEq>(s: Seq<T>, key: spec_fn(T) -> K) -> Seq<T> {
    deduped(s, |a: T, b: T| key(a).eq_spec(&key(b)))
}

/// `deduped` by the equality of the elements themselves.
pub open spec fn deduped_by_eq<T: PartialEq>(s: Seq<T>) -> Seq<T> {
    deduped(s, |a: T, b: T| a.eq_spec(&b))
}

/// The elements of `s` whose flag in `keep` is set, in their order.
pub open spec fn kept<T>(s: Seq<T>, keep: Seq<bool>) -> Seq<T>
    decreases s.len(),
{
    if s.len() == 0 || keep.len() != s.len() {
        Seq::empty()
    } else if keep.last() {
        kept(s.drop_last(), keep.drop_last()).push(s.last())
    } else {
        kept(s.drop_last(), keep.drop_last())
    }
}

/// The elements of `s` that `keep` accepts, each as `step` leaves it.
pub open spec fn retained_mut<T>(
    s: Seq<T>,
    step: spec_fn(T) -> T,
    keep: spec_fn(T) -> bool,
) -> Seq<T> {
    s.filter(keep).map_values(step)
}

/// Whether `after` is `before` brought to length `len` by cutting it or by
/// adding clones of `value`.
pub open spec fn resized<T: Clone>(before: Seq<T>, len: int, value: T, after: Seq<T>) -> bool {
    if len <= before.len() {
        after == truncated(before, len)
    } else {
        &&& after.len() == len
        &&& after.subrange(0, before.len() as int) == before
        &&& forall|i: int| before.len() <= i < len ==> cloned::<T>(value, #[trigger] after[i])
    }
}

/// Whether `after` is `before` brought to length `len` by cutting it or by
/// adding what calls of `f` give.
pub open spec fn resized_with<T, F: FnMut() -> T>(
    before: Seq<T>,
    len: int,
    f: F,
    after: Seq<T>,
) -> bool {
    if len <= before.len() {
        after == truncated(before, len)
    } else {
        &&& after.len() == len
        &&& after.subrange(0, before.len() as int) == before
        &&& forall|i: int| before.len() <= i < len ==> call_ensures(f, (), #[trigger] after[i])
    }
}

/// Whether `after` is `before` followed by a clone of each element of `extra`.
pub open spec fn extended<T: Clone>(before: Seq<T>, extra: Seq<T>, after: Seq<T>) -> bool {
    &&& after.len() == before.len() + extra.len()
    &&& after.subrange(0, before.len() as int) == before
    &&& forall|i: int|
        0 <= i < extra.len() ==> cloned::<T>(extra[i], #[trigger] after[before.len() + i])
}

/// Whether `f` may be called on each element of `s`.
pub open spec fn ready_on<T, F: FnMut(&T) -> bool>(f: F, s: Seq<T>) -> bool {
    forall|i: int| 0 <= i < s.len() ==> #[trigger] call_requires(f, (&s[i],))
}

/// Whether the answers of `f` on the elements of `s` are those of `keep`.
pub open spec fn decides_as<T, F: FnMut(&T) -> bool>(
    f: F,
    s: Seq<T>,
    keep: spec_fn(T) -> bool,
) -> bool {
    forall|i: int, answer: bool|
        0 <= i < s.len() && #[trigger] call_ensures(f, (&s[i],), answer) ==> answer == keep(s[i])
}

/// Whether `after` is what is left of `before` once `f` was asked about each
/// element: the elements with the answer `true`, in their order.
pub open spec fn retained<T, F: FnMut(&T) -> bool>(before: Seq<T>, f: F, after: Seq<T>) -> bool {
    exists|keep: Seq<bool>|
        {
            &&& keep.len() == before.len()
            &&& forall|i: int|
                0 <= i < before.len() ==> call_ensures(f, (&before[i],), #[trigger] keep[i])
            &&& after == #[trigger] kept(before, keep)
        }
}

/// Keeping by flags never makes a sequence longer.
pub proof fn lemma_kept_len<T>(s: Seq<T>, keep: Seq<bool>)
    ensures
        kept(s, keep).len() <= s.len(),
    decreases s.len(),
{
    if s.len() > 0 && keep.len() == s.len() {
        lemma_kept_len(s.drop_last(), keep.drop_last());
    }
}

/// Keeping by the flags that a predicate gives is filtering by the predicate.
pub proof fn lemma_kept_is_filter<T>(s: Seq<T>, keep: Seq<bool>, pred: spec_fn(T) -> bool)
    requires
        keep.len() == s.len(),
        forall|i: int| 0 <= i < s.len() ==> #[trigger] keep[i] == pred(s[i]),
    ensures
        kept(s, keep) == s.filter(pred),
    decreases s.len(),
{
    reveal(Seq::filter);
    if s.len() > 0 {
        lemma_kept_is_filter(s.drop_last(), keep.drop_last(), pred);
    }
}

/// What `f` retains is no longer than what it was given.
pub proof fn lemma_retained_len<T, F: FnMut(&T) -> bool>(before: Seq<T>, f: F, after: Seq<T>)
    requires
        retained(before, f, after),
    ensures
        after.len() <= before.len(),
{
    let keep = choose|keep: Seq<bool>|
        {
            &&& keep.len() == before.len()
            &&& forall|i: int|
                0 <= i < before.len() ==> call_ensures(f, (&before[i],), #[trigger] keep[i])
            &&& after == #[trigger] kept(before, keep)
        };
    lemma_kept_len(before, keep);
}

/// Where `f` answers on the elements as `pred` does, what `f` retains is
/// the filter by `pred`.
pub proof fn lemma_retained_is_filter<T, F: FnMut(&T) -> bool>(
    before: Seq<T>,
    f: F,
    after: Seq<T>,
    pred: spec_fn(T) -> bool,
)
    requires
        retained(before, f, after),
        decides_as(f, before, pred),
    ensures
        after == before.filter(pred),
{
    let keep = choose|keep: Seq<bool>|
        {
            &&& keep.len() == before.len()
            &&& forall|i: int|
                0 <= i < before.len() ==> call_ensures(f, (&before[i],), #[trigger] keep[i])
            &&& after == #[trigger] kept(before, keep)
        };
    lemma_kept_is_filter(before, keep, pred);
}

/// Whether `f` may be called on a reference to each element of `s`.
pub open spec fn ready_on_mut<T, F: FnMut(&mut T) -> bool>(f: F, s: Seq<T>) -> bool {
    forall|r: &mut T| s.contains(*r) ==> #[trigger] call_requires(f, (r,))
}

/// Whether `f` may be called on any two elements.
pub open spec fn ready_on_pairs<T, F: FnMut(&mut T, &mut T) -> bool>(f: F) -> bool {
    forall|a: &mut T, b: &mut T| #[trigger] call_requires(f, (a, b))
}

/// Whether `f` may be called on any element.
pub open spec fn ready_on_any<T, K, F: FnMut(&mut T) -> K>(f: F) -> bool {
    forall|a: &mut T| #[trigger] call_requires(f, (a,))
}

} // verus!
