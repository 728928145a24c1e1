use functional_vec::{AllocFailure, FunctionalSmallVec, SmallArray};

fn small(items: &[u64]) -> SmallArray {
    SmallArray::from_vec(items.to_vec())
}

#[test]
fn small_new_is_empty() {
    let a = SmallArray::new();
    assert_eq!(a.len(), 0);
    assert_eq!(a.into_vec(), Vec::<u64>::new());
}

#[test]
fn small_from_vec_and_into_vec_keep_the_elements() {
    let a = SmallArray::from_vec(vec![1, 2, 3]);
    assert_eq!(a.len(), 3);
    assert_eq!(a.into_vec(), vec![1, 2, 3]);
    let b = SmallArray::from_vec(vec![1, 2, 3, 4, 5, 6]);
    assert_eq!(b.len(), 6);
    assert_eq!(b.into_vec(), vec![1, 2, 3, 4, 5, 6]);
}

#[test]
fn small_push_new_goes_past_the_inline_places() {
    let a = (0..10).fold(SmallArray::new(), |acc, curr| acc.push_new(curr));
    assert_eq!(a.len(), 10);
    assert_eq!(a.into_vec(), vec![0, 1, 2, 3, 4, 5, 6, 7, 8, 9]);
}

#[test]
fn small_append_new_puts_other_behind() {
    assert_eq!(small(&[1, 2]).append_new(small(&[3, 4, 5])).into_vec(), vec![1, 2, 3, 4, 5]);
    assert_eq!(small(&[]).append_new(small(&[3])).into_vec(), vec![3]);
    assert_eq!(small(&[3]).append_new(small(&[])).into_vec(), vec![3]);
}

#[test]
fn small_clear_new_empties() {
    assert_eq!(small(&[1, 2, 3, 4, 5]).clear_new().into_vec(), Vec::<u64>::new());
}

#[test]
fn small_clear_new_twice_is_once() {
    let once = small(&[1, 2, 3]).clear_new().into_vec();
    let twice = small(&[1, 2, 3]).clear_new().clear_new().into_vec();
    assert_eq!(once, twice);
    assert!(twice.is_empty());
}

#[test]
fn small_dedup_new_cuts_runs() {
    assert_eq!(small(&[1, 1, 2, 2, 2, 1, 3, 3]).dedup_new().into_vec(), vec![1, 2, 1, 3]);
    assert_eq!(small(&[]).dedup_new().into_vec(), Vec::<u64>::new());
    assert_eq!(small(&[4]).dedup_new().into_vec(), vec![4]);
}

#[test]
fn small_dedup_by_new_gets_current_then_kept() {
    let a = small(&[1, 2, 3, 5, 10, 11, 25]).dedup_by_new(|current, kept| *current < 2 * *kept);
    assert_eq!(a.into_vec(), vec![1, 2, 5, 10, 25]);
}

#[test]
fn small_dedup_by_key_new_keeps_first_of_each_key() {
    let a = small(&[10, 11, 19, 20, 21, 30, 12]).dedup_by_key_new(|x| *x / 10);
    assert_eq!(a.into_vec(), vec![10, 20, 30, 12]);
}

#[test]
fn small_extend_from_slice_new_copies_to_the_end() {
    assert_eq!(small(&[1]).extend_from_slice_new(&[2, 3, 4, 5]).into_vec(), vec![1, 2, 3, 4, 5]);
    assert_eq!(small(&[1]).extend_from_slice_new(&[]).into_vec(), vec![1]);
}

#[test]
fn small_grow_new_keeps_the_elements() {
    let grown = small(&[1, 2, 3]).grow_new(64).into_vec();
    assert_eq!(grown, vec![1, 2, 3]);
    assert_eq!(grown.capacity(), 64);
    assert_eq!(small(&[1, 2, 3]).grow_new(1).into_vec(), vec![1, 2, 3]);
    assert_eq!(small(&[1, 2, 3, 4, 5, 6]).grow_new(4).into_vec(), vec![1, 2, 3, 4, 5, 6]);
}

#[test]
fn small_insert_new_moves_the_rest_on() {
    assert_eq!(small(&[1, 2, 3]).insert_new(1, 9).into_vec(), vec![1, 9, 2, 3]);
    assert_eq!(small(&[1, 2, 3, 4]).insert_new(4, 9).into_vec(), vec![1, 2, 3, 4, 9]);
    assert_eq!(small(&[]).insert_new(0, 9).into_vec(), vec![9]);
}

#[test]
fn small_insert_from_slice_new_copies_in_at_the_index() {
    assert_eq!(small(&[1, 2]).insert_from_slice_new(1, &[7, 8, 9]).into_vec(), vec![1, 7, 8, 9, 2]);
    assert_eq!(small(&[1, 2]).insert_from_slice_new(2, &[7]).into_vec(), vec![1, 2, 7]);
    assert_eq!(small(&[1, 2]).insert_from_slice_new(0, &[]).into_vec(), vec![1, 2]);
}

#[test]
fn small_insert_many_new_puts_in_at_the_index() {
    assert_eq!(small(&[1, 2]).insert_many_new(1, vec![7, 8, 9]).into_vec(), vec![1, 7, 8, 9, 2]);
    assert_eq!(small(&[1, 2]).insert_many_new(2, vec![7, 8]).into_vec(), vec![1, 2, 7, 8]);
    assert_eq!(small(&[1, 2]).insert_many_new(0, vec![]).into_vec(), vec![1, 2]);
}

#[test]
fn small_pop_new_gives_the_last() {
    let (x, a) = small(&[1, 2, 3]).pop_new();
    assert_eq!(x, Some(3));
    assert_eq!(a.into_vec(), vec![1, 2]);
    let (y, b) = small(&[]).pop_new();
    assert_eq!(y, None);
    assert_eq!(b.len(), 0);
}

#[test]
fn small_remove_new_returns_the_element() {
    let (x, a) = small(&[1, 2, 3]).remove_new(0);
    assert_eq!(x, 1);
    assert_eq!(a.into_vec(), vec![2, 3]);
}

#[test]
fn small_reserve_new_keeps_the_elements() {
    let v = small(&[1, 2]).reserve_new(100).into_vec();
    assert_eq!(v, vec![1, 2]);
    assert_eq!(v.capacity(), 128);
}

#[test]
fn small_reserve_exact_new_keeps_the_elements() {
    let v = small(&[1, 2]).reserve_exact_new(100).into_vec();
    assert_eq!(v, vec![1, 2]);
    assert_eq!(v.capacity(), 102);
}

#[test]
fn small_resize_new_cuts_or_fills() {
    assert_eq!(small(&[1, 2]).resize_new(6, 7).into_vec(), vec![1, 2, 7, 7, 7, 7]);
    assert_eq!(small(&[1, 2, 3]).resize_new(1, 7).into_vec(), vec![1]);
    assert_eq!(small(&[1, 2, 3]).resize_new(3, 7).into_vec(), vec![1, 2, 3]);
}

#[test]
fn small_resize_with_new_fills_in_order() {
    let mut next = 1;
    let a = small(&[]).resize_with_new(4, || {
        next *= 2;
        next
    });
    assert_eq!(a.into_vec(), vec![2, 4, 8, 16]);
    assert_eq!(small(&[1, 2, 3]).resize_with_new(2, || 0).into_vec(), vec![1, 2]);
}

#[test]
fn small_retain_new_keeps_what_the_closure_left() {
    let a = small(&[1, 2, 3, 4, 5, 6]).retain_new(|x| {
        *x += 10;
        *x % 2 == 0
    });
    assert_eq!(a.into_vec(), vec![12, 14, 16]);
}

#[test]
fn small_retain_mut_new_keeps_what_the_closure_left() {
    let a = small(&[1, 2, 3, 4, 5, 6]).retain_mut_new(|x| {
        *x += 10;
        *x % 2 == 1
    });
    assert_eq!(a.into_vec(), vec![11, 13, 15]);
}

#[test]
fn small_shrink_to_fit_new_keeps_the_elements() {
    let v = small(&[1, 2, 3]).reserve_exact_new(61).truncate_new(2).into_vec();
    assert_eq!(v.capacity(), 64);
    let w = small(&[1, 2, 3]).reserve_exact_new(61).truncate_new(2).shrink_to_fit_new().into_vec();
    assert_eq!(w, vec![1, 2]);
    assert!(w.capacity() < 64);
    let x = small(&[1, 2, 3, 4, 5, 6]).reserve_exact_new(58).shrink_to_fit_new().into_vec();
    assert_eq!(x, vec![1, 2, 3, 4, 5, 6]);
    assert_eq!(x.capacity(), 6);
}

#[test]
fn small_swap_remove_new_moves_the_last_in() {
    let (x, a) = small(&[1, 2, 3, 4]).swap_remove_new(1);
    assert_eq!(x, 2);
    assert_eq!(a.into_vec(), vec![1, 4, 3]);
    let (y, b) = small(&[1]).swap_remove_new(0);
    assert_eq!(y, 1);
    assert_eq!(b.len(), 0);
}

#[test]
fn small_truncate_new_keeps_the_front() {
    assert_eq!(small(&[1, 2, 3]).truncate_new(2).into_vec(), vec![1, 2]);
    assert_eq!(small(&[1, 2, 3]).truncate_new(7).into_vec(), vec![1, 2, 3]);
}

#[test]
fn small_try_grow_new_succeeds_inline_and_below_the_length() {
    let (res, a) = small(&[1, 2, 3]).try_grow_new(4);
    assert!(res.is_ok());
    assert_eq!(a.into_vec(), vec![1, 2, 3]);
    let (res, b) = small(&[1, 2, 3, 4, 5, 6]).try_grow_new(2);
    assert!(res.is_ok());
    assert_eq!(b.into_vec(), vec![1, 2, 3, 4, 5, 6]);
    let (res, c) = small(&[1, 2, 3]).try_grow_new(32);
    assert!(res.is_ok());
    let v = c.into_vec();
    assert_eq!(v, vec![1, 2, 3]);
    assert_eq!(v.capacity(), 32);
}

#[test]
fn small_try_grow_new_reports_capacity_overflow() {
    let (res, a) = small(&[1, 2, 3]).try_grow_new(usize::MAX);
    assert!(matches!(res, Err(AllocFailure::CapacityOverflow)));
    assert_eq!(a.into_vec(), vec![1, 2, 3]);
    let (res, b) = small(&[1]).try_grow_new(isize::MAX as usize / 8 + 1);
    assert!(matches!(res, Err(AllocFailure::CapacityOverflow)));
    assert_eq!(b.into_vec(), vec![1]);
}

#[test]
fn small_try_reserve_new_succeeds_within_the_inline_places() {
    let (res, a) = small(&[1, 2]).try_reserve_new(2);
    assert!(res.is_ok());
    assert_eq!(a.into_vec(), vec![1, 2]);
    let (res, b) = small(&[1, 2]).try_reserve_new(20);
    assert!(res.is_ok());
    let v = b.into_vec();
    assert_eq!(v, vec![1, 2]);
    assert_eq!(v.capacity(), 32);
}

#[test]
fn small_try_reserve_new_reports_capacity_overflow() {
    let (res, a) = small(&[1, 2]).try_reserve_new(usize::MAX);
    assert!(matches!(res, Err(AllocFailure::CapacityOverflow)));
    assert_eq!(a.into_vec(), vec![1, 2]);
    let (res, b) = small(&[]).try_reserve_new(isize::MAX as usize / 8 + 1);
    assert!(matches!(res, Err(AllocFailure::CapacityOverflow)));
    assert_eq!(b.len(), 0);
}

#[test]
fn small_try_reserve_exact_new_succeeds_within_the_inline_places() {
    let (res, a) = small(&[1, 2]).try_reserve_exact_new(2);
    assert!(res.is_ok());
    assert_eq!(a.into_vec(), vec![1, 2]);
    let (res, b) = small(&[1, 2]).try_reserve_exact_new(20);
    assert!(res.is_ok());
    let v = b.into_vec();
    assert_eq!(v, vec![1, 2]);
    assert_eq!(v.capacity(), 22);
}

#[test]
fn small_try_reserve_exact_new_reports_capacity_overflow() {
    let (res, a) = small(&[1, 2]).try_reserve_exact_new(usize::MAX);
    assert!(matches!(res, Err(AllocFailure::CapacityOverflow)));
    assert_eq!(a.into_vec(), vec![1, 2]);
    let (res, b) = small(&[1, 2]).try_reserve_exact_new(isize::MAX as usize / 8);
    assert!(matches!(res, Err(AllocFailure::CapacityOverflow)));
    assert_eq!(b.into_vec(), vec![1, 2]);
}

#[test]
fn small_chain_ends_as_binding_does() {
    let chained = small(&[3, 1]).push_new(4).insert_new(0, 0).truncate_new(3).into_vec();
    let first = small(&[3, 1]).push_new(4);
    let second = first.insert_new(0, 0);
    let bound = second.truncate_new(3).into_vec();
    assert_eq!(chained, bound);
    assert_eq!(chained, vec![0, 3, 1]);
}

#[test]
fn small_try_reserve_new_of_nothing_succeeds() {
    let (res, a) = small(&[1, 2, 3, 4, 5, 6, 7]).try_reserve_new(0);
    assert_eq!(res, Ok(()));
    let (res, a) = a.try_reserve_exact_new(0);
    assert_eq!(res, Ok(()));
    assert_eq!(a.into_vec(), vec![1, 2, 3, 4, 5, 6, 7]);
}
