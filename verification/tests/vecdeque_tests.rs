use functional_vec::FunctionalVecDeque;
use std::collections::VecDeque;

fn deque(items: &[i32]) -> VecDeque<i32> {
    items.iter().copied().collect()
}

#[test]
fn deque_push_both_ends_then_pop_front() {
    let d = VecDeque::new().push_back_new(1).push_front_new(0).push_back_new(2);
    assert_eq!(d, deque(&[0, 1, 2]));
    let (x, d) = d.pop_front_new();
    assert_eq!(x, Some(0));
    assert_eq!(d, deque(&[1, 2]));
}

#[test]
fn deque_append_new_puts_other_behind() {
    assert_eq!(deque(&[1, 2]).append_new(deque(&[3, 4])), deque(&[1, 2, 3, 4]));
    assert_eq!(deque(&[]).append_new(deque(&[3])), deque(&[3]));
    assert_eq!(deque(&[3]).append_new(deque(&[])), deque(&[3]));
}

#[test]
fn deque_insert_new_moves_the_rest_on() {
    assert_eq!(deque(&[1, 2, 3]).insert_new(1, 9), deque(&[1, 9, 2, 3]));
    assert_eq!(deque(&[1, 2, 3]).insert_new(0, 9), deque(&[9, 1, 2, 3]));
    assert_eq!(deque(&[1, 2, 3]).insert_new(3, 9), deque(&[1, 2, 3, 9]));
}

#[test]
fn deque_make_contiguous_new_keeps_the_order() {
    let d = VecDeque::with_capacity(4)
        .push_back_new(2)
        .push_back_new(3)
        .push_front_new(1)
        .push_front_new(0)
        .make_contiguous_new();
    assert_eq!(d, deque(&[0, 1, 2, 3]));
    assert_eq!(d.as_slices().0, &[0, 1, 2, 3]);
    assert!(d.as_slices().1.is_empty());
}

#[test]
fn deque_pop_back_new_gives_the_last() {
    let (x, d) = deque(&[1, 2, 3]).pop_back_new();
    assert_eq!(x, Some(3));
    assert_eq!(d, deque(&[1, 2]));
    let (y, e) = deque(&[]).pop_back_new();
    assert_eq!(y, None);
    assert!(e.is_empty());
}

#[test]
fn deque_pop_front_new_gives_the_first() {
    let (x, d) = deque(&[1, 2, 3]).pop_front_new();
    assert_eq!(x, Some(1));
    assert_eq!(d, deque(&[2, 3]));
    let (y, e) = deque(&[]).pop_front_new();
    assert_eq!(y, None);
    assert!(e.is_empty());
}

#[test]
fn deque_push_back_new_adds_at_the_end() {
    assert_eq!(deque(&[1]).push_back_new(2), deque(&[1, 2]));
}

#[test]
fn deque_push_front_new_adds_at_the_front() {
    assert_eq!(deque(&[1]).push_front_new(2), deque(&[2, 1]));
}

#[test]
fn deque_remove_new_within_and_beyond() {
    let (x, d) = deque(&[1, 2, 3]).remove_new(1);
    assert_eq!(x, Some(2));
    assert_eq!(d, deque(&[1, 3]));
    let (y, e) = deque(&[1, 2, 3]).remove_new(3);
    assert_eq!(y, None);
    assert_eq!(e, deque(&[1, 2, 3]));
    let (z, f) = deque(&[1, 2]).remove_new(5);
    assert_eq!(z, None);
    assert_eq!(f, deque(&[1, 2]));
}

#[test]
fn deque_reserve_new_keeps_the_elements() {
    let d = deque(&[1, 2]).reserve_new(50);
    assert_eq!(d, deque(&[1, 2]));
    assert!(d.capacity() >= 52);
}

#[test]
fn deque_reserve_exact_new_keeps_the_elements() {
    let d = deque(&[1, 2]).reserve_exact_new(50);
    assert_eq!(d, deque(&[1, 2]));
    assert!(d.capacity() >= 52);
}

#[test]
fn deque_resize_new_cuts_or_fills_at_the_back() {
    assert_eq!(deque(&[1, 2]).resize_new(4, 7), deque(&[1, 2, 7, 7]));
    assert_eq!(deque(&[1, 2, 3]).resize_new(1, 7), deque(&[1]));
    assert_eq!(deque(&[1, 2, 3]).resize_new(3, 7), deque(&[1, 2, 3]));
}

#[test]
fn deque_resize_with_new_fills_in_order() {
    let mut next = 0;
    let d = deque(&[9]).resize_with_new(4, || {
        next += 1;
        next
    });
    assert_eq!(d, deque(&[9, 1, 2, 3]));
    assert_eq!(deque(&[1, 2, 3]).resize_with_new(2, || 0), deque(&[1, 2]));
}

#[test]
fn deque_retain_new_filters_in_order() {
    assert_eq!(deque(&[1, 2, 3, 4, 5]).retain_new(|x| *x % 2 == 1), deque(&[1, 3, 5]));
    assert_eq!(deque(&[2, 4]).retain_new(|x| *x % 2 == 1), deque(&[]));
}

#[test]
fn deque_retain_mut_new_keeps_what_the_closure_left() {
    let d = deque(&[1, 2, 3, 4]).retain_mut_new(|x| {
        *x *= 10;
        *x > 15
    });
    assert_eq!(d, deque(&[20, 30, 40]));
}

#[test]
fn deque_rotate_left_new_brings_mid_to_the_front() {
    assert_eq!(deque(&[0, 1, 2, 3, 4]).rotate_left_new(2), deque(&[2, 3, 4, 0, 1]));
    assert_eq!(deque(&[0, 1, 2]).rotate_left_new(0), deque(&[0, 1, 2]));
    assert_eq!(deque(&[0, 1, 2]).rotate_left_new(3), deque(&[0, 1, 2]));
}

#[test]
fn deque_rotate_right_new_brings_the_last_to_the_front() {
    assert_eq!(deque(&[0, 1, 2, 3, 4]).rotate_right_new(2), deque(&[3, 4, 0, 1, 2]));
    assert_eq!(deque(&[0, 1, 2]).rotate_right_new(0), deque(&[0, 1, 2]));
    assert_eq!(deque(&[0, 1, 2]).rotate_right_new(3), deque(&[0, 1, 2]));
}

#[test]
fn deque_rotate_left_then_right_gives_the_elements_back() {
    assert_eq!(deque(&[0, 1, 2, 3]).rotate_left_new(3).rotate_right_new(3), deque(&[0, 1, 2, 3]));
}

#[test]
fn deque_shrink_to_new_keeps_the_elements() {
    let d = VecDeque::with_capacity(100).push_back_new(1).push_back_new(2).shrink_to_new(8);
    assert_eq!(d, deque(&[1, 2]));
    assert!(d.capacity() >= 8);
    assert!(d.capacity() < 100);
}

#[test]
fn deque_shrink_to_fit_new_keeps_the_elements() {
    let d = VecDeque::with_capacity(100).push_back_new(1).push_back_new(2).shrink_to_fit_new();
    assert_eq!(d, deque(&[1, 2]));
    assert!(d.capacity() < 100);
}

#[test]
fn deque_split_off_new_gives_tail_then_head() {
    let (tail, head) = deque(&[1, 2, 3, 4]).split_off_new(1);
    assert_eq!(tail, deque(&[2, 3, 4]));
    assert_eq!(head, deque(&[1]));
    let (tail, head) = deque(&[1, 2]).split_off_new(2);
    assert!(tail.is_empty());
    assert_eq!(head, deque(&[1, 2]));
}

#[test]
fn deque_split_then_append_gives_the_elements_back() {
    for at in 0..=3 {
        let (tail, head) = deque(&[7, 8, 9]).split_off_new(at);
        assert_eq!(head.append_new(tail), deque(&[7, 8, 9]));
    }
}

#[test]
fn deque_swap_new_exchanges_two_elements() {
    assert_eq!(deque(&[1, 2, 3, 4]).swap_new(0, 3), deque(&[4, 2, 3, 1]));
    assert_eq!(deque(&[1, 2, 3, 4]).swap_new(2, 2), deque(&[1, 2, 3, 4]));
}

#[test]
fn deque_swap_remove_back_new_moves_the_last_in() {
    let (x, d) = deque(&[1, 2, 3, 4]).swap_remove_back_new(1);
    assert_eq!(x, Some(2));
    assert_eq!(d, deque(&[1, 4, 3]));
    let (y, e) = deque(&[1, 2, 3]).swap_remove_back_new(2);
    assert_eq!(y, Some(3));
    assert_eq!(e, deque(&[1, 2]));
    let (z, f) = deque(&[1, 2, 3]).swap_remove_back_new(3);
    assert_eq!(z, None);
    assert_eq!(f, deque(&[1, 2, 3]));
}

#[test]
fn deque_swap_remove_front_new_moves_the_first_in() {
    let (x, d) = deque(&[1, 2, 3, 4]).swap_remove_front_new(2);
    assert_eq!(x, Some(3));
    assert_eq!(d, deque(&[2, 1, 4]));
    let (y, e) = deque(&[1, 2, 3]).swap_remove_front_new(0);
    assert_eq!(y, Some(1));
    assert_eq!(e, deque(&[2, 3]));
    let (z, f) = deque(&[]).swap_remove_front_new(0);
    assert_eq!(z, None);
    assert!(f.is_empty());
}

#[test]
fn deque_truncate_new_keeps_the_front() {
    assert_eq!(deque(&[1, 2, 3]).truncate_new(1), deque(&[1]));
    assert_eq!(deque(&[1, 2, 3]).truncate_new(5), deque(&[1, 2, 3]));
    assert_eq!(deque(&[1, 2, 3]).truncate_new(0), deque(&[]));
}

#[test]
fn deque_try_reserve_new_small_and_too_large() {
    let (res, d) = deque(&[1, 2]).try_reserve_new(10);
    assert!(res.is_ok());
    assert_eq!(d, deque(&[1, 2]));
    assert!(d.capacity() >= 12);
    let (res, d) = d.try_reserve_new(usize::MAX);
    assert!(res.is_err());
    assert_eq!(d, deque(&[1, 2]));
    let (res, e) = VecDeque::<i32>::new().try_reserve_new(usize::MAX / 4 + 1);
    assert!(res.is_err());
    assert!(e.is_empty());
}

#[test]
fn deque_try_reserve_exact_new_small_and_too_large() {
    let (res, d) = deque(&[1, 2]).try_reserve_exact_new(10);
    assert!(res.is_ok());
    assert_eq!(d, deque(&[1, 2]));
    assert!(d.capacity() >= 12);
    let (res, d) = d.try_reserve_exact_new(usize::MAX);
    assert!(res.is_err());
    assert_eq!(d, deque(&[1, 2]));
}

#[test]
fn deque_chain_ends_as_binding_does() {
    let chained = deque(&[1, 2, 3]).rotate_left_new(1).push_front_new(0).swap_new(0, 3);
    let first = deque(&[1, 2, 3]).rotate_left_new(1);
    let second = first.push_front_new(0);
    let bound = second.swap_new(0, 3);
    assert_eq!(chained, bound);
    assert_eq!(chained, deque(&[1, 2, 3, 0]));
}

#[test]
fn deque_try_reserve_new_of_nothing_succeeds() {
    let (res, d) = deque(&[1, 2, 3]).try_reserve_new(0);
    assert!(res.is_ok());
    assert_eq!(d, deque(&[1, 2, 3]));
    let (res, d) = d.try_reserve_exact_new(0);
    assert!(res.is_ok());
    assert_eq!(d, deque(&[1, 2, 3]));
}
