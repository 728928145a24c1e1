//! How many elements a collection can have.

use vstd::layout::size_of;
use vstd::prelude::*;

verus! {

/// Whether a collection of `T` can have `n` elements: the count fits in
/// `usize`, and the elements take no more than `isize::MAX` bytes. Beyond
/// that a collection cannot find room, whatever memory there is.
///
/// For the primitive types `vstd::layout::layout_of_primitives` gives the
/// size that this speaks of.
pub open spec fn can_hold<T>(n: int) -> bool {
    n <= usize::MAX && n * size_of::<T>() <= isize::MAX
}

/// Tells whether a collection of `T` can have `n` elements.
pub fn fits<T>(n: usize) -> (yes: bool)
    ensures
        yes == can_hold::<T>(n as int),
{
    let size: usize = core::mem::size_of::<T>();
    if size == 0 {
        true
    } else {
        let most: usize = (isize::MAX as usize) / size;
        assert(n * size <= isize::MAX <==> n <= isize::MAX as int / size as int)
            by (nonlinear_arith)
            requires
                size > 0,
        ;
        n <= most
    }
}

/// Whether a collection of `T` that takes its room in powers of two can
/// come to have `n` elements: the next power of two is less than twice `n`.
pub open spec fn can_grow_to<T>(n: int) -> bool {
    can_hold::<T>(2 * n)
}

} // verus!
