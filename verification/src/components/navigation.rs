//! Paging through a table: a window back or a window on.

use vstd::prelude::*;

verus! {

/// Where a page turns to.
#[derive(Clone, Copy, Debug, PartialEq, Eq, Structural)]
pub enum NavigationDirection {
    Backward,
    Forward,
}

/// The start of the window that follows a turn from the window at `position`: `step`
/// further on, or `step` back but not before `first`.
pub open spec fn spec_navigate(position: int, step: int, first: int, direction: NavigationDirection)
    -> int {
    match direction {
        NavigationDirection::Backward => if position - step >= first {
            position - step
        } else {
            first
        },
        NavigationDirection::Forward => position + step,
    }
}

/// The start of the window that follows a turn. Dates are paged with 1 as the first start,
/// counts of geodes with 0.
pub fn navigate(position: i32, step: i32, first: i32, direction: NavigationDirection) -> (start:
    i32)
    requires
        direction == NavigationDirection::Backward ==> -2147483648 <= position - step
            <= 2147483647,
        direction == NavigationDirection::Forward ==> -2147483648 <= position + step
            <= 2147483647,
    ensures
        start == spec_navigate(position as int, step as int, first as int, direction),
{
    match direction {
        NavigationDirection::Backward => if position - step >= first {
            position - step
        } else {
            first
        },
        NavigationDirection::Forward => position + step,
    }
}

} // verus!
