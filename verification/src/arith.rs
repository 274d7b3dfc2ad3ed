//! Functions on integers.

use vstd::prelude::*;

verus! {

/// Raises both numbers by one and adds them up.
///
/// Each step has to fit in an `i32`.
pub fn add_with_extra(a: i32, b: i32) -> (sum: i32)
    requires
        a < i32::MAX,
        b < i32::MAX,
        i32::MIN <= a + b + 2 <= i32::MAX,
    ensures
        sum == a + b + 2,
{
    let a = a + 1;
    let b = b + 1;
    a + b
}

/// The sum of two numbers, which has to fit in an `i32`.
pub fn add_two(a: i32, b: i32) -> (sum: i32)
    requires
        i32::MIN <= a + b <= i32::MAX,
    ensures
        sum == a + b,
{
    a + b
}

/// The number raised by five, which has to fit in an `i32`.
pub fn plus_five(a: i32) -> (sum: i32)
    requires
        a + 5 <= i32::MAX,
    ensures
        sum == a + 5,
{
    a + 5
}

} // verus!
