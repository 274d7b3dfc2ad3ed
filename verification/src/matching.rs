//! Matching on optional integers.

use vstd::prelude::*;

verus! {

/// Adds one to the value inside `x`, and leaves an absent value absent.
///
/// The sum has to fit in an `i32`.
pub fn plus_one(x: Option<i32>) -> (r: Option<i32>)
    requires
        x matches Some(i) ==> i + 1 <= i32::MAX,
    ensures
        x is None ==> r is None,
        x matches Some(i) ==> r == Some((i + 1) as i32),
{
    match x {
        None => None,
        Some(i) => Some(i + 1),
    }
}

/// Adds two to the value inside `x`, and leaves an absent value absent.
///
/// The sum has to fit in an `i32`.
pub fn plus_two(x: Option<i32>) -> (r: Option<i32>)
    requires
        x matches Some(i) ==> i + 2 <= i32::MAX,
    ensures
        x is None ==> r is None,
        x matches Some(i) ==> r == Some((i + 2) as i32),
{
    match x {
        None => None,
        Some(i) => Some(i + 2),
    }
}

} // verus!
