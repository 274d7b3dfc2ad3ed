//! Functions and types with type parameters.

use std::fmt::{Debug, Display};
use vstd::prelude::*;
use vstd::std_specs::ops::AddSpec;

verus! {

/// The sum of two values of any type that can be added to itself.
///
/// The values have to meet what the type asks of an addition: for the
/// integer types, that the sum fits.
pub fn add<T: std::ops::Add<Output = T>>(a: T, b: T) -> (sum: T)
    requires
        a.add_req(b),
    ensures
        T::obeys_add_spec() ==> sum == a.add_spec(b),
{
    a + b
}

/// A point whose two coordinates have the same type.
pub struct Point2<T> {
    pub x: T,
    pub y: T,
}

impl<T> Point2<T> {
    /// The first coordinate.
    pub fn x(&self) -> (x: &T)
        ensures
            *x == self.x,
    {
        &self.x
    }
}

/// Takes one value that can be shown and copied and one that can be copied
/// and inspected, and answers zero whatever they are.
pub fn some_fn<T: Display + Clone, U: Clone + Debug>(t: &T, u: &U) -> (r: i32)
    ensures
        r == 0,
{
    0
}

/// As [`some_fn`], with the bounds in a `where` clause.
pub fn some_fn1<T, U>(t: &T, u: &U) -> (r: i32)
    where
        T: Display + Clone,
        U: Clone + Debug,
    ensures
        r == 0,
{
    0
}

} // verus!
