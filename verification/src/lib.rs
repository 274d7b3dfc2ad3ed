//! Small, fully specified building blocks for the basics of the language:
//! functions on integers, matching on optional values, moving and borrowing
//! strings, plain records with methods, type parameters and shared behaviour.

pub mod arith;
pub mod generics;
pub mod matching;
pub mod ownership;
pub mod rectangle;
pub mod slices;
pub mod summary;
pub mod user;
