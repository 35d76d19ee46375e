//! Calling a generic method through a trait object.
//!
//! A capability whose operation takes a stream of any type cannot be held as
//! a trait object. This crate gives such a capability two forms, `Generic`
//! and `ErasedGeneric`, and the two blanket implementations that carry a value
//! from either form to the other, and proves that a call gives the same
//! result on whichever path it is made.

pub mod adapter;
pub mod double;
pub mod failure;
pub mod generic;
pub mod mock;
pub mod stream;
pub mod sum;
