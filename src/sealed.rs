//! The seal that keeps the marker traits of this crate closed to other crates.
use vstd::prelude::*;

verus! {

/// Implemented only by this crate's marker types.
pub trait Sealed {}

} // verus!
