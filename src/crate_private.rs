use vstd::prelude::*;

verus! {

/// Implemented only by the marker types of this crate, so that the state
/// traits built on it cannot be implemented elsewhere.
pub trait Sealed {}

} // verus!
