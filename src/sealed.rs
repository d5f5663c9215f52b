//! A trait that types outside this crate cannot implement.
use vstd::prelude::*;

verus! {

/// Marks the types that calendar arithmetic is defined on.
pub trait Sealed {}

} // verus!
