//! Timestamps some of whose components are unknown, and how they are completed.
use vstd::prelude::*;

use crate::error::InComponentRange;

verus! {

/// A timestamp with optional components, and its relation to the complete timestamp.
pub trait InComplete: Sized {
    /// The complete timestamp.
    type Complete;

    /// The incomplete timestamp holding every component of `complete`.
    spec fn spec_from_complete(complete: Self::Complete) -> Self;

    /// The complete timestamp, or why there is none: the first absent component in the
    /// documented order, or the complete type's own range error.
    spec fn spec_into_complete(self) -> Result<Self::Complete, InComponentRange>;

    /// The timestamp with each absent component taken from `fallback`, or the range error
    /// when the components then do not form a valid value.
    spec fn spec_with_fallback(self, fallback: Self::Complete) -> Result<Self, InComponentRange>;

    /// Converts the complete timestamp into an incomplete one.
    fn from_complete(complete: Self::Complete) -> (r: Self)
        ensures
            r == Self::spec_from_complete(complete),
    ;

    /// Converts the incomplete timestamp into a complete one.
    fn into_complete(self) -> (r: Result<Self::Complete, InComponentRange>)
        ensures
            r == self.spec_into_complete(),
    ;

    /// Completes the absent components of the timestamp with those of `fallback`.
    fn with_fallback(self, fallback: Self::Complete) -> (r: Result<Self, InComponentRange>)
        ensures
            r == self.spec_with_fallback(fallback),
    ;

    /// Completes the absent components with those of `fallback`, then converts the
    /// timestamp into a complete one.
    fn fallback(self, fallback: Self::Complete) -> (r: Result<Self::Complete, InComponentRange>)
        ensures
            r == (match self.spec_with_fallback(fallback) {
                Ok(filled) => filled.spec_into_complete(),
                Err(e) => Err(e),
            }),
    {
        match self.with_fallback(fallback) {
            Ok(filled) => filled.into_complete(),
            Err(e) => Err(e),
        }
    }
}

} // verus!
