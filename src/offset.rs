//! Offsets from UTC.
use vstd::prelude::*;

use crate::error::ComponentRange;

verus! {

/// The largest magnitude of an offset, in seconds: 25 hours, 59 minutes and 59 seconds.
pub const MAX_OFFSET_SECONDS: i32 = 93_599;

/// An offset from UTC, held as a whole number of seconds east of UTC.
#[derive(Debug, Clone, Copy, PartialEq, Eq, Structural, Hash)]
pub struct UtcOffset {
    seconds: i32,
}

impl UtcOffset {
    /// Every offset lies within the allowed range.
    #[verifier::type_invariant]
    closed spec fn inv(&self) -> bool {
        -MAX_OFFSET_SECONDS <= self.seconds <= MAX_OFFSET_SECONDS
    }

    /// The offset in seconds.
    pub closed spec fn spec_seconds(&self) -> i32 {
        self.seconds
    }

    /// The offset of `seconds` seconds.
    pub closed spec fn from_parts(seconds: i32) -> UtcOffset {
        UtcOffset { seconds }
    }

    /// The offset of an offset built from a number of seconds is that number.
    pub broadcast proof fn lemma_from_parts(seconds: i32)
        ensures
            #[trigger] UtcOffset::from_parts(seconds).spec_seconds() == seconds,
    {
    }

    /// An offset is determined by its number of seconds.
    pub broadcast proof fn lemma_parts(o: UtcOffset)
        ensures
            #[trigger] UtcOffset::from_parts(o.spec_seconds()) == o,
    {
    }

    /// Attempts to create an offset of `seconds` seconds east of UTC.
    pub fn from_whole_seconds(seconds: i32) -> (r: Result<UtcOffset, ComponentRange>)
        ensures
            r == (if -MAX_OFFSET_SECONDS <= seconds <= MAX_OFFSET_SECONDS {
                Ok(UtcOffset::from_parts(seconds))
            } else {
                Err(ComponentRange::from_parts("seconds"))
            }),
    {
        if seconds < -MAX_OFFSET_SECONDS || seconds > MAX_OFFSET_SECONDS {
            Err(ComponentRange::new("seconds"))
        } else {
            Ok(UtcOffset { seconds })
        }
    }

    /// The offset of UTC itself.
    pub fn utc() -> (r: UtcOffset)
        ensures
            r == UtcOffset::from_parts(0),
    {
        UtcOffset { seconds: 0 }
    }

    /// Returns the offset in seconds east of UTC.
    pub fn whole_seconds(self) -> (r: i32)
        ensures
            r == self.spec_seconds(),
            -MAX_OFFSET_SECONDS <= r <= MAX_OFFSET_SECONDS,
    {
        proof {
            use_type_invariant(&self);
        }
        self.seconds
    }
}

pub broadcast group group_offset {
    UtcOffset::lemma_from_parts,
    UtcOffset::lemma_parts,
}

} // verus!
