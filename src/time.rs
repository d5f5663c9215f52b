//! Validated clock times within a day.
use vstd::prelude::*;

use crate::error::ComponentRange;

verus! {

/// Whether the components name a time of day.
pub open spec fn is_valid_time(hour: int, minute: int, second: int, nanosecond: int) -> bool {
    &&& 0 <= hour < 24
    &&& 0 <= minute < 60
    &&& 0 <= second < 60
    &&& 0 <= nanosecond < 1_000_000_000
}

/// The time of the given components, or the error that names the first of them, in the
/// order hour, minute, second, nanosecond, that is out of range.
pub open spec fn time_result(hour: u8, minute: u8, second: u8, nanosecond: u32) -> Result<Time, ComponentRange> {
    if hour >= 24 {
        Err(ComponentRange::from_parts("hour"))
    } else if minute >= 60 {
        Err(ComponentRange::from_parts("minute"))
    } else if second >= 60 {
        Err(ComponentRange::from_parts("second"))
    } else if nanosecond >= 1_000_000_000 {
        Err(ComponentRange::from_parts("nanosecond"))
    } else {
        Ok(Time::from_parts(hour, minute, second, nanosecond))
    }
}

/// A clock time within a day, to the nanosecond.
#[derive(Debug, Clone, Copy, PartialEq, Eq, Structural, Hash)]
pub struct Time {
    hour: u8,
    minute: u8,
    second: u8,
    nanosecond: u32,
}

impl Time {
    /// Every time is one of the day.
    #[verifier::type_invariant]
    closed spec fn inv(&self) -> bool {
        self.wf()
    }

    /// The clock hour.
    pub closed spec fn spec_hour(&self) -> u8 {
        self.hour
    }

    /// The minute within the hour.
    pub closed spec fn spec_minute(&self) -> u8 {
        self.minute
    }

    /// The second within the minute.
    pub closed spec fn spec_second(&self) -> u8 {
        self.second
    }

    /// The nanosecond within the second.
    pub closed spec fn spec_nanosecond(&self) -> u32 {
        self.nanosecond
    }

    /// The time made of the given components.
    pub closed spec fn from_parts(hour: u8, minute: u8, second: u8, nanosecond: u32) -> Time {
        Time { hour, minute, second, nanosecond }
    }

    /// Whether the time is one of the day.
    pub open spec fn wf(&self) -> bool {
        is_valid_time(
            self.spec_hour() as int,
            self.spec_minute() as int,
            self.spec_second() as int,
            self.spec_nanosecond() as int,
        )
    }

    /// The components of a time built from parts are those parts.
    pub broadcast proof fn lemma_from_parts(hour: u8, minute: u8, second: u8, nanosecond: u32)
        ensures
            #[trigger] Time::from_parts(hour, minute, second, nanosecond).spec_hour() == hour,
            Time::from_parts(hour, minute, second, nanosecond).spec_minute() == minute,
            Time::from_parts(hour, minute, second, nanosecond).spec_second() == second,
            Time::from_parts(hour, minute, second, nanosecond).spec_nanosecond() == nanosecond,
    {
    }

    /// A time is determined by its components.
    pub broadcast proof fn lemma_parts(t: Time)
        ensures
            #[trigger] Time::from_parts(
                t.spec_hour(),
                t.spec_minute(),
                t.spec_second(),
                t.spec_nanosecond(),
            ) == t,
    {
    }

    /// Attempts to create a time from the hour, minute, second and nanosecond.
    pub fn from_hms_nano(hour: u8, minute: u8, second: u8, nanosecond: u32) -> (r: Result<
        Time,
        ComponentRange,
    >)
        ensures
            r == time_result(hour, minute, second, nanosecond),
            r matches Ok(t) ==> t.wf(),
    {
        if hour >= 24 {
            return Err(ComponentRange::new("hour"));
        }
        if minute >= 60 {
            return Err(ComponentRange::new("minute"));
        }
        if second >= 60 {
            return Err(ComponentRange::new("second"));
        }
        if nanosecond >= 1_000_000_000 {
            return Err(ComponentRange::new("nanosecond"));
        }
        Ok(Time { hour, minute, second, nanosecond })
    }

    /// Attempts to create a time from the hour, minute and second, at nanosecond zero.
    pub fn from_hms(hour: u8, minute: u8, second: u8) -> (r: Result<Time, ComponentRange>)
        ensures
            r == time_result(hour, minute, second, 0),
            r matches Ok(t) ==> t.wf(),
    {
        Time::from_hms_nano(hour, minute, second, 0)
    }

    /// The first moment of the day, `00:00:00.0`.
    pub fn midnight() -> (r: Time)
        ensures
            r == Time::from_parts(0, 0, 0, 0),
            r.wf(),
    {
        Time { hour: 0, minute: 0, second: 0, nanosecond: 0 }
    }

    /// The last moment of the day, `23:59:59.999999999`.
    pub fn max_value() -> (r: Time)
        ensures
            r == Time::from_parts(23, 59, 59, 999_999_999),
            r.wf(),
    {
        Time { hour: 23, minute: 59, second: 59, nanosecond: 999_999_999 }
    }

    /// Returns the clock hour.
    pub fn hour(self) -> (r: u8)
        ensures
            r == self.spec_hour(),
            self.wf(),
    {
        proof {
            use_type_invariant(&self);
        }
        self.hour
    }

    /// Returns the minute within the hour.
    pub fn minute(self) -> (r: u8)
        ensures
            r == self.spec_minute(),
            self.wf(),
    {
        proof {
            use_type_invariant(&self);
        }
        self.minute
    }

    /// Returns the second within the minute.
    pub fn second(self) -> (r: u8)
        ensures
            r == self.spec_second(),
            self.wf(),
    {
        proof {
            use_type_invariant(&self);
        }
        self.second
    }

    /// Returns the nanosecond within the second.
    pub fn nanosecond(self) -> (r: u32)
        ensures
            r == self.spec_nanosecond(),
            self.wf(),
    {
        proof {
            use_type_invariant(&self);
        }
        self.nanosecond
    }
}

pub broadcast group group_time {
    Time::lemma_from_parts,
    Time::lemma_parts,
}

} // verus!
