//! Times of day some of whose components are unknown.
use vstd::prelude::*;

use crate::error::{missing, out_of_range, ComponentRange, InCompleteError, InComponentRange};
use crate::incomplete::InComplete;
use crate::time::{time_result, Time};

verus! {

broadcast use crate::time::group_time, crate::error::group_error;

/// Whether each present component is in its own range; no check is made across them.
pub open spec fn intime_fields_valid(
    hour: Option<u8>,
    minute: Option<u8>,
    second: Option<u8>,
    nanosecond: Option<u32>,
) -> bool {
    &&& hour matches Some(h) ==> h < 24
    &&& minute matches Some(m) ==> m < 60
    &&& second matches Some(s) ==> s < 60
    &&& nanosecond matches Some(n) ==> n < 1_000_000_000
}

/// The incomplete time of the given components, or the error naming the first present
/// component, in the order hour, minute, second, nanosecond, that is out of its range.
pub open spec fn intime_result(
    hour: Option<u8>,
    minute: Option<u8>,
    second: Option<u8>,
    nanosecond: Option<u32>,
) -> Result<InTime, InComponentRange> {
    if hour matches Some(h) && h >= 24 {
        Err(out_of_range("hour"))
    } else if minute matches Some(m) && m >= 60 {
        Err(out_of_range("minute"))
    } else if second matches Some(s) && s >= 60 {
        Err(out_of_range("second"))
    } else if nanosecond matches Some(n) && n >= 1_000_000_000 {
        Err(out_of_range("nanosecond"))
    } else {
        Ok(InTime::from_parts(hour, minute, second, nanosecond))
    }
}

/// As [`intime_result`], with the sub-second part given in milliseconds, which must be
/// below one thousand.
pub open spec fn intime_milli_result(
    hour: Option<u8>,
    minute: Option<u8>,
    second: Option<u8>,
    millisecond: Option<u16>,
) -> Result<InTime, InComponentRange> {
    match intime_result(hour, minute, second, None) {
        Err(e) => Err(e),
        Ok(_) => if millisecond matches Some(ms) && ms >= 1000 {
            Err(out_of_range("millisecond"))
        } else {
            intime_result(
                hour,
                minute,
                second,
                match millisecond {
                    Some(ms) => Some((ms * 1_000_000) as u32),
                    None => None,
                },
            )
        },
    }
}

/// As [`intime_result`], with the sub-second part given in microseconds, which must be
/// below one million.
pub open spec fn intime_micro_result(
    hour: Option<u8>,
    minute: Option<u8>,
    second: Option<u8>,
    microsecond: Option<u32>,
) -> Result<InTime, InComponentRange> {
    match intime_result(hour, minute, second, None) {
        Err(e) => Err(e),
        Ok(_) => if microsecond matches Some(us) && us >= 1_000_000 {
            Err(out_of_range("microsecond"))
        } else {
            intime_result(
                hour,
                minute,
                second,
                match microsecond {
                    Some(us) => Some((us * 1000) as u32),
                    None => None,
                },
            )
        },
    }
}

/// A time of day whose hour, minute, second and nanosecond may each be unknown.
#[derive(Debug, Clone, Copy, PartialEq, Eq, Structural, Hash)]
pub struct InTime {
    hour: Option<u8>,
    minute: Option<u8>,
    second: Option<u8>,
    nanosecond: Option<u32>,
}

impl InTime {
    /// Every present component is in its own range.
    #[verifier::type_invariant]
    closed spec fn inv(&self) -> bool {
        self.wf()
    }

    /// The clock hour, when known.
    pub closed spec fn spec_hour(&self) -> Option<u8> {
        self.hour
    }

    /// The minute, when known.
    pub closed spec fn spec_minute(&self) -> Option<u8> {
        self.minute
    }

    /// The second, when known.
    pub closed spec fn spec_second(&self) -> Option<u8> {
        self.second
    }

    /// The nanosecond, when known.
    pub closed spec fn spec_nanosecond(&self) -> Option<u32> {
        self.nanosecond
    }

    /// The incomplete time made of the given components.
    pub closed spec fn from_parts(
        hour: Option<u8>,
        minute: Option<u8>,
        second: Option<u8>,
        nanosecond: Option<u32>,
    ) -> InTime {
        InTime { hour, minute, second, nanosecond }
    }

    /// Whether each present component is in its own range.
    pub open spec fn wf(&self) -> bool {
        intime_fields_valid(self.spec_hour(), self.spec_minute(), self.spec_second(), self.spec_nanosecond())
    }

    /// Whether every component is present.
    pub open spec fn is_complete(&self) -> bool {
        &&& self.spec_hour() is Some
        &&& self.spec_minute() is Some
        &&& self.spec_second() is Some
        &&& self.spec_nanosecond() is Some
    }

    /// The components of a value built from parts are those parts.
    pub broadcast proof fn lemma_from_parts(
        hour: Option<u8>,
        minute: Option<u8>,
        second: Option<u8>,
        nanosecond: Option<u32>,
    )
        ensures
            #[trigger] InTime::from_parts(hour, minute, second, nanosecond).spec_hour() == hour,
            InTime::from_parts(hour, minute, second, nanosecond).spec_minute() == minute,
            InTime::from_parts(hour, minute, second, nanosecond).spec_second() == second,
            InTime::from_parts(hour, minute, second, nanosecond).spec_nanosecond() == nanosecond,
    {
    }

    /// A value is determined by its components.
    pub broadcast proof fn lemma_parts(t: InTime)
        ensures
            #[trigger] InTime::from_parts(
                t.spec_hour(),
                t.spec_minute(),
                t.spec_second(),
                t.spec_nanosecond(),
            ) == t,
    {
    }

    /// Attempts to create an incomplete time from the hour, minute and second, with a
    /// nanosecond of zero.
    pub fn from_hms(hour: Option<u8>, minute: Option<u8>, second: Option<u8>) -> (r: Result<
        InTime,
        InComponentRange,
    >)
        ensures
            r == intime_result(hour, minute, second, Some(0)),
    {
        InTime::from_hms_nano(hour, minute, second, Some(0))
    }

    /// Attempts to create an incomplete time from the hour, minute, second and millisecond.
    pub fn from_hms_milli(
        hour: Option<u8>,
        minute: Option<u8>,
        second: Option<u8>,
        millisecond: Option<u16>,
    ) -> (r: Result<InTime, InComponentRange>)
        ensures
            r == intime_milli_result(hour, minute, second, millisecond),
    {
        if let Err(e) = InTime::from_hms_nano(hour, minute, second, None) {
            return Err(e);
        }
        let nanosecond = match millisecond {
            Some(ms) => {
                if ms >= 1000 {
                    return Err(InComponentRange::ComponentRange(ComponentRange::new("millisecond")));
                }
                Some(ms as u32 * 1_000_000)
            },
            None => None,
        };
        InTime::from_hms_nano(hour, minute, second, nanosecond)
    }

    /// Attempts to create an incomplete time from the hour, minute, second and microsecond.
    pub fn from_hms_micro(
        hour: Option<u8>,
        minute: Option<u8>,
        second: Option<u8>,
        microsecond: Option<u32>,
    ) -> (r: Result<InTime, InComponentRange>)
        ensures
            r == intime_micro_result(hour, minute, second, microsecond),
    {
        if let Err(e) = InTime::from_hms_nano(hour, minute, second, None) {
            return Err(e);
        }
        let nanosecond = match microsecond {
            Some(us) => {
                if us >= 1_000_000 {
                    return Err(InComponentRange::ComponentRange(ComponentRange::new("microsecond")));
                }
                Some(us * 1000)
            },
            None => None,
        };
        InTime::from_hms_nano(hour, minute, second, nanosecond)
    }

    /// Attempts to create an incomplete time from the hour, minute, second and nanosecond.
    pub fn from_hms_nano(
        hour: Option<u8>,
        minute: Option<u8>,
        second: Option<u8>,
        nanosecond: Option<u32>,
    ) -> (r: Result<InTime, InComponentRange>)
        ensures
            r == intime_result(hour, minute, second, nanosecond),
            r matches Ok(t) ==> t.wf(),
    {
        if let Some(h) = hour {
            if h >= 24 {
                return Err(InComponentRange::ComponentRange(ComponentRange::new("hour")));
            }
        }
        if let Some(m) = minute {
            if m >= 60 {
                return Err(InComponentRange::ComponentRange(ComponentRange::new("minute")));
            }
        }
        if let Some(s) = second {
            if s >= 60 {
                return Err(InComponentRange::ComponentRange(ComponentRange::new("second")));
            }
        }
        if let Some(n) = nanosecond {
            if n >= 1_000_000_000 {
                return Err(InComponentRange::ComponentRange(ComponentRange::new("nanosecond")));
            }
        }
        Ok(InTime::from_hms_nano_unchecked(hour, minute, second, nanosecond))
    }

    /// Creates an incomplete time from components already known to be in range.
    fn from_hms_nano_unchecked(
        hour: Option<u8>,
        minute: Option<u8>,
        second: Option<u8>,
        nanosecond: Option<u32>,
    ) -> (r: InTime)
        requires
            intime_fields_valid(hour, minute, second, nanosecond),
        ensures
            r == InTime::from_parts(hour, minute, second, nanosecond),
    {
        InTime { hour, minute, second, nanosecond }
    }

    /// Returns the clock hour.
    pub fn hour(self) -> (r: Option<u8>)
        ensures
            r == self.spec_hour(),
            self.wf(),
    {
        proof {
            use_type_invariant(&self);
        }
        self.hour
    }

    /// Returns the minute within the hour.
    pub fn minute(self) -> (r: Option<u8>)
        ensures
            r == self.spec_minute(),
            self.wf(),
    {
        proof {
            use_type_invariant(&self);
        }
        self.minute
    }

    /// Returns the second within the minute.
    pub fn second(self) -> (r: Option<u8>)
        ensures
            r == self.spec_second(),
            self.wf(),
    {
        proof {
            use_type_invariant(&self);
        }
        self.second
    }

    /// Returns the milliseconds within the second.
    pub fn millisecond(self) -> (r: Option<u16>)
        ensures
            r == (match self.spec_nanosecond() {
                Some(n) => Some((n / 1_000_000) as u16),
                None => None,
            }),
    {
        proof {
            use_type_invariant(&self);
        }
        match self.nanosecond {
            Some(n) => Some((n / 1_000_000) as u16),
            None => None,
        }
    }

    /// Returns the microseconds within the second.
    pub fn microsecond(self) -> (r: Option<u32>)
        ensures
            r == (match self.spec_nanosecond() {
                Some(n) => Some(n / 1000),
                None => None,
            }),
    {
        match self.nanosecond {
            Some(n) => Some(n / 1000),
            None => None,
        }
    }

    /// Returns the nanoseconds within the second.
    pub fn nanosecond(self) -> (r: Option<u32>)
        ensures
            r == self.spec_nanosecond(),
            self.wf(),
    {
        proof {
            use_type_invariant(&self);
        }
        self.nanosecond
    }

    /// Replaces the clock hour.
    pub fn replace_hour(self, hour: Option<u8>) -> (r: Result<InTime, InComponentRange>)
        ensures
            r == intime_result(hour, self.spec_minute(), self.spec_second(), self.spec_nanosecond()),
    {
        InTime::from_hms_nano(hour, self.minute, self.second, self.nanosecond)
    }

    /// Replaces the minute within the hour.
    pub fn replace_minute(self, minute: Option<u8>) -> (r: Result<InTime, InComponentRange>)
        ensures
            r == intime_result(self.spec_hour(), minute, self.spec_second(), self.spec_nanosecond()),
    {
        InTime::from_hms_nano(self.hour, minute, self.second, self.nanosecond)
    }

    /// Replaces the second within the minute.
    pub fn replace_second(self, second: Option<u8>) -> (r: Result<InTime, InComponentRange>)
        ensures
            r == intime_result(self.spec_hour(), self.spec_minute(), second, self.spec_nanosecond()),
    {
        InTime::from_hms_nano(self.hour, self.minute, second, self.nanosecond)
    }

    /// Replaces the sub-second part with a number of milliseconds.
    pub fn replace_millisecond(self, millisecond: Option<u16>) -> (r: Result<InTime, InComponentRange>)
        ensures
            r == intime_milli_result(self.spec_hour(), self.spec_minute(), self.spec_second(), millisecond),
    {
        InTime::from_hms_milli(self.hour, self.minute, self.second, millisecond)
    }

    /// Replaces the sub-second part with a number of microseconds.
    pub fn replace_microsecond(self, microsecond: Option<u32>) -> (r: Result<InTime, InComponentRange>)
        ensures
            r == intime_micro_result(self.spec_hour(), self.spec_minute(), self.spec_second(), microsecond),
    {
        InTime::from_hms_micro(self.hour, self.minute, self.second, microsecond)
    }

    /// Replaces the nanoseconds within the second.
    pub fn replace_nanosecond(self, nanosecond: Option<u32>) -> (r: Result<InTime, InComponentRange>)
        ensures
            r == intime_result(self.spec_hour(), self.spec_minute(), self.spec_second(), nanosecond),
    {
        InTime::from_hms_nano(self.hour, self.minute, self.second, nanosecond)
    }
}

impl InComplete for InTime {
    type Complete = Time;

    open spec fn spec_from_complete(complete: Time) -> InTime {
        InTime::from_parts(
            Some(complete.spec_hour()),
            Some(complete.spec_minute()),
            Some(complete.spec_second()),
            Some(complete.spec_nanosecond()),
        )
    }

    open spec fn spec_into_complete(self) -> Result<Time, InComponentRange> {
        match (self.spec_hour(), self.spec_minute(), self.spec_second(), self.spec_nanosecond()) {
            (None, _, _, _) => Err(missing("hour")),
            (_, None, _, _) => Err(missing("minute")),
            (_, _, None, _) => Err(missing("second")),
            (_, _, _, None) => Err(missing("nanosecond")),
            (Some(h), Some(m), Some(s), Some(n)) => match time_result(h, m, s, n) {
                Ok(t) => Ok(t),
                Err(e) => Err(InComponentRange::ComponentRange(e)),
            },
        }
    }

    /// The components filled in must form a valid time together.
    open spec fn spec_with_fallback(self, fallback: Time) -> Result<InTime, InComponentRange> {
        match time_result(
            self.spec_hour().unwrap_or(fallback.spec_hour()),
            self.spec_minute().unwrap_or(fallback.spec_minute()),
            self.spec_second().unwrap_or(fallback.spec_second()),
            self.spec_nanosecond().unwrap_or(fallback.spec_nanosecond()),
        ) {
            Ok(time) => Ok(InTime::spec_from_complete(time)),
            Err(e) => Err(InComponentRange::ComponentRange(e)),
        }
    }

    fn from_complete(complete: Time) -> (r: InTime) {
        let h = Some(complete.hour());
        let m = Some(complete.minute());
        let s = Some(complete.second());
        let n = Some(complete.nanosecond());
        InTime::from_hms_nano_unchecked(h, m, s, n)
    }

    fn into_complete(self) -> (r: Result<Time, InComponentRange>) {
        let h = match self.hour {
            Some(h) => h,
            None => return Err(InComponentRange::InComplete(InCompleteError::new("hour"))),
        };
        let m = match self.minute {
            Some(m) => m,
            None => return Err(InComponentRange::InComplete(InCompleteError::new("minute"))),
        };
        let s = match self.second {
            Some(s) => s,
            None => return Err(InComponentRange::InComplete(InCompleteError::new("second"))),
        };
        let n = match self.nanosecond {
            Some(n) => n,
            None => return Err(InComponentRange::InComplete(InCompleteError::new("nanosecond"))),
        };
        match Time::from_hms_nano(h, m, s, n) {
            Ok(t) => Ok(t),
            Err(e) => Err(InComponentRange::ComponentRange(e)),
        }
    }

    fn with_fallback(self, fallback: Time) -> (r: Result<InTime, InComponentRange>) {
        let h = self.hour.unwrap_or(fallback.hour());
        let m = self.minute.unwrap_or(fallback.minute());
        let s = self.second.unwrap_or(fallback.second());
        let n = self.nanosecond.unwrap_or(fallback.nanosecond());
        match Time::from_hms_nano(h, m, s, n) {
            Ok(time) => Ok(InTime::from_complete(time)),
            Err(e) => Err(InComponentRange::ComponentRange(e)),
        }
    }
}

/// Completing the incomplete form of a time gives back that time.
pub proof fn lemma_intime_round_trip(time: Time)
    requires
        time.wf(),
    ensures
        InTime::spec_from_complete(time).spec_into_complete() == Ok::<_, InComponentRange>(time),
{
}

/// Filling an incomplete time from a time leaves no component absent, and always
/// succeeds, since each component of either is in its own range.
pub proof fn lemma_intime_fallback_complete(p: InTime, fallback: Time)
    requires
        p.wf(),
        fallback.wf(),
    ensures
        p.spec_with_fallback(fallback) matches Ok(q) && q.is_complete(),
{
}

pub broadcast group group_intime {
    InTime::lemma_from_parts,
    InTime::lemma_parts,
}

} // verus!
