//! Durations written from integers, as in `13.months()`.
use vstd::prelude::*;

use crate::duration::{fits_i32, CalendarDuration};
use crate::sealed::Sealed;

verus! {

/// Creates a [`CalendarDuration`] from an integer.
pub trait NumericCalendarDuration: Sealed + Sized {
    /// The integer.
    spec fn spec_count(self) -> int;

    /// The duration of this many months; the count must fit in 32 bits.
    fn months(self) -> (r: CalendarDuration)
        requires
            fits_i32(self.spec_count()),
        ensures
            r.spec_months() == self.spec_count(),
    ;

    /// The duration of this many years; the number of months must fit in 32 bits.
    fn years(self) -> (r: CalendarDuration)
        requires
            fits_i32(self.spec_count() * 12),
        ensures
            r.spec_months() == self.spec_count() * 12,
    ;
}

impl Sealed for i64 {}

impl NumericCalendarDuration for i64 {
    open spec fn spec_count(self) -> int {
        self as int
    }

    fn months(self) -> (r: CalendarDuration) {
        CalendarDuration::months(self as i32)
    }

    fn years(self) -> (r: CalendarDuration) {
        CalendarDuration::years(self as i32)
    }
}

} // verus!
