//! Calendar arithmetic in whole months and years, and timestamps whose components
//! may be partly unknown.
//!
//! [`CalendarDuration`] counts calendar months. Adding it to a [`Date`] (or to a date
//! with a time of day) moves the date by that many months and clamps the day of the
//! month to the length of the month reached, so that January 31 plus one month is the
//! last day of February.
//!
//! [`InDate`], [`InTime`], [`InPrimitiveDateTime`] and [`InOffsetDateTime`] hold
//! timestamps any of whose components may be absent. The [`InComplete`] trait turns
//! them into complete values, strictly or by taking the absent components from another
//! value.
pub mod date;
pub mod datetime;
pub mod duration;
pub mod error;
pub mod extension;
pub mod incomplete;
pub mod indate;
pub mod inoffset;
pub mod inprimitive;
pub mod intime;
pub mod numeric;
pub mod offset;
mod sealed;
pub mod time;

pub use date::{Date, Month, Weekday};
pub use datetime::{OffsetDateTime, PrimitiveDateTime};
pub use duration::CalendarDuration;
pub use error::{ComponentRange, InComponentRange, InCompleteError};
pub use extension::CalendarExtension;
pub use incomplete::InComplete;
pub use indate::InDate;
pub use inoffset::InOffsetDateTime;
pub use inprimitive::InPrimitiveDateTime;
pub use intime::InTime;
pub use numeric::NumericCalendarDuration;
pub use offset::UtcOffset;
pub use time::Time;
