//! Self-validating value types for time spans, instants, calendar dates,
//! times of day, exact rationals and currency amounts.
//!
//! Every two-field fixed-point type computes in a widened integer and narrows
//! the result with an explicit range check; see [`arith`].

pub mod arith;
pub mod text;
pub mod order;
pub mod duration;
pub mod duration_units;
pub mod duration_data;
pub mod duration_text;
pub mod money;
pub mod fraction;
pub mod timestamp;
pub mod timestamp_text;
pub mod timestamp_laws;
pub mod date;
pub mod time_of_day;
pub mod datetime;
pub mod interval;
pub mod civil;
pub mod calendar;
pub mod violations;
pub mod field_mask;
pub mod empty;

pub use arith::NANOS_PER_SECOND;
pub use duration::Duration;
pub use money::{Money, MoneyError};
pub use fraction::{Fraction, FractionError};
pub use date::{Date, DateError, DateKind};
pub use time_of_day::{TimeOfDay, TimeOfDayError};
pub use timestamp::{Timestamp, TimestampError};
pub use datetime::{DateTime, DateTimeError, TimeOffset, TimeZone};
pub use interval::{Interval, IntervalError};
pub use duration_data::DurationData;
pub use duration_units::{Days, Hours, Minutes, Months, Seconds, Weeks, Years};
pub use violations::{FieldPath, FieldPathElement, Subscript, Violation, Violations};
pub use empty::Empty;
pub use field_mask::FieldMask;
