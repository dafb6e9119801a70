//! Instants, half-open windows of time, and the messages built on them.

pub mod reservation;
pub mod reservation_query;
pub mod reservation_status;

use crate::error::{Error, ErrorView};
use vstd::prelude::*;

verus! {

/// An instant in UTC: whole seconds since the Unix epoch, and the
/// nanoseconds past that second.
#[derive(Clone, Copy, Debug, PartialEq, Eq, Structural)]
pub struct Timestamp {
    pub seconds: i64,
    pub nanos: i32,
}

/// The half-open window `[start, end)`: it holds `start` and every instant
/// after it that is before `end`.
#[derive(Clone, Copy, Debug, PartialEq, Eq, Structural)]
pub struct Timespan {
    pub start: Timestamp,
    pub end: Timestamp,
}

impl Timestamp {
    /// Whether this instant is `other` or comes after it.
    pub open spec fn not_before(self, other: Timestamp) -> bool {
        self.seconds > other.seconds || (self.seconds == other.seconds && self.nanos
            >= other.nanos)
    }
}

/// Whether two optional instants bound a window: both are there, and the
/// first is at least one whole second before the second. Only the seconds
/// are compared.
pub open spec fn is_valid_range(start: Option<Timestamp>, end: Option<Timestamp>) -> bool {
    match (start, end) {
        (Some(start), Some(end)) => start.seconds < end.seconds,
        _ => false,
    }
}

/// The instant behind an optional reference.
pub open spec fn instant_of(at: Option<&Timestamp>) -> Option<Timestamp> {
    match at {
        Some(at) => Some(*at),
        None => None,
    }
}

/// Accepts the two ends of a window, or fails with `InvalidTime`.
pub fn validate_range(start: Option<&Timestamp>, end: Option<&Timestamp>) -> (r: Result<(), Error>)
    ensures
        match r {
            Ok(_) => is_valid_range(instant_of(start), instant_of(end)),
            Err(e) => !is_valid_range(instant_of(start), instant_of(end)) && e@
                == ErrorView::InvalidTime,
        },
{
    if start.is_none() || end.is_none() {
        return Err(Error::InvalidTime);
    }
    let start = start.unwrap();
    let end = end.unwrap();
    if start.seconds >= end.seconds {
        return Err(Error::InvalidTime);
    }
    Ok(())
}

/// The window from `start` up to `end`.
pub fn get_timespan(start: Option<&Timestamp>, end: Option<&Timestamp>) -> (span: Timespan)
    requires
        start is Some,
        end is Some,
    ensures
        span == (Timespan { start: *start->0, end: *end->0 }),
{
    Timespan { start: *start.unwrap(), end: *end.unwrap() }
}

} // verus!
