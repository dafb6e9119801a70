//! The status of a reservation, as messages carry it and as the storage
//! engine names it.

use vstd::prelude::*;
use vstd::std_specs::convert::FromSpecImpl;

verus! {

/// The status of a reservation in a message. A message carries it as a
/// number: 0 for `Unknown`, 1 for `Pending`, 2 for `Confirmed`, 3 for
/// `Blocked`.
#[derive(Clone, Copy, Debug, PartialEq, Eq, Structural)]
pub enum ReservationStatus {
    Unknown,
    Pending,
    Confirmed,
    Blocked,
}

/// The status of a reservation as the storage engine's enumeration
/// `reservation_status` has it.
#[derive(Clone, Copy, Debug, PartialEq, Eq, Structural)]
pub enum RsvpStatus {
    Unknown,
    Pending,
    Confirmed,
    Blocked,
}

impl ReservationStatus {
    /// The status that a number stands for.
    pub open spec fn of_number(value: int) -> Option<ReservationStatus> {
        if value == 0 {
            Some(ReservationStatus::Unknown)
        } else if value == 1 {
            Some(ReservationStatus::Pending)
        } else if value == 2 {
            Some(ReservationStatus::Confirmed)
        } else if value == 3 {
            Some(ReservationStatus::Blocked)
        } else {
            None
        }
    }

    /// The number that stands for a status.
    pub open spec fn number(self) -> int {
        match self {
            ReservationStatus::Unknown => 0,
            ReservationStatus::Pending => 1,
            ReservationStatus::Confirmed => 2,
            ReservationStatus::Blocked => 3,
        }
    }

    /// The status that a number stands for, where it stands for one; that
    /// status or, where there is none, `Pending`.
    pub open spec fn of_number_or_pending(value: int) -> ReservationStatus {
        match Self::of_number(value) {
            Some(status) => status,
            None => ReservationStatus::Pending,
        }
    }

    /// Reads a status from the number a message carries.
    pub fn from_i32(value: i32) -> (status: Option<ReservationStatus>)
        ensures
            status == Self::of_number(value as int),
    {
        if value == 0 {
            Some(ReservationStatus::Unknown)
        } else if value == 1 {
            Some(ReservationStatus::Pending)
        } else if value == 2 {
            Some(ReservationStatus::Confirmed)
        } else if value == 3 {
            Some(ReservationStatus::Blocked)
        } else {
            None
        }
    }

    /// The number a message carries for this status.
    pub fn as_i32(self) -> (value: i32)
        ensures
            value == self.number(),
    {
        match self {
            ReservationStatus::Unknown => 0,
            ReservationStatus::Pending => 1,
            ReservationStatus::Confirmed => 2,
            ReservationStatus::Blocked => 3,
        }
    }

    /// Reads a status from a number, taking `Pending` for a number that
    /// stands for none.
    pub fn from_i32_or_pending(value: i32) -> (status: ReservationStatus)
        ensures
            status == Self::of_number_or_pending(value as int),
    {
        match ReservationStatus::from_i32(value) {
            Some(status) => status,
            None => ReservationStatus::Pending,
        }
    }
}

impl RsvpStatus {
    /// The word by which the storage engine knows this status.
    pub open spec fn name(self) -> Seq<char> {
        match self {
            RsvpStatus::Unknown => "unknown"@,
            RsvpStatus::Pending => "pending"@,
            RsvpStatus::Confirmed => "confirmed"@,
            RsvpStatus::Blocked => "blocked"@,
        }
    }

    /// The word by which the storage engine knows this status.
    pub fn as_str(self) -> (word: &'static str)
        ensures
            word@ == self.name(),
    {
        match self {
            RsvpStatus::Unknown => "unknown",
            RsvpStatus::Pending => "pending",
            RsvpStatus::Confirmed => "confirmed",
            RsvpStatus::Blocked => "blocked",
        }
    }
}

impl From<ReservationStatus> for RsvpStatus {
    fn from(status: ReservationStatus) -> (r: RsvpStatus) {
        match status {
            ReservationStatus::Unknown => RsvpStatus::Unknown,
            ReservationStatus::Pending => RsvpStatus::Pending,
            ReservationStatus::Confirmed => RsvpStatus::Confirmed,
            ReservationStatus::Blocked => RsvpStatus::Blocked,
        }
    }
}

impl FromSpecImpl<ReservationStatus> for RsvpStatus {
    open spec fn obeys_from_spec() -> bool {
        true
    }

    open spec fn from_spec(status: ReservationStatus) -> RsvpStatus {
        match status {
            ReservationStatus::Unknown => RsvpStatus::Unknown,
            ReservationStatus::Pending => RsvpStatus::Pending,
            ReservationStatus::Confirmed => RsvpStatus::Confirmed,
            ReservationStatus::Blocked => RsvpStatus::Blocked,
        }
    }
}

impl From<RsvpStatus> for ReservationStatus {
    fn from(status: RsvpStatus) -> (r: ReservationStatus) {
        match status {
            RsvpStatus::Unknown => ReservationStatus::Unknown,
            RsvpStatus::Pending => ReservationStatus::Pending,
            RsvpStatus::Confirmed => ReservationStatus::Confirmed,
            RsvpStatus::Blocked => ReservationStatus::Blocked,
        }
    }
}

impl FromSpecImpl<RsvpStatus> for ReservationStatus {
    open spec fn obeys_from_spec() -> bool {
        true
    }

    open spec fn from_spec(status: RsvpStatus) -> ReservationStatus {
        match status {
            RsvpStatus::Unknown => ReservationStatus::Unknown,
            RsvpStatus::Pending => ReservationStatus::Pending,
            RsvpStatus::Confirmed => ReservationStatus::Confirmed,
            RsvpStatus::Blocked => ReservationStatus::Blocked,
        }
    }
}

} // verus!
