//! A reservation: a resource held for a user over a window of time.

use crate::error::{Error, ErrorView};
use crate::types::reservation_status::ReservationStatus;
use crate::types::{Timespan, Timestamp};
use crate::validator::{tells, Validator};
use vstd::prelude::*;
use vstd::std_specs::cmp::PartialEqSpecImpl;

verus! {

/// A reservation as messages carry it. `id` is empty until the storage
/// engine has given it one; `status` is the number of a `ReservationStatus`.
#[derive(Clone, Debug)]
pub struct Reservation {
    pub id: String,
    pub user_id: String,
    pub resource_id: String,
    pub start: Option<Timestamp>,
    pub end: Option<Timestamp>,
    pub note: String,
    pub status: i32,
}

/// What a `Reservation` stands for.
pub struct ReservationView {
    pub id: Seq<char>,
    pub user_id: Seq<char>,
    pub resource_id: Seq<char>,
    pub start: Option<Timestamp>,
    pub end: Option<Timestamp>,
    pub note: Seq<char>,
    pub status: i32,
}

impl View for Reservation {
    type V = ReservationView;

    open spec fn view(&self) -> ReservationView {
        ReservationView {
            id: self.id@,
            user_id: self.user_id@,
            resource_id: self.resource_id@,
            start: self.start,
            end: self.end,
            note: self.note@,
            status: self.status,
        }
    }
}

impl Reservation {
    /// A reservation that the storage engine has not seen yet: without an
    /// identity, and pending.
    pub fn new_pending(
        uid: String,
        rid: String,
        start: Timestamp,
        end: Timestamp,
        note: String,
    ) -> (rsvp: Reservation)
        ensures
            rsvp@ == (ReservationView {
                id: Seq::<char>::empty(),
                user_id: uid@,
                resource_id: rid@,
                start: Some(start),
                end: Some(end),
                note: note@,
                status: ReservationStatus::Pending.number() as i32,
            }),
    {
        Reservation {
            id: String::new(),
            user_id: uid,
            resource_id: rid,
            start: Some(start),
            end: Some(end),
            note,
            status: ReservationStatus::Pending.as_i32(),
        }
    }

    /// Checks that the reservation names a user and a resource and has both
    /// ends of its window, in this order.
    pub fn validate(&self) -> (r: Result<(), Error>)
        ensures
            tells(r, self.verdict()),
    {
        if self.user_id.as_str().is_empty() {
            return Err(Error::InvalidUserId(self.user_id.clone()));
        }
        if self.resource_id.as_str().is_empty() {
            return Err(Error::InvalidResourceId(self.resource_id.clone()));
        }
        if self.start.is_none() || self.end.is_none() {
            return Err(Error::InvalidTime);
        }
        Ok(())
    }

    /// The window that the reservation is for.
    pub fn get_timespan(&self) -> (span: Timespan)
        requires
            self.start is Some,
            self.end is Some,
        ensures
            span == (Timespan { start: self.start->0, end: self.end->0 }),
    {
        Timespan { start: self.start.unwrap(), end: self.end.unwrap() }
    }
}

impl Validator for Reservation {
    open spec fn verdict(&self) -> Result<(), ErrorView> {
        if self.user_id@.len() == 0 {
            Err(ErrorView::InvalidUserId(self.user_id@))
        } else if self.resource_id@.len() == 0 {
            Err(ErrorView::InvalidResourceId(self.resource_id@))
        } else if self.start is None || self.end is None {
            Err(ErrorView::InvalidTime)
        } else {
            Ok(())
        }
    }

    fn validate(&self) -> (r: Result<(), Error>) {
        Reservation::validate(self)
    }
}

impl PartialEq for Reservation {
    fn eq(&self, other: &Self) -> (r: bool) {
        self.id == other.id && self.user_id == other.user_id && self.resource_id
            == other.resource_id && self.start == other.start && self.end == other.end
            && self.note == other.note && self.status == other.status
    }
}

impl PartialEqSpecImpl for Reservation {
    open spec fn obeys_eq_spec() -> bool {
        true
    }

    open spec fn eq_spec(&self, other: &Self) -> bool {
        self@ == other@
    }
}

} // verus!
