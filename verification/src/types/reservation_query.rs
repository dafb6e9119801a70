//! A question put to the storage engine: which reservations are there of a
//! user, of a resource, within a window, in a status?

use crate::error::{Error, ErrorView};
use crate::types::reservation_status::ReservationStatus;
use crate::types::{get_timespan, is_valid_range, validate_range, Timespan, Timestamp};
use crate::validator::{tells, Validator};
use vstd::prelude::*;
use vstd::std_specs::cmp::PartialEqSpecImpl;

verus! {

/// A query as messages carry it. An empty `user_id` or `resource_id` asks
/// for any; `status` is the number of a `ReservationStatus`.
#[derive(Clone, Debug)]
pub struct ReservationQuery {
    pub user_id: String,
    pub resource_id: String,
    pub start: Option<Timestamp>,
    pub end: Option<Timestamp>,
    pub status: i32,
    pub page: i32,
    pub page_size: i32,
    pub desc: bool,
}

/// What a `ReservationQuery` stands for.
pub struct ReservationQueryView {
    pub user_id: Seq<char>,
    pub resource_id: Seq<char>,
    pub start: Option<Timestamp>,
    pub end: Option<Timestamp>,
    pub status: i32,
    pub page: i32,
    pub page_size: i32,
    pub desc: bool,
}

impl View for ReservationQuery {
    type V = ReservationQueryView;

    open spec fn view(&self) -> ReservationQueryView {
        ReservationQueryView {
            user_id: self.user_id@,
            resource_id: self.resource_id@,
            start: self.start,
            end: self.end,
            status: self.status,
            page: self.page,
            page_size: self.page_size,
            desc: self.desc,
        }
    }
}

impl ReservationQuery {
    /// A query with every part given.
    pub fn new(
        uid: String,
        rid: String,
        start: Timestamp,
        end: Timestamp,
        status: ReservationStatus,
        page: i32,
        page_size: i32,
        desc: bool,
    ) -> (query: ReservationQuery)
        ensures
            query@ == (ReservationQueryView {
                user_id: uid@,
                resource_id: rid@,
                start: Some(start),
                end: Some(end),
                status: status.number() as i32,
                page,
                page_size,
                desc,
            }),
    {
        ReservationQuery {
            user_id: uid,
            resource_id: rid,
            start: Some(start),
            end: Some(end),
            status: status.as_i32(),
            page,
            page_size,
            desc,
        }
    }

    /// The status that the query asks for.
    pub fn get_status(&self) -> (status: ReservationStatus)
        requires
            ReservationStatus::of_number(self.status as int) is Some,
        ensures
            Some(status) == ReservationStatus::of_number(self.status as int),
    {
        ReservationStatus::from_i32(self.status).unwrap()
    }

    /// The window that the query asks about.
    pub fn get_timespan(&self) -> (span: Timespan)
        requires
            self.start is Some,
            self.end is Some,
        ensures
            span == (Timespan { start: self.start->0, end: self.end->0 }),
    {
        get_timespan(self.start.as_ref(), self.end.as_ref())
    }
}

/// A query must name a user and a resource and have a window that
/// `validate_range` accepts, in this order.
impl Validator for ReservationQuery {
    open spec fn verdict(&self) -> Result<(), ErrorView> {
        if self.user_id@.len() == 0 {
            Err(ErrorView::InvalidUserId(self.user_id@))
        } else if self.resource_id@.len() == 0 {
            Err(ErrorView::InvalidResourceId(self.resource_id@))
        } else if !is_valid_range(self.start, self.end) {
            Err(ErrorView::InvalidTime)
        } else {
            Ok(())
        }
    }

    fn validate(&self) -> (r: Result<(), Error>) {
        if self.user_id.as_str().is_empty() {
            return Err(Error::InvalidUserId(self.user_id.clone()));
        }
        if self.resource_id.as_str().is_empty() {
            return Err(Error::InvalidResourceId(self.resource_id.clone()));
        }
        validate_range(self.start.as_ref(), self.end.as_ref())
    }
}

impl PartialEq for ReservationQuery {
    fn eq(&self, other: &Self) -> (r: bool) {
        self.user_id == other.user_id && self.resource_id == other.resource_id && self.start
            == other.start && self.end == other.end && self.status == other.status && self.page
            == other.page && self.page_size == other.page_size && self.desc == other.desc
    }
}

impl PartialEqSpecImpl for ReservationQuery {
    open spec fn obeys_eq_spec() -> bool {
        true
    }

    open spec fn eq_spec(&self, other: &Self) -> bool {
        self@ == other@
    }
}

} // verus!
