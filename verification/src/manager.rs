//! What the manager of reservations decides. Each operation checks what it
//! is given and, where that is in order, says which statement the storage
//! engine is to run; running it is left to the caller, and so is handing
//! the engine's failure to `Error::from`.

use crate::bindings::{is_uuid, parse_str};
use crate::error::{Error, ErrorView};
use crate::types::reservation::{Reservation, ReservationView};
use crate::types::reservation_query::ReservationQuery;
use crate::types::reservation_status::{ReservationStatus, RsvpStatus};
use crate::types::{is_valid_range, validate_range, Timespan};
use crate::validator::{ReservationId, Validator};
use vstd::prelude::*;

verus! {

/// One statement for the storage engine, with the values it is run with.
#[derive(Clone, Debug)]
#[allow(inconsistent_fields)]
pub enum Statement {
    /// Add a row; the engine gives it its identity and refuses it where its
    /// window overlaps that of another row of the same resource.
    Insert { user_id: String, resource_id: String, timespan: Timespan, note: String, status: RsvpStatus },
    /// Take the row `id` from status `from` to status `to`; a row in another
    /// status is left alone and counts as not found.
    SetStatus { id: String, from: RsvpStatus, to: RsvpStatus },
    /// Put `note` on the row `id`, whatever its status.
    SetNote { id: String, note: String },
    /// Remove the row `id` and give it back as it last was.
    Delete { id: String },
    /// Give the row `id`.
    Get { id: String },
    /// Give the rows of one user, or of any where `user_id` is `None`, of
    /// one resource or of any, whose window overlaps `timespan` and whose
    /// status is `status`: page `page` of pages of `page_size` rows, the
    /// latest first where `desc` is set.
    Query {
        user_id: Option<String>,
        resource_id: Option<String>,
        timespan: Timespan,
        status: RsvpStatus,
        page: i32,
        desc: bool,
        page_size: i32,
    },
}

/// What a `Statement` stands for.
#[allow(inconsistent_fields)]
pub enum StatementView {
    Insert {
        user_id: Seq<char>,
        resource_id: Seq<char>,
        timespan: Timespan,
        note: Seq<char>,
        status: RsvpStatus,
    },
    SetStatus { id: Seq<char>, from: RsvpStatus, to: RsvpStatus },
    SetNote { id: Seq<char>, note: Seq<char> },
    Delete { id: Seq<char> },
    Get { id: Seq<char> },
    Query {
        user_id: Option<Seq<char>>,
        resource_id: Option<Seq<char>>,
        timespan: Timespan,
        status: RsvpStatus,
        page: i32,
        desc: bool,
        page_size: i32,
    },
}

impl View for Statement {
    type V = StatementView;

    open spec fn view(&self) -> StatementView {
        match self {
            Statement::Insert { user_id, resource_id, timespan, note, status } => {
                StatementView::Insert {
                    user_id: user_id@,
                    resource_id: resource_id@,
                    timespan: *timespan,
                    note: note@,
                    status: *status,
                }
            },
            Statement::SetStatus { id, from, to } => StatementView::SetStatus {
                id: id@,
                from: *from,
                to: *to,
            },
            Statement::SetNote { id, note } => StatementView::SetNote { id: id@, note: note@ },
            Statement::Delete { id } => StatementView::Delete { id: id@ },
            Statement::Get { id } => StatementView::Get { id: id@ },
            Statement::Query { user_id, resource_id, timespan, status, page, desc, page_size } => {
                StatementView::Query {
                    user_id: user_id.deep_view(),
                    resource_id: resource_id.deep_view(),
                    timespan: *timespan,
                    status: *status,
                    page: *page,
                    desc: *desc,
                    page_size: *page_size,
                }
            },
        }
    }
}

/// Whether `r` is the statement `statement` where `verdict` is in order,
/// and else the error that `verdict` names.
pub open spec fn decides(
    r: Result<Statement, Error>,
    verdict: Result<(), ErrorView>,
    statement: StatementView,
) -> bool {
    match r {
        Ok(issued) => verdict is Ok && issued@ == statement,
        Err(e) => verdict == Err::<(), ErrorView>(e@),
    }
}

/// The status under which the storage engine files a status number: a
/// number that names no status is filed as pending.
pub open spec fn filed_status(number: i32) -> RsvpStatus {
    match ReservationStatus::of_number_or_pending(number as int) {
        ReservationStatus::Unknown => RsvpStatus::Unknown,
        ReservationStatus::Pending => RsvpStatus::Pending,
        ReservationStatus::Confirmed => RsvpStatus::Confirmed,
        ReservationStatus::Blocked => RsvpStatus::Blocked,
    }
}

/// A filter that an empty text leaves open.
pub open spec fn filter_of(text: Seq<char>) -> Option<Seq<char>> {
    if text.len() == 0 {
        None
    } else {
        Some(text)
    }
}

/// What stands in the way of reserving `rsvp`: a missing end of its window
/// before all else, then what its own `verdict` finds, then a window that
/// does not end at least a second after it starts.
pub open spec fn reserve_verdict(rsvp: &Reservation) -> Result<(), ErrorView> {
    if rsvp.start is None || rsvp.end is None {
        Err(ErrorView::InvalidTime)
    } else if rsvp.verdict() is Err {
        rsvp.verdict()
    } else if !is_valid_range(rsvp.start, rsvp.end) {
        Err(ErrorView::InvalidTime)
    } else {
        Ok(())
    }
}

/// The row that reserving `rsvp` adds.
pub open spec fn reserve_statement(rsvp: &Reservation) -> StatementView {
    StatementView::Insert {
        user_id: rsvp.user_id@,
        resource_id: rsvp.resource_id@,
        timespan: Timespan { start: rsvp.start->0, end: rsvp.end->0 },
        note: rsvp.note@,
        status: filed_status(rsvp.status),
    }
}

/// What stands in the way of the query `query`: only its window. Its user
/// and its resource may be left empty.
pub open spec fn query_verdict(query: &ReservationQuery) -> Result<(), ErrorView> {
    if is_valid_range(query.start, query.end) {
        Ok(())
    } else {
        Err(ErrorView::InvalidTime)
    }
}

/// The statement that puts the query `query`.
pub open spec fn query_statement(query: &ReservationQuery) -> StatementView {
    StatementView::Query {
        user_id: filter_of(query.user_id@),
        resource_id: filter_of(query.resource_id@),
        timespan: Timespan { start: query.start->0, end: query.end->0 },
        status: filed_status(query.status),
        page: query.page,
        desc: query.desc,
        page_size: query.page_size,
    }
}

/// What stands in the way of confirming the reservation `id`: an `id` that
/// is no identifier.
pub open spec fn change_status_verdict(id: Seq<char>) -> Result<(), ErrorView> {
    if is_uuid(id) {
        Ok(())
    } else {
        Err(ErrorView::InvalidReservationId(id))
    }
}

/// A reservation that names a user and a resource, and whose window does
/// not start before it ends, is refused with `InvalidTime`, and no statement
/// is issued for it.
pub proof fn law_window_must_run_forward(rsvp: &Reservation)
    requires
        rsvp.user_id@.len() > 0,
        rsvp.resource_id@.len() > 0,
        rsvp.start is Some,
        rsvp.end is Some,
        rsvp.start->0.not_before(rsvp.end->0),
    ensures
        reserve_verdict(rsvp) == Err::<(), ErrorView>(ErrorView::InvalidTime),
        forall|r: Result<Statement, Error>|
            decides(r, reserve_verdict(rsvp), reserve_statement(rsvp)) ==> r is Err,
{
}

/// A reservation that lacks an end of its window is refused with
/// `InvalidTime`, whatever else it holds.
pub proof fn law_window_must_be_there(rsvp: &Reservation)
    requires
        rsvp.start is None || rsvp.end is None,
    ensures
        reserve_verdict(rsvp) == Err::<(), ErrorView>(ErrorView::InvalidTime),
{
}

/// An empty text as no filter, any other as itself.
pub fn str_to_option(s: &str) -> (r: Option<&str>)
    ensures
        r.deep_view() == filter_of(s@),
{
    return if s.is_empty() {
        None
    } else {
        Some(s)
    };
}

/// The status under which the storage engine files a status number.
fn file_status(number: i32) -> (status: RsvpStatus)
    ensures
        status == filed_status(number),
{
    RsvpStatus::from(ReservationStatus::from_i32_or_pending(number))
}

/// An owned copy of an optional text.
fn owned(text: Option<&str>) -> (r: Option<String>)
    ensures
        r.deep_view() == text.deep_view(),
{
    match text {
        Some(text) => Some(text.to_owned()),
        None => None,
    }
}

/// Makes a reservation: says which row to add, once `rsvp` has both ends of
/// its window, names a user and a resource, and its window is in order.
pub fn reserve(rsvp: &Reservation) -> (r: Result<Statement, Error>)
    ensures
        decides(r, reserve_verdict(rsvp), reserve_statement(rsvp)),
{
    if rsvp.start.is_none() || rsvp.end.is_none() {
        return Err(Error::InvalidTime);
    }
    match rsvp.validate() {
        Ok(_) => {},
        Err(e) => { return Err(e); },
    }
    let status = file_status(rsvp.status);
    match validate_range(rsvp.start.as_ref(), rsvp.end.as_ref()) {
        Ok(_) => {},
        Err(e) => { return Err(e); },
    }
    let timespan = rsvp.get_timespan();
    Ok(
        Statement::Insert {
            user_id: rsvp.user_id.clone(),
            resource_id: rsvp.resource_id.clone(),
            timespan,
            note: rsvp.note.clone(),
            status,
        },
    )
}

/// The reservation that `reserve` gives back once the storage engine has
/// added the row and given it the identity `id`: `rsvp` with that identity.
pub fn reserved(rsvp: Reservation, id: ReservationId) -> (r: Reservation)
    ensures
        r@ == (ReservationView { id: id@, ..rsvp@ }),
{
    let mut rsvp = rsvp;
    rsvp.id = id;
    rsvp
}

/// Confirms a reservation: its row goes from pending to confirmed, and
/// from no other status.
pub fn change_status(id: ReservationId) -> (r: Result<Statement, Error>)
    ensures
        decides(
            r,
            change_status_verdict(id@),
            StatementView::SetStatus {
                id: id@,
                from: RsvpStatus::Pending,
                to: RsvpStatus::Confirmed,
            },
        ),
{
    if !parse_str(id.as_str()) {
        return Err(Error::InvalidReservationId(id));
    }
    Ok(Statement::SetStatus { id, from: RsvpStatus::Pending, to: RsvpStatus::Confirmed })
}

/// Puts a new note on a reservation.
pub fn update_note(id: ReservationId, note: String) -> (r: Result<Statement, Error>)
    ensures
        decides(r, id.verdict(), StatementView::SetNote { id: id@, note: note@ }),
{
    match id.validate() {
        Ok(_) => {},
        Err(e) => { return Err(e); },
    }
    Ok(Statement::SetNote { id, note })
}

/// Removes a reservation.
pub fn delete(id: ReservationId) -> (r: Result<Statement, Error>)
    ensures
        decides(r, id.verdict(), StatementView::Delete { id: id@ }),
{
    match id.validate() {
        Ok(_) => {},
        Err(e) => { return Err(e); },
    }
    Ok(Statement::Delete { id })
}

/// Looks a reservation up.
pub fn get(id: ReservationId) -> (r: Result<Statement, Error>)
    ensures
        decides(r, id.verdict(), StatementView::Get { id: id@ }),
{
    match id.validate() {
        Ok(_) => {},
        Err(e) => { return Err(e); },
    }
    Ok(Statement::Get { id })
}

/// Asks for the reservations that `filter` describes.
pub fn query(filter: &ReservationQuery) -> (r: Result<Statement, Error>)
    ensures
        decides(r, query_verdict(filter), query_statement(filter)),
{
    match validate_range(filter.start.as_ref(), filter.end.as_ref()) {
        Ok(_) => {},
        Err(e) => { return Err(e); },
    }
    let user_id = owned(str_to_option(filter.user_id.as_str()));
    let resource_id = owned(str_to_option(filter.resource_id.as_str()));
    let timespan = filter.get_timespan();
    let status = file_status(filter.status);
    Ok(
        Statement::Query {
            user_id,
            resource_id,
            timespan,
            status,
            page: filter.page,
            desc: filter.desc,
            page_size: filter.page_size,
        },
    )
}

} // verus!
