//! What can go wrong with a reservation.

pub mod conflict;

use crate::error::conflict::{conflict_info, ConflictInfoView, ReservationConflictInfo};
use crate::text::same_text;
use vstd::prelude::*;
use vstd::std_specs::cmp::PartialEqSpecImpl;

verus! {

/// The code under which the storage engine refuses a row that an exclusion
/// constraint shuts out.
pub const EXCLUSION_VIOLATION: &'static str = "23P01";

/// The schema that holds the reservations.
pub const RESERVATION_SCHEMA: &'static str = "rsvp";

/// The table that holds the reservations.
pub const RESERVATION_TABLE: &'static str = "reservations";

/// A failure of the storage engine, in its own words.
#[derive(Clone, Debug)]
pub enum StorageFailure {
    /// A statement that had to give a row gave none.
    RowNotFound,
    /// The engine refused a statement: its error code, the schema and the
    /// table that the refusal is about, its message, and the detail it adds.
    Database {
        code: String,
        schema: Option<String>,
        table: Option<String>,
        message: String,
        detail: Option<String>,
    },
    /// Anything else, with what the driver says of it.
    Other(String),
}

/// Every way in which an operation on reservations fails.
#[derive(Debug)]
pub enum Error {
    /// The storage engine failed in a way that is not told apart further.
    DbError(StorageFailure),
    InvalidReservationId(String),
    InvalidResourceId(String),
    InvalidTime,
    ConflictingReservation(ReservationConflictInfo),
    NotFound,
    InvalidUserId(String),
    Unknown,
}

/// What an `Error` stands for. Of a storage engine failure only the kind
/// counts, not what it carries.
pub enum ErrorView {
    DbError,
    InvalidReservationId(Seq<char>),
    InvalidResourceId(Seq<char>),
    InvalidTime,
    ConflictingReservation(ConflictInfoView),
    NotFound,
    InvalidUserId(Seq<char>),
    Unknown,
}

impl View for Error {
    type V = ErrorView;

    open spec fn view(&self) -> ErrorView {
        match self {
            Error::DbError(_) => ErrorView::DbError,
            Error::InvalidReservationId(id) => ErrorView::InvalidReservationId(id@),
            Error::InvalidResourceId(id) => ErrorView::InvalidResourceId(id@),
            Error::InvalidTime => ErrorView::InvalidTime,
            Error::ConflictingReservation(info) => ErrorView::ConflictingReservation(info@),
            Error::NotFound => ErrorView::NotFound,
            Error::InvalidUserId(id) => ErrorView::InvalidUserId(id@),
            Error::Unknown => ErrorView::Unknown,
        }
    }
}

impl PartialEq for Error {
    fn eq(&self, other: &Self) -> (r: bool) {
        match (self, other) {
            (Error::DbError(_), Error::DbError(_)) => true,
            (Error::InvalidReservationId(a), Error::InvalidReservationId(b)) => *a == *b,
            (Error::InvalidResourceId(a), Error::InvalidResourceId(b)) => *a == *b,
            (Error::InvalidTime, Error::InvalidTime) => true,
            (Error::ConflictingReservation(a), Error::ConflictingReservation(b)) => *a == *b,
            (Error::NotFound, Error::NotFound) => true,
            (Error::InvalidUserId(a), Error::InvalidUserId(b)) => *a == *b,
            (Error::Unknown, Error::Unknown) => true,
            _ => false,
        }
    }
}

impl PartialEqSpecImpl for Error {
    open spec fn obeys_eq_spec() -> bool {
        true
    }

    /// Two errors are equal when they are of one kind and carry the same
    /// identifier or conflict; two storage engine failures are always equal.
    open spec fn eq_spec(&self, other: &Self) -> bool {
        self@ == other@
    }
}

impl StorageFailure {
    /// Whether the engine refused a reservation because its window overlaps
    /// that of another: the code, the schema and the table all say so.
    pub open spec fn reports_conflict(&self) -> bool {
        match self {
            StorageFailure::Database { code, schema, table, .. } => {
                &&& code@ == EXCLUSION_VIOLATION@
                &&& schema.deep_view() == Some(RESERVATION_SCHEMA@)
                &&& table.deep_view() == Some(RESERVATION_TABLE@)
            },
            _ => false,
        }
    }

    /// The detail that the engine added to its refusal, where it added one.
    pub open spec fn detail(&self) -> Option<Seq<char>> {
        match self {
            StorageFailure::Database { detail, .. } => detail.deep_view(),
            _ => None,
        }
    }

    /// Whether the failure can be made an `Error`: a refusal for overlap
    /// has to come with its detail.
    pub open spec fn is_translatable(&self) -> bool {
        self.reports_conflict() ==> self.detail() is Some
    }

    /// The error that this failure is reported as: no row is `NotFound`; a
    /// refusal for overlap is the conflict that its detail describes;
    /// anything else is a storage engine failure.
    pub open spec fn translated(&self) -> ErrorView {
        match self {
            StorageFailure::RowNotFound => ErrorView::NotFound,
            StorageFailure::Database { .. } => if self.reports_conflict() {
                ErrorView::ConflictingReservation(conflict_info(self.detail()->0))
            } else {
                ErrorView::DbError
            },
            StorageFailure::Other(_) => ErrorView::DbError,
        }
    }

    /// Tells whether the engine refused a reservation for overlap.
    pub fn is_conflict(&self) -> (r: bool)
        ensures
            r == self.reports_conflict(),
    {
        match self {
            StorageFailure::Database { code, schema, table, .. } => {
                let in_schema = match schema {
                    Some(schema) => same_text(schema.as_str(), RESERVATION_SCHEMA),
                    None => false,
                };
                let in_table = match table {
                    Some(table) => same_text(table.as_str(), RESERVATION_TABLE),
                    None => false,
                };
                same_text(code.as_str(), EXCLUSION_VIOLATION) && in_schema && in_table
            },
            _ => false,
        }
    }

    /// Tells whether `Error::from` takes this failure.
    pub fn can_translate(&self) -> (r: bool)
        ensures
            r == self.is_translatable(),
    {
        if self.is_conflict() {
            match self {
                StorageFailure::Database { detail, .. } => detail.is_some(),
                _ => true,
            }
        } else {
            true
        }
    }
}

impl Error {
    /// Reports a failure of the storage engine as an `Error`.
    pub fn from(failure: StorageFailure) -> (e: Error)
        requires
            failure.is_translatable(),
        ensures
            e@ == failure.translated(),
    {
        if let StorageFailure::RowNotFound = failure {
            return Error::NotFound;
        }
        if !failure.is_conflict() {
            return Error::DbError(failure);
        }
        match &failure {
            StorageFailure::Database { detail: Some(detail), .. } => Error::ConflictingReservation(
                ReservationConflictInfo::from_str(detail.as_str()).unwrap(),
            ),
            _ => unreached(),
        }
    }
}

} // verus!
