//! Time-bounded reservations of resources: the data model, the validators,
//! the requests put to the storage engine, and the translation of the
//! engine's failures, above all of its conflict report, into typed errors.

pub mod bindings;
pub mod error;
pub mod manager;
pub mod text;
pub mod types;
pub mod validator;

pub use error::conflict::{
    Fields, ParsedInfo, ReservationConflict, ReservationConflictInfo, ReservationWindow,
};
pub use error::{Error, ErrorView, StorageFailure};
pub use manager::{Statement, StatementView};
pub use text::{split_at_comma, without_quotes};
pub use types::reservation::{Reservation, ReservationView};
pub use types::reservation_query::{ReservationQuery, ReservationQueryView};
pub use types::reservation_status::{ReservationStatus, RsvpStatus};
pub use types::{get_timespan, validate_range, Timespan, Timestamp};
pub use validator::{ReservationId, ResourceId, UserId, Validator};
