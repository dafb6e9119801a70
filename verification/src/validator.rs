//! Values that can be asked whether they are fit for use.

use crate::error::{Error, ErrorView};
use vstd::prelude::*;

verus! {

/// The identity of a reservation, as the storage engine gave it.
pub type ReservationId = String;

/// Who a reservation is for.
pub type UserId = String;

/// What a reservation is of.
pub type ResourceId = String;

/// Whether `r` says what `verdict` says.
pub open spec fn tells(r: Result<(), Error>, verdict: Result<(), ErrorView>) -> bool {
    match r {
        Ok(_) => verdict is Ok,
        Err(e) => verdict == Err::<(), ErrorView>(e@),
    }
}

/// A value that can be checked before it is used.
pub trait Validator {
    /// What is wrong with the value, if anything: of several faults, the
    /// first that is looked for.
    spec fn verdict(&self) -> Result<(), ErrorView>;

    /// Checks the value.
    fn validate(&self) -> (r: Result<(), Error>)
        ensures
            tells(r, self.verdict()),
    ;
}

/// The identity of a reservation must not be empty.
impl Validator for ReservationId {
    open spec fn verdict(&self) -> Result<(), ErrorView> {
        if self@.len() == 0 {
            Err(ErrorView::InvalidReservationId(self@))
        } else {
            Ok(())
        }
    }

    fn validate(&self) -> (r: Result<(), Error>) {
        if self.as_str().is_empty() {
            Err(Error::InvalidReservationId(self.clone()))
        } else {
            Ok(())
        }
    }
}

} // verus!
