//! The calendar year, read from the system clock through the `chrono` crate.

use chrono::{Datelike, Utc};
use vstd::prelude::*;

verus! {

/// `chrono::Utc::now`, of which the year of the date is taken. The year
/// depends on the clock of the machine, so nothing is claimed of it. The call
/// stops the program if that clock stands before 1970.
#[verifier::external_body]
pub(crate) fn current_year() -> (year: i32) {
    Utc::now().date_naive().year()
}

} // verus!
