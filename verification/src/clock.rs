//! The calendar and the clock, read through chrono.

use vstd::prelude::*;
use chrono::Datelike;

verus! {

/// A calendar month: the year and the month's number, January being 1.
#[derive(Clone, Copy, Debug, PartialEq, Eq, Structural)]
pub struct Today {
    pub year: i32,
    pub month: u32,
}

impl Today {
    /// Whether the month's number is one of the twelve.
    pub open spec fn valid(self) -> bool {
        1 <= self.month <= 12
    }
}

/// The local date of this moment, from `chrono::Local::now`, by its
/// `Datelike::year` and `Datelike::month`. The claim is chrono's own: the
/// month's number ranges from 1 to 12. Nothing is claimed of the year. The
/// call fails where the system's clock stands before 1970.
#[verifier::external_body]
pub(crate) fn local_today() -> (today: Today)
    ensures
        today.valid(),
{
    let date = chrono::Local::now();
    Today { year: date.year(), month: date.month() }
}

/// The seconds since the start of 1970, from `chrono::Utc::now` by its
/// `timestamp`. Nothing is claimed of the number.
#[verifier::external_body]
pub(crate) fn unix_seconds() -> (seconds: i64) {
    chrono::Utc::now().timestamp()
}

} // verus!
