//! The calendar collaborator: the current month, read from the local
//! clock through a trusted wrapper, and the fixed academic-year mapping
//! from a month to a semester name.

use vstd::prelude::*;
use vstd::string::StringExecFns;
use chrono::Datelike;

verus! {

/// The semester an enrollment made in a given calendar month belongs to:
/// `Fall` for the months six through twelve, `Spring` otherwise. This
/// fixed, possibly unintuitive mapping is part of the data model.
pub open spec fn semester_of_month(m: u32) -> Seq<char> {
    if 6 <= m && m <= 12 {
        "Fall"@
    } else {
        "Spring"@
    }
}

/// Relies on `chrono::Local::now` and `Datelike::month`: the month number
/// of the current local date, starting from one, always in one through
/// twelve. Which month comes back depends on the clock, so nothing more
/// is promised.
#[verifier::external_body]
pub fn current_month() -> (m: u32)
    ensures
        1 <= m && m <= 12,
{
    chrono::Local::now().month()
}

/// Renders the semester name for a calendar month.
pub fn semester_for(m: u32) -> (r: String)
    ensures
        r@ == semester_of_month(m),
{
    if 6 <= m && m <= 12 {
        String::from_str("Fall")
    } else {
        String::from_str("Spring")
    }
}

} // verus!
