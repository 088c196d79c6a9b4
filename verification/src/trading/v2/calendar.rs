//! The market calendar.
use vstd::prelude::*;

verus! {

/// Which days of the market calendar are wanted.
#[derive(Debug, Clone)]
pub struct CalendarParams {
    /// The first day wanted.
    pub start: Option<String>,
    /// The last day wanted.
    pub end: Option<String>,
    /// Whether the days are trading days or settlement days.
    pub date_type: Option<String>,
}

impl CalendarParams {
    /// Parameters with every optional field left out.
    pub fn new() -> (r: Self)
        ensures
            (r.start is None),
            (r.end is None),
            (r.date_type is None),
    {
        CalendarParams {
            start: None,
            end: None,
            date_type: None,
        }
    }
}

/// One day of the market calendar.
#[derive(Debug, Clone)]
pub struct Calendar {
    /// The day.
    pub date: String,
    /// When the market opens.
    pub open: String,
    /// When the market closes.
    pub close: String,
    /// The day on which trades of this day settle.
    pub settlement_date: String,
}

} // verus!
