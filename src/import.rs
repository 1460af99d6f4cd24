//! Whether a document is to be imported: never the same issue twice, unless forced.
use vstd::prelude::*;
use crate::calendar::{calendar_date_of, read_calendar_date, CalendarDate};
use crate::document::DateOfIssue;

verus! {

/// Why a document is not imported.
#[derive(Debug, PartialEq, Eq)]
pub enum ImporterErr {
    /// The store already holds the document of that issue date.
    AlreadyImported(String),
}

/// What a run does with a document.
#[derive(Debug, Clone, Copy, PartialEq, Eq, Structural)]
pub enum ImportDecision {
    /// The document was not loaded: there is nothing to import.
    NotLoaded,
    /// The document is to be imported.
    Proceed,
}

/// The date that stands for "never imported": 1 January 1970.
pub open spec fn epoch() -> CalendarDate {
    CalendarDate { year: 1970, month: 1, day: 1 }
}

/// The last imported date, or the epoch when none is stored.
pub open spec fn last_or_epoch(last: Option<CalendarDate>) -> CalendarDate {
    match last {
        Some(d) => d,
        None => epoch(),
    }
}

impl DateOfIssue {
    /// The calendar date that the texts name; `None` when they are not
    /// decimals or name no day.
    pub fn to_issue_date(&self) -> (r: Option<CalendarDate>)
        ensures
            r == calendar_date_of(self.year@, self.month@, self.day@),
    {
        read_calendar_date(self.year.as_str(), self.month.as_str(), self.day.as_str())
    }
}

impl ImporterErr {
    /// The message that explains the error.
    pub fn message(&self) -> (r: String)
        ensures
            r@ == (match self {
                ImporterErr::AlreadyImported(m) => m@,
            }),
    {
        match self {
            ImporterErr::AlreadyImported(m) => m.clone(),
        }
    }
}

/// Decides whether a document is imported: a document that was not loaded
/// is not; one whose issue date is the last imported one (the epoch when
/// none is stored) is refused unless forced; any other is imported.
pub fn check_document(is_loaded: bool, issued: CalendarDate, last: Option<CalendarDate>, force: bool) -> (r:
    Result<ImportDecision, ImporterErr>)
    ensures
        !is_loaded ==> r == Ok::<ImportDecision, ImporterErr>(ImportDecision::NotLoaded),
        is_loaded && issued == last_or_epoch(last) && !force ==> r is Err,
        is_loaded && (issued != last_or_epoch(last) || force) ==> r == Ok::<
            ImportDecision,
            ImporterErr,
        >(ImportDecision::Proceed),
{
    if !is_loaded {
        return Ok(ImportDecision::NotLoaded);
    }
    let previous = match last {
        Some(d) => d,
        None => CalendarDate { year: 1970, month: 1, day: 1 },
    };
    if issued == previous && !force {
        return Err(
            ImporterErr::AlreadyImported(
                String::from_str(
                    "This document has already been imported in the database to force import use -f flag to true",
                ),
            ),
        );
    }
    Ok(ImportDecision::Proceed)
}

} // verus!
