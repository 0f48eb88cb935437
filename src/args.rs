use vstd::prelude::*;

use crate::model::TerminalError;

verus! {

/// The layout of a date on the command line, e.g. `01-12-2022 18:10:11 +0300`.
pub const DATE_FORMAT: &'static str = "%d-%m-%Y %H:%M:%S %z";

/// The instant, in seconds since the Unix epoch, that chrono reads from `text`
/// laid out as `format`, or `None` where it does not parse.
pub uninterp spec fn parsed_instant(text: Seq<char>, format: Seq<char>) -> Option<i64>;

/// chrono's `format::ParseError`, the error of a date that does not parse; it is
/// carried to the caller of `parse_instant` and never looked into.
#[verifier::external_type_specification]
#[verifier::external_body]
pub struct ExParseError(chrono::format::ParseError);

/// Relies on chrono's `DateTime::parse_from_str` to read a date with its UTC
/// offset, and on `DateTime::timestamp` for the instant in seconds.
#[verifier::external_body]
fn parse_instant(text: &str, format: &str) -> (r: Result<i64, chrono::format::ParseError>)
    ensures
        match parsed_instant(text@, format@) {
            Some(t) => r matches Ok(v) && v == t,
            None => r is Err,
        },
{
    match chrono::DateTime::parse_from_str(text, format) {
        Ok(d) => Ok(d.timestamp()),
        Err(e) => Err(e),
    }
}

/// Relies on chrono's `Utc::now`: the time now, in whole seconds since the
/// Unix epoch. Nothing is known of its value.
#[verifier::external_body]
fn now_seconds() -> (r: i64) {
    chrono::Utc::now().timestamp()
}

/// The message of the error for a date that does not parse.
pub open spec fn invalid_date_message(text: Seq<char>) -> Seq<char> {
    "Invalid date: "@ + text
}

/// What reading `text` as a date gives: its instant, or an error naming it.
pub open spec fn date_outcome(text: Seq<char>) -> Result<i64, Seq<char>> {
    match parsed_instant(text, DATE_FORMAT@) {
        Some(t) => Ok(t),
        None => Err(invalid_date_message(text)),
    }
}

/// The view of a date conversion's result: the instant, or the error's message.
pub open spec fn outcome_view(r: Result<i64, TerminalError>) -> Result<i64, Seq<char>> {
    match r {
        Ok(t) => Ok(t),
        Err(e) => Err(e.details@),
    }
}

/// The arguments of a saved-query execution: its id, the time window as
/// text, and the fields to print (all when `None`).
pub struct ExecuteQueryArgs {
    pub query_id: String,
    pub start_time: String,
    pub end_time: Option<String>,
    pub fields: Option<Vec<String>>,
}

impl ExecuteQueryArgs {
    /// The start of the window, in seconds since the Unix epoch.
    pub fn start_time(&self) -> (r: Result<i64, TerminalError>)
        ensures
            outcome_view(r) == date_outcome(self.start_time@),
    {
        ExecuteQueryArgs::convert_date(&self.start_time)
    }

    /// The end of the window, where `now` is the time now: the given end, or
    /// `now` when none was given.
    pub fn end_time_at(&self, now: i64) -> (r: Result<i64, TerminalError>)
        ensures
            match self.end_time {
                Some(end) => outcome_view(r) == date_outcome(end@),
                None => r == Ok::<i64, TerminalError>(now),
            },
    {
        match &self.end_time {
            Some(end) => ExecuteQueryArgs::convert_date(end),
            None => Ok(now),
        }
    }

    /// The end of the window: the given end, or the time of the call when
    /// none was given.
    pub fn end_time(&self) -> (r: Result<i64, TerminalError>)
        ensures
            self.end_time matches Some(end) ==> outcome_view(r) == date_outcome(end@),
            self.end_time is None ==> r is Ok,
    {
        self.end_time_at(now_seconds())
    }

    fn convert_date(date_str: &String) -> (r: Result<i64, TerminalError>)
        ensures
            outcome_view(r) == date_outcome(date_str@),
    {
        match parse_instant(date_str.as_str(), DATE_FORMAT) {
            Ok(t) => Ok(t),
            Err(_) => {
                let mut details = String::from_str("Invalid date: ");
                details.append(date_str.as_str());
                Err(TerminalError { details })
            },
        }
    }
}

} // verus!
