use vstd::prelude::*;

verus! {

/// Errors raised by the tracker's own logic.
///
/// The variants that wrap I/O, database, JSON and CSV failures belong to the
/// application layer, which owns those operations; the library reports the
/// failures of its own rules through the variants below.
#[derive(Debug, Clone)]
pub enum TimeTrackerError {
    Storage(String),
    Platform(String),
    Gui(String),
    Config(String),
    Time(String),
    State(String),
    Lock(String),
    Dialog(String),
    Drawing(String),
    Parse(String),
}

/// Errors of the layered (core/domain) part of the tracker.
#[derive(Debug)]
pub enum AppError {
    Csv(csv::Error),
    NotFound(String),
    Platform(String),
    InvalidOperation(String),
    Storage(String),
    Validation(String),
    NotImplemented(String),
}

/// A lookup that found nothing, carrying what was looked for.
#[derive(Debug, Clone)]
pub struct NotFoundError(pub String);

impl From<NotFoundError> for AppError {
    fn from(err: NotFoundError) -> (r: AppError) {
        AppError::NotFound(err.0)
    }
}

impl vstd::std_specs::convert::FromSpecImpl<NotFoundError> for AppError {
    open spec fn obeys_from_spec() -> bool {
        true
    }

    open spec fn from_spec(err: NotFoundError) -> AppError {
        AppError::NotFound(err.0)
    }
}

/// Builds a `String` holding exactly the characters of `s`.
pub fn text(s: &str) -> (r: String)
    ensures
        r@ == s@,
{
    String::from_str(s)
}

} // verus!
