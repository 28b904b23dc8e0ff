//! Errors of the library.

use vstd::prelude::*;
use crate::text::cat;

verus! {

/// What went wrong. Failures reported by the database, the JSON reader or the
/// file system carry the message of the component that failed.
#[derive(Debug)]
pub enum Error {
    Db(String),
    Json(String),
    Io(String),
    NoDataDir,
    NotFound(String),
    InvalidInput(String),
    Scheduler(String),
    AlreadyExists(String),
}

/// The text an error displays.
pub open spec fn error_text(e: Error) -> Seq<char> {
    match e {
        Error::Db(m) => "database error: "@ + m@,
        Error::Json(m) => "json error: "@ + m@,
        Error::Io(m) => "io error: "@ + m@,
        Error::NoDataDir => "data directory not found"@,
        Error::NotFound(m) => "not found: "@ + m@,
        Error::InvalidInput(m) => "invalid input: "@ + m@,
        Error::Scheduler(m) => "scheduler error: "@ + m@,
        Error::AlreadyExists(m) => "already exists: "@ + m@,
    }
}

impl Error {
    /// The text this error displays.
    pub fn to_text(&self) -> (r: String)
        ensures
            r@ == error_text(*self),
    {
        match self {
            Error::Db(m) => cat("database error: ", m.as_str()),
            Error::Json(m) => cat("json error: ", m.as_str()),
            Error::Io(m) => cat("io error: ", m.as_str()),
            Error::NoDataDir => String::from_str("data directory not found"),
            Error::NotFound(m) => cat("not found: ", m.as_str()),
            Error::InvalidInput(m) => cat("invalid input: ", m.as_str()),
            Error::Scheduler(m) => cat("scheduler error: ", m.as_str()),
            Error::AlreadyExists(m) => cat("already exists: ", m.as_str()),
        }
    }
}

} // verus!
