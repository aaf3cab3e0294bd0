//! The failures this crate can report.

use vstd::prelude::*;

verus! {

/// Every failure is local, synchronous and terminal: a failed factory call
/// yields no index description at all, and a failed consume leaves the cell
/// in the consumed state it was already in.
#[derive(Clone, Debug, PartialEq, Eq)]
pub enum Error {
    /// The supplied distance-metric name is not one of the recognized names.
    /// Carries the offending name verbatim.
    InvalidDistanceType { name: String },
    /// The supplied full-text language name is not in the supported set.
    /// Carries the offending name verbatim.
    InvalidLanguage { name: String },
    /// A single-use index description was consumed more than once.
    AlreadyConsumed,
}

/// The text that `Error::message` produces for each failure.
pub open spec fn message_view(e: Error) -> Seq<char> {
    match e {
        Error::InvalidDistanceType { name } => "invalid distance type: "@ + name@,
        Error::InvalidLanguage { name } => "invalid language: "@ + name@,
        Error::AlreadyConsumed => "attempt to use an index more than once"@,
    }
}

impl Error {
    /// A human-readable description of the failure, with the offending
    /// name surfaced verbatim where one exists.
    pub fn message(&self) -> (m: String)
        ensures
            m@ == message_view(*self),
    {
        match self {
            Error::InvalidDistanceType { name } => {
                String::from_str("invalid distance type: ").concat(name.as_str())
            },
            Error::InvalidLanguage { name } => {
                String::from_str("invalid language: ").concat(name.as_str())
            },
            Error::AlreadyConsumed => String::from_str("attempt to use an index more than once"),
        }
    }
}

} // verus!
