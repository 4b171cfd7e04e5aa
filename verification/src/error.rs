//! The errors of the parsers and of the clients.

use vstd::prelude::*;

verus! {

/// Why a piece of text was not accepted.
#[derive(Clone, Copy, Debug, PartialEq, Eq, Structural)]
pub enum OrlError {
    /// The text is no log line: a bracket or a colon is missing, or its
    /// timestamp is none.
    InvalidFormat,
    /// The text is no timestamp, or names a day or a time that does not exist.
    InvalidTimestamp,
}

impl OrlError {
    /// A sentence for the log.
    pub fn message(&self) -> (r: String)
        ensures
            r@ == match *self {
                OrlError::InvalidFormat => "Invalid input line"@,
                OrlError::InvalidTimestamp => "Invalid timestamp"@,
            },
    {
        match self {
            OrlError::InvalidFormat => "Invalid input line".to_owned(),
            OrlError::InvalidTimestamp => "Invalid timestamp".to_owned(),
        }
    }
}

/// Why no client of a store could be made.
#[derive(Clone, Copy, Debug, PartialEq, Eq, Structural)]
pub enum ClientError {
    /// The address is no URL.
    InvalidUrl,
}

impl ClientError {
    /// A sentence for the log.
    pub fn message(&self) -> (r: String)
        ensures
            r@ == "Building elasticsearch url failed"@,
    {
        "Building elasticsearch url failed".to_owned()
    }
}

} // verus!
