//! The kinds of error a response can carry.

use vstd::prelude::*;

verus! {

/// Why a request could not be answered with a value.
#[derive(Clone, Copy, Debug, PartialEq, Eq, Structural)]
pub enum ErrorKind {
    /// The arguments do not have the shape the operation declares.
    InvalidArgument,
    /// No operation has the requested name.
    NotFound,
    /// The pool or the external data source could not be reached in time.
    Unavailable,
    /// The external data source failed in a way nobody planned for.
    Internal,
}

impl ErrorKind {
    /// The name under which this kind of error is reported.
    pub open spec fn spec_name(self) -> Seq<char> {
        match self {
            ErrorKind::InvalidArgument => "InvalidArgument"@,
            ErrorKind::NotFound => "NotFound"@,
            ErrorKind::Unavailable => "Unavailable"@,
            ErrorKind::Internal => "Internal"@,
        }
    }

    /// The name under which this kind of error is reported.
    pub fn name(&self) -> (out: &'static str)
        ensures
            out@ == self.spec_name(),
    {
        match self {
            ErrorKind::InvalidArgument => "InvalidArgument",
            ErrorKind::NotFound => "NotFound",
            ErrorKind::Unavailable => "Unavailable",
            ErrorKind::Internal => "Internal",
        }
    }
}

} // verus!
