//! The failures that the binding layer reports to its caller.

use vstd::prelude::*;

verus! {

/// The status code with which the host reports success.
pub const STATUS_OK: i32 = 0;

/// A recoverable failure, handed to the immediate caller and never retried.
#[derive(Clone, Copy, Debug, PartialEq, Eq, Structural, Hash)]
pub enum Error {
    /// The requested capability table could not be acquired.
    Unavailable,
    /// The host answered a call with this nonzero status code.
    Host(i32),
}

/// What a status code means on its own: success for zero, and a failure that
/// carries the code for everything else.
pub open spec fn status_result(status: i32) -> Result<(), Error> {
    if status == STATUS_OK {
        Ok(())
    } else {
        Err(Error::Host(status))
    }
}

impl Error {
    /// The failure that stands for a nonzero status code.
    pub fn from_status(status: i32) -> (e: Error)
        requires
            status != STATUS_OK,
        ensures
            e == Error::Host(status),
    {
        Error::Host(status)
    }

    /// The status code that the host reported, if this failure carries one.
    pub fn code(&self) -> (c: Option<i32>)
        ensures
            c == match *self {
                Error::Unavailable => None::<i32>,
                Error::Host(code) => Some(code),
            },
    {
        match self {
            Error::Unavailable => None,
            Error::Host(code) => Some(*code),
        }
    }

    /// A short description of the failure.
    pub fn message(&self) -> (s: &'static str)
        ensures
            s@ == match *self {
                Error::Unavailable => "capability unavailable"@,
                Error::Host(_) => "host call failed"@,
            },
    {
        match self {
            Error::Unavailable => "capability unavailable",
            Error::Host(_) => "host call failed",
        }
    }
}

/// Turns the status code of an action call into its result.
pub fn check_status(status: i32) -> (r: Result<(), Error>)
    ensures
        r == status_result(status),
{
    if status == STATUS_OK {
        Ok(())
    } else {
        Err(Error::Host(status))
    }
}

} // verus!
