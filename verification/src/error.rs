//! The errors that a conversion can end in.

use vstd::prelude::*;
use vstd::string::StringExecFns;

verus! {

/// Why a conversion, or a whole batch, did not succeed.
#[derive(Debug)]
pub enum JobError {
    /// The backend was unreachable, a file was missing, or what came back could not be used;
    /// the text says which.
    InvalidResponse(String),
    /// A remote job reached no final status within its polling budget.
    TimeoutError,
}

impl JobError {
    /// Whether this is the polling time-out.
    pub open spec fn is_timeout(&self) -> bool {
        *self is TimeoutError
    }

    /// The text carried by the error; a time-out carries none.
    pub open spec fn message(&self) -> Seq<char> {
        match self {
            JobError::InvalidResponse(text) => text@,
            JobError::TimeoutError => Seq::empty(),
        }
    }

    /// Tells the polling time-out from every other failure.
    pub fn timed_out(&self) -> (t: bool)
        ensures
            t == self.is_timeout(),
    {
        match self {
            JobError::TimeoutError => true,
            JobError::InvalidResponse(_) => false,
        }
    }
}

/// An error with the message `prefix` followed by `detail`.
pub fn invalid_response(prefix: &str, detail: &str) -> (error: JobError)
    ensures
        error == JobError::InvalidResponse(error->InvalidResponse_0),
        error.message() == prefix@ + detail@,
{
    let mut message = String::from_str(prefix);
    message.append(detail);
    JobError::InvalidResponse(message)
}

} // verus!
