//! What one attempt produced, as far as the retry engine reads it.

use vstd::prelude::*;

verus! {

/// The result of one attempt: a response with its status code, or a failure
/// of the transport underneath (connection, timeout, protocol), which the
/// engine does not look into.
#[derive(Clone, Copy, Debug, PartialEq, Eq)]
pub enum Outcome {
    Response { status: u16 },
    TransportFailure,
}

/// A status code of the client-error class (4xx).
pub open spec fn is_client_error(status: u16) -> bool {
    400 <= status < 500
}

/// A status code of the server-error class (5xx).
pub open spec fn is_server_error(status: u16) -> bool {
    500 <= status < 600
}

impl Outcome {
    /// Whether this outcome asks for another attempt, the budget aside:
    /// every transport failure does, and a response does exactly when its
    /// status is a client or a server error.
    pub open spec fn is_retryable(self) -> bool {
        match self {
            Outcome::TransportFailure => true,
            Outcome::Response { status } => is_client_error(status) || is_server_error(status),
        }
    }

    /// Computes [`Outcome::is_retryable`].
    pub fn retryable(&self) -> (r: bool)
        ensures
            r == self.is_retryable(),
    {
        match self {
            Outcome::TransportFailure => true,
            Outcome::Response { status } => 400 <= *status && *status < 600,
        }
    }
}

} // verus!
