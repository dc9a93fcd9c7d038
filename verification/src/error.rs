//! Why a request is turned away.

use vstd::prelude::*;

verus! {

/// The reasons for which the limiter turns a request away. Both are answered
/// to the client; neither stops the limiter.
#[derive(Clone, Copy, Debug, PartialEq, Eq, Structural)]
pub enum RateLimitError {
    /// The identity has used up its quota. The window in which it did so
    /// ends `retry_after` nanoseconds after the request; a request made
    /// later than that is admitted.
    QuotaExceeded { retry_after: u128 },
    /// The request carries no credential, so it has no identity.
    MissingCredential,
}

impl RateLimitError {
    /// The HTTP status that answers the request: 429 for a spent quota, 401
    /// for a missing credential.
    pub open spec fn spec_status(self) -> u16 {
        match self {
            RateLimitError::QuotaExceeded { .. } => 429,
            RateLimitError::MissingCredential => 401,
        }
    }

    /// The text that names the cause to the client.
    pub open spec fn spec_message(self) -> Seq<char> {
        match self {
            RateLimitError::QuotaExceeded { .. } => "Rate limited"@,
            RateLimitError::MissingCredential => "Missing credential"@,
        }
    }

    /// The HTTP status that answers the request. It is always a client
    /// error.
    pub fn status(&self) -> (code: u16)
        ensures
            code == self.spec_status(),
            400 <= code < 500,
    {
        match self {
            RateLimitError::QuotaExceeded { .. } => 429,
            RateLimitError::MissingCredential => 401,
        }
    }

    /// The text that names the cause to the client.
    pub fn message(&self) -> (text: String)
        ensures
            text@ == self.spec_message(),
    {
        match self {
            RateLimitError::QuotaExceeded { .. } => String::from_str("Rate limited"),
            RateLimitError::MissingCredential => String::from_str("Missing credential"),
        }
    }
}

} // verus!
