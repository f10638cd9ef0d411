//! Error type for the STACKIT IaaS API client.

use vstd::prelude::*;
use crate::text::{concat2, concat4, decimal, u64_to_decimal};

verus! {

/// Result alias for fallible STACKIT API operations.
pub type Result<T> = std::result::Result<T, StackitError>;

/// Anything that can go wrong while talking to the STACKIT IaaS API.
///
/// Transport and (de)serialization failures are carried as the text of the
/// underlying error.
#[derive(Debug, Clone, PartialEq, Eq)]
pub enum StackitError {
    /// The HTTP request could not be sent or the response could not be read.
    Http(String),
    /// The API answered with a non-2xx status.
    Api {
        /// HTTP status code.
        status: u16,
        /// Human-readable error message.
        message: String,
    },
    /// A response body or request body could not be (de)serialized.
    Json(String),
    /// Token acquisition or auth configuration failed.
    Auth(String),
}

/// The human-readable rendering of an error.
pub open spec fn error_text(e: StackitError) -> Seq<char> {
    match e {
        StackitError::Http(m) => "stackit http transport error: "@ + m@,
        StackitError::Api { status, message } => "stackit api error "@ + decimal(status as nat)
            + ": "@ + message@,
        StackitError::Json(m) => "stackit json error: "@ + m@,
        StackitError::Auth(m) => "stackit auth error: "@ + m@,
    }
}

impl StackitError {
    /// Human-readable description of the error.
    pub fn to_display_string(&self) -> (s: String)
        ensures
            s@ == error_text(*self),
    {
        match self {
            StackitError::Http(m) => concat2("stackit http transport error: ", m.as_str()),
            StackitError::Api { status, message } => {
                let code = u64_to_decimal(*status as u64);
                concat4("stackit api error ", code.as_str(), ": ", message.as_str())
            },
            StackitError::Json(m) => concat2("stackit json error: ", m.as_str()),
            StackitError::Auth(m) => concat2("stackit auth error: ", m.as_str()),
        }
    }
}

} // verus!
