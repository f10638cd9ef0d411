//! Error type for the UniFi Network controller API client.

use vstd::prelude::*;
use crate::text::{concat2, concat4, decimal, u64_to_decimal};

verus! {

/// Result alias for fallible UniFi API operations.
pub type Result<T> = std::result::Result<T, UnifiError>;

/// Anything that can go wrong while talking to the UniFi Network controller.
///
/// Transport and (de)serialization failures are carried as the text of the
/// underlying error.
#[derive(Debug, Clone, PartialEq, Eq)]
pub enum UnifiError {
    /// The HTTP request could not be sent or the response could not be read.
    Http(String),
    /// The controller answered with a non-`ok` envelope or a non-2xx status;
    /// `message` carries the UniFi `meta.msg` code when present, otherwise
    /// the raw body.
    Api {
        /// HTTP status code (or `200` when only the envelope reported the error).
        status: u16,
        /// Human-readable error message / UniFi error code.
        message: String,
    },
    /// A response or request body could not be (de)serialized.
    Json(String),
    /// Login / session establishment failed.
    Auth(String),
}

/// The human-readable rendering of an error.
pub open spec fn error_text(e: UnifiError) -> Seq<char> {
    match e {
        UnifiError::Http(m) => "unifi http transport error: "@ + m@,
        UnifiError::Api { status, message } => "unifi api error "@ + decimal(status as nat) + ": "@
            + message@,
        UnifiError::Json(m) => "unifi json error: "@ + m@,
        UnifiError::Auth(m) => "unifi auth error: "@ + m@,
    }
}

impl UnifiError {
    /// Human-readable description of the error.
    pub fn to_display_string(&self) -> (s: String)
        ensures
            s@ == error_text(*self),
    {
        match self {
            UnifiError::Http(m) => concat2("unifi http transport error: ", m.as_str()),
            UnifiError::Api { status, message } => {
                let code = u64_to_decimal(*status as u64);
                concat4("unifi api error ", code.as_str(), ": ", message.as_str())
            },
            UnifiError::Json(m) => concat2("unifi json error: ", m.as_str()),
            UnifiError::Auth(m) => concat2("unifi auth error: ", m.as_str()),
        }
    }
}

} // verus!
