//! Error type for the Proxmox VE API client.

use vstd::prelude::*;
use crate::text::{concat2, concat3, concat4, decimal, u64_to_decimal};

verus! {

/// Result alias for fallible Proxmox API operations.
pub type Result<T> = std::result::Result<T, ProxmoxError>;

/// Anything that can go wrong while talking to the Proxmox VE API.
///
/// Transport and (de)serialization failures are carried as the text of the
/// underlying error.
#[derive(Debug, Clone, PartialEq, Eq)]
pub enum ProxmoxError {
    /// The HTTP request could not be sent or the response could not be read.
    Http(String),
    /// The API answered with a non-2xx status.
    Api {
        /// HTTP status code.
        status: u16,
        /// Human-readable error message.
        message: String,
    },
    /// A response body or request body could not be (de)serialized.
    Json(String),
    /// Authentication (ticket acquisition or configuration) failed.
    Auth(String),
    /// The client could not be constructed (e.g. TLS backend setup failed).
    Build(String),
    /// A worker task finished with a non-`OK` status.
    Task {
        /// The task's unique process identifier.
        upid: String,
        /// The reported `exitstatus`.
        exitstatus: String,
    },
    /// A worker task did not finish within the configured timeout.
    TaskTimeout {
        /// The task's unique process identifier.
        upid: String,
        /// The timeout that elapsed, in seconds.
        timeout_secs: u64,
    },
}

/// The human-readable rendering of an error.
pub open spec fn error_text(e: ProxmoxError) -> Seq<char> {
    match e {
        ProxmoxError::Http(m) => "proxmox http transport error: "@ + m@,
        ProxmoxError::Api { status, message } => "proxmox api error "@ + decimal(status as nat)
            + ": "@ + message@,
        ProxmoxError::Json(m) => "proxmox json error: "@ + m@,
        ProxmoxError::Auth(m) => "proxmox auth error: "@ + m@,
        ProxmoxError::Build(m) => "proxmox client build error: "@ + m@,
        ProxmoxError::Task { upid, exitstatus } => "proxmox task "@ + upid@ + " failed: "@
            + exitstatus@,
        ProxmoxError::TaskTimeout { upid, timeout_secs } => "proxmox task "@ + upid@
            + " did not finish within "@ + decimal(timeout_secs as nat) + "s"@,
    }
}

impl ProxmoxError {
    /// Human-readable description of the error.
    pub fn to_display_string(&self) -> (s: String)
        ensures
            s@ == error_text(*self),
    {
        match self {
            ProxmoxError::Http(m) => concat2("proxmox http transport error: ", m.as_str()),
            ProxmoxError::Api { status, message } => {
                let code = u64_to_decimal(*status as u64);
                concat4("proxmox api error ", code.as_str(), ": ", message.as_str())
            },
            ProxmoxError::Json(m) => concat2("proxmox json error: ", m.as_str()),
            ProxmoxError::Auth(m) => concat2("proxmox auth error: ", m.as_str()),
            ProxmoxError::Build(m) => concat2("proxmox client build error: ", m.as_str()),
            ProxmoxError::Task { upid, exitstatus } => {
                let head = concat3("proxmox task ", upid.as_str(), " failed: ");
                concat2(head.as_str(), exitstatus.as_str())
            },
            ProxmoxError::TaskTimeout { upid, timeout_secs } => {
                let secs = u64_to_decimal(*timeout_secs);
                let head = concat3("proxmox task ", upid.as_str(), " did not finish within ");
                concat3(head.as_str(), secs.as_str(), "s")
            },
        }
    }
}

} // verus!
