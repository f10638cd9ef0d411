//! STACKIT IaaS API: request planning, service-account credentials and
//! resource types.
//!
//! The HTTP transport, JSON encoding and JWT signing live outside the
//! library; paths, headers, token-request bodies, token reuse and error
//! messages are decided here.

pub mod auth;
pub mod client;
pub mod error;
pub mod servers;
pub mod types;
pub mod volumes;

pub use auth::{Auth, ServiceAccountKey, ServiceAccountKeyCredentials};
pub use client::StackitConfig;
pub use error::{Result, StackitError};
