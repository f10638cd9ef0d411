//! Proxmox VE API: request planning, credentials, guest parameters and task
//! status logic.
//!
//! The HTTP transport lives outside the library; everything it decides
//! (paths, headers, form bodies, error messages, when a login ticket must be
//! refreshed, when a task wait is over) is computed here.

pub mod auth;
pub mod client;
pub mod config_value;
pub mod params;
pub mod error;
pub mod lxc;
pub mod nodes;
pub mod qemu;
pub mod tasks;

pub use auth::{Auth, CachedTicket};
pub use client::ProxmoxConfig;
pub use error::{ProxmoxError, Result};
pub use tasks::{TaskStatus, WaitOptions};
