//! UniFi Network controller API: request planning, session handling,
//! response envelopes and error messages.
//!
//! Both UniFi OS consoles (API under `/proxy/network`) and legacy standalone
//! controllers are supported, with username/password session login (cookie
//! plus rotating CSRF token) or an `X-API-KEY`.

pub mod auth;
pub mod client;
pub mod device;
pub mod dns;
pub mod error;
pub mod firewall_group;
pub mod firewall_rule;
pub mod health;
pub mod network;
pub mod port_forward;
pub mod sites;
pub mod stations;
pub mod sysinfo;
pub mod types;
pub mod user_group;
pub mod users;
pub mod wlan;

pub use auth::Credentials;
pub use client::{ControllerKind, Session, UnifiConfig, DEFAULT_SITE};
pub use error::{Result, UnifiError};
pub use types::{Meta, UnifiResponse};
