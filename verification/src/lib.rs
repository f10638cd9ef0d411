//! Verified request-planning and data-model core of the infrazeug cloud
//! extension clients.

pub mod text;
pub mod string_map;
pub mod encoding;
pub mod proxmox;
pub mod stackit;
pub mod unifi;
pub mod gcp;
pub mod helm;
pub mod ovh;
