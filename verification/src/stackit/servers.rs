//! Server resources (`/projects/{id}/servers`).

use vstd::prelude::*;
use crate::stackit::types::ResourceSource;
use std::collections::HashMap;

verus! {

/// Collection segment of servers below a project (or project + region).
pub const SERVERS: &'static str = "servers";

/// Server resource returned by the IaaS API.
#[derive(Debug, Clone, Default, PartialEq, Eq)]
pub struct Server {
    pub id: Option<String>,
    pub name: Option<String>,
    pub status: Option<String>,
    pub machine_type: Option<String>,
    pub availability_zone: Option<String>,
    pub boot_volume: Option<ServerBootVolume>,
    pub labels: Option<HashMap<String, String>>,
    pub metadata: Option<HashMap<String, String>>,
}

/// Boot volume reference on a server.
#[derive(Debug, Clone, Default, PartialEq, Eq)]
pub struct ServerBootVolume {
    pub id: Option<String>,
    pub source: Option<ResourceSource>,
}

/// Payload for creating a server.
#[derive(Debug, Clone, Default, PartialEq, Eq)]
pub struct ServerCreate {
    pub name: String,
    pub machine_type: String,
    pub availability_zone: Option<String>,
    pub boot_volume: Option<ServerBootVolume>,
    pub keypair_name: Option<String>,
    pub network_id: Option<String>,
    pub security_groups: Option<Vec<String>>,
}

} // verus!
