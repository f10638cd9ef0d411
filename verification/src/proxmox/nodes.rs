//! Cluster node listing (`/nodes`) and version probe (`/version`).

use vstd::prelude::*;

verus! {

/// `GET /nodes` lists cluster nodes.
pub const NODES_PATH: &'static str = "/nodes";

/// `GET /version` probes the API version (useful as a connectivity check).
pub const VERSION_PATH: &'static str = "/version";

/// A node in the Proxmox cluster as returned by `GET /nodes`.
#[derive(Debug, Clone, Default, PartialEq, Eq)]
pub struct NodeEntry {
    pub node: String,
    /// `online` or `offline`.
    pub status: Option<String>,
    pub uptime: Option<u64>,
}

/// Version information from `GET /version`.
#[derive(Debug, Clone, Default, PartialEq, Eq)]
pub struct Version {
    pub version: Option<String>,
    pub release: Option<String>,
}

} // verus!
