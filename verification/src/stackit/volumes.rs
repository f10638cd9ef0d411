//! Block storage volumes (`/projects/{id}/volumes`).

use vstd::prelude::*;
use crate::stackit::types::ResourceSource;
use std::collections::HashMap;

verus! {

/// Collection segment of volumes below a project (or project + region).
pub const VOLUMES: &'static str = "volumes";

/// Block volume resource returned by the IaaS API.
#[derive(Debug, Clone, Default, PartialEq, Eq)]
pub struct Volume {
    pub id: Option<String>,
    pub name: Option<String>,
    pub status: Option<String>,
    pub size: Option<u32>,
    pub availability_zone: Option<String>,
    pub bootable: Option<bool>,
    pub source: Option<ResourceSource>,
    pub performance_class: Option<String>,
    pub labels: Option<HashMap<String, String>>,
}

/// Payload for creating a volume.
#[derive(Debug, Clone, Default, PartialEq, Eq)]
pub struct VolumeCreate {
    pub name: String,
    pub size: u32,
    pub availability_zone: Option<String>,
    pub source: Option<ResourceSource>,
    pub performance_class: Option<String>,
}

} // verus!
