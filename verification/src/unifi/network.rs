//! Networks (`rest/networkconf`): LANs, VLANs, WANs and VPNs.

use vstd::prelude::*;
use crate::string_map::StringMap;
verus! {

/// A network definition.
#[derive(Debug, Clone, Default, PartialEq, Eq)]
pub struct NetworkConf {
    /// Internal object id (the `_id` field).
    pub id: Option<String>,
    pub name: String,
    /// `corporate`, `guest`, `wan`, `vlan-only`, …
    pub purpose: Option<String>,
    pub vlan_enabled: Option<bool>,
    pub vlan: Option<u16>,
    pub ip_subnet: Option<String>,
    pub dhcpd_enabled: Option<bool>,
    pub dhcpd_start: Option<String>,
    pub dhcpd_stop: Option<String>,
    pub enabled: Option<bool>,
    pub networkgroup: Option<String>,
    /// Fields this crate does not model, each as its JSON text, by name;
    /// preserved verbatim across updates.
    pub extra: StringMap<String>,
}

} // verus!
