//! Firewall rules (`rest/firewallrule`).

use vstd::prelude::*;
use crate::string_map::StringMap;
verus! {

/// A firewall rule.
#[derive(Debug, Clone, Default, PartialEq, Eq)]
pub struct FirewallRule {
    /// Internal object id (the `_id` field).
    pub id: Option<String>,
    pub name: String,
    pub enabled: Option<bool>,
    /// `accept`, `drop` or `reject`.
    pub action: Option<String>,
    /// e.g. `WAN_IN`, `LAN_IN`, `GUEST_IN`.
    pub ruleset: Option<String>,
    pub rule_index: Option<u32>,
    pub protocol: Option<String>,
    pub src_firewallgroup_ids: Option<Vec<String>>,
    pub dst_firewallgroup_ids: Option<Vec<String>>,
    pub src_address: Option<String>,
    pub dst_address: Option<String>,
    pub src_port: Option<String>,
    pub dst_port: Option<String>,
    pub logging: Option<bool>,
    /// Fields this crate does not model, each as its JSON text, by name;
    /// preserved verbatim across updates.
    pub extra: StringMap<String>,
}

} // verus!
