//! Firewall groups (`rest/firewallgroup`): address and port groups used by rules.

use vstd::prelude::*;
use crate::string_map::StringMap;
verus! {

/// A firewall address or port group.
#[derive(Debug, Clone, Default, PartialEq, Eq)]
pub struct FirewallGroup {
    /// Internal object id (the `_id` field).
    pub id: Option<String>,
    pub name: String,
    /// `address-group`, `ipv6-address-group` or `port-group`.
    pub group_type: Option<String>,
    pub group_members: Option<Vec<String>>,
    /// Fields this crate does not model, each as its JSON text, by name;
    /// preserved verbatim across updates.
    pub extra: StringMap<String>,
}

} // verus!
