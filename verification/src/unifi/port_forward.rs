//! Port forwards (`rest/portforward`).

use vstd::prelude::*;
use crate::string_map::StringMap;
verus! {

/// A port-forward rule.
#[derive(Debug, Clone, Default, PartialEq, Eq)]
pub struct PortForward {
    /// Internal object id (the `_id` field).
    pub id: Option<String>,
    pub name: String,
    pub enabled: Option<bool>,
    pub pfwd_interface: Option<String>,
    /// Destination LAN address.
    pub fwd: Option<String>,
    pub fwd_port: Option<String>,
    pub dst_port: Option<String>,
    /// `tcp`, `udp` or `tcp_udp`.
    pub proto: Option<String>,
    pub src: Option<String>,
    pub log: Option<bool>,
    /// Fields this crate does not model, each as its JSON text, by name;
    /// preserved verbatim across updates.
    pub extra: StringMap<String>,
}

} // verus!
