//! Known clients (`rest/user`): fixed IPs, names, group membership.

use vstd::prelude::*;
use crate::string_map::StringMap;
verus! {

/// A known client.
#[derive(Debug, Clone, Default, PartialEq, Eq)]
pub struct User {
    /// Internal object id (the `_id` field).
    pub id: Option<String>,
    pub mac: String,
    pub name: Option<String>,
    pub fixed_ip: Option<String>,
    pub use_fixedip: Option<bool>,
    pub network_id: Option<String>,
    pub usergroup_id: Option<String>,
    pub note: Option<String>,
    /// Fields this crate does not model, each as its JSON text, by name;
    /// preserved verbatim across updates.
    pub extra: StringMap<String>,
}

} // verus!
