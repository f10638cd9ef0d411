//! User groups (`rest/usergroup`): bandwidth limits.

use vstd::prelude::*;
use crate::string_map::StringMap;
verus! {

/// A user group with optional QoS rate limits (kbps; `-1` is unlimited).
#[derive(Debug, Clone, Default, PartialEq, Eq)]
pub struct UserGroup {
    /// Internal object id (the `_id` field).
    pub id: Option<String>,
    pub name: String,
    pub qos_rate_max_down: Option<i32>,
    pub qos_rate_max_up: Option<i32>,
    /// Fields this crate does not model, each as its JSON text, by name;
    /// preserved verbatim across updates.
    pub extra: StringMap<String>,
}

} // verus!
