//! Site listing (`/api/self/sites`).

use vstd::prelude::*;

verus! {

/// A UniFi site the authenticated account can administer.
#[derive(Debug, Clone, Default, PartialEq, Eq)]
pub struct Site {
    /// Internal object id (the `_id` field).
    pub id: Option<String>,
    /// Site shortname used in API paths (e.g. `default`).
    pub name: Option<String>,
    /// Human-readable site description (the `desc` field).
    pub description: Option<String>,
}

} // verus!
