//! Shared STACKIT IaaS API types.

use vstd::prelude::*;

verus! {

/// A reference to another IaaS resource (image, volume, …).
#[derive(Debug, Clone, Default, PartialEq, Eq)]
pub struct ResourceSource {
    pub id: String,
    /// The resource kind (the `type` field).
    pub source_type: String,
}

/// Paginated list wrapper returned by collection endpoints.
#[derive(Debug, Clone, Default)]
pub struct ItemList<T> {
    pub items: Vec<T>,
}

} // verus!
