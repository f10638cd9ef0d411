//! Local DNS records (v2 `static-dns`).

use vstd::prelude::*;
use crate::string_map::StringMap;
verus! {

/// A local DNS record served by the gateway.
#[derive(Debug, Clone, Default, PartialEq, Eq)]
pub struct DnsRecord {
    /// Internal object id (the `_id` field).
    pub id: Option<String>,
    /// The record name.
    pub key: String,
    /// `A`, `AAAA`, `CNAME`, `MX`, `TXT`, `SRV`, …
    pub record_type: String,
    pub value: String,
    pub enabled: Option<bool>,
    pub ttl: Option<u32>,
    pub priority: Option<u32>,
    pub port: Option<u32>,
    pub weight: Option<u32>,
    /// Fields this crate does not model, each as its JSON text, by name;
    /// preserved verbatim across updates.
    pub extra: StringMap<String>,
}

} // verus!
