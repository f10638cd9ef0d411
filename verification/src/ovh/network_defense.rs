//! OVHcloud API v2 **networkDefense** types (`/v2/networkDefense`).
//!
//! Data types of these endpoints; field and value names follow the API,
//! with the JSON name noted where it differs.

use vstd::prelude::*;

verus! {

/// `networkDefense.RegionEnum`
#[derive(Debug, Clone, Copy, PartialEq, Eq)]
pub enum NetworkDefenseRegion {
    /// `CA`
    Ca,
    /// `EU`
    Eu,
    /// `US`
    Us,
    /// Any value not listed here.
    Other,
}

/// `networkDefense.VectorsEnum`
#[derive(Debug, Clone, Copy, PartialEq, Eq)]
pub enum NetworkDefenseVectors {
    /// `CHARGEN`
    Chargen,
    /// `DNS`
    Dns,
    /// `DNS_TO_OVH`
    DnsToOvh,
    /// `FRAGMENT`
    Fragment,
    /// `ICMP`
    Icmp,
    /// `IP_NULL`
    IpNull,
    /// `NTP`
    Ntp,
    /// `OTHER`
    Other,
    /// `TCP_ACK`
    TcpAck,
    /// `TCP_FIN`
    TcpFin,
    /// `TCP_NULL`
    TcpNull,
    /// `TCP_PSH`
    TcpPsh,
    /// `TCP_RST`
    TcpRst,
    /// `TCP_SYN`
    TcpSyn,
    /// `UDP`
    Udp,
    /// `VECTOR_TYPE_UNSPECIFIED`
    VectorTypeUnspecified,
}

/// `networkDefense.Vac.Event`
#[derive(Debug, Clone)]
pub struct VacEvent {
    pub ended_at: Option<String>,
    pub started_at: Option<String>,
    pub subnet: Option<String>,
    pub vectors: Option<Vec<NetworkDefenseVectors>>,
}

/// `networkDefense.Vac.EventsResponse`
#[derive(Debug, Clone)]
pub struct VacEventsResponse {
    pub events: Option<Vec<VacEvent>>,
}

/// `networkDefense.Vac.TrafficResponseData`
#[derive(Debug, Clone)]
pub struct VacTrafficResponseData {
    pub dropped: Option<Vec<String>>,
    pub passed: Option<Vec<String>>,
}

/// `networkDefense.Vac.TrafficResponse`
#[derive(Debug, Clone)]
pub struct VacTrafficResponse {
    pub bps: Option<VacTrafficResponseData>,
    pub pps: Option<VacTrafficResponseData>,
    pub timestamps: Option<Vec<String>>,
}

} // verus!
