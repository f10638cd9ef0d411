//! Site health (`stat/health`): one entry per subsystem.

use vstd::prelude::*;
use crate::string_map::StringMap;
use crate::text::opt_str_is;
verus! {

/// The health of one subsystem (`wlan`, `wan`, `www`, `lan`, `vpn`, …).
#[derive(Debug, Clone, Default, PartialEq, Eq)]
pub struct SubsystemHealth {
    pub subsystem: Option<String>,
    /// `ok`, `warning`, `error`, or `unknown`.
    pub status: Option<String>,
    pub num_user: Option<i64>,
    pub num_guest: Option<i64>,
    pub num_iot: Option<i64>,
    pub num_ap: Option<i64>,
    pub num_sw: Option<i64>,
    pub num_gw: Option<i64>,
    /// Fields this crate does not model, each as its JSON text, by name;
    /// preserved verbatim across updates.
    pub extra: StringMap<String>,
}

impl SubsystemHealth {
    /// `true` when the subsystem reports `ok`.
    pub fn is_ok(&self) -> (b: bool)
        ensures
            b == (self.status is Some && self.status.unwrap()@ == "ok"@),
    {
        opt_str_is(&self.status, "ok")
    }
}

} // verus!
