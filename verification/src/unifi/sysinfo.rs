//! Controller system information (`stat/sysinfo`).

use vstd::prelude::*;
use crate::string_map::StringMap;
verus! {

/// Controller version and host details.
#[derive(Debug, Clone, Default, PartialEq, Eq)]
pub struct SysInfo {
    pub version: Option<String>,
    pub build: Option<String>,
    pub hostname: Option<String>,
    pub name: Option<String>,
    pub uptime: Option<i64>,
    /// Fields this crate does not model, each as its JSON text, by name;
    /// preserved verbatim across updates.
    pub extra: StringMap<String>,
}

} // verus!
