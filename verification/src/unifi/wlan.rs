//! Wireless networks (`rest/wlanconf`).

use vstd::prelude::*;
use crate::string_map::StringMap;
verus! {

/// A wireless network (SSID).
#[derive(Debug, Clone, Default, PartialEq, Eq)]
pub struct WlanConf {
    /// Internal object id (the `_id` field).
    pub id: Option<String>,
    /// The SSID.
    pub name: String,
    pub enabled: Option<bool>,
    /// `open`, `wpapsk`, `wpaeap`, …
    pub security: Option<String>,
    /// The pre-shared key.
    pub x_passphrase: Option<String>,
    pub wpa_mode: Option<String>,
    pub wpa_enc: Option<String>,
    pub is_guest: Option<bool>,
    pub networkconf_id: Option<String>,
    pub usergroup_id: Option<String>,
    pub wlangroup_id: Option<String>,
    pub ap_group_ids: Option<Vec<String>>,
    /// Fields this crate does not model, each as its JSON text, by name;
    /// preserved verbatim across updates.
    pub extra: StringMap<String>,
}

} // verus!
