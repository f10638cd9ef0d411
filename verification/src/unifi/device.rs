//! UniFi devices: access points, switches, gateways.
//!
//! Live state is read from `stat/device`, settings are pushed to
//! `rest/device`, and management commands go to `cmd/devmgr`.

use vstd::prelude::*;
use crate::string_map::StringMap;
use crate::text::owned;
use crate::unifi::types::MacCommand;
verus! {

/// A UniFi device and its current state. Only commonly used fields are
/// typed; everything else (radios, port table, stats, …) is kept in `extra`.
#[derive(Debug, Clone, Default, PartialEq, Eq)]
pub struct Device {
    /// Internal object id (the `_id` field).
    pub id: Option<String>,
    pub mac: String,
    pub name: Option<String>,
    pub model: Option<String>,
    /// Device class (the `type` field): `uap` (access point), `usw` (switch),
    /// `ugw` / `udm` (gateway).
    pub device_type: Option<String>,
    pub version: Option<String>,
    pub adopted: Option<bool>,
    pub disabled: Option<bool>,
    /// Connection state (`1` = connected; `0` = disconnected; other values are
    /// transitional such as provisioning/adopting).
    pub state: Option<i64>,
    pub ip: Option<String>,
    /// Seconds since the device last booted.
    pub uptime: Option<i64>,
    /// Number of clients currently associated.
    pub num_sta: Option<i64>,
    pub upgradable: Option<bool>,
    /// Fields this crate does not model, each as its JSON text, by name;
    /// preserved verbatim across updates.
    pub extra: StringMap<String>,
}

impl Device {
    /// `true` when `state` reports the device as connected.
    pub fn is_connected(&self) -> (b: bool)
        ensures
            b == (self.state == Some(1i64)),
    {
        match self.state {
            Some(s) => s == 1,
            None => false,
        }
    }
}

/// A device-manager command (`cmd/devmgr`).
#[derive(Debug, Clone, Copy, PartialEq, Eq)]
pub enum DeviceCommand {
    /// Reboot the device.
    Restart,
    /// Adopt a pending device.
    Adopt,
    /// Re-push configuration to the device.
    ForceProvision,
}

/// The `cmd` value of a device-manager command.
pub open spec fn device_command_name(c: DeviceCommand) -> Seq<char> {
    match c {
        DeviceCommand::Restart => "restart"@,
        DeviceCommand::Adopt => "adopt"@,
        DeviceCommand::ForceProvision => "force-provision"@,
    }
}

/// The body that runs `command` on the device with MAC address `mac`.
pub fn device_command(command: DeviceCommand, mac: &str) -> (c: MacCommand)
    ensures
        c.cmd@ == device_command_name(command),
        c.mac@ == mac@,
{
    let cmd = match command {
        DeviceCommand::Restart => owned("restart"),
        DeviceCommand::Adopt => owned("adopt"),
        DeviceCommand::ForceProvision => owned("force-provision"),
    };
    MacCommand { cmd, mac: owned(mac) }
}

} // verus!
