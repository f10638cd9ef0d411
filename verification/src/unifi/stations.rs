//! Connected clients (`stat/sta`) and client commands (`cmd/stamgr`).

use vstd::prelude::*;
use crate::string_map::StringMap;
use crate::text::owned;
use crate::unifi::types::MacCommand;
verus! {

/// A client currently connected to the network.
#[derive(Debug, Clone, Default, PartialEq, Eq)]
pub struct ActiveClient {
    /// Internal object id (the `_id` field).
    pub id: Option<String>,
    pub mac: String,
    pub hostname: Option<String>,
    pub name: Option<String>,
    pub ip: Option<String>,
    pub network: Option<String>,
    pub network_id: Option<String>,
    pub is_wired: Option<bool>,
    pub is_guest: Option<bool>,
    pub essid: Option<String>,
    pub ap_mac: Option<String>,
    pub sw_mac: Option<String>,
    pub uptime: Option<i64>,
    pub rx_bytes: Option<i64>,
    pub tx_bytes: Option<i64>,
    /// Fields this crate does not model, each as its JSON text, by name;
    /// preserved verbatim across updates.
    pub extra: StringMap<String>,
}

/// A station-manager command addressing one client (`cmd/stamgr`).
#[derive(Debug, Clone, Copy, PartialEq, Eq)]
pub enum StationCommand {
    /// Block a client from the network.
    Block,
    /// Lift a block.
    Unblock,
    /// Disconnect a client so it reconnects.
    Reconnect,
}

/// The `cmd` value of a station-manager command.
pub open spec fn station_command_name(c: StationCommand) -> Seq<char> {
    match c {
        StationCommand::Block => "block-sta"@,
        StationCommand::Unblock => "unblock-sta"@,
        StationCommand::Reconnect => "kick-sta"@,
    }
}

/// The body that runs `command` on the client with MAC address `mac`.
pub fn station_command(command: StationCommand, mac: &str) -> (c: MacCommand)
    ensures
        c.cmd@ == station_command_name(command),
        c.mac@ == mac@,
{
    let cmd = match command {
        StationCommand::Block => owned("block-sta"),
        StationCommand::Unblock => owned("unblock-sta"),
        StationCommand::Reconnect => owned("kick-sta"),
    };
    MacCommand { cmd, mac: owned(mac) }
}

/// The body of `forget-sta`, which removes clients from the known-client list.
#[derive(Debug, Clone, PartialEq, Eq)]
pub struct ForgetCommand {
    pub cmd: String,
    pub macs: Vec<String>,
}

/// The body that forgets the clients with MAC addresses `macs`, in order.
pub fn forget_clients_command(macs: &[&str]) -> (c: ForgetCommand)
    ensures
        c.cmd@ == "forget-sta"@,
        c.macs@.len() == macs@.len(),
        forall|i: int| 0 <= i < macs@.len() ==> #[trigger] c.macs@[i]@ == macs@[i]@,
{
    let mut out: Vec<String> = Vec::new();
    let mut i: usize = 0;
    while i < macs.len()
        invariant
            i <= macs@.len(),
            out@.len() == i,
            forall|j: int| 0 <= j < i ==> #[trigger] out@[j]@ == macs@[j]@,
        decreases macs.len() - i,
    {
        out.push(owned(macs[i]));
        i = i + 1;
    }
    ForgetCommand { cmd: owned("forget-sta"), macs: out }
}

} // verus!
