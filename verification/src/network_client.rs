//! Network connectivity projection: a cached categorical connectivity state,
//! recomputed from the primary-connection properties of the system bus on
//! every relevant property change. Only the latest state is kept
//! (last-value-wins; a new subscriber reads the current value).

use vstd::prelude::*;

use crate::strutil::str_eq;

verus! {

/// Categorical connectivity state of the machine's primary connection.
#[derive(Clone, Copy, Debug, PartialEq, Eq, Structural)]
pub enum ClientState {
    WiredConnected,
    WifiConnected,
    CellularConnected,
    VpnConnected,
    WifiDisconnected,
    Offline,
    Unknown,
}

/// The pure decision function behind `determine_state`.
///
/// A primary connection path of `"/"` means no primary connection: the state
/// is then decided by the wireless-enabled flag alone. Otherwise the
/// connection type decides the category, with every unrecognized type mapped
/// to `Unknown`.
pub open spec fn spec_determine_state(
    primary_connection: Seq<char>,
    primary_connection_type: Seq<char>,
    wireless_enabled: bool,
) -> ClientState {
    if primary_connection == "/"@ {
        if wireless_enabled {
            ClientState::WifiDisconnected
        } else {
            ClientState::Offline
        }
    } else {
        if primary_connection_type == "802-3-ethernet"@ || primary_connection_type == "adsl"@
            || primary_connection_type == "pppoe"@ {
            ClientState::WiredConnected
        } else if primary_connection_type == "802-11-olpc-mesh"@
            || primary_connection_type == "802-11-wireless"@
            || primary_connection_type == "wifi-p2p"@ {
            ClientState::WifiConnected
        } else if primary_connection_type == "cdma"@ || primary_connection_type == "gsm"@
            || primary_connection_type == "wimax"@ {
            ClientState::CellularConnected
        } else if primary_connection_type == "vpn"@ || primary_connection_type == "wireguard"@ {
            ClientState::VpnConnected
        } else {
            ClientState::Unknown
        }
    }
}

/// Computes the connectivity category from the primary connection path, the
/// primary connection type and the wireless-enabled flag. Pure and total:
/// unrecognized connection types map to `Unknown`.
pub fn determine_state(
    primary_connection: &str,
    primary_connection_type: &str,
    wireless_enabled: bool,
) -> (r: ClientState)
    ensures
        r == spec_determine_state(primary_connection@, primary_connection_type@, wireless_enabled),
{
    if str_eq(primary_connection, "/") {
        if wireless_enabled {
            ClientState::WifiDisconnected
        } else {
            ClientState::Offline
        }
    } else {
        if str_eq(primary_connection_type, "802-3-ethernet")
            || str_eq(primary_connection_type, "adsl")
            || str_eq(primary_connection_type, "pppoe") {
            ClientState::WiredConnected
        } else if str_eq(primary_connection_type, "802-11-olpc-mesh")
            || str_eq(primary_connection_type, "802-11-wireless")
            || str_eq(primary_connection_type, "wifi-p2p") {
            ClientState::WifiConnected
        } else if str_eq(primary_connection_type, "cdma")
            || str_eq(primary_connection_type, "gsm")
            || str_eq(primary_connection_type, "wimax") {
            ClientState::CellularConnected
        } else if str_eq(primary_connection_type, "vpn")
            || str_eq(primary_connection_type, "wireguard") {
            ClientState::VpnConnected
        } else {
            ClientState::Unknown
        }
    }
}

/// The connectivity client's state cell: the current category, recomputed on
/// every property change. The surrounding process holds the bus connection,
/// feeds property reads in, and mirrors the cell into its signal for
/// subscribers.
pub struct Client {
    state: ClientState,
}

impl Client {
    /// The cached category, as contracts speak of it.
    pub closed spec fn spec_state(&self) -> ClientState {
        self.state
    }

    /// A fresh client knows nothing yet.
    pub fn new() -> (c: Client)
        ensures
            c.spec_state() == ClientState::Unknown,
    {
        Client { state: ClientState::Unknown }
    }

    /// The current connectivity category (last-value-wins: this is the only
    /// value a subscriber attaching now observes).
    pub fn state(&self) -> (s: ClientState)
        ensures
            s == self.spec_state(),
    {
        self.state
    }

    /// One step of the property-change loop: recompute the category from the
    /// freshly read properties and cache it.
    pub fn on_properties_changed(
        &mut self,
        primary_connection: &str,
        primary_connection_type: &str,
        wireless_enabled: bool,
    )
        ensures
            final(self).spec_state() == spec_determine_state(
                primary_connection@,
                primary_connection_type@,
                wireless_enabled,
            ),
    {
        self.state = determine_state(
            primary_connection,
            primary_connection_type,
            wireless_enabled,
        );
    }
}

} // verus!
