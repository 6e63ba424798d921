//! The network connectivity widget's domain logic: recomputing the
//! connectivity category from a freshly read property map, and the icon each
//! category shows. The property map arrives as plain key/value pairs read
//! off the bus; a missing key or a value of the wrong shape is a protocol
//! violation by the source, surfaced as an error.

use vstd::prelude::*;

use crate::strutil::str_eq;
use crate::BridgeError;

verus! {

/// Connectivity category shown by the network widget.
#[derive(Clone, Copy, Debug, PartialEq, Eq, Structural)]
pub enum NetworkManagerState {
    Cellular,
    Offline,
    Unknown,
    Vpn,
    Wired,
    Wireless,
    WirelessDisconnected,
}

/// One property value as the bus delivers it, reduced to the shapes the
/// bridge reads: an object path, a plain string, a boolean, or anything
/// else.
#[derive(Clone, Debug)]
pub enum PropertyValue {
    ObjectPath(String),
    Text(String),
    Flag(bool),
    Other,
}

/// The first value stored under `key`, if any.
pub open spec fn lookup(props: Seq<(String, PropertyValue)>, key: Seq<char>) -> Option<
    PropertyValue,
>
    decreases props.len(),
{
    if props.len() == 0 {
        Option::None
    } else if props[0].0@ == key {
        Option::Some(props[0].1)
    } else {
        lookup(props.drop_first(), key)
    }
}

/// How a primary connection type names its category. Every type the bridge
/// does not recognize maps to `Unknown`, so protocol additions degrade
/// safely.
pub open spec fn spec_state_of_connection_type(t: Seq<char>) -> NetworkManagerState {
    if t == "802-11-olpc-mesh"@ || t == "802-11-wireless"@ || t == "wifi-p2p"@ || t == "wpan"@ {
        NetworkManagerState::Wireless
    } else if t == "802-3-ethernet"@ || t == "adsl"@ || t == "pppoe"@ {
        NetworkManagerState::Wired
    } else if t == "cdma"@ || t == "gsm"@ || t == "wimax"@ {
        NetworkManagerState::Cellular
    } else if t == "vpn"@ || t == "wireguard"@ {
        NetworkManagerState::Vpn
    } else {
        NetworkManagerState::Unknown
    }
}

/// What the property map decides: the primary connection path must be an
/// object path; when it is `"/"` there is no primary connection and the
/// wireless-enabled flag decides, otherwise the primary connection type
/// decides. A missing property or one of the wrong shape is a protocol
/// violation.
pub open spec fn spec_network_state(props: Seq<(String, PropertyValue)>) -> Result<
    NetworkManagerState,
    BridgeError,
> {
    match lookup(props, "PrimaryConnection"@) {
        Option::Some(PropertyValue::ObjectPath(p)) => if p@ != "/"@ {
            match lookup(props, "PrimaryConnectionType"@) {
                Option::Some(PropertyValue::Text(t)) => Result::Ok(
                    spec_state_of_connection_type(t@),
                ),
                _ => Result::Err(BridgeError::ProtocolViolation),
            }
        } else {
            match lookup(props, "WirelessEnabled"@) {
                Option::Some(PropertyValue::Flag(w)) => Result::Ok(
                    if w {
                        NetworkManagerState::WirelessDisconnected
                    } else {
                        NetworkManagerState::Offline
                    },
                ),
                _ => Result::Err(BridgeError::ProtocolViolation),
            }
        },
        _ => Result::Err(BridgeError::ProtocolViolation),
    }
}

/// Finds the first value stored under `key`.
fn find_property<'a>(props: &'a Vec<(String, PropertyValue)>, key: &str) -> (r: Option<
    &'a PropertyValue,
>)
    ensures
        (r matches Option::Some(v) ==> lookup(props@, key@) == Option::Some(*v)),
        (r is None ==> lookup(props@, key@) is None),
{
    let n = props.len();
    proof {
        assert(props@.skip(0) =~= props@);
    }
    for i in 0..n
        invariant
            n == props@.len(),
            lookup(props@, key@) == lookup(props@.skip(i as int), key@),
    {
        proof {
            assert(props@.skip(i as int)[0] == props@[i as int]);
            assert(props@.skip(i as int).drop_first() =~= props@.skip(i + 1));
        }
        if str_eq(props[i].0.as_str(), key) {
            return Option::Some(&props[i].1);
        }
    }
    proof {
        assert(props@.skip(n as int) =~= Seq::<(String, PropertyValue)>::empty());
    }
    Option::None
}

/// Recomputes the connectivity category from one freshly read property map.
/// Succeeds exactly when the map holds the properties the decision reads, in
/// the shapes the bus contract promises; otherwise the source violated its
/// protocol.
pub fn get_network_state(props: &Vec<(String, PropertyValue)>) -> (r: Result<
    NetworkManagerState,
    BridgeError,
>)
    ensures
        r == spec_network_state(props@),
{
    match find_property(props, "PrimaryConnection") {
        Option::Some(PropertyValue::ObjectPath(p)) => {
            if !str_eq(p.as_str(), "/") {
                match find_property(props, "PrimaryConnectionType") {
                    Option::Some(PropertyValue::Text(t)) => Result::Ok(
                        state_of_connection_type(t.as_str()),
                    ),
                    _ => Result::Err(BridgeError::ProtocolViolation),
                }
            } else {
                match find_property(props, "WirelessEnabled") {
                    Option::Some(PropertyValue::Flag(w)) => Result::Ok(
                        if *w {
                            NetworkManagerState::WirelessDisconnected
                        } else {
                            NetworkManagerState::Offline
                        },
                    ),
                    _ => Result::Err(BridgeError::ProtocolViolation),
                }
            }
        },
        _ => Result::Err(BridgeError::ProtocolViolation),
    }
}

/// Names the connectivity category of one primary connection type.
pub fn state_of_connection_type(t: &str) -> (r: NetworkManagerState)
    ensures
        r == spec_state_of_connection_type(t@),
{
    if str_eq(t, "802-11-olpc-mesh") || str_eq(t, "802-11-wireless") || str_eq(t, "wifi-p2p")
        || str_eq(t, "wpan") {
        NetworkManagerState::Wireless
    } else if str_eq(t, "802-3-ethernet") || str_eq(t, "adsl") || str_eq(t, "pppoe") {
        NetworkManagerState::Wired
    } else if str_eq(t, "cdma") || str_eq(t, "gsm") || str_eq(t, "wimax") {
        NetworkManagerState::Cellular
    } else if str_eq(t, "vpn") || str_eq(t, "wireguard") {
        NetworkManagerState::Vpn
    } else {
        NetworkManagerState::Unknown
    }
}

/// The icon name each connectivity category shows.
pub open spec fn spec_icon_name(s: NetworkManagerState) -> Seq<char> {
    match s {
        NetworkManagerState::Cellular => "network-cellular-symbolic"@,
        NetworkManagerState::Offline => "network-wireless-disabled-symbolic"@,
        NetworkManagerState::Unknown => "dialog-question-symbolic"@,
        NetworkManagerState::Vpn => "network-vpn-symbolic"@,
        NetworkManagerState::Wired => "network-wired-symbolic"@,
        NetworkManagerState::Wireless => "network-wireless-symbolic"@,
        NetworkManagerState::WirelessDisconnected => "network-wireless-acquiring-symbolic"@,
    }
}

impl NetworkManagerState {
    /// The icon name this category shows.
    pub fn icon_name(&self) -> (r: &'static str)
        ensures
            r@ == spec_icon_name(*self),
    {
        match self {
            NetworkManagerState::Cellular => "network-cellular-symbolic",
            NetworkManagerState::Offline => "network-wireless-disabled-symbolic",
            NetworkManagerState::Unknown => "dialog-question-symbolic",
            NetworkManagerState::Vpn => "network-vpn-symbolic",
            NetworkManagerState::Wired => "network-wired-symbolic",
            NetworkManagerState::Wireless => "network-wireless-symbolic",
            NetworkManagerState::WirelessDisconnected => "network-wireless-acquiring-symbolic",
        }
    }
}

/// The icon size the network widget uses when its configuration names none.
pub const DEFAULT_ICON_SIZE: i32 = 24;

/// The network widget's settings.
#[derive(Clone, Copy, Debug, PartialEq, Eq, Structural)]
pub struct NetworkManagerModule {
    pub icon_size: i32,
}

impl Default for NetworkManagerModule {
    /// The default settings: the default icon size.
    fn default() -> (m: NetworkManagerModule)
        ensures
            m.icon_size == DEFAULT_ICON_SIZE,
    {
        NetworkManagerModule { icon_size: DEFAULT_ICON_SIZE }
    }
}

} // verus!
