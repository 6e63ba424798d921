use event_bridge::keymode::{select_backend, Backend, Keymode, ModeEvent};
use event_bridge::network_client::{determine_state, Client, ClientState};
use event_bridge::network_module::{
    get_network_state, state_of_connection_type, NetworkManagerModule, NetworkManagerState,
    PropertyValue, DEFAULT_ICON_SIZE,
};
use event_bridge::submap::HyprlandSubmapModule;
use event_bridge::BridgeError;

#[test]
fn no_primary_connection_with_wireless_enabled_is_wifi_disconnected() {
    assert_eq!(determine_state("/", "", true), ClientState::WifiDisconnected);
}

#[test]
fn no_primary_connection_without_wireless_is_offline() {
    assert_eq!(determine_state("/", "", false), ClientState::Offline);
}

#[test]
fn ethernet_primary_connection_is_wired() {
    assert_eq!(determine_state("/path", "802-3-ethernet", false), ClientState::WiredConnected);
}

#[test]
fn unrecognized_primary_connection_type_is_unknown() {
    assert_eq!(determine_state("/path", "bluetooth", true), ClientState::Unknown);
}

#[test]
fn determine_state_covers_every_category() {
    assert_eq!(determine_state("/p", "adsl", false), ClientState::WiredConnected);
    assert_eq!(determine_state("/p", "pppoe", true), ClientState::WiredConnected);
    assert_eq!(determine_state("/p", "802-11-wireless", false), ClientState::WifiConnected);
    assert_eq!(determine_state("/p", "802-11-olpc-mesh", false), ClientState::WifiConnected);
    assert_eq!(determine_state("/p", "wifi-p2p", false), ClientState::WifiConnected);
    assert_eq!(determine_state("/p", "cdma", false), ClientState::CellularConnected);
    assert_eq!(determine_state("/p", "gsm", false), ClientState::CellularConnected);
    assert_eq!(determine_state("/p", "wimax", false), ClientState::CellularConnected);
    assert_eq!(determine_state("/p", "vpn", false), ClientState::VpnConnected);
    assert_eq!(determine_state("/p", "wireguard", false), ClientState::VpnConnected);
    // The wireless flag plays no part once a primary connection exists.
    assert_eq!(determine_state("/p", "gsm", true), ClientState::CellularConnected);
}

#[test]
fn client_caches_latest_state() {
    let mut client = Client::new();
    assert_eq!(client.state(), ClientState::Unknown);
    client.on_properties_changed("/path", "802-11-wireless", true);
    assert_eq!(client.state(), ClientState::WifiConnected);
    client.on_properties_changed("/", "", true);
    assert_eq!(client.state(), ClientState::WifiDisconnected);
}

fn props(entries: Vec<(&str, PropertyValue)>) -> Vec<(String, PropertyValue)> {
    entries.into_iter().map(|(k, v)| (k.to_string(), v)).collect()
}

#[test]
fn network_state_reads_connection_type() {
    let map = props(vec![
        ("PrimaryConnection", PropertyValue::ObjectPath("/org/fd/NM/ActiveConnection/1".to_string())),
        ("PrimaryConnectionType", PropertyValue::Text("802-3-ethernet".to_string())),
        ("WirelessEnabled", PropertyValue::Flag(true)),
    ]);
    assert_eq!(get_network_state(&map), Ok(NetworkManagerState::Wired));
}

#[test]
fn network_state_without_primary_connection_reads_wireless_flag() {
    let disconnected = props(vec![
        ("PrimaryConnection", PropertyValue::ObjectPath("/".to_string())),
        ("WirelessEnabled", PropertyValue::Flag(true)),
    ]);
    assert_eq!(get_network_state(&disconnected), Ok(NetworkManagerState::WirelessDisconnected));

    let offline = props(vec![
        ("PrimaryConnection", PropertyValue::ObjectPath("/".to_string())),
        ("WirelessEnabled", PropertyValue::Flag(false)),
    ]);
    assert_eq!(get_network_state(&offline), Ok(NetworkManagerState::Offline));
}

#[test]
fn missing_primary_connection_is_a_protocol_violation() {
    let map = props(vec![("WirelessEnabled", PropertyValue::Flag(true))]);
    assert_eq!(get_network_state(&map), Err(BridgeError::ProtocolViolation));
}

#[test]
fn wrong_shaped_property_is_a_protocol_violation() {
    // The primary connection must be an object path, not a plain string.
    let wrong_path = props(vec![
        ("PrimaryConnection", PropertyValue::Text("/".to_string())),
        ("WirelessEnabled", PropertyValue::Flag(true)),
    ]);
    assert_eq!(get_network_state(&wrong_path), Err(BridgeError::ProtocolViolation));

    let wrong_type = props(vec![
        ("PrimaryConnection", PropertyValue::ObjectPath("/p".to_string())),
        ("PrimaryConnectionType", PropertyValue::Flag(false)),
    ]);
    assert_eq!(get_network_state(&wrong_type), Err(BridgeError::ProtocolViolation));

    let missing_flag = props(vec![
        ("PrimaryConnection", PropertyValue::ObjectPath("/".to_string())),
        ("PrimaryConnectionType", PropertyValue::Text("gsm".to_string())),
    ]);
    assert_eq!(get_network_state(&missing_flag), Err(BridgeError::ProtocolViolation));
}

#[test]
fn widget_connection_types_include_wpan() {
    assert_eq!(state_of_connection_type("wpan"), NetworkManagerState::Wireless);
    assert_eq!(state_of_connection_type("wireguard"), NetworkManagerState::Vpn);
    assert_eq!(state_of_connection_type("wimax"), NetworkManagerState::Cellular);
    assert_eq!(state_of_connection_type("bluetooth"), NetworkManagerState::Unknown);
}

#[test]
fn every_category_names_an_icon() {
    assert_eq!(NetworkManagerState::Wired.icon_name(), "network-wired-symbolic");
    assert_eq!(NetworkManagerState::Wireless.icon_name(), "network-wireless-symbolic");
    assert_eq!(
        NetworkManagerState::WirelessDisconnected.icon_name(),
        "network-wireless-acquiring-symbolic"
    );
    assert_eq!(NetworkManagerState::Cellular.icon_name(), "network-cellular-symbolic");
    assert_eq!(NetworkManagerState::Vpn.icon_name(), "network-vpn-symbolic");
    assert_eq!(NetworkManagerState::Offline.icon_name(), "network-wireless-disabled-symbolic");
    assert_eq!(NetworkManagerState::Unknown.icon_name(), "dialog-question-symbolic");
}

#[test]
fn widget_defaults_to_standard_icon_size() {
    let module = NetworkManagerModule::default();
    assert_eq!(module.icon_size, DEFAULT_ICON_SIZE);
    assert_eq!(module.icon_size, 24);
}

#[test]
fn mode_events_carry_their_source_fields() {
    let sway = ModeEvent::from_sway_mode(&"resize".to_string(), true);
    assert_eq!(sway.name, "resize");
    assert!(sway.pango_markup);

    let submap = ModeEvent::from_submap(&"launch".to_string());
    assert_eq!(submap.name, "launch");
    assert!(!submap.pango_markup);
}

#[test]
fn default_mode_shows_an_empty_label() {
    let widget = Keymode {};
    let default_mode = ModeEvent::from_submap(&"default".to_string());
    assert_eq!(widget.label_for_mode(&default_mode), "");
    let resize = ModeEvent::from_sway_mode(&"resize".to_string(), false);
    assert_eq!(widget.label_for_mode(&resize), "resize");
}

#[test]
fn backend_selection_prefers_sway_and_fails_without_backends() {
    assert_eq!(select_backend(true, true), Ok(Backend::Sway));
    assert_eq!(select_backend(true, false), Ok(Backend::Sway));
    assert_eq!(select_backend(false, true), Ok(Backend::Hyprland));
    assert_eq!(select_backend(false, false), Err(BridgeError::NoBackend));
}

#[test]
fn submap_labels_translate_through_the_table() {
    let module = HyprlandSubmapModule {
        map: vec![("launch".to_string(), "Launcher".to_string())],
    };
    assert_eq!(module.label_for_submap(&"default".to_string()), "");
    assert_eq!(module.label_for_submap(&"launch".to_string()), "Launcher");
    assert_eq!(module.label_for_submap(&"resize".to_string()), "resize");

    let empty = HyprlandSubmapModule::new();
    assert_eq!(empty.label_for_submap(&"launch".to_string()), "launch");
}

#[test]
fn every_error_has_a_message() {
    assert_eq!(
        BridgeError::Connectivity.message(),
        "failed to connect to the external source"
    );
    assert_eq!(
        BridgeError::ProtocolViolation.message(),
        "the external source violated its protocol"
    );
    assert_eq!(
        BridgeError::RegistrationRace.message(),
        "failed to get exclusive access to the listener registry"
    );
    assert_eq!(BridgeError::NoBackend.message(), "no supported backend found");
}
