use wayle::iwd_types::SecurityType;
use wayle::networks::NetworkSnapshot;
use wayle::passphrases::PassphraseStore;
use wayle::station::{
    classify_connect_failure, connect_error, is_descendant, is_real_path, network_proxy_error,
    network_ssid, ordered_snapshots, ConnectFailure, MonitorActions, NetworkDetails,
    OrderedNetwork, StationState,
};
use wayle::{ConnectionState, Error};

fn net(ssid: &str, path: &str) -> NetworkSnapshot {
    NetworkSnapshot {
        ssid: ssid.into(),
        strength: 75,
        security: SecurityType::Psk,
        object_path: path.into(),
        known: false,
    }
}

fn actions(update_diagnostics: bool, refresh_networks: bool, resync: bool) -> MonitorActions {
    MonitorActions { update_diagnostics, refresh_networks, resync }
}

#[test]
fn paths() {
    assert!(is_real_path("/net/connman/iwd/0/4/6c61625f707074"));
    assert!(!is_real_path("/"));
    assert!(!is_real_path(""));
    assert!(is_descendant("/net/connman/iwd/0/4/abc_psk", "/net/connman/iwd/0/4"));
    assert!(!is_descendant("/net/connman/iwd/0/45/abc_psk", "/net/connman/iwd/0/4"));
    assert!(!is_descendant("/net/connman/iwd/0/4", "/net/connman/iwd/0/4"));
    assert!(!is_descendant("/other", "/net/connman/iwd/0/4"));
}

#[test]
fn connect_failures() {
    assert_eq!(classify_connect_failure(Some("net.connman.iwd.Failed")), ConnectFailure::Rejected);
    assert_eq!(classify_connect_failure(Some("net.connman.iwd.Aborted")), ConnectFailure::Aborted);
    assert_eq!(classify_connect_failure(Some("org.freedesktop.DBus.Error.Timeout")), ConnectFailure::Other);
    assert_eq!(classify_connect_failure(None), ConnectFailure::Other);
    assert_eq!(connect_error(Some("net.connman.iwd.Failed"), "x".into()), Error::ConnectionFailed);
    assert_eq!(connect_error(Some("net.connman.iwd.Aborted"), "x".into()), Error::ConnectionAborted);
    assert_eq!(
        connect_error(None, "timed out".into()),
        Error::OperationFailed { operation: "connect to network".into(), source: "timed out".into() }
    );
}

#[test]
fn ssid_by_path() {
    let networks = vec![net("home", "/a"), net("cafe", "/b")];
    assert_eq!(network_ssid(&networks, "/b"), Some("cafe".to_string()));
    assert_eq!(network_ssid(&networks, "/c"), None);
}

#[test]
fn foreground_connect_owns_connection() {
    let mut s = StationState::from_device(true, "connected", false, Some("home".into()), PassphraseStore::new());
    s.set_networks(vec![net("home", "/a"), net("cafe", "/b")]);
    s.begin_connect("/b", Some("secret".into()));
    assert_eq!(s.passphrase_for("/b"), Some("secret".to_string()));
    assert_eq!(s.connection, ConnectionState::Connecting { ssid: "cafe".into() });
    // Transient signals during the switch do not clobber the target.
    s.observe_connection("disconnected", None);
    s.on_state_changed("connected", Some("home".into()));
    assert_eq!(s.connection, ConnectionState::Connecting { ssid: "cafe".into() });
    s.publish_target_name(Some("other".into()));
    assert_eq!(s.connection, ConnectionState::Connecting { ssid: "cafe".into() });
    s.end_connect("/b", "connected", Some("cafe".into()));
    assert_eq!(s.passphrase_for("/b"), None);
    assert_eq!(s.connection, ConnectionState::Connected { ssid: "cafe".into() });
    assert_eq!(s.pending_connects, 0);
    // Without an attempt the monitor publishes what IWD reports.
    s.observe_connection("disconnected", None);
    assert_eq!(s.connection, ConnectionState::Idle);
}

#[test]
fn proxy_name_is_published_when_target_unknown() {
    let mut s = StationState::from_device(true, "disconnected", false, None, PassphraseStore::new());
    s.begin_connect("/unknown", None);
    assert_eq!(s.passphrase_for("/unknown"), None);
    assert_eq!(s.connection, ConnectionState::Idle);
    s.publish_target_name(None);
    assert_eq!(s.connection, ConnectionState::Idle);
    s.publish_target_name(Some("hidden".into()));
    assert_eq!(s.connection, ConnectionState::Connecting { ssid: "hidden".into() });
    s.end_connect("/unknown", "disconnected", None);
    assert_eq!(s.connection, ConnectionState::Idle);
}

#[test]
fn power_changes() {
    let mut s = StationState::from_device(true, "connected", true, Some("home".into()), PassphraseStore::new());
    s.apply_diagnostics(Some(-58), Some(5180));
    s.set_networks(vec![net("home", "/a")]);
    assert_eq!(s.on_powered_changed(true), actions(false, false, false));
    assert_eq!(s.strength, Some(100));
    assert_eq!(s.on_powered_changed(false), actions(false, false, false));
    assert_eq!(s.connection, ConnectionState::Idle);
    assert!(!s.scanning);
    assert_eq!(s.strength, None);
    assert_eq!(s.frequency, None);
    assert!(s.networks.is_empty());
    assert!(!s.begin_refresh());
    assert_eq!(s.on_powered_changed(true), actions(false, false, true));
    s.resync("connected", true, Some("home".into()));
    assert_eq!(s.connection, ConnectionState::Connected { ssid: "home".into() });
    assert!(s.scanning);
    assert!(s.begin_refresh());
}

#[test]
fn monitor_signals() {
    let mut s = StationState::from_device(true, "connecting", false, Some("home".into()), PassphraseStore::new());
    assert_eq!(s.on_poll_tick(), actions(false, false, false));
    s.apply_diagnostics(Some(-70), None);
    assert_eq!(s.strength, Some(55));
    assert_eq!(s.on_state_changed("connected", Some("home".into())), actions(true, true, false));
    assert_eq!(s.strength, Some(55));
    assert_eq!(s.on_poll_tick(), actions(true, false, false));
    assert_eq!(s.on_state_changed("roaming", Some("home".into())), actions(false, true, false));
    assert_eq!(s.connection, ConnectionState::Connected { ssid: "home".into() });
    assert_eq!(s.strength, None);
    assert_eq!(s.on_scanning_changed(true), actions(false, false, false));
    assert_eq!(s.on_scanning_changed(false), actions(false, true, false));
    assert_eq!(
        s.on_connected_network_changed("connected", Some("cafe".into())),
        actions(false, true, false)
    );
    assert_eq!(s.connection, ConnectionState::Connected { ssid: "cafe".into() });
    let station = "/net/connman/iwd/0/4";
    assert_eq!(
        s.on_interfaces_changed(true, "/net/connman/iwd/0/4/x_psk", station),
        actions(false, true, false)
    );
    assert_eq!(s.on_interfaces_changed(false, "/net/connman/iwd/0/4/x_psk", station), actions(false, false, false));
    assert_eq!(s.on_interfaces_changed(true, "/net/connman/iwd/0/5/x_psk", station), actions(false, false, false));
}

#[test]
fn proxy_creation_failure() {
    assert_eq!(
        network_proxy_error("no such object".into()),
        Error::OperationFailed {
            operation: "create network proxy".into(),
            source: "no such object".into()
        }
    );
}

#[test]
fn passphrase_discarded_on_every_exit() {
    let mut s = StationState::from_device(true, "disconnected", false, None, PassphraseStore::new());
    s.begin_connect("/a", Some("first".into()));
    s.begin_connect("/b", Some("second".into()));
    assert_eq!(s.passphrase_for("/a"), Some("first".to_string()));
    assert_eq!(s.pending_connects, 2);
    // The attempt on /a failed before it had a proxy.
    s.end_connect("/a", "disconnected", None);
    assert_eq!(s.passphrase_for("/a"), None);
    assert_eq!(s.passphrase_for("/b"), Some("second".to_string()));
    s.end_connect("/b", "connected", Some("cafe".into()));
    assert_eq!(s.passphrase_for("/b"), None);
    assert_eq!(s.pending_connects, 0);
}

#[test]
fn passphrase_store_replaces_and_discards() {
    let mut store = PassphraseStore::new();
    assert_eq!(store.get("/a"), None);
    store.insert("/a".into(), "one".into());
    store.insert("/b".into(), "two".into());
    store.insert("/a".into(), "three".into());
    assert_eq!(store.get("/a"), Some("three".to_string()));
    store.discard("/a");
    assert_eq!(store.get("/a"), None);
    assert_eq!(store.get("/b"), Some("two".to_string()));
}

fn ordered(path: &str, signal: i16, details: Option<(&str, &str, bool)>) -> OrderedNetwork {
    OrderedNetwork {
        object_path: path.into(),
        signal,
        details: details.map(|(name, network_type, known)| NetworkDetails {
            name: name.into(),
            network_type: network_type.into(),
            known,
        }),
    }
}

#[test]
fn refresh_builds_ordered_list() {
    let list = ordered_snapshots(&vec![
        ordered("/a", -5500, Some(("home", "psk", true))),
        ordered("/gone", -6000, None),
        ordered("/c", -7099, Some(("cafe", "open", false))),
        ordered("/d", -9000, Some(("corp", "8021x", false))),
    ]);
    assert_eq!(list.len(), 3);
    assert_eq!(list[0].ssid, "home");
    assert_eq!(list[0].strength, 100);
    assert_eq!(list[0].security, SecurityType::Psk);
    assert_eq!(list[0].object_path, "/a");
    assert!(list[0].known);
    assert_eq!(list[1].ssid, "cafe");
    assert_eq!(list[1].strength, 55);
    assert_eq!(list[1].security, SecurityType::Open);
    assert_eq!(list[2].ssid, "corp");
    assert_eq!(list[2].strength, 10);
    assert_eq!(list[2].security, SecurityType::Enterprise);
}

#[test]
fn failed_refresh_keeps_list() {
    let mut s = StationState::from_device(true, "disconnected", false, None, PassphraseStore::new());
    s.set_networks(vec![net("home", "/a")]);
    s.finish_refresh(None);
    assert_eq!(s.networks.len(), 1);
    s.finish_refresh(Some(vec![ordered("/b", -6500, Some(("cafe", "psk", false)))]));
    assert_eq!(s.networks.len(), 1);
    assert_eq!(s.networks[0].ssid, "cafe");
    assert_eq!(s.networks[0].strength, 75);
}
