use wayle::iwd_types::{dbm_to_percent, signal_to_percent, ConnectionState, SecurityType};

#[test]
fn connection_state_from_raw_state() {
    let net = || Some(String::from("net"));
    assert_eq!(
        ConnectionState::from_raw_state("connected", net()),
        ConnectionState::Connected { ssid: "net".into() }
    );
    // Roaming stays Connected, not Connecting.
    assert_eq!(
        ConnectionState::from_raw_state("roaming", net()),
        ConnectionState::Connected { ssid: "net".into() }
    );
    assert_eq!(
        ConnectionState::from_raw_state("connecting", net()),
        ConnectionState::Connecting { ssid: "net".into() }
    );
    // Disconnecting/disconnected/unknown collapse to Idle.
    assert_eq!(ConnectionState::from_raw_state("disconnecting", net()), ConnectionState::Idle);
    assert_eq!(ConnectionState::from_raw_state("disconnected", None), ConnectionState::Idle);
    assert_eq!(ConnectionState::from_raw_state("connected", None), ConnectionState::Idle);
}

#[test]
fn security_from_iwd_type() {
    assert_eq!(SecurityType::from_iwd_type("open"), SecurityType::Open);
    assert_eq!(SecurityType::from_iwd_type("wep"), SecurityType::Wep);
    assert_eq!(SecurityType::from_iwd_type("psk"), SecurityType::Psk);
    assert_eq!(SecurityType::from_iwd_type("8021x"), SecurityType::Enterprise);
    assert_eq!(SecurityType::from_iwd_type("other"), SecurityType::Open);
}

#[test]
fn signal_conversion_100dbm_scale() {
    assert_eq!(signal_to_percent(-5000), 100); // -50 dBm -> excellent
    assert_eq!(signal_to_percent(-6500), 75); // -65 dBm -> good
    assert_eq!(signal_to_percent(-7000), 55); // -70 dBm -> ok
    assert_eq!(signal_to_percent(-8000), 35); // -80 dBm -> weak
    assert_eq!(signal_to_percent(-9000), 10); // -90 dBm -> none
}

#[test]
fn dbm_thresholds_match_iwgtk() {
    assert_eq!(dbm_to_percent(-55), 100); // excellent
    assert_eq!(dbm_to_percent(-60), 75); // boundary: not > -60 -> good
    assert_eq!(dbm_to_percent(-65), 75); // good
    assert_eq!(dbm_to_percent(-70), 55); // ok
    assert_eq!(dbm_to_percent(-78), 35); // weak
    assert_eq!(dbm_to_percent(-85), 10); // none
}

#[test]
fn signal_truncates_toward_zero() {
    // -5999 is -59.99 dBm, which truncates to -59 dBm (excellent).
    assert_eq!(signal_to_percent(-5999), 100);
    assert_eq!(signal_to_percent(-6000), 75);
    assert_eq!(signal_to_percent(3000), 100);
}

#[test]
fn ssid_of_connection_states() {
    assert_eq!(ConnectionState::Idle.ssid(), None);
    assert_eq!(ConnectionState::Connecting { ssid: "a".into() }.ssid(), Some("a"));
    assert_eq!(ConnectionState::Connected { ssid: "b".into() }.ssid(), Some("b"));
}
