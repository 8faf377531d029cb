use wayle::available_networks::{
    connect_outcome, ConnectOutcome, ListState, NetworkList, Selection,
};
use wayle::iwd_types::SecurityType;
use wayle::networks::NetworkSnapshot;

fn net(ssid: &str, security: SecurityType, known: bool, path: &str) -> NetworkSnapshot {
    NetworkSnapshot { ssid: ssid.into(), strength: 55, security, object_path: path.into(), known }
}

fn scan() -> Vec<NetworkSnapshot> {
    vec![
        net("home", SecurityType::Psk, true, "/a"),
        net("cafe", SecurityType::Psk, false, "/b"),
        net("library", SecurityType::Open, false, "/c"),
    ]
}

#[test]
fn rebuild_excludes_active_network() {
    let mut list = NetworkList::new(true, true);
    let s = scan();
    list.rebuild(Some(&s), Some("home".into()));
    let ssids: Vec<&str> = list.networks.iter().map(|n| n.ssid.as_str()).collect();
    assert_eq!(ssids, vec!["cafe", "library"]);
    list.rebuild(None, None);
    assert!(list.networks.is_empty());
}

#[test]
fn secured_unknown_network_prompts_for_password() {
    let mut list = NetworkList::new(true, true);
    let s = scan();
    list.rebuild(Some(&s), Some("home".into()));
    match list.select_network(0, Some(&s), Some("home".into())) {
        Selection::PromptPassword { ssid, security, strength } => {
            assert_eq!(ssid, "cafe");
            assert_eq!(security, SecurityType::Psk);
            assert_eq!(strength, 55);
        }
        other => panic!("unexpected {other:?}"),
    }
    assert_eq!(list.state, ListState::PasswordEntry);
    let request =
        list.submit_password("hunter2".into(), Some(&s), Some("home".into())).expect("request");
    assert_eq!(request.network_path, "/b");
    assert_eq!(request.password.as_deref(), Some("hunter2"));
    assert!(request.forget_first);
    assert!(request.secured);
    assert_eq!(list.state, ListState::Connecting);
    // Connecting rebuilds the list at once: the target is the active SSID and
    // leaves it; the previously connected network comes back.
    assert_eq!(list.active_ssid(Some("home".into())), Some("cafe".to_string()));
    let ssids: Vec<&str> = list.networks.iter().map(|n| n.ssid.as_str()).collect();
    assert_eq!(ssids, vec!["home", "library"]);
    list.connection_failed();
    assert_eq!(list.state, ListState::Normal);
    assert!(list.selection.is_none());
}

#[test]
fn open_network_connects_directly() {
    let mut list = NetworkList::new(true, true);
    let s = scan();
    list.rebuild(Some(&s), None);
    assert!(matches!(list.select_network(9, Some(&s), None), Selection::Ignored));
    match list.select_network(2, Some(&s), None) {
        Selection::Connect(request) => {
            assert_eq!(request.ssid, "library");
            assert_eq!(request.password, None);
            assert!(!request.forget_first);
            assert!(!request.secured);
        }
        other => panic!("unexpected {other:?}"),
    }
    assert_eq!(list.state, ListState::Connecting);
    let ssids: Vec<&str> = list.networks.iter().map(|n| n.ssid.as_str()).collect();
    assert_eq!(ssids, vec!["home", "cafe"]);
    // Known networks connect without a prompt too.
    let mut list = NetworkList::new(true, true);
    list.rebuild(Some(&s), None);
    assert!(matches!(list.select_network(0, None, None), Selection::Unavailable));
    assert_eq!(list.state, ListState::Normal);
    assert_eq!(list.networks.len(), 3);
}

#[test]
fn cancel_and_wifi_changes() {
    let mut list = NetworkList::new(true, true);
    let s = scan();
    list.rebuild(Some(&s), None);
    list.select_network(1, Some(&s), None);
    list.cancel_password();
    assert_eq!(list.state, ListState::Normal);
    assert!(list.selection.is_none());

    list.select_network(2, Some(&s), None);
    assert!(list.set_wifi_available(false, false));
    assert_eq!(list.state, ListState::Normal);
    assert!(!list.set_wifi_available(true, true));

    list.rebuild(Some(&s), None);
    list.select_network(2, Some(&s), None);
    assert!(list.set_wifi_enabled(false));
    assert!(list.networks.is_empty());
    assert!(!list.set_wifi_enabled(true));
}

#[test]
fn outcomes() {
    assert_eq!(connect_outcome(true, true), ConnectOutcome::Settled);
    assert_eq!(connect_outcome(false, true), ConnectOutcome::AuthFailed);
    assert_eq!(connect_outcome(false, false), ConnectOutcome::Failed);
}
