use wayle::active_connection::{CardIcon, WifiCard};
use wayle::text::Text;
use wayle::ConnectionState;

fn connecting() -> ConnectionState {
    ConnectionState::Connecting { ssid: "cafe".into() }
}

fn connected() -> ConnectionState {
    ConnectionState::Connected { ssid: "home".into() }
}

#[test]
fn idle_card_with_error() {
    let mut card = WifiCard::new(ConnectionState::Idle, None, None);
    assert!(!card.card_visible());
    assert_eq!(card.display_wifi_name(), Text::Message("dropdown-iwd-wifi"));
    card.set_connecting("cafe".into());
    card.show_error("cafe".into(), "Wrong password".into());
    assert!(card.has_wifi_error());
    assert!(card.card_visible());
    assert_eq!(card.display_wifi_name(), Text::Literal("cafe".into()));
    assert_eq!(card.status_label(), Some(Text::Message("dropdown-iwd-error")));
    assert!(card.wifi_detail_visible());
    assert_eq!(card.wifi_detail(), "Wrong password");
    assert_eq!(card.error_tooltip(), Some("Wrong password"));
    assert_eq!(card.wifi_detail_classes(), vec!["network-connection-detail", "error"]);
    assert_eq!(card.wifi_icon_classes(), vec!["network-connection-icon", "error"]);
    assert_eq!(card.effective_wifi_icon(), CardIcon::Named("network-wireless-offline-symbolic"));
    assert_eq!(card.status_classes(), vec!["badge-subtle", "network-connection-status", "error"]);
    card.set_hovered(true);
    assert_eq!(card.visible_child(), "error-actions");
    card.dismiss_error();
    assert!(!card.has_wifi_error());
    assert_eq!(card.visible_child(), "status");
}

#[test]
fn stale_error_is_hidden_while_connected() {
    let mut card = WifiCard::new(connecting(), None, None);
    card.set_connecting("cafe".into());
    card.show_error("cafe".into(), "Failed".into());
    assert!(card.error.is_some());
    assert!(!card.has_wifi_error());
    assert_eq!(card.status_label(), Some(Text::Message("dropdown-iwd-connecting")));
    assert_eq!(
        card.effective_wifi_icon(),
        CardIcon::Named("network-wireless-acquiring-symbolic")
    );
    assert_eq!(card.status_classes(), vec!["badge-subtle", "network-connection-status", "warning"]);
    card.set_hovered(true);
    assert_eq!(card.visible_child(), "cancel-actions");
    card.on_wifi_changed(connected(), Some(75), Some(5180));
    assert!(card.error.is_none());
    assert!(card.attempt.is_none());
    assert_eq!(card.display_wifi_name(), Text::Literal("home".into()));
    assert_eq!(card.status_label(), None);
    assert_eq!(card.wifi_detail(), "5 GHz");
    assert_eq!(card.effective_wifi_icon(), CardIcon::Signal(75));
    assert_eq!(card.wifi_icon_classes(), vec!["network-connection-icon", "wifi"]);
    assert_eq!(card.visible_child(), "actions");
}

#[test]
fn forget_and_station_loss() {
    let mut card = WifiCard::new(connected(), Some(35), Some(2412));
    assert_eq!(card.take_forget_target(), Some("home".to_string()));
    card.on_station_changed(true);
    assert_eq!(card.connection, connected());
    card.on_station_changed(false);
    assert_eq!(card.connection, ConnectionState::Idle);
    assert_eq!(card.strength, None);
    assert_eq!(card.take_forget_target(), None);
    assert_eq!(card.effective_wifi_icon(), CardIcon::Signal(0));
    assert_eq!(card.wifi_detail(), "");
    assert!(!card.wifi_detail_visible());
}

#[test]
fn failure_after_cancel_or_forget_is_dropped() {
    let mut card = WifiCard::new(ConnectionState::Idle, None, None);
    // No attempt was started: a failure is not taken.
    card.show_error("cafe".into(), "Failed".into());
    assert!(card.error.is_none());
    card.set_connecting("cafe".into());
    card.cancel();
    assert!(card.attempt.is_none());
    card.show_error("cafe".into(), "Aborted".into());
    assert!(card.error.is_none());
    assert!(!card.card_visible());
    let mut card = WifiCard::new(connecting(), None, None);
    card.set_connecting("cafe".into());
    assert_eq!(card.take_forget_target(), Some("cafe".to_string()));
    card.on_wifi_changed(ConnectionState::Idle, None, None);
    card.show_error("cafe".into(), "Aborted".into());
    assert!(card.error.is_none());
    // Clearing the connecting display drops a later failure too; dismissing
    // keeps the attempt, so a failure still arrives.
    card.set_connecting("cafe".into());
    card.dismiss_error();
    card.show_error("cafe".into(), "Wrong password".into());
    assert!(card.has_wifi_error());
    card.clear_connecting();
    card.dismiss_error();
    card.show_error("cafe".into(), "Wrong password".into());
    assert!(card.error.is_none());
}
