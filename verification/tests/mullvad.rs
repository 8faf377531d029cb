use wayle::bar::TunnelState;
use wayle::mullvad::{
    choose_flag_icon, country_code_from_hostname, flag_icon_name, CurrentConnection, RelayNetwork,
    TunnelStatus, FLAG_FALLBACK,
};
use wayle::text::Text;

fn card(state: TunnelState, network: Option<RelayNetwork>) -> CurrentConnection {
    CurrentConnection { status: TunnelStatus { state, network }, hovered: false }
}

fn relay(country: &str, city: Option<&str>, hostname: Option<&str>) -> RelayNetwork {
    RelayNetwork {
        country: country.into(),
        city: city.map(String::from),
        hostname: hostname.map(String::from),
    }
}

#[test]
fn country_code_from_relay_hostnames() {
    assert_eq!(country_code_from_hostname("se-got-wg-101"), Some("se".to_string()));
    assert_eq!(country_code_from_hostname("US-nyc-wg-3"), Some("us".to_string()));
    assert_eq!(country_code_from_hostname("de"), Some("de".to_string()));
    assert_eq!(country_code_from_hostname("usa-nyc"), None);
    assert_eq!(country_code_from_hostname("1a-x"), None);
    assert_eq!(country_code_from_hostname("-se"), None);
    assert_eq!(country_code_from_hostname(""), None);
    assert_eq!(country_code_from_hostname("é-x"), None);
}

#[test]
fn flag_icon_candidates() {
    assert_eq!(flag_icon_name(" SE "), Some("cm-flag-se".to_string()));
    assert_eq!(flag_icon_name("   "), None);
    assert_eq!(choose_flag_icon(Some("cm-flag-se".into()), true), "cm-flag-se");
    assert_eq!(choose_flag_icon(Some("cm-flag-se".into()), false), FLAG_FALLBACK);
    assert_eq!(choose_flag_icon(None, true), "ld-globe-symbolic");
}

#[test]
fn card_title_and_subtitle() {
    let c = card(TunnelState::Connected, Some(relay("Sweden", Some("Gothenburg"), Some("se-got-wg-101"))));
    assert_eq!(c.title(), Text::Literal("Gothenburg, Sweden".into()));
    assert_eq!(c.subtitle(), "se-got-wg-101");
    assert!(c.has_subtitle());
    assert_eq!(c.flag_code(), Some("se".to_string()));

    let c = card(TunnelState::Connected, Some(relay("Sweden", Some(""), None)));
    assert_eq!(c.title(), Text::Literal("Sweden".into()));
    assert_eq!(c.subtitle(), "");
    assert!(!c.has_subtitle());
    assert_eq!(c.flag_code(), None);

    assert_eq!(
        card(TunnelState::Connecting, None).title(),
        Text::Message("dropdown-mullvad-connecting")
    );
    assert_eq!(
        card(TunnelState::Disconnecting, None).title(),
        Text::Message("dropdown-mullvad-disconnecting")
    );
    assert_eq!(card(TunnelState::Error, None).title(), Text::Message("dropdown-mullvad-blocked"));
    assert_eq!(
        card(TunnelState::Disconnected, None).title(),
        Text::Message("dropdown-mullvad-not-connected")
    );
}

#[test]
fn card_status_action_and_classes() {
    let c = card(TunnelState::Disconnected, None);
    assert_eq!(c.status_label(), Text::Message("dropdown-mullvad-disconnected"));
    assert_eq!(c.action_label(), Text::Message("dropdown-mullvad-connect"));
    assert_eq!(c.icon_classes(), vec!["network-connection-icon", "mullvad-disconnected"]);
    assert_eq!(c.status_classes(), vec!["network-connection-status"]);

    let c = card(TunnelState::Error, None);
    assert_eq!(c.action_label(), Text::Message("dropdown-mullvad-disconnect"));
    assert_eq!(c.icon_classes(), vec!["network-connection-icon", "mullvad-blocked"]);
    assert_eq!(c.status_classes(), vec!["network-connection-status", "error"]);

    let mut c = card(TunnelState::Disconnecting, None);
    assert_eq!(c.icon_classes(), vec!["network-connection-icon", "mullvad-connecting"]);
    assert_eq!(c.visible_child(), "status");
    c.hovered = true;
    assert_eq!(c.visible_child(), "actions");
}

#[test]
fn flag_name_trims_unicode_white_space() {
    assert_eq!(flag_icon_name("\u{3000}SE\t"), Some("cm-flag-se".to_string()));
    assert_eq!(flag_icon_name("\u{a0}\u{2028}"), None);
    assert_eq!(flag_icon_name(" d e "), Some("cm-flag-d e".to_string()));
}
