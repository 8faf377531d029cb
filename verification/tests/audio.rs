use wayle::audio::{
    active_port_description, app_display_name, input_device_icon, input_icon, is_event_stream,
    output_device_icon, stream_icon, stream_icon_candidates, AppIconSource, DevicePort, Props,
    DEFAULT_INPUT_ICON, DEFAULT_OUTPUT_ICON,
};

/// No icon-theme or built-in-mapping result for any candidate.
fn no_lookups() -> Vec<Option<String>> {
    vec![None, None, None]
}

#[test]
fn input_icon_muted_state() {
    assert_eq!(input_icon(true), "ld-mic-off-symbolic");
}

#[test]
fn input_icon_active_state() {
    assert_eq!(input_icon(false), "ld-mic-symbolic");
}

#[test]
fn app_name_prefers_application_name() {
    let name = app_display_name(&Some("Firefox".into()), "AudioStream");
    assert_eq!(name, "Firefox");
}

#[test]
fn app_name_falls_back_to_stream_name() {
    let name = app_display_name(&None, "AudioStream");
    assert_eq!(name, "AudioStream");
}

#[test]
fn app_name_ignores_empty_application_name() {
    let name = app_display_name(&Some(String::new()), "Fallback");
    assert_eq!(name, "Fallback");
}

#[test]
fn app_name_capitalizes_first_letter() {
    let name = app_display_name(&Some("spotify".into()), "AudioStream");
    assert_eq!(name, "Spotify");
}

#[test]
fn app_name_empty_everywhere() {
    assert_eq!(app_display_name(&None, ""), "");
    // Upper-casing may widen a character.
    assert_eq!(app_display_name(&Some("ßound".into()), ""), "SSound");
}

#[test]
fn event_stream_detected() {
    let mut props = Props::new();
    props.insert(
        "module-stream-restore.id".into(),
        "sink-input-by-media-role:event".into(),
    );
    assert!(is_event_stream(&props));
}

#[test]
fn non_event_stream_passes() {
    let props = Props::new();
    assert!(!is_event_stream(&props));
}

#[test]
fn later_insert_replaces_value() {
    let mut props = Props::new();
    props.insert("module-stream-restore.id".into(), "sink-input-by-media-role:event".into());
    props.insert("module-stream-restore.id".into(), "other".into());
    assert!(!is_event_stream(&props));
    assert_eq!(props.get("module-stream-restore.id").map(String::as_str), Some("other"));
    assert_eq!(props.get("missing"), None);
}

#[test]
fn stream_icon_mapped_from_props() {
    let mut props = Props::new();
    props.insert("application.icon_name".into(), "firefox".into());
    // The built-in mappings resolve the icon name `firefox`.
    let mapped = vec![None, None, Some("si-firefox-symbolic".to_string())];
    assert_eq!(
        stream_icon(&props, AppIconSource::Mapped, &no_lookups(), &mapped),
        Some("si-firefox-symbolic".into())
    );
}

#[test]
fn stream_icon_missing() {
    let props = Props::new();
    assert_eq!(
        stream_icon(&props, AppIconSource::Mapped, &no_lookups(), &no_lookups()),
        None
    );
}

#[test]
fn stream_icon_mapped_matches_icon_name_with_hyphen() {
    let mut props = Props::new();
    props.insert("application.name".into(), "Microsoft Edge".into());
    props.insert("application.icon_name".into(), "microsoft-edge".into());
    // The built-in mappings know `microsoft-edge`, not `Microsoft Edge`.
    let mapped = vec![None, None, Some("tb-brand-edge-symbolic".to_string())];
    assert_eq!(
        stream_icon(&props, AppIconSource::Mapped, &no_lookups(), &mapped),
        Some("tb-brand-edge-symbolic".into())
    );
}

#[test]
fn stream_icon_mapped_falls_back_to_symbolic_pa_icon() {
    let mut props = Props::new();
    props.insert("application.icon_name".into(), "xyzzy-unknown".into());
    assert_eq!(
        stream_icon(&props, AppIconSource::Mapped, &no_lookups(), &no_lookups()),
        Some("xyzzy-unknown-symbolic".into())
    );
}

#[test]
fn stream_icon_preserves_existing_symbolic_suffix() {
    let mut props = Props::new();
    props.insert("application.icon_name".into(), "my-app-symbolic".into());
    assert_eq!(
        stream_icon(&props, AppIconSource::Mapped, &no_lookups(), &no_lookups()),
        Some("my-app-symbolic".into())
    );
}

#[test]
fn stream_icon_native_uses_icon_name() {
    let mut props = Props::new();
    props.insert("application.icon_name".into(), "firefox".into());
    assert_eq!(
        stream_icon(&props, AppIconSource::Native, &no_lookups(), &no_lookups()),
        Some("firefox".into())
    );
}

#[test]
fn stream_icon_native_falls_back_to_binary() {
    let mut props = Props::new();
    props.insert("application.process.binary".into(), "spotify".into());
    assert_eq!(
        stream_icon(&props, AppIconSource::Native, &no_lookups(), &no_lookups()),
        Some("spotify".into())
    );
}

#[test]
fn stream_icon_native_prefers_icon_name_over_binary() {
    let mut props = Props::new();
    props.insert("application.icon_name".into(), "custom-icon".into());
    props.insert("application.process.binary".into(), "myapp".into());
    assert_eq!(
        stream_icon(&props, AppIconSource::Native, &no_lookups(), &no_lookups()),
        Some("custom-icon".into())
    );
}

#[test]
fn stream_icon_native_missing() {
    let props = Props::new();
    assert_eq!(
        stream_icon(&props, AppIconSource::Native, &no_lookups(), &no_lookups()),
        None
    );
}

#[test]
fn stream_icon_theme_wins_over_mappings_and_candidate_order() {
    let mut props = Props::new();
    props.insert("application.name".into(), "Firefox".into());
    props.insert("application.icon_name".into(), "firefox".into());
    let candidates = stream_icon_candidates(&props);
    assert_eq!(candidates, vec![Some("Firefox".to_string()), None, Some("firefox".to_string())]);
    let theme = vec![None, None, Some("firefox-symbolic".to_string())];
    let mapped = vec![Some("si-firefox-symbolic".to_string()), None, None];
    assert_eq!(
        stream_icon(&props, AppIconSource::Mapped, &theme, &mapped),
        Some("firefox-symbolic".into())
    );
    // A lookup for an absent candidate is ignored.
    let stray = vec![None, Some("stray".to_string()), None];
    assert_eq!(
        stream_icon(&props, AppIconSource::Mapped, &stray, &no_lookups()),
        Some("firefox-symbolic".into())
    );
}

#[test]
fn output_icon_from_form_factor_speaker() {
    let mut props = Props::new();
    props.insert("device.form_factor".into(), "speaker".into());
    assert_eq!(
        output_device_icon("alsa_output.pci", "Built-in Audio", &props),
        "tb-device-speaker-symbolic"
    );
}

#[test]
fn output_icon_from_form_factor_headphone() {
    let mut props = Props::new();
    props.insert("device.form_factor".into(), "headphone".into());
    assert_eq!(
        output_device_icon("alsa_output.pci", "Something", &props),
        "tb-headphones-symbolic"
    );
}

#[test]
fn output_icon_hdmi_fallback() {
    let props = Props::new();
    assert_eq!(
        output_device_icon("alsa_output.hdmi", "HDMI", &props),
        "tb-device-tv-symbolic"
    );
}

#[test]
fn output_icon_bluetooth_fallback() {
    let props = Props::new();
    assert_eq!(
        output_device_icon("bluez_output", "AirPods Pro", &props),
        "tb-headset-symbolic"
    );
}

#[test]
fn output_icon_default_speaker() {
    let props = Props::new();
    assert_eq!(
        output_device_icon("alsa_output.pci", "Built-in Audio", &props),
        DEFAULT_OUTPUT_ICON
    );
}

#[test]
fn output_icon_unknown_form_factor_uses_name() {
    let mut props = Props::new();
    props.insert("device.form_factor".into(), "tv".into());
    assert_eq!(
        output_device_icon("bluez_output", "Bluetooth Speaker", &props),
        "tb-headphones-symbolic"
    );
}

#[test]
fn input_icon_from_form_factor_headset() {
    let mut props = Props::new();
    props.insert("device.form_factor".into(), "headset".into());
    assert_eq!(
        input_device_icon("bluez_input", "Headset", &props),
        "tb-headset-symbolic"
    );
}

#[test]
fn input_icon_webcam_fallback() {
    let props = Props::new();
    assert_eq!(
        input_device_icon("v4l2_input", "USB Webcam", &props),
        "tb-device-computer-camera-symbolic"
    );
}

#[test]
fn input_icon_default_mic() {
    let props = Props::new();
    assert_eq!(
        input_device_icon("alsa_input.pci", "Built-in Audio", &props),
        DEFAULT_INPUT_ICON
    );
}

#[test]
fn active_port_description_lookup() {
    let ports = vec![
        DevicePort { name: "analog-output-speaker".into(), description: "Speakers".into() },
        DevicePort { name: "analog-output-headphones".into(), description: "Headphones".into() },
    ];
    assert_eq!(
        active_port_description(&Some("analog-output-headphones".into()), &ports),
        Some("Headphones".to_string())
    );
    assert_eq!(active_port_description(&Some("hdmi".into()), &ports), None);
    assert_eq!(active_port_description(&None, &ports), None);
}
