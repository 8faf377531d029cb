use wayle::{ColorIconMode, GeneralConfig, Layer};

#[test]
fn general_defaults() {
    let config = GeneralConfig::default();
    assert_eq!(config.font_sans, "Inter");
    assert_eq!(config.font_mono, "JetBrains Mono");
    assert!(!config.tearing_mode);
    assert_eq!(config.color_icons, ColorIconMode::Fallback);
    assert_eq!(ColorIconMode::default(), ColorIconMode::Fallback);
    assert_eq!(Layer::default(), Layer::Top);
    let info = GeneralConfig::module_info();
    assert_eq!(info.name, "general");
    assert_eq!(info.layout_id, None);
    assert!(!info.array_entry);
}
