use rbeditor::appearance::{
    clamp_to, AppearanceConfig, Color, FontFamily, SettingChange, FONT_SIZE_MAX, FONT_SIZE_MIN,
    LINE_SPACING_MAX, LINE_SPACING_MIN,
};

#[test]
fn defaults_are_black_on_white_monospace() {
    let config = AppearanceConfig::new();
    assert_eq!(config.font_size, 1400);
    assert_eq!(config.line_spacing, 150);
    assert_eq!(config.background_color, Color { r: 255, g: 255, b: 255, a: 255 });
    assert_eq!(config.text_color, Color { r: 0, g: 0, b: 0, a: 255 });
    assert_eq!(config.font_family, FontFamily::Monospace);
}

#[test]
fn bounds_are_those_of_the_controls() {
    assert_eq!(FONT_SIZE_MIN, 1000);
    assert_eq!(FONT_SIZE_MAX, 10000);
    assert_eq!(LINE_SPACING_MIN, 100);
    assert_eq!(LINE_SPACING_MAX, 500);
}

#[test]
fn rgb_is_opaque() {
    assert_eq!(Color::rgb(1, 2, 3), Color { r: 1, g: 2, b: 3, a: 255 });
}

#[test]
fn clamp_to_brings_a_value_into_the_range() {
    assert_eq!(clamp_to(5, 10, 20), 10);
    assert_eq!(clamp_to(10, 10, 20), 10);
    assert_eq!(clamp_to(15, 10, 20), 15);
    assert_eq!(clamp_to(20, 10, 20), 20);
    assert_eq!(clamp_to(25, 10, 20), 20);
    assert_eq!(clamp_to(u32::MAX, 0, 0), 0);
}

#[test]
fn font_size_within_bounds_is_taken() {
    let mut config = AppearanceConfig::new();
    config.apply(SettingChange::FontSize(2450));
    assert_eq!(config.font_size, 2450);
    config.apply(SettingChange::FontSize(1000));
    assert_eq!(config.font_size, 1000);
    config.apply(SettingChange::FontSize(10000));
    assert_eq!(config.font_size, 10000);
}

#[test]
fn font_size_is_clamped() {
    let mut config = AppearanceConfig::new();
    config.apply(SettingChange::FontSize(999));
    assert_eq!(config.font_size, 1000);
    config.apply(SettingChange::FontSize(0));
    assert_eq!(config.font_size, 1000);
    config.apply(SettingChange::FontSize(10001));
    assert_eq!(config.font_size, 10000);
    config.apply(SettingChange::FontSize(u32::MAX));
    assert_eq!(config.font_size, 10000);
}

#[test]
fn line_spacing_is_clamped() {
    let mut config = AppearanceConfig::new();
    config.apply(SettingChange::LineSpacing(275));
    assert_eq!(config.line_spacing, 275);
    config.apply(SettingChange::LineSpacing(99));
    assert_eq!(config.line_spacing, 100);
    config.apply(SettingChange::LineSpacing(501));
    assert_eq!(config.line_spacing, 500);
}

#[test]
fn an_edit_changes_one_field_only() {
    let mut config = AppearanceConfig::new();
    config.apply(SettingChange::TextColor(Color::rgb(10, 20, 30)));
    assert_eq!(
        config,
        AppearanceConfig { text_color: Color::rgb(10, 20, 30), ..AppearanceConfig::new() }
    );
    config.apply(SettingChange::BackgroundColor(Color { r: 1, g: 2, b: 3, a: 4 }));
    config.apply(SettingChange::FontFamily(FontFamily::Proportional));
    assert_eq!(
        config,
        AppearanceConfig {
            font_size: 1400,
            background_color: Color { r: 1, g: 2, b: 3, a: 4 },
            text_color: Color::rgb(10, 20, 30),
            font_family: FontFamily::Proportional,
            line_spacing: 150,
        }
    );
}
