use clockor::config::{Config, Position, TextStyle};

#[test]
fn default_config_values() {
    let cfg = Config::default();
    assert_eq!(cfg.position, Position::TopRight);
    assert!(cfg.format_24h);
    assert!(!cfg.show_seconds);
    assert_eq!(cfg.font_size, 22);
    assert_eq!(cfg.opacity, 80);
    assert_eq!(cfg.hotkey, "Ctrl+F12");
    assert!(!cfg.start_with_windows);
    assert_eq!(cfg.text_style, TextStyle::Outline);
    assert_eq!(cfg.text_color, [255, 255, 255]);
    assert_eq!(cfg.outline_color, [0, 0, 0]);
}

#[test]
fn default_colors() {
    let cfg = Config::default();
    assert_eq!(cfg.text_color, [255, 255, 255]);
    assert_eq!(cfg.outline_color, [0, 0, 0]);
}

#[test]
fn text_colorref_conversion() {
    let mut cfg = Config::default();
    // White: RGB(255,255,255) packs to 0x00FFFFFF
    assert_eq!(cfg.text_colorref(), 0x00FFFFFF);
    // Black: RGB(0,0,0) packs to 0x00000000
    assert_eq!(cfg.outline_colorref(), 0x00000000);
    // Red: RGB(255,0,0) packs to 0x000000FF
    cfg.text_color = [255, 0, 0];
    assert_eq!(cfg.text_colorref(), 0x000000FF);
    // Blue: RGB(0,0,255) packs to 0x00FF0000
    cfg.text_color = [0, 0, 255];
    assert_eq!(cfg.text_colorref(), 0x00FF0000);
}

#[test]
fn color_roundtrip() {
    let mut cfg = Config::default();
    cfg.text_color = [128, 64, 32];
    cfg.outline_color = [10, 20, 30];
    let doc = cfg.save();
    let loaded = Config::load(&doc);
    assert_eq!(loaded.text_color, [128, 64, 32]);
    assert_eq!(loaded.outline_color, [10, 20, 30]);
}

#[test]
fn missing_colors_default() {
    let loaded = Config::load("position = \"top-right\"\nopacity = 80\n");
    assert_eq!(loaded.text_color, [255, 255, 255]);
    assert_eq!(loaded.outline_color, [0, 0, 0]);
}

#[test]
fn legacy_font_size_small() {
    let loaded = Config::load("font_size = \"small\"\n");
    assert_eq!(loaded.font_size, 16);
}

#[test]
fn legacy_font_size_medium() {
    let loaded = Config::load("font_size = \"medium\"\n");
    assert_eq!(loaded.font_size, 22);
}

#[test]
fn legacy_font_size_large() {
    let loaded = Config::load("font_size = \"large\"\n");
    assert_eq!(loaded.font_size, 30);
}

#[test]
fn legacy_font_size_only_key_rest_default() {
    let loaded = Config::load("font_size = \"large\"\n");
    assert_eq!(loaded.font_size, 30);
    assert_eq!(loaded.position, Position::TopRight);
    assert!(loaded.format_24h);
    assert!(!loaded.show_seconds);
    assert_eq!(loaded.opacity, 80);
    assert_eq!(loaded.hotkey, "Ctrl+F12");
    assert!(!loaded.start_with_windows);
    assert_eq!(loaded.text_style, TextStyle::Outline);
    assert_eq!(loaded.text_color, [255, 255, 255]);
    assert_eq!(loaded.outline_color, [0, 0, 0]);
}

#[test]
fn font_size_numeric() {
    let loaded = Config::load("font_size = 40\n");
    assert_eq!(loaded.font_size, 40);
}

#[test]
fn font_size_clamped() {
    let loaded = Config::load("font_size = 100\n");
    assert_eq!(loaded.font_size, 60);
}

#[test]
fn font_size_clamped_to_10_minimum() {
    let loaded = Config::load("font_size = 3\n");
    assert_eq!(loaded.font_size, 10);
}

#[test]
fn text_style_roundtrip() {
    for style in [TextStyle::Plain, TextStyle::Outline, TextStyle::Shadow] {
        let mut cfg = Config::default();
        cfg.text_style = style;
        let doc = cfg.save();
        let loaded = Config::load(&doc);
        assert_eq!(loaded.text_style, style);
    }
}

#[test]
fn text_style_defaults_when_missing() {
    let loaded = Config::load("position = \"top-right\"\n");
    assert_eq!(loaded.text_style, TextStyle::Outline);
}

#[test]
fn save_load_roundtrip() {
    let mut cfg = Config::default();
    cfg.position = Position::BottomLeft;
    cfg.opacity = 50;
    cfg.show_seconds = true;
    cfg.hotkey = "Alt+F1".to_string();

    let doc = cfg.save();
    let loaded = Config::load(&doc);

    assert_eq!(loaded.position, Position::BottomLeft);
    assert_eq!(loaded.opacity, 50);
    assert!(loaded.show_seconds);
    assert_eq!(loaded.hotkey, "Alt+F1");
}

#[test]
fn save_load_roundtrip_untouched_fields_default() {
    let mut cfg = Config::default();
    cfg.position = Position::BottomLeft;
    cfg.opacity = 50;
    cfg.show_seconds = true;
    cfg.hotkey = "Alt+F1".to_string();

    let loaded = Config::load(&cfg.save());
    assert!(loaded.format_24h);
    assert_eq!(loaded.font_size, 22);
    assert!(!loaded.start_with_windows);
    assert_eq!(loaded.text_style, TextStyle::Outline);
    assert_eq!(loaded.text_color, [255, 255, 255]);
    assert_eq!(loaded.outline_color, [0, 0, 0]);
}

#[test]
fn invalid_toml_returns_default() {
    let loaded = Config::load("{{{{not valid toml!!!!");
    assert_eq!(loaded, Config::default());
}

#[test]
fn empty_document_returns_default() {
    let loaded = Config::load("");
    assert_eq!(loaded, Config::default());
}

#[test]
fn arbitrary_bytes_return_valid_config() {
    let noise = "\u{0}\u{1}garbage = = = [\nposition=7\nfont_size=\"huge\"\nopacity=true\n";
    let loaded = Config::load(noise);
    assert!(loaded.font_size >= 10 && loaded.font_size <= 60);
    assert!(loaded.opacity >= 25 && loaded.opacity <= 100);
}

#[test]
fn wrong_typed_fields_fall_back() {
    let loaded = Config::load("position = 3\nformat_24h = \"yes\"\nopacity = 91\n");
    assert_eq!(loaded.position, Position::TopRight);
    assert!(loaded.format_24h);
    assert_eq!(loaded.opacity, 91);
}

#[test]
fn opacity_clamped_to_25_minimum() {
    let loaded = Config::load("opacity = 5\n");
    assert_eq!(loaded.opacity, 25);
}

#[test]
fn opacity_clamped_to_100_maximum() {
    let loaded = Config::load("opacity = 250\n");
    assert_eq!(loaded.opacity, 100);
}

#[test]
fn partial_toml_fills_defaults() {
    let loaded = Config::load("position = \"bottom-right\"\n");
    assert_eq!(loaded.position, Position::BottomRight);
    // All other fields should be default
    assert!(loaded.format_24h);
    assert!(!loaded.show_seconds);
    assert_eq!(loaded.font_size, 22);
    assert_eq!(loaded.opacity, 80);
    assert_eq!(loaded.hotkey, "Ctrl+F12");
}

#[test]
fn hotkey_escaping_roundtrip() {
    let mut cfg = Config::default();
    cfg.hotkey = "he said \"hi\"\\\n".to_string();
    let doc = cfg.save();
    let loaded = Config::load(&doc);
    assert_eq!(loaded.hotkey, "he said \"hi\"\\\n");
}

#[test]
fn hotkey_delete_character_roundtrip() {
    let mut cfg = Config::default();
    cfg.hotkey = "odd\u{7f}key".to_string();
    let doc = cfg.save();
    let loaded = Config::load(&doc);
    assert_eq!(loaded.hotkey, "odd\u{7f}key");
}

#[test]
fn saved_document_spells_every_key() {
    let doc = Config::default().save();
    for key in [
        "position",
        "format_24h",
        "show_seconds",
        "font_size",
        "opacity",
        "hotkey",
        "start_with_windows",
        "text_style",
        "text_color",
        "outline_color",
    ] {
        assert!(doc.contains(key), "missing key {key}");
    }
}
