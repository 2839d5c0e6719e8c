use sickle::color::{hex_to_rgb, hex_to_rgba, ColorError, Config, Rgb, Rgba};
use sickle::config::{config_from_table, load_config, ConfigError};
use sickle::paths::expand_home;

#[test]
fn hex_colors_parse_to_their_channels() {
    assert_eq!(hex_to_rgb("#B287A1"), Ok(Rgb { r: 0xB2, g: 0x87, b: 0xA1 }));
    assert_eq!(hex_to_rgb("#000000"), Ok(Rgb { r: 0, g: 0, b: 0 }));
    assert_eq!(hex_to_rgb("#ffffff"), Ok(Rgb { r: 255, g: 255, b: 255 }));
    assert_eq!(hex_to_rgb("#829f62"), Ok(Rgb { r: 0x82, g: 0x9F, b: 0x62 }));
}

#[test]
fn malformed_colors_are_rejected() {
    assert_eq!(hex_to_rgb(""), Err(ColorError::Malformed));
    assert_eq!(hex_to_rgb("#B287A"), Err(ColorError::Malformed));
    assert_eq!(hex_to_rgb("#B287A1F"), Err(ColorError::Malformed));
    assert_eq!(hex_to_rgb("B287A1x"), Err(ColorError::Malformed));
    assert_eq!(hex_to_rgb("#B287G1"), Err(ColorError::Malformed));
}

#[test]
fn alpha_rides_along_unchanged() {
    assert_eq!(
        hex_to_rgba("#0E0E0E", 950),
        Ok(Rgba { r: 0x0E, g: 0x0E, b: 0x0E, alpha_milli: 950 })
    );
    assert_eq!(hex_to_rgba("#0E0E0", 950), Err(ColorError::Malformed));
}

#[test]
fn the_default_config_holds_the_stock_colors() {
    let c = Config::default();
    assert_eq!(c.main_color, "#B287A1");
    assert_eq!(c.background_color, "#111111");
    assert_eq!(c.timeline_color, "#829f62");
    assert_eq!(c.hover_background, "#0E0E0E");
}

#[test]
fn provided_keys_override_their_defaults() {
    let c = load_config("main_color = \"#112233\"").unwrap();
    assert_eq!(c.main_color, "#112233");
    assert_eq!(c.background_color, "#111111");
    assert_eq!(c.timeline_color, "#829f62");
    assert_eq!(c.hover_background, "#0E0E0E");
}

#[test]
fn an_empty_document_keeps_every_default() {
    let c = load_config("").unwrap();
    assert_eq!(c.main_color, "#B287A1");
    assert_eq!(c.hover_background, "#0E0E0E");
}

#[test]
fn unrecognized_keys_are_ignored() {
    let c = load_config("other = \"whatever\"\ntimeline_color = \"#aabbcc\"").unwrap();
    assert_eq!(c.timeline_color, "#aabbcc");
    assert_eq!(c.main_color, "#B287A1");
}

#[test]
fn an_unparsable_document_is_a_document_error() {
    assert!(matches!(load_config("not toml [[["), Err(ConfigError::Document)));
}

#[test]
fn a_non_string_value_is_a_value_error() {
    assert!(matches!(load_config("main_color = 5"), Err(ConfigError::Value)));
}

#[test]
fn a_bad_color_string_is_a_color_error() {
    assert!(matches!(
        load_config("background_color = \"red\""),
        Err(ConfigError::Color)
    ));
}

#[test]
fn a_parsed_table_resolves_the_same_way() {
    let mut t = toml::Table::new();
    t.insert(
        "hover_background".to_string(),
        toml::Value::String("#123456".to_string()),
    );
    let c = config_from_table(&t).unwrap();
    assert_eq!(c.hover_background, "#123456");
    assert_eq!(c.main_color, "#B287A1");

    t.insert("main_color".to_string(), toml::Value::Boolean(true));
    assert!(matches!(config_from_table(&t), Err(ConfigError::Value)));
}

#[test]
fn a_leading_tilde_expands_to_the_home_directory() {
    assert_eq!(
        expand_home("~/Videos/clip.mp4", "/home/someone"),
        "/home/someone/Videos/clip.mp4"
    );
    assert_eq!(expand_home("~", "/home/someone"), "/home/someone");
}

#[test]
fn other_paths_pass_through_unchanged() {
    assert_eq!(expand_home("/tmp/clip.mp4", "/home/someone"), "/tmp/clip.mp4");
    assert_eq!(expand_home("relative/clip.mp4", "/home/someone"), "relative/clip.mp4");
    assert_eq!(expand_home("~odd/clip.mp4", "/home/someone"), "~odd/clip.mp4");
    assert_eq!(expand_home("", "/home/someone"), "");
}
