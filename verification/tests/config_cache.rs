use std::cell::Cell;

use recorder::config::{
    clear_config_cache, get_config, get_config_by_app, get_config_content, get_config_content_by_app,
    Config, ConfigCache, ConfigError,
};

fn empty() -> Config {
    Config {
        hotkey: None,
        display_window_hotkey: None,
        writing_hotkey: None,
        always_show_icons: None,
        hide_the_icon_in_the_dock: None,
    }
}

fn sample() -> Config {
    Config {
        hotkey: Some("Alt+X".to_string()),
        display_window_hotkey: Some("Alt+S".to_string()),
        writing_hotkey: None,
        always_show_icons: Some(true),
        hide_the_icon_in_the_dock: Some(false),
    }
}

/// Parses the settings text the way the application does: a JSON object
/// whose camel-case keys name the settings.
fn parse_json(s: &str) -> Result<Config, String> {
    let v: serde_json::Value = serde_json::from_str(s).map_err(|e| e.to_string())?;
    let obj = v.as_object().ok_or_else(|| "not an object".to_string())?;
    let text = |k: &str| obj.get(k).and_then(|x| x.as_str()).map(|x| x.to_string());
    let flag = |k: &str| obj.get(k).and_then(|x| x.as_bool());
    Ok(Config {
        hotkey: text("hotkey"),
        display_window_hotkey: text("displayWindowHotkey"),
        writing_hotkey: text("writingHotkey"),
        always_show_icons: flag("alwaysShowIcons"),
        hide_the_icon_in_the_dock: flag("hideTheIconInTheDock"),
    })
}

#[test]
fn content_is_an_empty_document() {
    assert_eq!(get_config_content(true), "{}");
    assert_eq!(get_config_content(false), "{}");
    assert_eq!(get_config_content_by_app(), Ok("{}".to_string()));
}

#[test]
fn empty_cache_parses_the_content() {
    let mut cache = ConfigCache::new();
    let seen = Cell::new(None);
    let r = get_config(&mut cache, |s: &str| {
        seen.set(Some(s.to_string()));
        Ok(sample())
    });
    assert_eq!(r, Ok(sample()));
    assert_eq!(seen.take(), Some("{}".to_string()));
    assert_eq!(cache.peek(), Some(sample()));
}

#[test]
fn default_content_parses_to_empty_settings() {
    let mut cache = ConfigCache::new();
    assert_eq!(get_config_by_app(&mut cache, parse_json), Ok(empty()));
    assert_eq!(cache.peek(), Some(empty()));
}

#[test]
fn second_lookup_is_served_from_cache() {
    let mut cache = ConfigCache::new();
    assert_eq!(get_config(&mut cache, |_: &str| Ok(sample())), Ok(sample()));
    let calls = Cell::new(0);
    let r = get_config(&mut cache, |_: &str| {
        calls.set(calls.get() + 1);
        Err("must not be asked".to_string())
    });
    assert_eq!(r, Ok(sample()));
    assert_eq!(calls.get(), 0);
    assert_eq!(cache.peek(), Some(sample()));
}

#[test]
fn failed_parse_caches_nothing() {
    let mut cache = ConfigCache::new();
    let r = get_config(&mut cache, |_: &str| Err("bad json".to_string()));
    assert_eq!(r, Err(ConfigError::Parse("bad json".to_string())));
    assert_eq!(cache.peek(), None);
    let r = get_config(&mut cache, |_: &str| Ok(sample()));
    assert_eq!(r, Ok(sample()));
}

#[test]
fn clearing_makes_the_next_lookup_parse_again() {
    let mut cache = ConfigCache::new();
    assert_eq!(get_config(&mut cache, |_: &str| Ok(sample())), Ok(sample()));
    clear_config_cache(&mut cache);
    assert_eq!(cache.peek(), None);
    clear_config_cache(&mut cache);
    assert_eq!(cache.peek(), None);
    assert_eq!(get_config(&mut cache, |_: &str| Ok(empty())), Ok(empty()));
}

#[test]
fn skip_taskbar_defaults_to_true() {
    assert!(empty().skip_taskbar());
    assert!(!sample().skip_taskbar());
    let mut c = empty();
    c.hide_the_icon_in_the_dock = Some(true);
    assert!(c.skip_taskbar());
}

#[test]
fn duplicate_keeps_every_field() {
    assert_eq!(sample().duplicate(), sample());
    assert_eq!(empty().duplicate(), empty());
}
