use twitch_alerts::config::{config_from_value, parse_config, ConfigError};
use twitch_alerts::startup::{setup_interface, startup_environment, StartupError};
use twitch_alerts::tabs::{plan_tabs, Tab};

fn labels_and_urls(tabs: &[Tab]) -> Vec<(String, String)> {
    tabs.iter().map(|t| (t.label.clone(), t.view.url().to_string())).collect()
}

#[test]
fn two_entry_config_gives_chat_then_stream() {
    let text = r#"{"urls":[{"name":"Chat","url":"https://twitch.tv/x/chat"},{"name":"Stream","url":"https://twitch.tv/x"}]}"#;
    let tabs = setup_interface(text, true).unwrap();
    assert_eq!(
        labels_and_urls(&tabs),
        vec![
            ("Chat".to_string(), "https://twitch.tv/x/chat".to_string()),
            ("Stream".to_string(), "https://twitch.tv/x".to_string()),
        ]
    );
}

#[test]
fn tab_count_and_order_follow_config() {
    let text = r#"{"urls":[{"name":"a","url":"u1"},{"name":"b","url":"u2"},{"name":"c","url":"u3"}]}"#;
    let tabs = setup_interface(text, true).unwrap();
    assert_eq!(tabs.len(), 3);
    let names: Vec<String> = tabs.iter().map(|t| t.label.clone()).collect();
    assert_eq!(names, vec!["a", "b", "c"]);
}

#[test]
fn empty_url_list_gives_no_tabs() {
    let tabs = setup_interface(r#"{"urls":[]}"#, true).unwrap();
    assert!(tabs.is_empty());
}

#[test]
fn duplicate_entries_are_not_merged() {
    let text = r#"{"urls":[{"name":"Same","url":"https://a"},{"name":"Same","url":"https://a"},{"name":"Other","url":"https://a"}]}"#;
    let tabs = setup_interface(text, true).unwrap();
    assert_eq!(
        labels_and_urls(&tabs),
        vec![
            ("Same".to_string(), "https://a".to_string()),
            ("Same".to_string(), "https://a".to_string()),
            ("Other".to_string(), "https://a".to_string()),
        ]
    );
}

#[test]
fn extra_members_are_ignored() {
    let text = r#"{"version":2,"urls":[{"name":"n","url":"u","color":"red"}]}"#;
    let config = parse_config(text).unwrap();
    assert_eq!(config.urls.len(), 1);
    assert_eq!(config.urls[0].name, "n");
    assert_eq!(config.urls[0].url, "u");
}

#[test]
fn malformed_urls_are_kept_as_given() {
    let tabs = setup_interface(r#"{"urls":[{"name":"bad","url":"not a url"}]}"#, true).unwrap();
    assert_eq!(tabs[0].view.url(), "not a url");
}

#[test]
fn missing_urls_key_stops_startup() {
    assert_eq!(
        setup_interface(r#"{"links":[]}"#, true).err(),
        Some(StartupError::Config(ConfigError::MissingUrls))
    );
}

#[test]
fn non_array_urls_stops_startup() {
    assert_eq!(
        setup_interface(r#"{"urls":{"name":"a","url":"b"}}"#, true).err(),
        Some(StartupError::Config(ConfigError::UrlsNotArray))
    );
    assert_eq!(
        setup_interface(r#"{"urls":"https://twitch.tv"}"#, true).err(),
        Some(StartupError::Config(ConfigError::UrlsNotArray))
    );
}

#[test]
fn text_that_is_not_json_stops_startup() {
    assert_eq!(
        setup_interface("{\"urls\": [", true).err(),
        Some(StartupError::Config(ConfigError::InvalidJson))
    );
    assert_eq!(setup_interface("", true).err(), Some(StartupError::Config(ConfigError::InvalidJson)));
}

#[test]
fn top_level_array_has_no_urls() {
    assert_eq!(parse_config("[1, 2]").err(), Some(ConfigError::MissingUrls));
}

#[test]
fn first_bad_entry_is_reported() {
    let text = r#"{"urls":[{"name":"a","url":"u"},{"name":"b"},{"name":3,"url":"v"}]}"#;
    assert_eq!(parse_config(text).err(), Some(ConfigError::InvalidEntry { index: 1 }));
    let text = r#"{"urls":[{"name":"a","url":"u"},{"name":"b","url":"v"},{"name":3,"url":"v"}]}"#;
    assert_eq!(parse_config(text).err(), Some(ConfigError::InvalidEntry { index: 2 }));
    assert_eq!(parse_config(r#"{"urls":["x"]}"#).err(), Some(ConfigError::InvalidEntry { index: 0 }));
}

#[test]
fn config_error_comes_before_engine_error() {
    assert_eq!(
        setup_interface(r#"{"urls":5}"#, false).err(),
        Some(StartupError::Config(ConfigError::UrlsNotArray))
    );
}

#[test]
fn missing_engine_stops_startup() {
    assert_eq!(
        setup_interface(r#"{"urls":[{"name":"a","url":"b"}]}"#, false).err(),
        Some(StartupError::EngineUnavailable)
    );
}

#[test]
fn config_read_from_parsed_value() {
    let v: serde_json::Value =
        serde_json::from_str(r#"{"urls":[{"name":"Chat","url":"https://twitch.tv/x/chat"}]}"#).unwrap();
    let config = config_from_value(&v).unwrap();
    assert_eq!(config.urls[0].name, "Chat");
    assert_eq!(config.urls[0].url, "https://twitch.tv/x/chat");
    let tabs = plan_tabs(&config);
    assert_eq!(tabs[0].label, "Chat");
}

#[test]
fn unicode_names_survive() {
    let config = parse_config(r#"{"urls":[{"name":"Chät ✓","url":"https://x"}]}"#).unwrap();
    assert_eq!(config.urls[0].name, "Chät ✓");
}

#[test]
fn environment_is_set_before_toolkit() {
    let env = startup_environment();
    assert_eq!(
        env,
        vec![
            ("GDK_BACKEND".to_string(), "x11,wayland".to_string()),
            ("WEBKIT_DISABLE_DMABUF_RENDERER".to_string(), "1".to_string()),
            ("GTK_CSD".to_string(), "0".to_string()),
        ]
    );
}
