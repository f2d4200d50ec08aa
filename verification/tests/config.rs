use apple_music_tui::config::{
    config_path_from, expand_home, validate_identifier, validate_storefront, AppleSettings, ConfigError, KeyLocation,
};

#[test]
fn expands_only_current_users_home_syntax() {
    let home = "/Users/example";

    assert_eq!(
        expand_home("~/.config/key.p8", home).expect("home expansion"),
        "/Users/example/.config/key.p8"
    );
    assert!(expand_home("~someone/key.p8", home).is_err());
}

#[test]
fn home_alone_and_plain_paths_expand_as_written() {
    assert_eq!(expand_home("~", "/Users/example").expect("home"), "/Users/example");
    assert_eq!(expand_home("/keys/key.p8", "/Users/example").expect("absolute"), "/keys/key.p8");
    assert_eq!(expand_home("~/key.p8", "/Users/example/").expect("trailing slash"), "/Users/example/key.p8");
    assert_eq!(
        expand_home("~someone/key.p8", "/Users/example"),
        Err(ConfigError::UnsupportedHomeExpansion("~someone/key.p8".to_owned()))
    );
}

#[test]
fn identifiers_are_trimmed_ten_ascii_alphanumerics() {
    assert_eq!(validate_identifier(Some("  ABCDEFGHIJ "), "team_id"), Ok("ABCDEFGHIJ".to_owned()));
    assert_eq!(validate_identifier(None, "team_id"), Err(ConfigError::MissingField("team_id")));
    assert_eq!(validate_identifier(Some("   "), "key_id"), Err(ConfigError::MissingField("key_id")));
    assert!(matches!(
        validate_identifier(Some("ABCDEFGHI"), "key_id"),
        Err(ConfigError::InvalidField { field: "key_id", .. })
    ));
    assert!(matches!(
        validate_identifier(Some("ABCDEFGHI-"), "key_id"),
        Err(ConfigError::InvalidField { field: "key_id", .. })
    ));
}

#[test]
fn storefronts_are_trimmed_two_lowercase_letters() {
    assert_eq!(validate_storefront(" de "), Ok("de".to_owned()));
    assert!(matches!(validate_storefront("DE"), Err(ConfigError::InvalidField { field: "storefront", .. })));
    assert!(matches!(validate_storefront("deu"), Err(ConfigError::InvalidField { field: "storefront", .. })));
}

#[test]
fn partial_apple_settings_report_the_first_missing_field() {
    let settings = AppleSettings {
        team_id: Some("ABCDEFGHIJ".to_owned()),
        key_id: None,
        private_key: None,
        storefront: None,
    };
    assert_eq!(settings.key_location("/Users/example"), Err(ConfigError::MissingField("key_id")));
    let settings = AppleSettings {
        team_id: Some("ABCDEFGHIJ".to_owned()),
        key_id: Some("12345ABCDE".to_owned()),
        private_key: Some("~/.config/apple-music-tui/AuthKey.p8".to_owned()),
        storefront: Some("de".to_owned()),
    };
    let location = settings.key_location("/Users/example").expect("location");
    assert_eq!(
        location,
        KeyLocation {
            team_id: "ABCDEFGHIJ".to_owned(),
            key_id: "12345ABCDE".to_owned(),
            private_key: "/Users/example/.config/apple-music-tui/AuthKey.p8".to_owned(),
        }
    );
    let config = settings.validate_with_key(location).expect("config");
    assert_eq!(config.storefront.as_deref(), Some("de"));
}

#[test]
fn config_path_relative_xdg_and_missing_home_cases() {
    assert_eq!(
        config_path_from(Some("/xdg"), Some("/home/me")).expect("xdg path"),
        "/xdg/apple-music-tui/config.toml"
    );
    assert_eq!(
        config_path_from(Some("relative"), Some("/home/me")).expect("home path"),
        "/home/me/.config/apple-music-tui/config.toml"
    );
    assert!(config_path_from(None, Some("")).is_err());
    assert!(config_path_from(None, None).is_err());
}

#[test]
fn config_path_prefers_absolute_xdg_then_home_dot_config() {
    assert_eq!(
        config_path_from(Some("/tmp/xdg"), Some("/Users/example")).expect("xdg path"),
        "/tmp/xdg/apple-music-tui/config.toml"
    );
    assert_eq!(
        config_path_from(None, Some("/Users/example")).expect("home path"),
        "/Users/example/.config/apple-music-tui/config.toml"
    );
}
