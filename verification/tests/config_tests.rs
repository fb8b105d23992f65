use monday_claim::config::read_setting;
use monday_claim::config::Config;
use monday_claim::config::ConfigError;
use monday_claim::config::ConfigFault;
use monday_claim::config::ConfigField;

#[test]
fn settings_are_read_from_toml() {
    let config = Config::from_toml(
        "api_key = \"secret\"\nboard_id = \"123\"\nuser_id = \"42\"\n",
    )
    .unwrap();
    assert_eq!(config.api_key, "secret");
    assert_eq!(config.board_id, "123");
    assert_eq!(config.user_id, "42");
}

#[test]
fn other_keys_and_tables_are_ignored() {
    let config = Config::from_toml(
        "# settings\nuser_id = 'u'\nextra = 5\napi_key = \"k\"\nboard_id = \"b\"\n\n[section]\napi_key = \"inner\"\n",
    )
    .unwrap();
    assert_eq!(config.api_key, "k");
    assert_eq!(config.board_id, "b");
    assert_eq!(config.user_id, "u");
}

#[test]
fn a_missing_setting_fails_the_load() {
    let error = Config::from_toml("api_key = \"k\"\nuser_id = \"u\"\n").unwrap_err();
    assert!(matches!(error, ConfigError::Invalid(ConfigFault::Missing(ConfigField::BoardId))));
    let error = Config::from_toml("").unwrap_err();
    assert!(matches!(error, ConfigError::Invalid(ConfigFault::Missing(ConfigField::ApiKey))));
    let error = Config::from_toml("api_key = \"k\"\nboard_id = \"b\"\n").unwrap_err();
    assert!(matches!(error, ConfigError::Invalid(ConfigFault::Missing(ConfigField::UserId))));
}

#[test]
fn a_setting_that_is_no_string_fails_the_load() {
    let error = Config::from_toml("api_key = \"k\"\nboard_id = 123\nuser_id = \"u\"\n").unwrap_err();
    assert!(matches!(error, ConfigError::Invalid(ConfigFault::NotText(ConfigField::BoardId))));
    let error = Config::from_toml("api_key = true\n").unwrap_err();
    assert!(matches!(error, ConfigError::Invalid(ConfigFault::NotText(ConfigField::ApiKey))));
    let error =
        Config::from_toml("api_key = \"k\"\nboard_id = \"b\"\nuser_id = 4.5\n").unwrap_err();
    assert!(matches!(error, ConfigError::Invalid(ConfigFault::NotText(ConfigField::UserId))));
}

#[test]
fn a_text_that_is_no_toml_fails_the_load() {
    match Config::from_toml("api_key = ").unwrap_err() {
        ConfigError::Malformed(message) => {
            assert!(message.starts_with("TOML parse error at line 1, column"), "{}", message)
        }
        other => panic!("{:?}", other),
    }
    assert!(matches!(
        Config::from_toml("api_key = \"a\"\napi_key = \"b\"\n").unwrap_err(),
        ConfigError::Malformed(_)
    ));
}

#[test]
fn settings_from_entries() {
    let entries = vec![
        ("user_id".to_string(), Some("u".to_string())),
        ("api_key".to_string(), Some("k".to_string())),
        ("n".to_string(), None),
        ("board_id".to_string(), Some("b".to_string())),
    ];
    let config = Config::from_entries(&entries).unwrap();
    assert_eq!(config.api_key, "k");
    assert_eq!(config.board_id, "b");
    assert_eq!(config.user_id, "u");
    assert_eq!(read_setting(&entries, ConfigField::UserId), Ok("u".to_string()));
    assert_eq!(read_setting(&entries[..1].to_vec(), ConfigField::ApiKey), Err(ConfigFault::Missing(ConfigField::ApiKey)));
    let entries = vec![("api_key".to_string(), None)];
    assert_eq!(Config::from_entries(&entries).unwrap_err(), ConfigFault::NotText(ConfigField::ApiKey));
}

#[test]
fn keys_of_the_settings() {
    assert_eq!(ConfigField::ApiKey.key(), "api_key");
    assert_eq!(ConfigField::BoardId.key(), "board_id");
    assert_eq!(ConfigField::UserId.key(), "user_id");
}
