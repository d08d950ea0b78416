use variant_reviews::config::{credentials, ConfigError, API_KEY_SETTING, SHOP_NAME_SETTING};

#[test]
fn both_settings_give_credentials() {
    let found = credentials(Some("shop".to_string()), Some("key".to_string()));
    match found {
        Ok(settings) => {
            assert_eq!(settings.shop_name, "shop");
            assert_eq!(settings.api_key, "key");
        }
        Err(error) => panic!("unexpected error: {:?}", error),
    }
}

#[test]
fn missing_shop_name_is_reported_first() {
    assert!(matches!(credentials(None, Some("key".to_string())), Err(ConfigError::MissingShopName)));
    assert!(matches!(credentials(None, None), Err(ConfigError::MissingShopName)));
}

#[test]
fn missing_api_key_is_reported() {
    assert!(matches!(credentials(Some("shop".to_string()), None), Err(ConfigError::MissingApiKey)));
}

#[test]
fn error_names_its_setting() {
    assert_eq!(SHOP_NAME_SETTING, "SHOP_NAME");
    assert_eq!(API_KEY_SETTING, "API_KEY");
    assert_eq!(ConfigError::MissingShopName.setting(), "SHOP_NAME");
    assert_eq!(ConfigError::MissingApiKey.setting(), "API_KEY");
}
