//! The settings that a run needs before it starts.

use vstd::prelude::*;

verus! {

/// The name of the setting that holds the shop's name.
pub const SHOP_NAME_SETTING: &'static str = "SHOP_NAME";

/// The name of the setting that holds the key to the commerce interface.
pub const API_KEY_SETTING: &'static str = "API_KEY";

/// What opens the commerce interface of a shop.
#[derive(PartialEq, Eq)]
pub struct Credentials {
    pub shop_name: String,
    pub api_key: String,
}

/// A setting that a run needs and that was not given.
#[derive(Debug, Clone, Copy, PartialEq, Eq, Structural)]
pub enum ConfigError {
    MissingShopName,
    MissingApiKey,
}

impl ConfigError {
    /// The name of the setting that is missing.
    pub open spec fn setting_name(self) -> Seq<char> {
        match self {
            ConfigError::MissingShopName => SHOP_NAME_SETTING@,
            ConfigError::MissingApiKey => API_KEY_SETTING@,
        }
    }

    /// The name of the setting that is missing.
    pub fn setting(&self) -> (name: &'static str)
        ensures
            name@ == self.setting_name(),
    {
        match self {
            ConfigError::MissingShopName => SHOP_NAME_SETTING,
            ConfigError::MissingApiKey => API_KEY_SETTING,
        }
    }
}

/// The credentials of a run, from the two settings as far as they were given.
/// Both are needed; where both are missing, the shop's name is reported.
pub fn credentials(shop_name: Option<String>, api_key: Option<String>) -> (result: Result<
    Credentials,
    ConfigError,
>)
    ensures
        result == match (shop_name, api_key) {
            (Some(name), Some(key)) => Ok::<Credentials, ConfigError>(
                Credentials { shop_name: name, api_key: key },
            ),
            (None, _) => Err(ConfigError::MissingShopName),
            (Some(_), None) => Err(ConfigError::MissingApiKey),
        },
{
    match shop_name {
        Some(name) => match api_key {
            Some(key) => Ok(Credentials { shop_name: name, api_key: key }),
            None => Err(ConfigError::MissingApiKey),
        },
        None => Err(ConfigError::MissingShopName),
    }
}

} // verus!
