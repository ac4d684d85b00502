//! The configuration of the client.

use vstd::prelude::*;
use vstd::string::*;

verus! {

/// What a client is made with.
#[derive(Debug, Clone)]
pub struct Config {
    /// The API key.
    pub api_key: String,
    /// The base URL of the API.
    pub api_base: String,
    /// The version of the API.
    pub api_version: String,
    /// The time allowed for a request, in seconds.
    pub timeout: u64,
}

impl Default for Config {
    fn default() -> (config: Config)
        ensures
            config.api_key@.len() == 0,
            config.api_base@ == "https://api.stripe.com/v1"@,
            config.api_version@ == "2023-10-16"@,
            config.timeout == 30,
    {
        Config {
            api_key: String::new(),
            api_base: String::from_str("https://api.stripe.com/v1"),
            api_version: String::from_str("2023-10-16"),
            timeout: 30,
        }
    }
}

/// Why a configuration cannot make a client.
#[derive(Debug, Clone, Copy, PartialEq, Eq, Structural)]
pub enum ConfigError {
    /// The API key is empty.
    MissingApiKey,
}

impl Config {
    /// The value of the authorization header: the API key as a bearer
    /// token.
    pub fn authorization(&self) -> (value: String)
        ensures
            value@ == "Bearer "@ + self.api_key@,
    {
        let mut value = String::from_str("Bearer ");
        value.append(self.api_key.as_str());
        value
    }

    /// Checks that the configuration can make a client: it needs an API
    /// key.
    pub fn validate(&self) -> (r: Result<(), ConfigError>)
        ensures
            r is Ok <==> self.api_key@.len() > 0,
            r is Err ==> r == Err::<(), ConfigError>(ConfigError::MissingApiKey),
    {
        if self.api_key.as_str().is_empty() {
            Err(ConfigError::MissingApiKey)
        } else {
            Ok(())
        }
    }
}

} // verus!
