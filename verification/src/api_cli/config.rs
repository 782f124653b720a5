//! The settings of the console client: where the API is, and the token that
//! opens it.

use crate::text::{optional_text, owned};
use vstd::prelude::*;

verus! {

/// The settings of the console client.
#[derive(Debug, Clone)]
pub struct AppConfig {
    /// The address of the API.
    pub api_url: String,
    /// The token that opens the API, where one is set.
    pub api_token: Option<String>,
}

/// The address of the API where none is set.
pub fn default_api_url() -> (r: String)
    ensures
        r@ == "https://api.adguard-dns.io"@,
{
    owned("https://api.adguard-dns.io")
}

impl Default for AppConfig {
    fn default() -> (r: Self)
        ensures
            r.api_url@ == "https://api.adguard-dns.io"@,
            r.api_token is None,
    {
        AppConfig { api_url: default_api_url(), api_token: None }
    }
}

/// The first of three settings that is there.
pub open spec fn first_set(
    first: Option<String>,
    second: Option<String>,
    third: Option<String>,
) -> Option<String> {
    if first is Some {
        first
    } else if second is Some {
        second
    } else {
        third
    }
}

/// The first of three settings that is there.
fn first_of(first: Option<String>, second: Option<String>, third: Option<String>) -> (r: Option<
    String,
>)
    ensures
        r == first_set(first, second, third),
{
    match first {
        Some(v) => Some(v),
        None => match second {
            Some(v) => Some(v),
            None => third,
        },
    }
}

/// What the environment sets of the client's settings, under each of the
/// names that it is read by.
#[derive(Debug, Clone)]
pub struct EnvironmentSettings {
    /// The address under its standard name.
    pub base_url: Option<String>,
    /// The address under the name that the .NET client reads.
    pub dotnet_base_url: Option<String>,
    /// The address under its earlier name.
    pub legacy_url: Option<String>,
    /// The token under its standard name.
    pub api_key: Option<String>,
    /// The token under the name that the .NET client reads.
    pub dotnet_api_key: Option<String>,
    /// The token under its earlier name.
    pub legacy_token: Option<String>,
}

impl AppConfig {
    /// The settings after the environment has had its say: what the
    /// environment sets overrides what the file holds; of the names of a
    /// setting, the standard one goes first, then that of the .NET client,
    /// then the earlier one.
    #[must_use]
    pub fn load(self, environment: EnvironmentSettings) -> (r: Self)
        ensures
            r.api_url == match first_set(
                environment.base_url,
                environment.dotnet_base_url,
                environment.legacy_url,
            ) {
                Some(url) => url,
                None => self.api_url,
            },
            r.api_token == match first_set(
                environment.api_key,
                environment.dotnet_api_key,
                environment.legacy_token,
            ) {
                Some(token) => Some(token),
                None => self.api_token,
            },
    {
        let mut r = self;
        match first_of(environment.base_url, environment.dotnet_base_url, environment.legacy_url) {
            Some(url) => {
                r.api_url = url;
            },
            None => {},
        }
        match first_of(environment.api_key, environment.dotnet_api_key, environment.legacy_token) {
            Some(token) => {
                r.api_token = Some(token);
            },
            None => {},
        }
        r
    }

    /// Set the API token
    pub fn set_token(&mut self, token: String)
        ensures
            final(self).api_token == Some(token),
            final(self).api_url == old(self).api_url,
    {
        self.api_token = Some(token);
    }

    /// Check if API token is configured
    pub fn has_token(&self) -> (r: bool)
        ensures
            r == self.api_token is Some,
    {
        self.api_token.is_some()
    }

    /// Get API token or return an error
    ///
    /// # Errors
    ///
    /// Returns a message that says how to set a token, where none is set.
    pub fn get_token(&self) -> (r: Result<&str, String>)
        ensures
            match r {
                Ok(token) => optional_text(self.api_token) == Some(token@),
                Err(message) => self.api_token is None && message@
                    == "API token not configured. Set ADGUARD_API_KEY environment variable or run settings menu."@,
            },
    {
        match &self.api_token {
            Some(token) => Ok(token.as_str()),
            None => Err(
                owned(
                    "API token not configured. Set ADGUARD_API_KEY environment variable or run settings menu.",
                ),
            ),
        }
    }
}

} // verus!
