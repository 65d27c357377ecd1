//! Client configuration: the compute endpoint, the credential, the API
//! version and the optional storage endpoint.
//!
//! Reading a configuration file is the surrounding program's work; the
//! selection logic — which values make a configuration, and what is missing
//! when they do not — lives here.
use vstd::prelude::*;

verus! {

/// The client configuration.
#[derive(Debug, Clone)]
pub struct Config {
    /// Base URL of the compute API.
    pub api_url: String,
    /// The credential sent with every compute request. Never log it.
    pub api_key: String,
    /// Version segment of the API.
    pub version: String,
    /// The storage endpoint, when storage is to be used.
    pub storage_url: Option<String>,
}

/// Why a configuration could not be loaded.
#[derive(Debug, Clone, Copy, PartialEq, Eq, Structural)]
pub enum Error {
    /// The configuration file does not exist or could not be read.
    FileNotFound,
    /// The file is not a usable configuration.
    InvalidConfig,
}

impl Config {
    /// A configuration from explicit values; the version defaults to `v1`.
    pub fn new(
        api_url: &str,
        api_key: &str,
        version: Option<&str>,
        storage_url: Option<String>,
    ) -> (r: Self)
        ensures
            r.api_url@ == api_url@,
            r.api_key@ == api_key@,
            match version {
                Option::Some(v) => r.version@ == v@,
                Option::None => r.version@ == "v1"@,
            },
            r.storage_url == storage_url,
    {
        Config {
            api_url: api_url.to_owned(),
            api_key: api_key.to_owned(),
            version: match version {
                Some(v) => v.to_owned(),
                None => "v1".to_owned(),
            },
            storage_url,
        }
    }

    /// Builds a configuration from the values a configuration file yielded:
    /// both the compute URL and the credential are required, the version
    /// defaults to `v1`, and the storage endpoint is optional. A missing
    /// URL or credential makes the configuration invalid.
    pub fn from_values(
        api_url: Option<String>,
        api_key: Option<String>,
        version: Option<String>,
        storage_url: Option<String>,
    ) -> (r: Result<Self, Error>)
        ensures
            match (api_url, api_key) {
                (Option::Some(u), Option::Some(k)) => r matches Ok(c) && c.api_url == u
                    && c.api_key == k && c.storage_url == storage_url && match version {
                    Option::Some(v) => c.version == v,
                    Option::None => c.version@ == "v1"@,
                },
                _ => r == Result::<Self, Error>::Err(Error::InvalidConfig),
            },
    {
        match (api_url, api_key) {
            (Some(api_url), Some(api_key)) => Ok(
                Config {
                    api_url,
                    api_key,
                    version: match version {
                        Some(v) => v,
                        None => "v1".to_owned(),
                    },
                    storage_url,
                },
            ),
            _ => Err(Error::InvalidConfig),
        }
    }
}

} // verus!
