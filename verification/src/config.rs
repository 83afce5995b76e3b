//! Application configuration: the resolved settings and the defaulting
//! rules. The process boundary reads the raw environment values and hands
//! them here as plain options.

use vstd::prelude::*;
use vstd::string::StringExecFns;

verus! {

/// Application configuration.
pub struct Config {
    pub port: u16,
    pub openai_api_key: String,
    pub openai_base_url: String,
}

/// The port used when none is configured.
pub open spec fn default_port() -> u16 {
    8081
}

impl Config {
    /// Resolves the configuration from raw settings: a missing port falls
    /// back to the default, a missing key to the empty string, and a
    /// missing base URL to the vendor's public endpoint.
    pub fn resolve(
        port: Option<u16>,
        openai_api_key: Option<String>,
        openai_base_url: Option<String>,
    ) -> (c: Config)
        ensures
            c.port == match port {
                Some(p) => p,
                None => default_port(),
            },
            c.openai_api_key@ == match openai_api_key {
                Some(k) => k@,
                None => Seq::<char>::empty(),
            },
            c.openai_base_url@ == match openai_base_url {
                Some(u) => u@,
                None => "https://api.openai.com"@,
            },
    {
        Config {
            port: match port {
                Some(p) => p,
                None => 8081,
            },
            openai_api_key: match openai_api_key {
                Some(k) => k,
                None => String::new(),
            },
            openai_base_url: match openai_base_url {
                Some(u) => u,
                None => String::from_str("https://api.openai.com"),
            },
        }
    }
}

} // verus!
