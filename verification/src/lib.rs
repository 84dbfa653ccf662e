pub mod selection;
pub mod render;
pub mod request;
pub mod url;

use vstd::prelude::*;

verus! {

/// The two configuration values the tool needs before it can run: the value
/// for the `Host` header and the base URL the query string is appended to.
pub struct Config {
    pub host: String,
    pub base_url: String,
}

impl Config {
    /// A configuration is usable only when both values are non-empty.
    pub open spec fn is_valid(self) -> bool {
        self.host@.len() > 0 && self.base_url@.len() > 0
    }

    pub fn new(host: String, base_url: String) -> (r: Config)
        ensures
            r.host == host,
            r.base_url == base_url,
    {
        Config { host, base_url }
    }

    /// Checks the loaded configuration: both required values must be present
    /// and non-empty, else the caller must fail fatally.
    pub fn check(&self) -> (r: bool)
        ensures
            r <==> self.is_valid(),
    {
        self.host.as_str().unicode_len() > 0 && self.base_url.as_str().unicode_len() > 0
    }
}

} // verus!
