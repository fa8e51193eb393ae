//! Connection configuration for the Jetstream-backed inter-step buffer.

use vstd::prelude::*;

verus! {

/// Default broker URL.
pub const DEFAULT_URL: &'static str = "localhost:4222";

/// Connection settings for the broker client.
#[derive(Debug, Clone, PartialEq)]
pub struct ClientConfig {
    /// Address of the broker.
    pub url: String,
    /// User name, when the broker requires authentication.
    pub user: Option<String>,
    /// Password, when the broker requires authentication.
    pub password: Option<String>,
}

impl Default for ClientConfig {
    fn default() -> (r: Self)
        ensures
            r.url@ == "localhost:4222"@,
            r.user is None,
            r.password is None,
    {
        ClientConfig { url: String::from_str(DEFAULT_URL), user: None, password: None }
    }
}

} // verus!
