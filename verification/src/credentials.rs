//! Where the API lives and the key that opens it.

use vstd::prelude::*;
use vstd::string::StringExecFns;

verus! {

/// The base URL of the production API.
pub const PRODUCTION_API_BASE: &'static str = "https://api.telnyx.com/v2";

/// The base URL of an API and the key sent with every request to it. Neither
/// changes once the value is made.
pub struct Credentials {
    pub(crate) api_base: String,
    pub(crate) api_key: String,
}

/// The two strings that a [`Credentials`] holds.
pub struct CredentialsView {
    pub api_base: Seq<char>,
    pub api_key: Seq<char>,
}

impl View for Credentials {
    type V = CredentialsView;

    closed spec fn view(&self) -> CredentialsView {
        CredentialsView { api_base: self.api_base@, api_key: self.api_key@ }
    }
}

impl Default for Credentials {
    /// Credentials for the production API with an empty key.
    fn default() -> (res: Credentials)
        ensures
            res@ == (CredentialsView { api_base: PRODUCTION_API_BASE@, api_key: Seq::empty() }),
    {
        Credentials { api_base: String::from_str(PRODUCTION_API_BASE), api_key: String::new() }
    }
}

impl Credentials {
    /// Credentials for the production API. The key is kept as given.
    pub fn new(api_key: &str) -> (res: Credentials)
        ensures
            res@ == (CredentialsView { api_base: PRODUCTION_API_BASE@, api_key: api_key@ }),
    {
        Credentials {
            api_base: String::from_str(PRODUCTION_API_BASE),
            api_key: String::from_str(api_key),
        }
    }

    /// Credentials for the API at `base`, such as a local stand-in. Both
    /// strings are kept as given.
    pub fn custom(api_key: &str, base: &str) -> (res: Credentials)
        ensures
            res@ == (CredentialsView { api_base: base@, api_key: api_key@ }),
    {
        Credentials { api_base: String::from_str(base), api_key: String::from_str(api_key) }
    }

    /// The base URL that endpoints are built on.
    pub fn api_base(&self) -> (res: &str)
        ensures
            res@ == self@.api_base,
    {
        self.api_base.as_str()
    }

    /// The key sent as the bearer token.
    pub fn api_key(&self) -> (res: &str)
        ensures
            res@ == self@.api_key,
    {
        self.api_key.as_str()
    }
}

} // verus!
