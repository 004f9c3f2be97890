//! Proxy configuration: whether to forward unmatched traffic, and where.

use vstd::prelude::*;

use crate::error::Error;

verus! {

/// The proxy configuration of the hosting server. Enabling the proxy
/// requires a proxy url; username and password are optional.
#[derive(Clone, Debug, PartialEq, Eq, Hash)]
pub struct Proxy {
    use_proxy: bool,
    proxy_url: Option<String>,
    proxy_username: Option<String>,
    proxy_password: Option<String>,
}

impl Proxy {
    /// Whether the proxy is turned on.
    pub closed spec fn spec_use_proxy(self) -> bool {
        self.use_proxy
    }

    /// The configured proxy url.
    pub closed spec fn spec_proxy_url(self) -> Option<String> {
        self.proxy_url
    }

    /// The configured proxy username.
    pub closed spec fn spec_proxy_username(self) -> Option<String> {
        self.proxy_username
    }

    /// The configured proxy password.
    pub closed spec fn spec_proxy_password(self) -> Option<String> {
        self.proxy_password
    }

    /// Create a new minimal proxy configuration, with no credentials.
    pub fn new(use_proxy: bool, proxy_url: Option<String>) -> (r: Self)
        ensures
            r.spec_use_proxy() == use_proxy,
            r.spec_proxy_url() == proxy_url,
            r.spec_proxy_username() is None,
            r.spec_proxy_password() is None,
    {
        Proxy { use_proxy, proxy_url, proxy_username: None, proxy_password: None }
    }

    /// Build a proxy configuration from already-parsed command-line values.
    /// Asking for a proxy without giving a url is rejected; everything else
    /// is accepted as given.
    pub fn try_from_args(
        use_proxy: bool,
        proxy_url: Option<String>,
        proxy_username: Option<String>,
        proxy_password: Option<String>,
    ) -> (r: Result<Self, Error>)
        ensures
            (r is Ok) == !(use_proxy && proxy_url is None),
            r matches Ok(p) ==> p.spec_use_proxy() == use_proxy && p.spec_proxy_url() == proxy_url
                && p.spec_proxy_username() == proxy_username && p.spec_proxy_password()
                == proxy_password,
            r is Err ==> r == Err::<Proxy, Error>(Error::InvalidProxyConfig),
    {
        if use_proxy && proxy_url.is_none() {
            Err(Error::InvalidProxyConfig)
        } else {
            Ok(Proxy { use_proxy, proxy_url, proxy_username, proxy_password })
        }
    }

    /// Whether the proxy is turned on.
    pub fn use_proxy(&self) -> (r: bool)
        ensures
            r == self.spec_use_proxy(),
    {
        self.use_proxy
    }

    /// The proxy url, if one is configured.
    pub fn proxy_url(&self) -> (r: &Option<String>)
        ensures
            r == self.spec_proxy_url(),
    {
        &self.proxy_url
    }

    /// The proxy username, if one is configured.
    pub fn proxy_username(&self) -> (r: &Option<String>)
        ensures
            r == self.spec_proxy_username(),
    {
        &self.proxy_username
    }

    /// The proxy password, if one is configured.
    pub fn proxy_password(&self) -> (r: &Option<String>)
        ensures
            r == self.spec_proxy_password(),
    {
        &self.proxy_password
    }
}

impl Default for Proxy {
    /// A disabled proxy with nothing configured.
    fn default() -> (r: Self)
        ensures
            !r.spec_use_proxy(),
            r.spec_proxy_url() is None,
            r.spec_proxy_username() is None,
            r.spec_proxy_password() is None,
    {
        Proxy { use_proxy: false, proxy_url: None, proxy_username: None, proxy_password: None }
    }
}

} // verus!
