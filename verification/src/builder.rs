//! The builder of a client: retry policy, a known client id and a proxy.

use vstd::prelude::*;
use crate::config::RetryConfig;

verus! {

/// The settings from which a client is built.
#[derive(Debug)]
pub struct ClientBuilder {
    retry_config: RetryConfig,
    client_id: Option<String>,
    proxy_url: Option<String>,
}

/// The view of an optional string as optional text.
pub open spec fn opt_text(o: Option<String>) -> Option<Seq<char>> {
    match o {
        Some(s) => Some(s@),
        None => None,
    }
}

impl ClientBuilder {
    /// The retry policy the client will use.
    pub closed spec fn spec_retry_config(self) -> RetryConfig {
        self.retry_config
    }

    /// The client id the client will use instead of discovering one.
    pub closed spec fn spec_client_id(self) -> Option<Seq<char>> {
        opt_text(self.client_id)
    }

    /// The proxy the client will send its requests through.
    pub closed spec fn spec_proxy_url(self) -> Option<Seq<char>> {
        opt_text(self.proxy_url)
    }

    /// A builder with the default retry policy, no client id and no proxy.
    pub fn new() -> (b: Self)
        ensures
            b.spec_retry_config().max_retries == 3,
            b.spec_retry_config().retry_on_401,
            b.spec_client_id() is None,
            b.spec_proxy_url() is None,
    {
        ClientBuilder { retry_config: RetryConfig::default(), client_id: None, proxy_url: None }
    }

    /// Sets the largest number of retries of one request.
    pub fn with_max_retries(self, max_retries: u32) -> (b: Self)
        ensures
            b.spec_retry_config().max_retries == max_retries,
            b.spec_retry_config().retry_on_401 == self.spec_retry_config().retry_on_401,
            b.spec_client_id() == self.spec_client_id(),
            b.spec_proxy_url() == self.spec_proxy_url(),
    {
        let mut b = self;
        b.retry_config.max_retries = max_retries;
        b
    }

    /// Enables or disables retrying on `401 Unauthorized`.
    pub fn with_retry_on_401(self, retry_on_401: bool) -> (b: Self)
        ensures
            b.spec_retry_config().retry_on_401 == retry_on_401,
            b.spec_retry_config().max_retries == self.spec_retry_config().max_retries,
            b.spec_client_id() == self.spec_client_id(),
            b.spec_proxy_url() == self.spec_proxy_url(),
    {
        let mut b = self;
        b.retry_config.retry_on_401 = retry_on_401;
        b
    }

    /// Sets a known client id, so that none is discovered.
    pub fn with_client_id(self, client_id: String) -> (b: Self)
        ensures
            b.spec_client_id() == Some(client_id@),
            b.spec_retry_config() == self.spec_retry_config(),
            b.spec_proxy_url() == self.spec_proxy_url(),
    {
        let mut b = self;
        b.client_id = Some(client_id);
        b
    }

    /// Sets the proxy (HTTP, HTTPS or SOCKS5 URL) that requests go through.
    pub fn with_proxy(self, proxy_url: &str) -> (b: Self)
        ensures
            b.spec_proxy_url() == Some(proxy_url@),
            b.spec_retry_config() == self.spec_retry_config(),
            b.spec_client_id() == self.spec_client_id(),
    {
        let mut b = self;
        b.proxy_url = Some(proxy_url.to_string());
        b
    }

    /// The retry policy the client will use.
    pub fn retry_config(&self) -> (c: RetryConfig)
        ensures
            c == self.spec_retry_config(),
    {
        self.retry_config
    }

    /// The client id the client will use, if one was set.
    pub fn client_id(&self) -> (id: &Option<String>)
        ensures
            opt_text(*id) == self.spec_client_id(),
    {
        &self.client_id
    }

    /// The proxy the client will use, if one was set.
    pub fn proxy_url(&self) -> (p: &Option<String>)
        ensures
            opt_text(*p) == self.spec_proxy_url(),
    {
        &self.proxy_url
    }
}

impl Default for ClientBuilder {
    /// The same as [`ClientBuilder::new`].
    fn default() -> (b: Self)
        ensures
            b.spec_retry_config().max_retries == 3,
            b.spec_retry_config().retry_on_401,
            b.spec_client_id() is None,
            b.spec_proxy_url() is None,
    {
        ClientBuilder::new()
    }
}

} // verus!
