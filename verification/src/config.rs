//! Client configuration: the builder that collects overrides, the defaults
//! that stand in for what was not set, and the configuration that results.

use crate::client::CoinbasePublicClient;
use vstd::prelude::*;

verus! {

/// Base URL of the exchange's production endpoint.
pub const COINBASE_API_URL: &'static str = "https://api.pro.coinbase.com";

/// Request timeout in seconds where none is set.
pub const DEFAULT_REQUEST_TIMEOUT: u8 = 30;

/// Requests per second where no rate limit is set.
pub const DEFAULT_RATE_LIMIT: u8 = 3;

/// Burst capacity where none is set.
pub const DEFAULT_BURST_SIZE: u8 = 6;

/// The `User-Agent` that the transport announces.
pub const APP_USER_AGENT: &'static str = "coinbase_pro_api/0.1.0";

/// The resolved configuration of a client. A rate limit of zero means that
/// requests are not paced, whatever the burst size.
#[derive(Debug)]
pub struct ClientConfig {
    pub api_url: String,
    pub request_timeout: u8,
    pub rate_limit: u8,
    pub burst_size: u8,
}

/// The mathematical value of a `ClientConfig`.
pub struct ConfigView {
    pub api_url: Seq<char>,
    pub request_timeout: u8,
    pub rate_limit: u8,
    pub burst_size: u8,
}

impl View for ClientConfig {
    type V = ConfigView;

    open spec fn view(&self) -> ConfigView {
        ConfigView {
            api_url: self.api_url@,
            request_timeout: self.request_timeout,
            rate_limit: self.rate_limit,
            burst_size: self.burst_size,
        }
    }
}

impl ConfigView {
    /// A request with this configuration has a deadline that can be met.
    pub open spec fn has_deadline(self) -> bool {
        self.request_timeout > 0
    }

    /// Requests made with this configuration wait for a token.
    pub open spec fn is_paced(self) -> bool {
        self.rate_limit > 0
    }
}

impl ClientConfig {
    /// Whether the timeout is positive. The builder takes a timeout of zero
    /// as it is given; a caller that wants it refused tests here.
    pub fn has_deadline(&self) -> (r: bool)
        ensures
            r == self@.has_deadline(),
    {
        self.request_timeout > 0
    }

    /// Whether requests wait for a token before they are sent.
    pub fn is_paced(&self) -> (r: bool)
        ensures
            r == self@.is_paced(),
    {
        self.rate_limit > 0
    }
}

/// Builder for `CoinbasePublicClient`: each setter records one override, and
/// `build` fills in the defaults for the rest.
pub struct CoinbaseClientBuilder<'a> {
    api_url: Option<&'a str>,
    request_timeout: Option<u8>,
    rate_limit: Option<u8>,
    burst_size: Option<u8>,
}

/// The mathematical value of a builder: each field is the override, if set.
pub struct BuilderView {
    pub api_url: Option<Seq<char>>,
    pub request_timeout: Option<u8>,
    pub rate_limit: Option<u8>,
    pub burst_size: Option<u8>,
}

impl BuilderView {
    /// The builder on which nothing is set.
    pub open spec fn unset() -> BuilderView {
        BuilderView { api_url: None, request_timeout: None, rate_limit: None, burst_size: None }
    }

    /// The configuration that `build` gives: each override where one is set,
    /// the default where none is.
    pub open spec fn resolved(self) -> ConfigView {
        ConfigView {
            api_url: match self.api_url {
                Some(url) => url,
                None => COINBASE_API_URL@,
            },
            request_timeout: match self.request_timeout {
                Some(secs) => secs,
                None => DEFAULT_REQUEST_TIMEOUT,
            },
            rate_limit: match self.rate_limit {
                Some(rate) => rate,
                None => DEFAULT_RATE_LIMIT,
            },
            burst_size: match self.burst_size {
                Some(burst) => burst,
                None => DEFAULT_BURST_SIZE,
            },
        }
    }
}

impl<'a> View for CoinbaseClientBuilder<'a> {
    type V = BuilderView;

    closed spec fn view(&self) -> BuilderView {
        BuilderView {
            api_url: match self.api_url {
                Some(url) => Some(url@),
                None => None,
            },
            request_timeout: self.request_timeout,
            rate_limit: self.rate_limit,
            burst_size: self.burst_size,
        }
    }
}

impl CoinbaseClientBuilder<'static> {
    /// A builder with no override.
    pub fn new() -> (builder: Self)
        ensures
            builder@ == BuilderView::unset(),
    {
        Self { api_url: None, request_timeout: None, rate_limit: None, burst_size: None }
    }

    /// Sets the base URL; the other fields stay.
    pub fn api_url(self, value: &'static str) -> (builder: Self)
        ensures
            builder@ == (BuilderView { api_url: Some(value@), ..self@ }),
    {
        Self { api_url: Some(value), ..self }
    }

    /// Sets the request timeout in seconds; the other fields stay.
    pub fn request_timeout(self, value: u8) -> (builder: Self)
        ensures
            builder@ == (BuilderView { request_timeout: Some(value), ..self@ }),
    {
        Self { request_timeout: Some(value), ..self }
    }

    /// Sets the number of requests per second; zero switches pacing off. The
    /// other fields stay.
    pub fn rate_limit(self, value: u8) -> (builder: Self)
        ensures
            builder@ == (BuilderView { rate_limit: Some(value), ..self@ }),
    {
        Self { rate_limit: Some(value), ..self }
    }

    /// Sets the burst capacity; the other fields stay.
    pub fn burst_size(self, value: u8) -> (builder: Self)
        ensures
            builder@ == (BuilderView { burst_size: Some(value), ..self@ }),
    {
        Self { burst_size: Some(value), ..self }
    }

    /// Resolves every field and hands out the client. It never fails: a
    /// timeout of zero is taken as given.
    pub fn build(self) -> (client: CoinbasePublicClient)
        ensures
            client@ == self@.resolved(),
    {
        let api_url = match self.api_url {
            Some(url) => url.to_owned(),
            None => COINBASE_API_URL.to_owned(),
        };
        let request_timeout = match self.request_timeout {
            Some(secs) => secs,
            None => DEFAULT_REQUEST_TIMEOUT,
        };
        let rate_limit = match self.rate_limit {
            Some(rate) => rate,
            None => DEFAULT_RATE_LIMIT,
        };
        let burst_size = match self.burst_size {
            Some(burst) => burst,
            None => DEFAULT_BURST_SIZE,
        };
        CoinbasePublicClient::from_config(
            ClientConfig { api_url, request_timeout, rate_limit, burst_size },
        )
    }
}

impl Default for CoinbaseClientBuilder<'static> {
    fn default() -> (builder: Self)
        ensures
            builder@ == BuilderView::unset(),
    {
        CoinbaseClientBuilder::new()
    }
}

} // verus!
