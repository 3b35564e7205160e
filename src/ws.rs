//! Settings of the websocket feed clients; the clients' network loops run
//! outside the library.
use vstd::prelude::*;

use crate::auth::ApiCredentials;
use crate::CLOB_WSS_ENDPOINT;

verus! {

/// First wait before reconnecting a feed, seconds.
pub const INITIAL_BACKOFF_SECS: u64 = 1;

/// Longest wait before reconnecting a feed, seconds.
pub const MAX_BACKOFF_SECS: u64 = 30;

/// The wait after `current` seconds: doubled, at most `MAX_BACKOFF_SECS`.
pub fn next_backoff_secs(current: u64) -> (r: u64)
    ensures
        r == (if 2 * current <= MAX_BACKOFF_SECS {
            2 * current
        } else {
            MAX_BACKOFF_SECS as int
        }),
{
    if current <= MAX_BACKOFF_SECS / 2 {
        current * 2
    } else {
        MAX_BACKOFF_SECS
    }
}

/// A market-channel client: which endpoint, which tokens, and whether the
/// feature-flagged messages are asked for.
pub struct MarketWsClient {
    endpoint: String,
    asset_ids: Vec<String>,
    enable_features: bool,
}

impl MarketWsClient {
    /// A client of the venue's endpoint for these tokens, with features on.
    pub fn new(asset_ids: Vec<String>) -> (r: Self)
        ensures
            r.endpoint_spec() == CLOB_WSS_ENDPOINT@,
            r.asset_ids_spec() == asset_ids@,
            r.enable_features_spec(),
    {
        Self::with_endpoint(CLOB_WSS_ENDPOINT, asset_ids)
    }

    /// A client of another endpoint, for tests.
    pub fn with_endpoint(endpoint: &str, asset_ids: Vec<String>) -> (r: Self)
        ensures
            r.endpoint_spec() == endpoint@,
            r.asset_ids_spec() == asset_ids@,
            r.enable_features_spec(),
    {
        MarketWsClient { endpoint: String::from_str(endpoint), asset_ids, enable_features: true }
    }

    /// The endpoint's text.
    pub closed spec fn endpoint_spec(&self) -> Seq<char> {
        self.endpoint@
    }

    /// The token ids subscribed to.
    pub closed spec fn asset_ids_spec(&self) -> Seq<String> {
        self.asset_ids@
    }

    /// Whether feature-flagged messages are asked for.
    pub closed spec fn enable_features_spec(&self) -> bool {
        self.enable_features
    }

    /// Turns the feature-flagged messages on or off.
    pub fn set_enable_features(&mut self, enable: bool)
        ensures
            final(self).enable_features_spec() == enable,
            final(self).endpoint_spec() == old(self).endpoint_spec(),
            final(self).asset_ids_spec() == old(self).asset_ids_spec(),
    {
        self.enable_features = enable;
    }

    /// The endpoint.
    pub fn endpoint(&self) -> (r: &str)
        ensures
            r@ == self.endpoint_spec(),
    {
        self.endpoint.as_str()
    }

    /// The tokens subscribed to.
    pub fn asset_ids(&self) -> (r: &Vec<String>)
        ensures
            r@ == self.asset_ids_spec(),
    {
        &self.asset_ids
    }

    /// Whether the feature-flagged messages are asked for.
    pub fn enable_features(&self) -> (r: bool)
        ensures
            r == self.enable_features_spec(),
    {
        self.enable_features
    }
}

/// A user-channel client: which endpoint, which credentials, which markets.
pub struct UserWsClient {
    endpoint: String,
    credentials: ApiCredentials,
    market_ids: Vec<String>,
}

impl UserWsClient {
    /// A client of the venue's endpoint for these markets (condition ids).
    pub fn new(credentials: ApiCredentials, market_ids: Vec<String>) -> (r: Self)
        ensures
            r.endpoint_spec() == CLOB_WSS_ENDPOINT@,
            r.credentials_spec() == credentials,
            r.market_ids_spec() == market_ids@,
    {
        Self::with_endpoint(CLOB_WSS_ENDPOINT, credentials, market_ids)
    }

    /// A client of another endpoint, for tests.
    pub fn with_endpoint(endpoint: &str, credentials: ApiCredentials, market_ids: Vec<String>) -> (r:
        Self)
        ensures
            r.endpoint_spec() == endpoint@,
            r.credentials_spec() == credentials,
            r.market_ids_spec() == market_ids@,
    {
        UserWsClient { endpoint: String::from_str(endpoint), credentials, market_ids }
    }

    /// The endpoint's text.
    pub closed spec fn endpoint_spec(&self) -> Seq<char> {
        self.endpoint@
    }

    /// The credentials sent on subscribing.
    pub closed spec fn credentials_spec(&self) -> ApiCredentials {
        self.credentials
    }

    /// The condition ids subscribed to.
    pub closed spec fn market_ids_spec(&self) -> Seq<String> {
        self.market_ids@
    }

    /// The endpoint.
    pub fn endpoint(&self) -> (r: &str)
        ensures
            r@ == self.endpoint_spec(),
    {
        self.endpoint.as_str()
    }

    /// The credentials.
    pub fn credentials(&self) -> (r: &ApiCredentials)
        ensures
            *r == self.credentials_spec(),
    {
        &self.credentials
    }

    /// The markets subscribed to.
    pub fn market_ids(&self) -> (r: &Vec<String>)
        ensures
            r@ == self.market_ids_spec(),
    {
        &self.market_ids
    }
}

} // verus!
