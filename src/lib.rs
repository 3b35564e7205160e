//! Market resolution and switch control for rolling fifteen-minute binary
//! prediction markets.
//!
//! The [`resolver`] names the market to trade at a reference time, or
//! freezes; the [`switch`] controller moves from one bucket's market to the
//! next. Both leave the network to their caller: they name each query and
//! take its reply.
use vstd::prelude::*;

pub mod auth;
pub mod probe;
pub mod resolver;
pub mod rsclob;
pub mod series;
pub mod switch;
pub mod text;
pub mod time;
pub mod types;
pub mod ws;

verus! {

/// Base URL of the venue's order-book REST API.
pub const CLOB_REST_BASE: &'static str = "https://clob.polymarket.com";

/// Base URL of the market discovery API.
pub const GAMMA_API_BASE: &'static str = "https://gamma-api.polymarket.com";

/// Websocket endpoint of the market channel.
pub const CLOB_WSS_ENDPOINT: &'static str = "wss://ws-subscriptions-clob.polymarket.com/ws/market";

/// Websocket endpoint of the real-time data stream.
pub const RTDS_WSS_ENDPOINT: &'static str = "wss://ws-live-data.polymarket.com";

} // verus!
