//! Market series: which slugs name a series' markets.
use vstd::prelude::*;

use crate::text::{lower_of, same_text, to_lower};

verus! {

/// A series of rolling fifteen-minute up/down markets.
#[derive(Clone, Copy, Debug, PartialEq, Eq, Structural)]
pub enum MarketSeries {
    /// Bitcoin fifteen-minute markets.
    Btc15m,
    /// Ether fifteen-minute markets.
    Eth15m,
}

/// The slug patterns of a series, preferred first; each holds one `{}`
/// where the bucket's start in Unix seconds goes.
pub open spec fn patterns_of(s: MarketSeries) -> Seq<Seq<char>> {
    match s {
        MarketSeries::Btc15m => seq!["btc-updown-15m-{}"@, "btc-up-or-down-15m-{}"@],
        MarketSeries::Eth15m => seq!["eth-updown-15m-{}"@, "eth-up-or-down-15m-{}"@],
    }
}

/// The series that a lower-case alias names.
pub open spec fn series_of_alias(t: Seq<char>) -> Option<MarketSeries> {
    if t == "btc15m"@ || t == "btc-15m"@ || t == "btc_15m"@ {
        Some(MarketSeries::Btc15m)
    } else if t == "eth15m"@ || t == "eth-15m"@ || t == "eth_15m"@ {
        Some(MarketSeries::Eth15m)
    } else {
        None
    }
}

impl MarketSeries {
    /// The slug patterns of this series, the current format first and the
    /// older one after it.
    pub fn slug_patterns(&self) -> (r: Vec<&'static str>)
        ensures
            r@.len() == 2,
            forall|i: int| 0 <= i < 2 ==> #[trigger] r@[i]@ == patterns_of(*self)[i],
    {
        match self {
            MarketSeries::Btc15m => vec!["btc-updown-15m-{}", "btc-up-or-down-15m-{}"],
            MarketSeries::Eth15m => vec!["eth-updown-15m-{}", "eth-up-or-down-15m-{}"],
        }
    }

    /// The series named by an alias that is already in lower case:
    /// `btc15m`, `btc-15m`, `btc_15m` and the same three for `eth`.
    pub fn from_alias(lowered: &str) -> (r: Option<Self>)
        ensures
            r == series_of_alias(lowered@),
    {
        if same_text(lowered, "btc15m") || same_text(lowered, "btc-15m") || same_text(
            lowered,
            "btc_15m",
        ) {
            Some(MarketSeries::Btc15m)
        } else if same_text(lowered, "eth15m") || same_text(lowered, "eth-15m") || same_text(
            lowered,
            "eth_15m",
        ) {
            Some(MarketSeries::Eth15m)
        } else {
            None
        }
    }

    /// The series named by an alias, in any case.
    pub fn from_str(s: &str) -> (r: Option<Self>)
        ensures
            r == series_of_alias(lower_of(s@)),
    {
        let lowered = to_lower(s);
        Self::from_alias(lowered.as_str())
    }
}

} // verus!
