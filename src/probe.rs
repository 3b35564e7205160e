//! Tradeability probes against the price service, with its `side` quirk:
//! the documented upper-case `BUY` is tried first and, when the service
//! answers with what looks like a bad-request error, lower-case `buy` once.
use vstd::prelude::*;

use crate::text::{contains_seq, contains_text};

verus! {

/// The spelling of the `side` parameter of a price query.
#[derive(Clone, Copy, Debug, PartialEq, Eq, Structural)]
pub enum PriceSide {
    /// `BUY`, as documented.
    Upper,
    /// `buy`, as some deployments want it.
    Lower,
}

/// Text of a side as the query carries it.
pub open spec fn side_text(s: PriceSide) -> Seq<char> {
    match s {
        PriceSide::Upper => "BUY"@,
        PriceSide::Lower => "buy"@,
    }
}

impl PriceSide {
    /// The text of this side in a query.
    pub fn as_str(&self) -> (r: &'static str)
        ensures
            r@ == side_text(*self),
    {
        match self {
            PriceSide::Upper => "BUY",
            PriceSide::Lower => "buy",
        }
    }
}

/// What one price query gave back.
#[derive(Clone, Debug)]
pub enum PriceReply {
    /// A reply object with a `price` field.
    Priced,
    /// A reply object without a `price` field.
    NoPriceField,
    /// The query failed; the error's text.
    Failed(String),
}

/// What to make of one price query.
#[derive(Clone, Copy, Debug, PartialEq, Eq, Structural)]
pub enum ProbeVerdict {
    /// The token has a live price.
    Priced,
    /// The service answered without a price.
    NoPrice,
    /// Ask again, with the lower-case side.
    RetryLower,
    /// The query failed in a way that is not retried.
    Failed,
}

/// Whether an error's text reads like a rejected request: it mentions
/// `400`, `Bad Request` or `invalid`.
pub open spec fn looks_bad_request(msg: Seq<char>) -> bool {
    contains_seq(msg, "400"@) || contains_seq(msg, "Bad Request"@) || contains_seq(
        msg,
        "invalid"@,
    )
}

/// The verdict on `reply` to a query made with `side`.
pub open spec fn verdict_of(side: PriceSide, reply: PriceReply) -> ProbeVerdict {
    match reply {
        PriceReply::Priced => ProbeVerdict::Priced,
        PriceReply::NoPriceField => ProbeVerdict::NoPrice,
        PriceReply::Failed(e) => if side == PriceSide::Upper && looks_bad_request(e@) {
            ProbeVerdict::RetryLower
        } else {
            ProbeVerdict::Failed
        },
    }
}

/// Whether an error's text reads like a rejected request.
pub fn is_bad_request(msg: &str) -> (r: bool)
    ensures
        r == looks_bad_request(msg@),
{
    contains_text(msg, "400") || contains_text(msg, "Bad Request") || contains_text(msg, "invalid")
}

/// Judges the reply to a price query made with `side`.
pub fn probe_verdict(side: PriceSide, reply: &PriceReply) -> (r: ProbeVerdict)
    ensures
        r == verdict_of(side, *reply),
{
    match reply {
        PriceReply::Priced => ProbeVerdict::Priced,
        PriceReply::NoPriceField => ProbeVerdict::NoPrice,
        PriceReply::Failed(e) => {
            if side == PriceSide::Upper && is_bad_request(e.as_str()) {
                ProbeVerdict::RetryLower
            } else {
                ProbeVerdict::Failed
            }
        },
    }
}

/// The side fallback costs at most one extra query per token: only a
/// bad-request reply to `BUY` leads to a retry, the retry is made with `buy`,
/// and no reply to `buy` leads to another query.
pub proof fn lemma_side_fallback_at_most_once(first: PriceReply, second: PriceReply)
    ensures
        verdict_of(PriceSide::Upper, first) is RetryLower <==> (first matches PriceReply::Failed(e)
            && looks_bad_request(e@)),
        !(verdict_of(PriceSide::Lower, second) is RetryLower),
{
}

} // verus!
