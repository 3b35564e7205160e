//! Resolution of the market to trade at a reference time.
//!
//! A resolution queries the discovery service slug by slug, in a fixed
//! order, and takes the first market that passes validation; it then probes
//! the price service for each of the market's tokens. The queries are made by
//! the caller: a [`ResolveSession`] names the next query as a
//! [`ResolveStep`], takes its reply, and names the step after it, until it
//! hands back the [`ResolveResult`].
use vstd::prelude::*;

use crate::probe::{PriceReply, PriceSide, ProbeVerdict, probe_verdict, verdict_of};
use crate::series::{MarketSeries, patterns_of};
use crate::text::{
    decimal, fill_placeholder, int_text, last_dash_segment, last_segment, parse_i64,
    parse_i64_spec, replace_placeholder,
};
use crate::time::{rfc3339_of, rfc3339_text, utc_in_range};
use crate::types::{GammaMarket, ResolveResult, ResolvedMarket, SelectionReason};

verus! {

/// Settings of a resolution.
#[derive(Clone, Copy, Debug, PartialEq, Eq, Structural)]
pub struct ResolverConfig {
    /// Length of a time bucket in seconds.
    pub bucket_size_secs: i64,
    /// How long after its bucket's end a previous-bucket market is still taken.
    pub time_tolerance_secs: i64,
    /// Whether the previous bucket is searched when the current one gives nothing.
    pub check_adjacent_buckets: bool,
    /// Whether the chosen market's tokens are probed on the price service.
    pub clob_validation: bool,
}

impl ResolverConfig {
    /// Buckets have a positive length.
    pub open spec fn wf(&self) -> bool {
        self.bucket_size_secs > 0
    }
}

impl Default for ResolverConfig {
    fn default() -> (r: Self)
        ensures
            r.bucket_size_secs == 900,
            r.time_tolerance_secs == 120,
            r.check_adjacent_buckets,
            r.clob_validation,
    {
        ResolverConfig {
            bucket_size_secs: 900,
            time_tolerance_secs: 120,
            check_adjacent_buckets: true,
            clob_validation: true,
        }
    }
}

/// Start of the bucket of `size` seconds that holds `ts`: `ts` rounded down
/// to a multiple of `size`.
pub open spec fn bucket_of(ts: int, size: int) -> int {
    (ts / size) * size
}

/// A bucket's start is a multiple of the bucket size, at or before the
/// reference time, and less than one bucket before it.
pub proof fn lemma_bucket_bounds(ts: int, size: int)
    requires
        size > 0,
    ensures
        bucket_of(ts, size) % size == 0,
        bucket_of(ts, size) <= ts < bucket_of(ts, size) + size,
{
    vstd::arithmetic::div_mod::lemma_fundamental_div_mod(ts, size);
    vstd::arithmetic::mul::lemma_mul_is_commutative(ts / size, size);
    vstd::arithmetic::div_mod::lemma_mod_multiples_basic(ts / size, size);
    assert(0 <= ts % size < size);
}

/// Start of the bucket of `size` seconds that holds `ts`.
pub fn bucket_start_of(ts: i64, size: i64) -> (r: i64)
    requires
        size > 0,
        utc_in_range(ts as int),
    ensures
        r == bucket_of(ts as int, size as int),
{
    if ts >= 0 {
        let m = ts % size;
        proof {
            vstd::arithmetic::div_mod::lemma_fundamental_div_mod(ts as int, size as int);
            vstd::arithmetic::mul::lemma_mul_is_commutative(ts as int / size as int, size as int);
        }
        ts - m
    } else {
        // With v = -ts - 1 >= 0, the bucket is -(v - v % size) - size.
        let v = -(ts + 1);
        let m = v % size;
        let w = v - m;
        proof {
            let qv = v as int / size as int;
            vstd::arithmetic::div_mod::lemma_fundamental_div_mod(v as int, size as int);
            vstd::arithmetic::mul::lemma_mul_is_commutative(qv, size as int);
            assert(w == qv * size);
            assert(ts as int == (-qv - 1) * size + (size - m - 1)) by (nonlinear_arith)
                requires
                    ts as int == -(v as int) - 1,
                    v as int == qv * size + m,
            ;
            vstd::arithmetic::div_mod::lemma_fundamental_div_mod_converse(
                ts as int,
                size as int,
                -qv - 1,
                size - m - 1,
            );
            assert((-qv - 1) * size == -w - size) by (nonlinear_arith)
                requires
                    w == qv * size,
            ;
            assert(0 <= w <= v);
            if qv >= 1 {
                assert(w >= size) by (nonlinear_arith)
                    requires
                        w == qv * size,
                        qv >= 1,
                        size > 0,
                ;
            } else {
                assert(w == 0) by (nonlinear_arith)
                    requires
                        w == qv * size,
                        qv == 0,
                ;
            }
        }
        -w - size
    }
}

/// A market that can be traded: two tokens, active, not closed, with an
/// order book.
pub open spec fn tradeable(m: GammaMarket) -> bool {
    &&& m.clob_token_ids@.len() == 2
    &&& m.active
    &&& !m.closed
    &&& m.enable_order_book
}

/// The bucket start that a market's slug ends in, if it ends in an integer.
pub open spec fn slug_bucket(m: GammaMarket) -> Option<int> {
    parse_i64_spec(last_segment(m.slug@))
}

/// Whether a market found under the current bucket's slugs is taken at `asof`:
/// it is tradeable and `asof` lies in the bucket, end excluded.
pub open spec fn accepted_current(m: GammaMarket, asof: int, cfg: ResolverConfig) -> bool {
    let b = bucket_of(asof, cfg.bucket_size_secs as int);
    tradeable(m) && b <= asof < b + cfg.bucket_size_secs
}

/// Whether a market found under the previous bucket's slugs is taken at
/// `asof`: it is tradeable and `asof` lies in the bucket its slug names,
/// extended by the tolerance.
pub open spec fn accepted_previous(m: GammaMarket, asof: int, cfg: ResolverConfig) -> bool {
    tradeable(m) && match slug_bucket(m) {
        Some(b) => b <= asof < b + cfg.bucket_size_secs + cfg.time_tolerance_secs,
        None => false,
    }
}

/// The slugs of the bucket starting at `b`, in pattern order.
pub open spec fn bucket_slugs(series: MarketSeries, b: int) -> Seq<Seq<char>> {
    patterns_of(series).map_values(|p: Seq<char>| fill_placeholder(p, decimal(b)))
}

/// The slugs a resolution at `asof` queries, in order: the current bucket's,
/// then, when enabled, the previous bucket's.
pub open spec fn slug_plan(series: MarketSeries, asof: int, cfg: ResolverConfig) -> Seq<Seq<char>> {
    let b = bucket_of(asof, cfg.bucket_size_secs as int);
    if cfg.check_adjacent_buckets {
        bucket_slugs(series, b) + bucket_slugs(series, b - cfg.bucket_size_secs)
    } else {
        bucket_slugs(series, b)
    }
}

/// Whether the `i`-th slug of the plan belongs to the current bucket: the
/// plan starts with the current bucket's two slugs, one per pattern.
pub open spec fn is_current_slot(i: int) -> bool {
    i < 2
}

/// Whether the market found at the `i`-th slug of the plan is taken.
pub open spec fn accepted_at(m: GammaMarket, i: int, asof: int, cfg: ResolverConfig) -> bool {
    if is_current_slot(i) {
        accepted_current(m, asof, cfg)
    } else {
        accepted_previous(m, asof, cfg)
    }
}

/// Start of the bucket of the market found at the `i`-th slug of the plan:
/// the reference time's bucket for the current bucket's slugs, and for the
/// previous bucket's the bucket that the market's own slug names.
pub open spec fn chosen_bucket_of(m: GammaMarket, i: int, asof: int, cfg: ResolverConfig) -> int {
    if is_current_slot(i) {
        bucket_of(asof, cfg.bucket_size_secs as int)
    } else {
        match slug_bucket(m) {
            Some(b) => b,
            None => 0,
        }
    }
}

/// A market taken at the `i`-th slug of the plan starts a bucket that holds
/// the reference time, extended by the tolerance for the previous bucket's
/// slugs; that bucket is a multiple of the bucket size when it is the
/// reference time's own, or when the market's slug names such a bucket.
pub proof fn lemma_resolved_market_in_window(m: GammaMarket, i: int, asof: int, cfg: ResolverConfig)
    requires
        cfg.wf(),
        cfg.time_tolerance_secs >= 0,
        accepted_at(m, i, asof, cfg),
    ensures
        ({
            let b = chosen_bucket_of(m, i, asof, cfg);
            &&& b <= asof < b + cfg.bucket_size_secs + cfg.time_tolerance_secs
            &&& (is_current_slot(i) || slug_bucket(m) == Some(b))
            &&& (is_current_slot(i) ==> b % (cfg.bucket_size_secs as int) == 0)
        }),
{
    lemma_bucket_bounds(asof, cfg.bucket_size_secs as int);
}

/// Text of an optional string, empty when absent.
pub open spec fn text_or_empty(s: Option<String>) -> Seq<char> {
    match s {
        Some(t) => t@,
        None => Seq::empty(),
    }
}

/// Whether `r` is the result built from market `m`: a freeze when the market
/// is not binary in its tokens or outcomes (no outcomes stand for
/// `["Up", "Down"]`), else the resolved market with the audit fields.
pub open spec fn built_result(
    r: ResolveResult,
    m: GammaMarket,
    asof: int,
    bucket: int,
    now_ms: int,
    cands: Seq<String>,
) -> bool {
    let n_out = m.outcomes@.len();
    if m.clob_token_ids@.len() != 2 {
        r matches ResolveResult::Freeze { reason, message, candidates } && reason
            == SelectionReason::ValidationFailed && message@
            == "clobTokenIds is not exactly 2 elements"@ && candidates@ == seq![m.slug]
    } else if n_out != 2 && n_out != 0 {
        r matches ResolveResult::Freeze { reason, message, candidates } && reason
            == SelectionReason::ValidationFailed && message@ == "Unexpected outcomes count: "@
            + decimal(n_out as int) && candidates@ == seq![m.slug]
    } else {
        r matches ResolveResult::Resolved(rm) && {
            &&& rm.gamma_market_id == m.id
            &&& rm.condition_id == m.condition_id
            &&& rm.clob_token_ids@ == m.clob_token_ids@
            &&& rm.slug == m.slug
            &&& rm.question == m.question
            &&& rm.start_date@ == text_or_empty(m.start_date)
            &&& rm.end_date@ == text_or_empty(m.end_date)
            &&& rm.selected_at_ms == now_ms
            &&& rm.selection_reason == SelectionReason::UniqueMatchInWindow
            &&& (if n_out == 2 {
                rm.outcomes@ == m.outcomes@
            } else {
                rm.outcomes@[0]@ == "Up"@ && rm.outcomes@[1]@ == "Down"@
            })
            &&& rm.asof_utc@ == rfc3339_of(asof)
            &&& rm.candidate_slugs@ == cands
            &&& rm.bucket_start_ts == bucket
        }
    }
}

fn single(s: String) -> (r: Vec<String>)
    ensures
        r@ == seq![s],
{
    let mut r: Vec<String> = Vec::new();
    r.push(s);
    proof {
        assert(r@ =~= seq![s]);
    }
    r
}

fn text_of(s: &Option<String>) -> (r: String)
    ensures
        r@ == text_or_empty(*s),
{
    match s {
        Some(t) => t.clone(),
        None => String::new(),
    }
}

/// Builds the result for market `m`, chosen at `asof` in the bucket starting
/// at `bucket_start`, after the slugs `candidate_slugs` gave markets.
pub fn build_result(
    m: &GammaMarket,
    asof_ts: i64,
    bucket_start: i64,
    candidate_slugs: Vec<String>,
    now_ms: i64,
) -> (r: ResolveResult)
    requires
        utc_in_range(asof_ts as int),
    ensures
        built_result(r, *m, asof_ts as int, bucket_start as int, now_ms as int, candidate_slugs@),
{
    if m.clob_token_ids.len() != 2 {
        return ResolveResult::Freeze {
            reason: SelectionReason::ValidationFailed,
            message: String::from_str("clobTokenIds is not exactly 2 elements"),
            candidates: single(m.slug.clone()),
        };
    }
    let tokens = [m.clob_token_ids[0].clone(), m.clob_token_ids[1].clone()];
    let n_out = m.outcomes.len();
    let outcomes = if n_out == 2 {
        [m.outcomes[0].clone(), m.outcomes[1].clone()]
    } else if n_out == 0 {
        [String::from_str("Up"), String::from_str("Down")]
    } else {
        let mut message = String::from_str("Unexpected outcomes count: ");
        let count = int_text(n_out as i128);
        message.append(count.as_str());
        return ResolveResult::Freeze {
            reason: SelectionReason::ValidationFailed,
            message,
            candidates: single(m.slug.clone()),
        };
    };
    proof {
        assert(tokens@ =~= m.clob_token_ids@);
        if n_out == 2 {
            assert(outcomes@ =~= m.outcomes@);
        }
    }
    ResolveResult::Resolved(
        ResolvedMarket {
            gamma_market_id: m.id.clone(),
            condition_id: m.condition_id.clone(),
            clob_token_ids: tokens,
            slug: m.slug.clone(),
            question: m.question.clone(),
            start_date: text_of(&m.start_date),
            end_date: text_of(&m.end_date),
            selected_at_ms: now_ms,
            selection_reason: SelectionReason::UniqueMatchInWindow,
            outcomes,
            asof_utc: rfc3339_text(asof_ts),
            candidate_slugs,
            bucket_start_ts: bucket_start,
        },
    )
}

/// Whether a market found under the current bucket's slugs is taken.
pub fn accepts_current(m: &GammaMarket, asof_ts: i64, cfg: &ResolverConfig) -> (r: bool)
    requires
        cfg.wf(),
        utc_in_range(asof_ts as int),
    ensures
        r == accepted_current(*m, asof_ts as int, *cfg),
{
    let b = bucket_start_of(asof_ts, cfg.bucket_size_secs);
    m.is_valid_binary() && m.active && !m.closed && m.enable_order_book && (b as i128) <= (
    asof_ts as i128) && (asof_ts as i128) < (b as i128) + (cfg.bucket_size_secs as i128)
}

/// Whether a market found under the previous bucket's slugs is taken; the
/// window is that of the bucket its own slug names.
pub fn validate_market(m: &GammaMarket, asof_ts: i64, cfg: &ResolverConfig) -> (r: bool)
    ensures
        r == accepted_previous(*m, asof_ts as int, *cfg),
{
    if !(m.is_valid_binary() && m.active && !m.closed && m.enable_order_book) {
        return false;
    }
    match extract_bucket_timestamp(m.slug.as_str()) {
        Some(b) => {
            let a = asof_ts as i128;
            (b as i128) <= a && a < (b as i128) + (cfg.bucket_size_secs as i128) + (
            cfg.time_tolerance_secs as i128)
        },
        None => false,
    }
}

/// The integer a slug ends in, after its last `-`.
pub fn extract_bucket_timestamp(slug: &str) -> (r: Option<i64>)
    ensures
        match r {
            Some(v) => parse_i64_spec(last_segment(slug@)) == Some(v as int),
            None => parse_i64_spec(last_segment(slug@)) is None,
        },
{
    parse_i64(last_dash_segment(slug))
}

fn bucket_slug_texts(series: &MarketSeries, b: i128) -> (r: Vec<String>)
    ensures
        r@.len() == 2,
        forall|i: int| 0 <= i < 2 ==> #[trigger] r@[i]@ == bucket_slugs(*series, b as int)[i],
{
    let patterns = series.slug_patterns();
    let value = int_text(b);
    let first = replace_placeholder(patterns[0], value.as_str());
    let second = replace_placeholder(patterns[1], value.as_str());
    vec![first, second]
}

/// One step of a resolution: the query the caller makes next, or the result.
#[derive(Debug)]
pub enum ResolveStep {
    /// Look the slug up on the discovery service; reply with the market, or
    /// with nothing when it is not found or the lookup failed.
    Lookup(String),
    /// Ask the price service for the token's price with this side.
    Probe { token: String, side: PriceSide },
    /// The resolution is over.
    Done(ResolveResult),
}

/// A resolution in progress.
#[derive(Debug)]
pub struct ResolveSession {
    pub series: MarketSeries,
    pub config: ResolverConfig,
    /// The reference time, Unix seconds.
    pub asof_ts: i64,
    /// When the resolution started, Unix milliseconds.
    pub now_ms: i64,
    /// Start of the bucket of the reference time.
    pub bucket_start: i64,
    /// The slugs to query, in order.
    pub slugs: Vec<String>,
    /// How many slugs have been answered.
    pub pos: usize,
    /// The answered slugs that gave a market, in order.
    pub candidates: Vec<String>,
    /// The market taken, once one is.
    pub chosen: Option<GammaMarket>,
    /// Start of the taken market's bucket.
    pub chosen_bucket: i64,
    /// Index of the token being probed.
    pub token_pos: usize,
    /// Side of the pending probe.
    pub side: PriceSide,
    /// Whether the result has been handed out.
    pub done: bool,
}

impl ResolveSession {
    /// What holds of a session throughout.
    pub open spec fn wf(&self) -> bool {
        &&& self.config.wf()
        &&& utc_in_range(self.asof_ts as int)
        &&& self.bucket_start == bucket_of(self.asof_ts as int, self.config.bucket_size_secs as int)
        &&& self.slugs@.len() == slug_plan(self.series, self.asof_ts as int, self.config).len()
        &&& forall|i: int|
            0 <= i < self.slugs@.len() ==> #[trigger] self.slugs@[i]@ == slug_plan(
                self.series,
                self.asof_ts as int,
                self.config,
            )[i]
        &&& self.pos <= self.slugs@.len()
        &&& (!self.done && self.chosen is None ==> self.pos < self.slugs@.len())
        &&& (!self.done && self.chosen is Some ==> {
            &&& tradeable(self.chosen->0)
            &&& self.chosen_bucket <= self.asof_ts
            &&& self.asof_ts < self.chosen_bucket + self.config.bucket_size_secs + (if self.config.time_tolerance_secs > 0 {
                self.config.time_tolerance_secs as int
            } else {
                0
            })
            &&& self.config.clob_validation
            &&& self.token_pos < 2
        })
    }

    /// Waiting for the reply to a slug lookup.
    pub open spec fn awaiting_lookup(&self) -> bool {
        !self.done && self.chosen is None
    }

    /// Waiting for the reply to a price probe.
    pub open spec fn awaiting_price(&self) -> bool {
        !self.done && self.chosen is Some
    }

    /// Starts a resolution of `series` at the reference time `asof_ts` (Unix
    /// seconds); `now_ms` is the time of the choice (Unix milliseconds). The
    /// first step is the lookup of the first slug of the plan.
    pub fn begin(series: MarketSeries, asof_ts: i64, now_ms: i64, config: ResolverConfig) -> (r: (
        ResolveSession,
        ResolveStep,
    ))
        requires
            config.wf(),
            utc_in_range(asof_ts as int),
        ensures
            r.0.wf(),
            r.0.awaiting_lookup(),
            r.0.series == series,
            r.0.config == config,
            r.0.asof_ts == asof_ts,
            r.0.now_ms == now_ms,
            r.0.pos == 0,
            r.0.candidates@.len() == 0,
            r.1 matches ResolveStep::Lookup(s) && s@ == slug_plan(series, asof_ts as int, config)[0],
    {
        let size = config.bucket_size_secs;
        let bucket_start = bucket_start_of(asof_ts, size);
        let mut slugs = bucket_slug_texts(&series, bucket_start as i128);
        let ghost cur = slugs@;
        if config.check_adjacent_buckets {
            let mut prev = bucket_slug_texts(&series, (bucket_start as i128) - (size as i128));
            let ghost p = prev@;
            slugs.append(&mut prev);
            proof {
                assert(slugs@ =~= cur + p);
            }
        }
        proof {
            let plan = slug_plan(series, asof_ts as int, config);
            assert(slugs@.len() == plan.len());
            assert forall|i: int| 0 <= i < slugs@.len() implies #[trigger] slugs@[i]@ == plan[i] by {
                if i >= 2 {
                    assert(slugs@[i] == slugs@[i]);
                }
            }
        }
        let first = slugs[0].clone();
        let session = ResolveSession {
            series,
            config,
            asof_ts,
            now_ms,
            bucket_start,
            slugs,
            pos: 0,
            candidates: Vec::new(),
            chosen: None,
            chosen_bucket: 0,
            token_pos: 0,
            side: PriceSide::Upper,
            done: false,
        };
        (session, ResolveStep::Lookup(first))
    }

    fn take_candidates(&mut self) -> (r: Vec<String>)
        ensures
            r@ == old(self).candidates@,
            final(self).candidates@.len() == 0,
            final(self).series == old(self).series,
            final(self).config == old(self).config,
            final(self).asof_ts == old(self).asof_ts,
            final(self).now_ms == old(self).now_ms,
            final(self).bucket_start == old(self).bucket_start,
            final(self).slugs == old(self).slugs,
            final(self).pos == old(self).pos,
            final(self).chosen == old(self).chosen,
            final(self).chosen_bucket == old(self).chosen_bucket,
            final(self).token_pos == old(self).token_pos,
            final(self).side == old(self).side,
            final(self).done == old(self).done,
    {
        let mut r: Vec<String> = Vec::new();
        core::mem::swap(&mut r, &mut self.candidates);
        r
    }

    /// Takes the reply to the pending lookup: the market found under the
    /// slug, or nothing. A market that passes validation is taken; the next
    /// step then probes its first token, or hands out the result when probes
    /// are off. Otherwise the next slug is looked up, and after the last one
    /// the resolution freezes with no candidates.
    pub fn on_lookup(&mut self, reply: Option<GammaMarket>) -> (step: ResolveStep)
        requires
            old(self).wf(),
            old(self).awaiting_lookup(),
        ensures
            final(self).wf(),
            final(self).series == old(self).series,
            final(self).config == old(self).config,
            final(self).asof_ts == old(self).asof_ts,
            final(self).now_ms == old(self).now_ms,
            ({
                let i = old(self).pos as int;
                let asof = old(self).asof_ts as int;
                let cfg = old(self).config;
                let cands = if reply is Some {
                    old(self).candidates@.push(old(self).slugs@[i])
                } else {
                    old(self).candidates@
                };
                if reply is Some && accepted_at(reply->0, i, asof, cfg) {
                    let m = reply->0;
                    if cfg.clob_validation {
                        &&& final(self).awaiting_price()
                        &&& final(self).chosen == Some(m)
                        &&& final(self).chosen_bucket == chosen_bucket_of(m, i, asof, cfg)
                        &&& final(self).candidates@ == cands
                        &&& final(self).token_pos == 0
                        &&& final(self).side == PriceSide::Upper
                        &&& step matches ResolveStep::Probe { token, side } && token
                            == m.clob_token_ids@[0] && side == PriceSide::Upper
                    } else {
                        &&& final(self).done
                        &&& step matches ResolveStep::Done(r) && built_result(
                            r,
                            m,
                            asof,
                            chosen_bucket_of(m, i, asof, cfg),
                            old(self).now_ms as int,
                            cands,
                        )
                    }
                } else if i + 1 < old(self).slugs@.len() {
                    &&& final(self).awaiting_lookup()
                    &&& final(self).pos == i + 1
                    &&& final(self).candidates@ == cands
                    &&& step matches ResolveStep::Lookup(s) && s == old(self).slugs@[i + 1]
                } else {
                    &&& final(self).done
                    &&& step matches ResolveStep::Done(ResolveResult::Freeze {
                        reason,
                        message,
                        candidates,
                    }) && reason == SelectionReason::NoCandidates && message@
                        == "No valid market candidates found"@ && candidates@ == cands
                }
            }),
    {
        let i = self.pos;
        let ghost cands0 = self.candidates@;
        self.pos = i + 1;
        if let Some(m) = reply {
            self.candidates.push(self.slugs[i].clone());
            let accepted = if i < 2 {
                accepts_current(&m, self.asof_ts, &self.config)
            } else {
                validate_market(&m, self.asof_ts, &self.config)
            };
            if accepted {
                let bucket = if i < 2 {
                    self.bucket_start
                } else {
                    match extract_bucket_timestamp(m.slug.as_str()) {
                        Some(b) => b,
                        None => 0,
                    }
                };
                proof {
                    lemma_bucket_bounds(self.asof_ts as int, self.config.bucket_size_secs as int);
                }
                if self.config.clob_validation {
                    let token = m.clob_token_ids[0].clone();
                    self.chosen_bucket = bucket;
                    self.chosen = Some(m);
                    self.token_pos = 0;
                    self.side = PriceSide::Upper;
                    return ResolveStep::Probe { token, side: PriceSide::Upper };
                } else {
                    self.done = true;
                    let cands = self.take_candidates();
                    let r = build_result(&m, self.asof_ts, bucket, cands, self.now_ms);
                    return ResolveStep::Done(r);
                }
            }
        }
        if i + 1 < self.slugs.len() {
            ResolveStep::Lookup(self.slugs[i + 1].clone())
        } else {
            self.done = true;
            let cands = self.take_candidates();
            ResolveStep::Done(
                ResolveResult::Freeze {
                    reason: SelectionReason::NoCandidates,
                    message: String::from_str("No valid market candidates found"),
                    candidates: cands,
                },
            )
        }
    }

    fn chosen_token(&self, k: usize) -> (r: String)
        requires
            self.chosen is Some,
            tradeable(self.chosen->0),
            k < 2,
        ensures
            r == self.chosen->0.clob_token_ids@[k as int],
    {
        self.chosen.as_ref().unwrap().clob_token_ids[k].clone()
    }

    /// Takes the reply to the pending price probe. A priced token moves the
    /// probe to the next token, or, after the last, hands out the result. A
    /// bad-request reply to `BUY` asks for the same token with `buy`. Any
    /// other reply freezes the resolution.
    pub fn on_price(&mut self, reply: PriceReply) -> (step: ResolveStep)
        requires
            old(self).wf(),
            old(self).awaiting_price(),
        ensures
            final(self).wf(),
            final(self).series == old(self).series,
            final(self).config == old(self).config,
            final(self).asof_ts == old(self).asof_ts,
            final(self).now_ms == old(self).now_ms,
            ({
                let m = old(self).chosen->0;
                let k = old(self).token_pos as int;
                let t = m.clob_token_ids@[k];
                let cands = old(self).candidates@;
                match verdict_of(old(self).side, reply) {
                    ProbeVerdict::Priced => if k + 1 < 2 {
                        &&& final(self).awaiting_price()
                        &&& final(self).chosen == old(self).chosen
                        &&& final(self).chosen_bucket == old(self).chosen_bucket
                        &&& final(self).token_pos == k + 1
                        &&& final(self).side == PriceSide::Upper
                        &&& final(self).candidates@ == cands
                        &&& step matches ResolveStep::Probe { token, side } && token
                            == m.clob_token_ids@[k + 1] && side == PriceSide::Upper
                    } else {
                        &&& final(self).done
                        &&& step matches ResolveStep::Done(r) && built_result(
                            r,
                            m,
                            old(self).asof_ts as int,
                            old(self).chosen_bucket as int,
                            old(self).now_ms as int,
                            cands,
                        )
                    },
                    ProbeVerdict::NoPrice => {
                        &&& final(self).done
                        &&& step matches ResolveStep::Done(ResolveResult::Freeze {
                            reason,
                            message,
                            candidates,
                        }) && reason == SelectionReason::ClobPriceCheckFailed && message@
                            == "CLOB price check failed for token "@ + t@ + " (no price field)"@
                            && candidates@ == cands
                    },
                    ProbeVerdict::RetryLower => {
                        &&& final(self).awaiting_price()
                        &&& final(self).chosen == old(self).chosen
                        &&& final(self).chosen_bucket == old(self).chosen_bucket
                        &&& final(self).token_pos == k
                        &&& final(self).side == PriceSide::Lower
                        &&& final(self).candidates@ == cands
                        &&& step matches ResolveStep::Probe { token, side } && token == t && side
                            == PriceSide::Lower
                    },
                    ProbeVerdict::Failed => {
                        &&& final(self).done
                        &&& step matches ResolveStep::Done(ResolveResult::Freeze {
                            reason,
                            message,
                            candidates,
                        }) && reason == SelectionReason::ClobPriceCheckFailed && message@
                            == "CLOB API error for token "@ + t@ + ": "@ + reply->Failed_0@
                            && candidates@ == cands
                    },
                }
            }),
    {
        let k = self.token_pos;
        let token = self.chosen_token(k);
        match probe_verdict(self.side, &reply) {
            ProbeVerdict::Priced => {
                if k + 1 < 2 {
                    let next = self.chosen_token(k + 1);
                    self.token_pos = k + 1;
                    self.side = PriceSide::Upper;
                    ResolveStep::Probe { token: next, side: PriceSide::Upper }
                } else {
                    self.done = true;
                    let cands = self.take_candidates();
                    let m = self.chosen.as_ref().unwrap();
                    ResolveStep::Done(
                        build_result(m, self.asof_ts, self.chosen_bucket, cands, self.now_ms),
                    )
                }
            },
            ProbeVerdict::NoPrice => {
                self.done = true;
                let mut message = String::from_str("CLOB price check failed for token ");
                message.append(token.as_str());
                message.append(" (no price field)");
                let cands = self.take_candidates();
                ResolveStep::Done(
                    ResolveResult::Freeze {
                        reason: SelectionReason::ClobPriceCheckFailed,
                        message,
                        candidates: cands,
                    },
                )
            },
            ProbeVerdict::RetryLower => {
                self.side = PriceSide::Lower;
                ResolveStep::Probe { token, side: PriceSide::Lower }
            },
            ProbeVerdict::Failed => {
                self.done = true;
                let mut message = String::from_str("CLOB API error for token ");
                message.append(token.as_str());
                message.append(": ");
                match &reply {
                    PriceReply::Failed(e) => message.append(e.as_str()),
                    _ => {},
                }
                let cands = self.take_candidates();
                ResolveStep::Done(
                    ResolveResult::Freeze {
                        reason: SelectionReason::ClobPriceCheckFailed,
                        message,
                        candidates: cands,
                    },
                )
            },
        }
    }
}

} // verus!
