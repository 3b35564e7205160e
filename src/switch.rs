//! The switch controller: keeps one current market, prepares the next one
//! ahead of the bucket boundary, and switches over at the boundary with an
//! overlap of the old and new subscriptions.
//!
//! The controller makes no queries itself. `poll` names the next thing the
//! caller does as a [`PollStep`]: act, resolve the next bucket, or probe a
//! price; the caller hands the answer back to `on_next_resolved` or
//! `on_commit_price`. Wall-clock readings are Unix seconds; monotonic
//! readings are milliseconds of a clock that never goes back. The two are
//! never mixed.
use vstd::prelude::*;

use crate::probe::{PriceReply, PriceSide, ProbeVerdict, probe_verdict, verdict_of};
use crate::resolver::ResolverConfig;
use crate::series::MarketSeries;
use crate::text::{decimal, int_text, nat_text, same_text};
use crate::time::{
    UTC_MAX_SECS, UTC_MIN_SECS, clock_of, clock_text, parse_rfc3339, rfc3339_secs, utc_in_range,
};
use crate::types::{ResolveResult, ResolvedMarket, SelectionReason, bump, bump_count};

verus! {

/// Settings of a switch controller.
#[derive(Clone, Copy, Debug, PartialEq, Eq, Structural)]
pub struct SwitchConfig {
    /// Seconds before the current market's end at which preparing starts.
    pub lead_time_secs: i64,
    /// Identical resolutions in a row needed before the next market is ready.
    pub min_consecutive: u32,
    /// Seconds the old subscription is kept after a switch.
    pub overlap_secs: u64,
    /// Suggested time between polls, milliseconds.
    pub poll_interval_ms: u64,
}

impl Default for SwitchConfig {
    fn default() -> (r: Self)
        ensures
            r.lead_time_secs == 90,
            r.min_consecutive == 3,
            r.overlap_secs == 15,
            r.poll_interval_ms == 2000,
    {
        SwitchConfig { lead_time_secs: 90, min_consecutive: 3, overlap_secs: 15, poll_interval_ms: 2000 }
    }
}

/// Phase of the controller.
#[derive(Clone, Copy, Debug, PartialEq, Eq, Structural)]
pub enum SwitchPhase {
    /// Trading the current market; the boundary is not near.
    Stable,
    /// Resolving the next market until it is seen the same several times.
    Prepare,
    /// The next market is agreed; waiting for the boundary.
    Ready,
    /// Switching to the next market.
    Committing,
}

/// Name of a phase.
pub open spec fn phase_name(p: SwitchPhase) -> Seq<char> {
    match p {
        SwitchPhase::Stable => "Stable"@,
        SwitchPhase::Prepare => "Prepare"@,
        SwitchPhase::Ready => "Ready"@,
        SwitchPhase::Committing => "Committing"@,
    }
}

impl SwitchPhase {
    /// The phase's name.
    pub fn name(&self) -> (r: &'static str)
        ensures
            r@ == phase_name(*self),
    {
        match self {
            SwitchPhase::Stable => "Stable",
            SwitchPhase::Prepare => "Prepare",
            SwitchPhase::Ready => "Ready",
            SwitchPhase::Committing => "Committing",
        }
    }
}

/// Name of a selection reason.
pub open spec fn reason_name(r: SelectionReason) -> Seq<char> {
    match r {
        SelectionReason::UniqueMatchInWindow => "UniqueMatchInWindow"@,
        SelectionReason::AmbiguousCandidates => "AmbiguousCandidates"@,
        SelectionReason::NoCandidates => "NoCandidates"@,
        SelectionReason::ClobPriceCheckFailed => "ClobPriceCheckFailed"@,
        SelectionReason::GammaApiError => "GammaApiError"@,
        SelectionReason::ValidationFailed => "ValidationFailed"@,
    }
}

impl SelectionReason {
    /// The reason's name.
    pub fn name(&self) -> (r: &'static str)
        ensures
            r@ == reason_name(*self),
    {
        match self {
            SelectionReason::UniqueMatchInWindow => "UniqueMatchInWindow",
            SelectionReason::AmbiguousCandidates => "AmbiguousCandidates",
            SelectionReason::NoCandidates => "NoCandidates",
            SelectionReason::ClobPriceCheckFailed => "ClobPriceCheckFailed",
            SelectionReason::GammaApiError => "GammaApiError",
            SelectionReason::ValidationFailed => "ValidationFailed",
        }
    }
}

/// What the controller asks of the subscription layer.
#[derive(Clone, Debug)]
pub enum SwitchAction {
    /// Nothing to do.
    Idle,
    /// Subscribe to the new market's tokens.
    SubscribeNew { tokens: [String; 2], slug: String },
    /// Drop the old market's tokens.
    UnsubscribeOld { tokens: [String; 2], slug: String },
    /// Stop trading: no market can be vouched for.
    Freeze { reason: String, message: String },
}

/// Counters of a controller.
#[derive(Clone, Copy, Debug, PartialEq, Eq, Structural)]
pub struct SwitchStats {
    pub freeze_count: u64,
    pub switch_count: u64,
    /// Seconds before the boundary at which the last next market became ready.
    pub last_ready_lead_secs: Option<i64>,
    /// Milliseconds from reaching the last boundary to the switch.
    pub last_switch_latency_ms: Option<u64>,
}

impl SwitchStats {
    /// All counters at zero, nothing measured.
    pub fn new() -> (r: Self)
        ensures
            r.freeze_count == 0,
            r.switch_count == 0,
            r.last_ready_lead_secs is None,
            r.last_switch_latency_ms is None,
    {
        SwitchStats {
            freeze_count: 0,
            switch_count: 0,
            last_ready_lead_secs: None,
            last_switch_latency_ms: None,
        }
    }
}

/// The market being prepared as the next one.
#[derive(Clone, Debug)]
pub struct NextCandidate {
    pub market: ResolvedMarket,
    /// Monotonic milliseconds when it was first seen.
    pub first_seen_at: u64,
    /// How many resolutions in a row gave it.
    pub consecutive_matches: u32,
}

/// The old market's subscription, to be dropped once the overlap is over.
#[derive(Clone, Debug)]
pub struct PendingUnsubscribe {
    pub tokens: [String; 2],
    pub slug: String,
    /// Monotonic milliseconds of the switch.
    pub scheduled_at: u64,
}

/// What the caller does after a poll.
#[derive(Debug)]
pub enum PollStep {
    /// Carry out the action; the poll is over.
    Act(SwitchAction),
    /// Resolve the series at this reference time (Unix seconds) and hand the
    /// result to `on_next_resolved`.
    Resolve(i64),
    /// Query the token's price with this side and hand the reply to
    /// `on_commit_price`.
    Probe { token: String, side: PriceSide },
}

/// `n + 1`, held at `u32::MAX`.
pub open spec fn bump32(n: u32) -> u32 {
    if n < u32::MAX {
        (n + 1) as u32
    } else {
        n
    }
}

fn bump_count32(n: u32) -> (r: u32)
    ensures
        r == bump32(n),
{
    if n < u32::MAX {
        n + 1
    } else {
        n
    }
}

/// Monotonic milliseconds from `from` to `to`, zero when `to` is earlier.
pub open spec fn elapsed_ms(from: u64, to: u64) -> u64 {
    if to >= from {
        (to - from) as u64
    } else {
        0
    }
}

fn elapsed(from: u64, to: u64) -> (r: u64)
    ensures
        r == elapsed_ms(from, to),
{
    if to >= from {
        to - from
    } else {
        0
    }
}

fn copy_pair(p: &[String; 2]) -> (r: [String; 2])
    ensures
        r == *p,
{
    let r = [p[0].clone(), p[1].clone()];
    proof {
        assert(r =~= *p);
    }
    r
}

/// Whether two resolutions name the same market: same slug, same tokens.
pub open spec fn same_market(a: ResolvedMarket, b: ResolvedMarket) -> bool {
    a.slug@ == b.slug@ && a.clob_token_ids@[0]@ == b.clob_token_ids@[0]@ && a.clob_token_ids@[1]@
        == b.clob_token_ids@[1]@
}

fn same_text_string(a: &String, b: &String) -> (r: bool)
    ensures
        r == (a@ == b@),
{
    same_text(a.as_str(), b.as_str())
}

/// The switch controller of one series.
#[derive(Debug)]
pub struct SwitchController {
    pub series: MarketSeries,
    pub config: SwitchConfig,
    pub resolver_config: ResolverConfig,
    pub phase: SwitchPhase,
    pub current: Option<ResolvedMarket>,
    pub next_candidate: Option<NextCandidate>,
    pub pending_unsubscribe: Option<PendingUnsubscribe>,
    pub stats: SwitchStats,
    /// Monotonic milliseconds of the last successful resolution.
    pub last_resolve_ok_at: Option<u64>,
    /// Monotonic milliseconds at which the current boundary was seen reached.
    pub boundary_reached_at: Option<u64>,
    /// Side of the commit-time probe asked for and not yet answered.
    pub commit_probe: Option<PriceSide>,
}

/// A monotonic advance: `next` starts exactly one bucket after `cur`.
pub open spec fn advances_one_bucket(cur: ResolvedMarket, next: ResolvedMarket, size: int) -> bool {
    next.bucket_start_ts == cur.bucket_start_ts + size
}

impl SwitchController {
    /// Length of a bucket.
    pub open spec fn bucket_size(&self) -> int {
        self.resolver_config.bucket_size_secs as int
    }

    /// What holds of a controller throughout: buckets have a positive length;
    /// a prepared next market starts one bucket after the current one and
    /// exists only while preparing, ready or committing; when ready it has
    /// been seen `min_consecutive` times in a row; and a commit-time probe is
    /// pending only when ready.
    pub open spec fn wf(&self) -> bool {
        &&& self.resolver_config.wf()
        &&& (self.current is Some && self.next_candidate is Some ==> advances_one_bucket(
            self.current->0,
            self.next_candidate->0.market,
            self.bucket_size(),
        ))
        &&& (self.next_candidate is Some ==> self.phase != SwitchPhase::Stable)
        &&& (self.phase == SwitchPhase::Ready ==> self.next_candidate is Some
            && self.next_candidate->0.consecutive_matches >= self.config.min_consecutive)
        &&& (self.commit_probe is Some ==> self.phase == SwitchPhase::Ready)
    }

    /// Unix seconds of the current market's end, when there is a current
    /// market and its end date reads.
    pub open spec fn end_secs(&self) -> Option<int> {
        match self.current {
            Some(m) => rfc3339_secs(m.end_date@),
            None => None,
        }
    }

    /// Whether it is time to prepare the next market at wall time `wall`:
    /// the current market ends within the lead time.
    pub open spec fn should_prepare(&self, wall: int) -> bool {
        match self.end_secs() {
            Some(e) => (if e - wall > 0 {
                e - wall
            } else {
                0
            }) <= self.config.lead_time_secs,
            None => false,
        }
    }

    /// Whether the current market's end has been reached at wall time `wall`.
    pub open spec fn boundary_reached(&self, wall: int) -> bool {
        match self.end_secs() {
            Some(e) => wall >= e,
            None => false,
        }
    }

    /// Whether the old subscription's overlap is over at monotonic time `mono`.
    pub open spec fn overlap_due(&self, mono: u64) -> bool {
        match self.pending_unsubscribe {
            Some(p) => elapsed_ms(p.scheduled_at, mono) / 1000 >= self.config.overlap_secs,
            None => false,
        }
    }

    /// Reference time for resolving the next bucket: five seconds into the
    /// bucket after the current market's, or one bucket from now without a
    /// current market; now when that instant cannot be held.
    pub open spec fn next_asof(&self, wall: int) -> int {
        let t = match self.current {
            Some(m) => m.bucket_start_ts + self.bucket_size() + 5,
            None => wall + self.bucket_size(),
        };
        if utc_in_range(t) {
            t
        } else {
            wall
        }
    }

    /// Whether `m` may follow the current market.
    pub open spec fn monotonic(&self, m: ResolvedMarket) -> bool {
        match self.current {
            Some(c) => advances_one_bucket(c, m, self.bucket_size()),
            None => true,
        }
    }

    /// Whether `m` is the market already being prepared.
    pub open spec fn consistent(&self, m: ResolvedMarket) -> bool {
        match self.next_candidate {
            Some(c) => same_market(c.market, m),
            None => false,
        }
    }

    /// The current market is kept, or replaced by the market one bucket later.
    pub open spec fn current_advances(old: &Self, new: &Self) -> bool {
        market_step(old.current, new.current, old.bucket_size())
    }

    /// A controller with no market yet.
    pub fn new(series: MarketSeries, config: SwitchConfig) -> (r: Self)
        ensures
            r.wf(),
            r.series == series,
            r.config == config,
            r.resolver_config.bucket_size_secs == 900,
            r.phase == SwitchPhase::Stable,
            r.current is None,
            r.next_candidate is None,
            r.pending_unsubscribe is None,
            r.stats.freeze_count == 0,
            r.stats.switch_count == 0,
            r.stats.last_ready_lead_secs is None,
            r.stats.last_switch_latency_ms is None,
    {
        Self::with_resolver_config(series, config, ResolverConfig::default())
    }

    /// A controller with no market yet, resolving with `resolver_config`.
    pub fn with_resolver_config(
        series: MarketSeries,
        switch_config: SwitchConfig,
        resolver_config: ResolverConfig,
    ) -> (r: Self)
        requires
            resolver_config.wf(),
        ensures
            r.wf(),
            r.series == series,
            r.config == switch_config,
            r.resolver_config == resolver_config,
            r.phase == SwitchPhase::Stable,
            r.current is None,
            r.next_candidate is None,
            r.pending_unsubscribe is None,
            r.stats.freeze_count == 0,
            r.stats.switch_count == 0,
            r.stats.last_ready_lead_secs is None,
            r.stats.last_switch_latency_ms is None,
            r.last_resolve_ok_at is None,
            r.boundary_reached_at is None,
            r.commit_probe is None,
    {
        SwitchController {
            series,
            config: switch_config,
            resolver_config,
            phase: SwitchPhase::Stable,
            current: None,
            next_candidate: None,
            pending_unsubscribe: None,
            stats: SwitchStats::new(),
            last_resolve_ok_at: None,
            boundary_reached_at: None,
            commit_probe: None,
        }
    }

    /// The phase.
    pub fn phase(&self) -> (r: &SwitchPhase)
        ensures
            *r == self.phase,
    {
        &self.phase
    }

    /// The current market, if any.
    pub fn current(&self) -> (r: Option<&ResolvedMarket>)
        ensures
            match self.current {
                Some(m) => r == Some(&m),
                None => r is None,
            },
    {
        self.current.as_ref()
    }

    /// The market being prepared, if any.
    pub fn next_candidate(&self) -> (r: Option<&NextCandidate>)
        ensures
            match self.next_candidate {
                Some(c) => r == Some(&c),
                None => r is None,
            },
    {
        self.next_candidate.as_ref()
    }

    /// The counters.
    pub fn stats(&self) -> (r: &SwitchStats)
        ensures
            *r == self.stats,
    {
        &self.stats
    }

    /// The bucket length the controller resolves with.
    pub fn resolver_config(&self) -> (r: ResolverConfig)
        ensures
            r == self.resolver_config,
    {
        self.resolver_config
    }

    /// Takes the result of the first resolution, made at the current time.
    /// A resolved market becomes the current one, the phase is `Stable`, any
    /// prepared market is dropped, and the new market's tokens are
    /// subscribed. A freeze is counted and passed on, naming its reason.
    pub fn init(&mut self, result: ResolveResult, mono: u64) -> (action: SwitchAction)
        requires
            old(self).wf(),
        ensures
            final(self).wf(),
            final(self).series == old(self).series,
            final(self).config == old(self).config,
            final(self).resolver_config == old(self).resolver_config,
            final(self).pending_unsubscribe == old(self).pending_unsubscribe,
            final(self).boundary_reached_at == old(self).boundary_reached_at,
            final(self).stats.switch_count == old(self).stats.switch_count,
            match result {
                ResolveResult::Resolved(m) => {
                    &&& final(self).current == Some(m)
                    &&& final(self).phase == SwitchPhase::Stable
                    &&& final(self).next_candidate is None
                    &&& final(self).commit_probe is None
                    &&& final(self).last_resolve_ok_at == Some(mono)
                    &&& final(self).stats == old(self).stats
                    &&& action matches SwitchAction::SubscribeNew { tokens, slug } && tokens
                        == m.clob_token_ids && slug == m.slug
                },
                ResolveResult::Freeze { reason, message, .. } => {
                    &&& final(self).current == old(self).current
                    &&& final(self).phase == old(self).phase
                    &&& final(self).next_candidate == old(self).next_candidate
                    &&& final(self).commit_probe == old(self).commit_probe
                    &&& final(self).last_resolve_ok_at == old(self).last_resolve_ok_at
                    &&& final(self).stats.freeze_count == bump(old(self).stats.freeze_count)
                    &&& final(self).stats.last_ready_lead_secs == old(
                        self,
                    ).stats.last_ready_lead_secs
                    &&& final(self).stats.last_switch_latency_ms == old(
                        self,
                    ).stats.last_switch_latency_ms
                    &&& action matches SwitchAction::Freeze { reason: r, message: msg } && r@
                        == reason_name(reason) && msg == message
                },
            },
    {
        match result {
            ResolveResult::Resolved(market) => {
                let tokens = copy_pair(&market.clob_token_ids);
                let slug = market.slug.clone();
                self.next_candidate = None;
                self.commit_probe = None;
                self.current = Some(market);
                self.last_resolve_ok_at = Some(mono);
                self.phase = SwitchPhase::Stable;
                SwitchAction::SubscribeNew { tokens, slug }
            },
            ResolveResult::Freeze { reason, message, .. } => {
                self.stats.freeze_count = bump_count(self.stats.freeze_count);
                SwitchAction::Freeze { reason: String::from_str(reason.name()), message }
            },
        }
    }

    /// Everything but the phase, the prepared market and the counters is kept.
    pub open spec fn keeps_markets(old: &Self, new: &Self) -> bool {
        &&& new.series == old.series
        &&& new.config == old.config
        &&& new.resolver_config == old.resolver_config
        &&& new.current == old.current
        &&& new.pending_unsubscribe == old.pending_unsubscribe
        &&& new.last_resolve_ok_at == old.last_resolve_ok_at
        &&& new.boundary_reached_at == old.boundary_reached_at
    }

    /// `new` is `old` with the freeze counter bumped.
    pub open spec fn counts_freeze(old: &Self, new: &Self) -> bool {
        &&& Self::keeps_markets(old, new)
        &&& new.phase == old.phase
        &&& new.next_candidate == old.next_candidate
        &&& new.stats.freeze_count == bump(old.stats.freeze_count)
        &&& new.stats.switch_count == old.stats.switch_count
        &&& new.stats.last_ready_lead_secs == old.stats.last_ready_lead_secs
        &&& new.stats.last_switch_latency_ms == old.stats.last_switch_latency_ms
    }

    /// The switch at monotonic time `mono`: the prepared market becomes the
    /// current one and is subscribed, the old one is scheduled for
    /// unsubscribing, the switch is counted with its latency from the
    /// boundary, and the phase is `Stable`. Without a prepared market the
    /// phase falls back to `Stable` and nothing else happens.
    pub open spec fn committed(old: &Self, new: &Self, action: SwitchAction, mono: u64) -> bool {
        &&& new.series == old.series
        &&& new.config == old.config
        &&& new.resolver_config == old.resolver_config
        &&& new.last_resolve_ok_at == old.last_resolve_ok_at
        &&& new.phase == SwitchPhase::Stable
        &&& new.next_candidate is None
        &&& new.commit_probe is None
        &&& new.stats.freeze_count == old.stats.freeze_count
        &&& new.stats.last_ready_lead_secs == old.stats.last_ready_lead_secs
        &&& match old.next_candidate {
            None => {
                &&& action is Idle
                &&& new.current == old.current
                &&& new.pending_unsubscribe == old.pending_unsubscribe
                &&& new.stats.switch_count == old.stats.switch_count
                &&& new.stats.last_switch_latency_ms == old.stats.last_switch_latency_ms
                &&& new.boundary_reached_at == old.boundary_reached_at
            },
            Some(c) => {
                &&& new.current == Some(c.market)
                &&& new.pending_unsubscribe == match old.current {
                    Some(o) => Some(
                        PendingUnsubscribe {
                            tokens: o.clob_token_ids,
                            slug: o.slug,
                            scheduled_at: mono,
                        },
                    ),
                    None => old.pending_unsubscribe,
                }
                &&& new.stats.switch_count == bump(old.stats.switch_count)
                &&& new.stats.last_switch_latency_ms == match old.boundary_reached_at {
                    Some(b) => Some(elapsed_ms(b, mono)),
                    None => old.stats.last_switch_latency_ms,
                }
                &&& new.boundary_reached_at is None
                &&& action matches SwitchAction::SubscribeNew { tokens, slug } && tokens
                    == c.market.clob_token_ids && slug == c.market.slug
            },
        }
    }

    /// A subscription handed out by a step that replaced a current market is
    /// for the market one bucket after it, which is now the current one.
    pub open spec fn switch_advances(old: &Self, new: &Self, step: PollStep) -> bool {
        match step {
            PollStep::Act(SwitchAction::SubscribeNew { tokens, slug }) => old.current is Some ==> {
                &&& new.current is Some
                &&& advances_one_bucket(old.current->0, new.current->0, old.bucket_size())
                &&& tokens == new.current->0.clob_token_ids
                &&& slug == new.current->0.slug
            },
            _ => true,
        }
    }

    /// `v` held within the range of `i64`.
    pub open spec fn clamp_i64(v: int) -> i64 {
        if v < i64::MIN {
            i64::MIN
        } else if v > i64::MAX {
            i64::MAX
        } else {
            v as i64
        }
    }

    /// The one-line summary of the controller at wall time `wall`.
    pub open spec fn status_of(&self, wall: int) -> Seq<char> {
        let current = match self.current {
            Some(m) => m.slug@,
            None => "None"@,
        };
        let next = match self.next_candidate {
            Some(c) => c.market.slug@ + "("@ + decimal(c.consecutive_matches as int) + "/"@
                + decimal(self.config.min_consecutive as int) + ")"@,
            None => "None"@,
        };
        "["@ + clock_of(wall) + "] phase="@ + phase_name(self.phase) + " current="@ + current
            + " next="@ + next + " freeze_count="@ + decimal(self.stats.freeze_count as int)
    }

    fn end_timestamp(&self) -> (r: Option<i64>)
        ensures
            match r {
                Some(t) => self.end_secs() == Some(t as int),
                None => self.end_secs() is None,
            },
    {
        match &self.current {
            Some(m) => parse_rfc3339(m.end_date.as_str()),
            None => None,
        }
    }

    fn should_prepare_next(&self, wall: i64) -> (r: bool)
        ensures
            r == self.should_prepare(wall as int),
    {
        match self.end_timestamp() {
            Some(e) => {
                let d = (e as i128) - (wall as i128);
                let to_end = if d > 0 {
                    d
                } else {
                    0
                };
                to_end <= self.config.lead_time_secs as i128
            },
            None => false,
        }
    }

    fn is_boundary_reached(&self, wall: i64) -> (r: bool)
        ensures
            r == self.boundary_reached(wall as int),
    {
        match self.end_timestamp() {
            Some(e) => wall >= e,
            None => false,
        }
    }

    fn next_bucket_asof(&self, wall: i64) -> (r: i64)
        requires
            self.wf(),
            utc_in_range(wall as int),
        ensures
            r == self.next_asof(wall as int),
            utc_in_range(r as int),
    {
        let size = self.resolver_config.bucket_size_secs as i128;
        let t: i128 = match &self.current {
            Some(m) => (m.bucket_start_ts as i128) + size + 5,
            None => (wall as i128) + size,
        };
        if (UTC_MIN_SECS as i128) <= t && t <= (UTC_MAX_SECS as i128) {
            t as i64
        } else {
            wall
        }
    }

    fn is_monotonic_advance(&self, m: &ResolvedMarket) -> (r: bool)
        ensures
            r == self.monotonic(*m),
    {
        match &self.current {
            Some(c) => (m.bucket_start_ts as i128) == (c.bucket_start_ts as i128) + (
            self.resolver_config.bucket_size_secs as i128),
            None => true,
        }
    }

    fn is_consistent(&self, m: &ResolvedMarket) -> (r: bool)
        ensures
            r == self.consistent(*m),
    {
        match &self.next_candidate {
            Some(c) => same_text_string(&c.market.slug, &m.slug) && same_text_string(
                &c.market.clob_token_ids[0],
                &m.clob_token_ids[0],
            ) && same_text_string(&c.market.clob_token_ids[1], &m.clob_token_ids[1]),
            None => false,
        }
    }

    /// The switch itself.
    fn poll_committing(&mut self, mono: u64) -> (action: SwitchAction)
        requires
            old(self).wf(),
        ensures
            final(self).wf(),
            Self::committed(old(self), final(self), action, mono),
    {
        self.commit_probe = None;
        let next = match self.next_candidate.take() {
            Some(c) => c,
            None => {
                self.phase = SwitchPhase::Stable;
                return SwitchAction::Idle;
            },
        };
        let old_market = self.current.take();
        let new_tokens = copy_pair(&next.market.clob_token_ids);
        let to_slug = next.market.slug.clone();
        match old_market {
            Some(o) => {
                self.pending_unsubscribe = Some(
                    PendingUnsubscribe { tokens: o.clob_token_ids, slug: o.slug, scheduled_at: mono },
                );
            },
            None => {},
        }
        self.current = Some(next.market);
        self.phase = SwitchPhase::Stable;
        self.stats.switch_count = bump_count(self.stats.switch_count);
        match self.boundary_reached_at.take() {
            Some(b) => {
                self.stats.last_switch_latency_ms = Some(elapsed(b, mono));
            },
            None => {},
        }
        SwitchAction::SubscribeNew { tokens: new_tokens, slug: to_slug }
    }

    /// One step of the state machine at wall time `wall` and monotonic time
    /// `mono`. An old subscription whose overlap is over is dropped first.
    /// Otherwise, by phase: `Stable` moves to `Prepare` once the current
    /// market ends within the lead time; `Prepare` asks for a resolution of
    /// the next bucket; `Ready` waits for the boundary, then asks for the
    /// commit-time probe of the prepared market's first token; `Committing`
    /// switches.
    pub fn poll(&mut self, wall: i64, mono: u64) -> (step: PollStep)
        requires
            old(self).wf(),
            utc_in_range(wall as int),
        ensures
            final(self).wf(),
            Self::current_advances(old(self), final(self)),
            Self::switch_advances(old(self), final(self), step),
            if old(self).overlap_due(mono) {
                let p = old(self).pending_unsubscribe->0;
                &&& step matches PollStep::Act(SwitchAction::UnsubscribeOld { tokens, slug })
                    && tokens == p.tokens && slug == p.slug
                &&& final(self).pending_unsubscribe is None
                &&& final(self).current == old(self).current
                &&& final(self).phase == old(self).phase
                &&& final(self).next_candidate == old(self).next_candidate
                &&& final(self).stats == old(self).stats
                &&& final(self).last_resolve_ok_at == old(self).last_resolve_ok_at
                &&& final(self).boundary_reached_at == old(self).boundary_reached_at
                &&& final(self).commit_probe == old(self).commit_probe
                &&& final(self).series == old(self).series
                &&& final(self).config == old(self).config
                &&& final(self).resolver_config == old(self).resolver_config
            } else {
                match old(self).phase {
                    SwitchPhase::Stable => if old(self).should_prepare(wall as int) {
                        &&& Self::keeps_markets(old(self), final(self))
                        &&& final(self).stats == old(self).stats
                        &&& final(self).phase == SwitchPhase::Prepare
                        &&& final(self).next_candidate is None
                        &&& step matches PollStep::Resolve(t) && t == old(self).next_asof(
                            wall as int,
                        ) && utc_in_range(t as int)
                    } else {
                        &&& *final(self) == *old(self)
                        &&& step matches PollStep::Act(SwitchAction::Idle)
                    },
                    SwitchPhase::Prepare => {
                        &&& *final(self) == *old(self)
                        &&& step matches PollStep::Resolve(t) && t == old(self).next_asof(
                            wall as int,
                        ) && utc_in_range(t as int)
                    },
                    SwitchPhase::Ready => if !old(self).boundary_reached(wall as int) {
                        &&& *final(self) == *old(self)
                        &&& step matches PollStep::Act(SwitchAction::Idle)
                    } else {
                        &&& final(self).series == old(self).series
                        &&& final(self).config == old(self).config
                        &&& final(self).resolver_config == old(self).resolver_config
                        &&& final(self).current == old(self).current
                        &&& final(self).next_candidate == old(self).next_candidate
                        &&& final(self).pending_unsubscribe == old(self).pending_unsubscribe
                        &&& final(self).stats == old(self).stats
                        &&& final(self).last_resolve_ok_at == old(self).last_resolve_ok_at
                        &&& final(self).boundary_reached_at == Some(mono)
                        &&& match old(self).next_candidate {
                            Some(c) => {
                                &&& final(self).phase == SwitchPhase::Ready
                                &&& final(self).commit_probe == Some(PriceSide::Upper)
                                &&& step matches PollStep::Probe { token, side } && token
                                    == c.market.clob_token_ids@[0] && side == PriceSide::Upper
                            },
                            None => {
                                &&& final(self).phase == SwitchPhase::Stable
                                &&& final(self).commit_probe is None
                                &&& step matches PollStep::Act(SwitchAction::Idle)
                            },
                        }
                    },
                    SwitchPhase::Committing => {
                        &&& step is Act
                        &&& Self::committed(old(self), final(self), step->Act_0, mono)
                    },
                }
            },
    {
        let due = match &self.pending_unsubscribe {
            Some(p) => elapsed(p.scheduled_at, mono) / 1000 >= self.config.overlap_secs,
            None => false,
        };
        if due {
            let p = self.pending_unsubscribe.take().unwrap();
            return PollStep::Act(SwitchAction::UnsubscribeOld { tokens: p.tokens, slug: p.slug });
        }
        match self.phase {
            SwitchPhase::Stable => {
                if self.should_prepare_next(wall) {
                    self.phase = SwitchPhase::Prepare;
                    self.next_candidate = None;
                    PollStep::Resolve(self.next_bucket_asof(wall))
                } else {
                    PollStep::Act(SwitchAction::Idle)
                }
            },
            SwitchPhase::Prepare => PollStep::Resolve(self.next_bucket_asof(wall)),
            SwitchPhase::Ready => {
                if !self.is_boundary_reached(wall) {
                    return PollStep::Act(SwitchAction::Idle);
                }
                self.boundary_reached_at = Some(mono);
                match &self.next_candidate {
                    Some(c) => {
                        let token = c.market.clob_token_ids[0].clone();
                        self.commit_probe = Some(PriceSide::Upper);
                        PollStep::Probe { token, side: PriceSide::Upper }
                    },
                    None => {
                        self.phase = SwitchPhase::Stable;
                        self.commit_probe = None;
                        PollStep::Act(SwitchAction::Idle)
                    },
                }
            },
            SwitchPhase::Committing => PollStep::Act(self.poll_committing(mono)),
        }
    }

    /// Takes the resolution of the next bucket asked for by `poll`, made at
    /// wall time `wall` and monotonic time `mono`. A market that is not
    /// exactly one bucket after the current one freezes and drops the
    /// prepared market. The prepared market seen again is counted, and once
    /// seen `min_consecutive` times in a row the phase is `Ready`. Any other
    /// market becomes the prepared one, seen once. A freeze is counted.
    pub fn on_next_resolved(&mut self, result: ResolveResult, wall: i64, mono: u64) -> (action:
        SwitchAction)
        requires
            old(self).wf(),
            old(self).phase == SwitchPhase::Prepare,
        ensures
            final(self).wf(),
            Self::current_advances(old(self), final(self)),
            final(self).commit_probe == old(self).commit_probe,
            match result {
                ResolveResult::Resolved(m) => {
                    &&& final(self).series == old(self).series
                    &&& final(self).config == old(self).config
                    &&& final(self).resolver_config == old(self).resolver_config
                    &&& final(self).current == old(self).current
                    &&& final(self).pending_unsubscribe == old(self).pending_unsubscribe
                    &&& final(self).boundary_reached_at == old(self).boundary_reached_at
                    &&& final(self).last_resolve_ok_at == Some(mono)
                    &&& final(self).stats.switch_count == old(self).stats.switch_count
                    &&& final(self).stats.last_switch_latency_ms == old(
                        self,
                    ).stats.last_switch_latency_ms
                    &&& if !old(self).monotonic(m) {
                        &&& final(self).phase == old(self).phase
                        &&& final(self).next_candidate is None
                        &&& final(self).stats.freeze_count == bump(old(self).stats.freeze_count)
                        &&& final(self).stats.last_ready_lead_secs == old(
                            self,
                        ).stats.last_ready_lead_secs
                        &&& action matches SwitchAction::Freeze { reason, message } && reason@
                            == "MonotonicityViolation"@ && message@ == "next.bucket_start="@
                            + decimal(m.bucket_start_ts as int) + " is not current+"@ + decimal(
                            old(self).bucket_size(),
                        )
                    } else if old(self).consistent(m) {
                        let c = old(self).next_candidate->0;
                        let k = bump32(c.consecutive_matches);
                        &&& final(self).next_candidate == Some(
                            NextCandidate {
                                market: c.market,
                                first_seen_at: c.first_seen_at,
                                consecutive_matches: k,
                            },
                        )
                        &&& final(self).stats.freeze_count == old(self).stats.freeze_count
                        &&& if k >= old(self).config.min_consecutive {
                            &&& final(self).phase == SwitchPhase::Ready
                            &&& final(self).stats.last_ready_lead_secs == match old(
                                self,
                            ).end_secs() {
                                Some(e) => Some(Self::clamp_i64(e - wall)),
                                None => old(self).stats.last_ready_lead_secs,
                            }
                        } else {
                            &&& final(self).phase == old(self).phase
                            &&& final(self).stats.last_ready_lead_secs == old(
                                self,
                            ).stats.last_ready_lead_secs
                        }
                        &&& action is Idle
                    } else {
                        &&& final(self).phase == old(self).phase
                        &&& final(self).next_candidate == Some(
                            NextCandidate { market: m, first_seen_at: mono, consecutive_matches: 1 },
                        )
                        &&& final(self).stats == old(self).stats
                        &&& action is Idle
                    }
                },
                ResolveResult::Freeze { .. } => {
                    &&& Self::counts_freeze(old(self), final(self))
                    &&& action is Idle
                },
            },
    {
        match result {
            ResolveResult::Resolved(market) => {
                self.last_resolve_ok_at = Some(mono);
                if !self.is_monotonic_advance(&market) {
                    self.stats.freeze_count = bump_count(self.stats.freeze_count);
                    self.next_candidate = None;
                    let mut message = String::from_str("next.bucket_start=");
                    let b = int_text(market.bucket_start_ts as i128);
                    message.append(b.as_str());
                    message.append(" is not current+");
                    let size = int_text(self.resolver_config.bucket_size_secs as i128);
                    message.append(size.as_str());
                    return SwitchAction::Freeze {
                        reason: String::from_str("MonotonicityViolation"),
                        message,
                    };
                }
                if self.is_consistent(&market) {
                    let end = self.end_timestamp();
                    let min = self.config.min_consecutive;
                    let mut ready = false;
                    match &mut self.next_candidate {
                        Some(c) => {
                            c.consecutive_matches = bump_count32(c.consecutive_matches);
                            ready = c.consecutive_matches >= min;
                        },
                        None => {},
                    }
                    if ready {
                        self.phase = SwitchPhase::Ready;
                        match end {
                            Some(e) => {
                                let d = (e as i128) - (wall as i128);
                                let lead: i64 = if d < (i64::MIN as i128) {
                                    i64::MIN
                                } else if d > (i64::MAX as i128) {
                                    i64::MAX
                                } else {
                                    d as i64
                                };
                                self.stats.last_ready_lead_secs = Some(lead);
                            },
                            None => {},
                        }
                    }
                } else {
                    self.next_candidate = Some(
                        NextCandidate { market, first_seen_at: mono, consecutive_matches: 1 },
                    );
                }
                SwitchAction::Idle
            },
            ResolveResult::Freeze { .. } => {
                self.stats.freeze_count = bump_count(self.stats.freeze_count);
                SwitchAction::Idle
            },
        }
    }

    /// Takes the reply to the commit-time probe asked for by `poll`, at
    /// monotonic time `mono`; the probe's side is the one the controller asked
    /// for. A priced token switches; a bad-request reply to `BUY` asks once
    /// more with `buy`; any other reply, and any reply to `buy`, ends the
    /// probe: a reply without a price, or a failure, freezes and stays
    /// `Ready` for the next poll. With no probe pending nothing happens.
    pub fn on_commit_price(&mut self, reply: PriceReply, mono: u64) -> (step: PollStep)
        requires
            old(self).wf(),
        ensures
            final(self).wf(),
            Self::current_advances(old(self), final(self)),
            Self::switch_advances(old(self), final(self), step),
            match old(self).commit_probe {
                None => {
                    &&& *final(self) == *old(self)
                    &&& step matches PollStep::Act(SwitchAction::Idle)
                },
                Some(side) => match verdict_of(side, reply) {
                    ProbeVerdict::Priced => {
                        &&& step is Act
                        &&& Self::committed(old(self), final(self), step->Act_0, mono)
                    },
                    ProbeVerdict::NoPrice => {
                        &&& Self::counts_freeze(old(self), final(self))
                        &&& final(self).commit_probe is None
                        &&& step matches PollStep::Act(SwitchAction::Freeze { reason, message })
                            && reason@ == "CommitClobNoPriceField"@ && message@
                            == "CLOB tokens have no price at commit time"@
                    },
                    ProbeVerdict::RetryLower => {
                        &&& side == PriceSide::Upper
                        &&& Self::keeps_markets(old(self), final(self))
                        &&& final(self).phase == old(self).phase
                        &&& final(self).next_candidate == old(self).next_candidate
                        &&& final(self).stats == old(self).stats
                        &&& final(self).commit_probe == Some(PriceSide::Lower)
                        &&& step matches PollStep::Probe { token, side } && token == old(
                            self,
                        ).next_candidate->0.market.clob_token_ids@[0] && side == PriceSide::Lower
                    },
                    ProbeVerdict::Failed => {
                        &&& Self::counts_freeze(old(self), final(self))
                        &&& final(self).commit_probe is None
                        &&& step matches PollStep::Act(SwitchAction::Freeze { reason, message })
                            && reason@ == "CommitClobError"@ && message@
                            == "CLOB error at commit time: "@ + reply->Failed_0@
                    },
                },
            },
    {
        let side = match self.commit_probe {
            Some(side) => side,
            None => {
                return PollStep::Act(SwitchAction::Idle);
            },
        };
        let token = self.next_candidate.as_ref().unwrap().market.clob_token_ids[0].clone();
        match probe_verdict(side, &reply) {
            ProbeVerdict::Priced => {
                self.commit_probe = None;
                self.phase = SwitchPhase::Committing;
                PollStep::Act(self.poll_committing(mono))
            },
            ProbeVerdict::NoPrice => {
                self.commit_probe = None;
                self.stats.freeze_count = bump_count(self.stats.freeze_count);
                PollStep::Act(
                    SwitchAction::Freeze {
                        reason: String::from_str("CommitClobNoPriceField"),
                        message: String::from_str("CLOB tokens have no price at commit time"),
                    },
                )
            },
            ProbeVerdict::RetryLower => {
                self.commit_probe = Some(PriceSide::Lower);
                PollStep::Probe { token, side: PriceSide::Lower }
            },
            ProbeVerdict::Failed => {
                self.commit_probe = None;
                self.stats.freeze_count = bump_count(self.stats.freeze_count);
                let mut message = String::from_str("CLOB error at commit time: ");
                match &reply {
                    PriceReply::Failed(e) => message.append(e.as_str()),
                    _ => {},
                }
                PollStep::Act(
                    SwitchAction::Freeze { reason: String::from_str("CommitClobError"), message },
                )
            },
        }
    }

    /// One line on the controller's state at wall time `wall`: the time of
    /// day, the phase, the current market, the prepared market with how many
    /// times in a row it was seen, and the freeze count.
    pub fn status_line(&self, wall: i64) -> (r: String)
        ensures
            r@ == self.status_of(wall as int),
    {
        let mut s = String::from_str("[");
        let clock = clock_text(wall);
        s.append(clock.as_str());
        s.append("] phase=");
        s.append(self.phase.name());
        s.append(" current=");
        match &self.current {
            Some(m) => s.append(m.slug.as_str()),
            None => s.append("None"),
        }
        s.append(" next=");
        match &self.next_candidate {
            Some(c) => {
                s.append(c.market.slug.as_str());
                s.append("(");
                let k = nat_text(c.consecutive_matches as u128);
                s.append(k.as_str());
                s.append("/");
                let n = nat_text(self.config.min_consecutive as u128);
                s.append(n.as_str());
                s.append(")");
            },
            None => s.append("None"),
        }
        s.append(" freeze_count=");
        let f = nat_text(self.stats.freeze_count as u128);
        s.append(f.as_str());
        proof {
            assert(s@ =~= self.status_of(wall as int));
        }
        s
    }
}

/// The current market of one step and of the next: kept, set from none, or
/// replaced by the market one bucket of `size` seconds later.
pub open spec fn market_step(a: Option<ResolvedMarket>, b: Option<ResolvedMarket>, size: int) -> bool {
    b == a || a is None || (b is Some && advances_one_bucket(a->0, b->0, size))
}

/// Over a session, the current markets step by step, each step of which
/// keeps the market or replaces it by the market one bucket later: from step
/// `i` to step `j` the bucket never goes back; it either stays and the market
/// is the same, or it moves on by at least one bucket.
pub proof fn lemma_session_buckets_advance(
    currents: Seq<Option<ResolvedMarket>>,
    size: int,
    i: int,
    j: int,
)
    requires
        size > 0,
        forall|k: int|
            0 <= k < currents.len() - 1 ==> market_step(#[trigger] currents[k], currents[k + 1], size),
        0 <= i <= j < currents.len(),
        currents[i] is Some,
    ensures
        currents[j] is Some,
        currents[j]->0.bucket_start_ts >= currents[i]->0.bucket_start_ts,
        currents[j]->0.bucket_start_ts == currents[i]->0.bucket_start_ts ==> currents[j]
            == currents[i],
        currents[j]->0.bucket_start_ts != currents[i]->0.bucket_start_ts
            ==> currents[j]->0.bucket_start_ts >= currents[i]->0.bucket_start_ts + size,
    decreases j - i,
{
    if j > i {
        lemma_session_buckets_advance(currents, size, i, j - 1);
        assert(market_step(currents[j - 1], currents[j], size));
    }
}

/// A switch away from a current market subscribes the new market and
/// schedules exactly the old market's tokens and slug for unsubscribing; the
/// schedule falls due once `overlap_secs` whole seconds of the monotonic
/// clock have passed since the switch, and `poll` then hands out the matching
/// `UnsubscribeOld` before anything else and clears the schedule.
pub proof fn lemma_switch_schedules_unsubscribe(
    old: SwitchController,
    new: SwitchController,
    action: SwitchAction,
    mono: u64,
    later: u64,
)
    requires
        SwitchController::committed(&old, &new, action, mono),
        old.current is Some,
        old.next_candidate is Some,
    ensures
        action matches SwitchAction::SubscribeNew { tokens, slug } && tokens
            == old.next_candidate->0.market.clob_token_ids && slug
            == old.next_candidate->0.market.slug,
        new.pending_unsubscribe matches Some(p) && p.tokens == old.current->0.clob_token_ids
            && p.slug == old.current->0.slug && p.scheduled_at == mono,
        new.overlap_due(later) <==> elapsed_ms(mono, later) / 1000 >= old.config.overlap_secs,
{
}

} // verus!
