//! Data shared by the resolver, the switch controller and the feed clients.
use vstd::prelude::*;

use crate::text::same_text;
use crate::time::{parse_rfc3339, rfc3339_secs};

verus! {

/// Channel of the venue's websocket feed.
#[derive(Clone, Copy, Debug, PartialEq, Eq, Structural)]
pub enum ChannelType {
    Market,
    User,
}

/// Credentials carried in a user-channel subscription.
#[derive(Clone, Debug)]
pub struct WsAuth {
    pub api_key: String,
    pub secret: String,
    pub passphrase: String,
}

/// Why a resolution picked a market, or why it refused to.
#[derive(Clone, Copy, Debug, PartialEq, Eq, Structural)]
pub enum SelectionReason {
    /// One market matched inside its time window.
    UniqueMatchInWindow,
    /// Several markets matched; never produced by the current-then-previous search.
    AmbiguousCandidates,
    /// No queried slug gave a market that passed validation.
    NoCandidates,
    /// A token of the chosen market had no live price.
    ClobPriceCheckFailed,
    /// The discovery service failed.
    GammaApiError,
    /// The chosen market is not a well-formed binary market.
    ValidationFailed,
}

/// A market as the discovery service describes it, after decoding.
#[derive(Clone, Debug)]
pub struct GammaMarket {
    pub id: String,
    pub slug: String,
    pub question: String,
    pub condition_id: String,
    /// Token ids, one per outcome; a binary market has two.
    pub clob_token_ids: Vec<String>,
    pub outcomes: Vec<String>,
    pub outcome_prices: Vec<String>,
    pub start_date: Option<String>,
    pub end_date: Option<String>,
    pub active: bool,
    pub closed: bool,
    pub archived: bool,
    pub enable_order_book: bool,
    pub resolution_source: Option<String>,
    pub description: Option<String>,
}

/// The Unix seconds of an optional RFC 3339 text.
pub open spec fn date_secs(d: Option<String>) -> Option<int> {
    match d {
        Some(s) => rfc3339_secs(s@),
        None => None,
    }
}

fn optional_date_secs(d: &Option<String>) -> (r: Option<i64>)
    ensures
        match r {
            Some(t) => date_secs(*d) == Some(t as int),
            None => date_secs(*d) is None,
        },
{
    match d {
        Some(s) => parse_rfc3339(s.as_str()),
        None => None,
    }
}

impl GammaMarket {
    /// Whether the market has exactly two token ids.
    pub fn is_valid_binary(&self) -> (r: bool)
        ensures
            r == (self.clob_token_ids@.len() == 2),
    {
        self.clob_token_ids.len() == 2
    }

    /// The start date as Unix seconds, when present and readable.
    pub fn start_timestamp(&self) -> (r: Option<i64>)
        ensures
            match r {
                Some(t) => date_secs(self.start_date) == Some(t as int),
                None => date_secs(self.start_date) is None,
            },
    {
        optional_date_secs(&self.start_date)
    }

    /// The end date as Unix seconds, when present and readable.
    pub fn end_timestamp(&self) -> (r: Option<i64>)
        ensures
            match r {
                Some(t) => date_secs(self.end_date) == Some(t as int),
                None => date_secs(self.end_date) is None,
            },
    {
        optional_date_secs(&self.end_date)
    }
}

/// The market a resolution settled on, with what is needed to trade it and
/// to audit the choice.
#[derive(Clone, Debug)]
pub struct ResolvedMarket {
    pub gamma_market_id: String,
    pub condition_id: String,
    /// Token ids, up first and down second.
    pub clob_token_ids: [String; 2],
    pub slug: String,
    pub question: String,
    /// Start of the market, RFC 3339; empty when the service gave none.
    pub start_date: String,
    /// End of the market, RFC 3339; empty when the service gave none.
    pub end_date: String,
    /// When the choice was made, Unix milliseconds.
    pub selected_at_ms: i64,
    pub selection_reason: SelectionReason,
    pub outcomes: [String; 2],
    /// The reference time of the resolution, RFC 3339.
    pub asof_utc: String,
    /// The slugs that gave a market, in the order they were queried.
    pub candidate_slugs: Vec<String>,
    /// Start of the chosen market's time bucket, Unix seconds: the reference
    /// time's bucket, or the earlier bucket its slug names when it was found
    /// under the previous bucket's slugs.
    pub bucket_start_ts: i64,
}

/// Outcome of a resolution: a market, or a refusal to name one.
#[derive(Clone, Debug)]
pub enum ResolveResult {
    Resolved(ResolvedMarket),
    Freeze { reason: SelectionReason, message: String, candidates: Vec<String> },
}

impl ResolveResult {
    /// Whether a market was resolved.
    pub fn is_ok(&self) -> (r: bool)
        ensures
            r == (self is Resolved),
    {
        match self {
            ResolveResult::Resolved(_) => true,
            ResolveResult::Freeze { .. } => false,
        }
    }

    /// The resolved market, if any.
    pub fn market(&self) -> (r: Option<&ResolvedMarket>)
        ensures
            match self {
                ResolveResult::Resolved(m) => r == Some(m),
                ResolveResult::Freeze { .. } => r is None,
            },
    {
        match self {
            ResolveResult::Resolved(m) => Some(m),
            ResolveResult::Freeze { .. } => None,
        }
    }
}

/// Counts of the messages a feed client has seen.
#[derive(Clone, Debug)]
pub struct MessageStats {
    pub total_messages: u64,
    pub parsed_ok: u64,
    pub unknown_type_count: u64,
    pub parse_error_count: u64,
    /// Messages seen per event type, each type once, in order of first sight.
    pub type_counts: Vec<(String, u64)>,
    pub last_message_type: Option<String>,
}

/// `n + 1`, held at `u64::MAX`.
pub open spec fn bump(n: u64) -> u64 {
    if n < u64::MAX {
        (n + 1) as u64
    } else {
        n
    }
}

/// `n + 1`, held at `u64::MAX`.
pub fn bump_count(n: u64) -> (r: u64)
    ensures
        r == bump(n),
{
    if n < u64::MAX {
        n + 1
    } else {
        n
    }
}

/// Event type counted for a message that names none.
pub const NO_TYPE: &'static str = "_no_type";

/// The count of the last entry of `s` for event type `t`, zero when none.
pub open spec fn count_in(s: Seq<(String, u64)>, t: Seq<char>) -> nat
    decreases s.len(),
{
    if s.len() == 0 {
        0
    } else if s.last().0@ == t {
        s.last().1 as nat
    } else {
        count_in(s.drop_last(), t)
    }
}

proof fn lemma_count_absent(s: Seq<(String, u64)>, t: Seq<char>)
    requires
        forall|j: int| 0 <= j < s.len() ==> #[trigger] s[j].0@ != t,
    ensures
        count_in(s, t) == 0,
    decreases s.len(),
{
    if s.len() > 0 {
        assert(s.last().0@ != t);
        lemma_count_absent(s.drop_last(), t);
    }
}

proof fn lemma_count_update(s: Seq<(String, u64)>, i: int, c: u64, t: Seq<char>)
    requires
        0 <= i < s.len(),
        forall|a: int, b: int|
            #![trigger s[a], s[b]]
            0 <= a < b < s.len() ==> s[a].0@ != s[b].0@,
    ensures
        count_in(s.update(i, (s[i].0, c)), t) == if t == s[i].0@ {
            c as nat
        } else {
            count_in(s, t)
        },
    decreases s.len(),
{
    let u = s.update(i, (s[i].0, c));
    if i < s.len() - 1 {
        assert(u.last() == s.last());
        assert(u.drop_last() =~= s.drop_last().update(i, (s[i].0, c)));
        if s.last().0@ != t {
            lemma_count_update(s.drop_last(), i, c, t);
        } else {
            assert(s[i].0@ != s[s.len() - 1].0@);
        }
    } else {
        assert(u.drop_last() =~= s.drop_last());
    }
}

impl MessageStats {
    /// Whether each event type appears once in `type_counts`.
    pub open spec fn wf(&self) -> bool {
        forall|i: int, j: int|
            #![trigger self.type_counts@[i], self.type_counts@[j]]
            0 <= i < j < self.type_counts@.len() ==> self.type_counts@[i].0@
                != self.type_counts@[j].0@
    }

    /// The count recorded for event type `t`.
    pub open spec fn count_spec(&self, t: Seq<char>) -> nat {
        count_in(self.type_counts@, t)
    }

    /// Empty counts.
    pub fn new() -> (r: Self)
        ensures
            r.total_messages == 0,
            r.parsed_ok == 0,
            r.unknown_type_count == 0,
            r.parse_error_count == 0,
            r.type_counts@.len() == 0,
            r.last_message_type is None,
            r.wf(),
    {
        MessageStats {
            total_messages: 0,
            parsed_ok: 0,
            unknown_type_count: 0,
            parse_error_count: 0,
            type_counts: Vec::new(),
            last_message_type: None,
        }
    }

    /// Counts a message that could not be read at all.
    pub fn record_parse_error(&mut self)
        ensures
            final(self).total_messages == bump(old(self).total_messages),
            final(self).parse_error_count == bump(old(self).parse_error_count),
            final(self).parsed_ok == old(self).parsed_ok,
            final(self).unknown_type_count == old(self).unknown_type_count,
            final(self).type_counts == old(self).type_counts,
            final(self).last_message_type == old(self).last_message_type,
    {
        self.total_messages = bump_count(self.total_messages);
        self.parse_error_count = bump_count(self.parse_error_count);
    }

    /// Counts a read message: `unknown` when its type was not recognised,
    /// `event_type` the type it names, if any (counted as `_no_type` when none).
    pub fn record_event(&mut self, unknown: bool, event_type: Option<&str>)
        requires
            old(self).wf(),
        ensures
            final(self).wf(),
            final(self).total_messages == bump(old(self).total_messages),
            unknown ==> final(self).unknown_type_count == bump(old(self).unknown_type_count)
                && final(self).parsed_ok == old(self).parsed_ok,
            !unknown ==> final(self).parsed_ok == bump(old(self).parsed_ok)
                && final(self).unknown_type_count == old(self).unknown_type_count,
            final(self).parse_error_count == old(self).parse_error_count,
            final(self).last_message_type matches Some(t) && t@ == (match event_type {
                Some(e) => e@,
                None => NO_TYPE@,
            }),
            ({
                let key = match event_type {
                    Some(e) => e@,
                    None => NO_TYPE@,
                };
                &&& final(self).count_spec(key) == if old(self).count_spec(key) < u64::MAX {
                    old(self).count_spec(key) + 1
                } else {
                    old(self).count_spec(key)
                }
                &&& forall|t: Seq<char>|
                    t != key ==> #[trigger] final(self).count_spec(t) == old(self).count_spec(t)
            }),
    {
        self.total_messages = bump_count(self.total_messages);
        if unknown {
            self.unknown_type_count = bump_count(self.unknown_type_count);
        } else {
            self.parsed_ok = bump_count(self.parsed_ok);
        }
        let name: &str = match event_type {
            Some(e) => e,
            None => NO_TYPE,
        };
        let key = String::from_str(name);
        let n = self.type_counts.len();
        let mut i: usize = 0;
        let mut found = false;
        while i < n && !found
            invariant
                n == self.type_counts@.len(),
                i <= n,
                key@ == name@,
                self.wf(),
                found ==> i < n && self.type_counts@[i as int].0@ == key@,
                !found ==> forall|j: int| 0 <= j < i ==> #[trigger] self.type_counts@[j].0@ != key@,
            decreases n - i + (if found { 0int } else { 1int }),
        {
            if same_text(self.type_counts[i].0.as_str(), key.as_str()) {
                found = true;
            } else {
                i = i + 1;
            }
        }
        if found {
            let c = bump_count(self.type_counts[i].1);
            let k = self.type_counts[i].0.clone();
            let ghost before = self.type_counts@;
            proof {
                assert(before[i as int].0 == k);
                assert forall|t: Seq<char>|
                    #![trigger count_in(before.update(i as int, (before[i as int].0, c)), t)]
                    true implies count_in(before.update(i as int, (before[i as int].0, c)), t)
                    == if t == before[i as int].0@ {
                    c as nat
                } else {
                    count_in(before, t)
                } by {
                    lemma_count_update(before, i as int, c, t);
                }
                lemma_count_update(before, i as int, self.type_counts[i as int].1, key@);
                assert(before.update(i as int, (before[i as int].0, before[i as int].1)) =~= before);
            }
            self.type_counts.set(i, (k, c));
            assert(self.type_counts@ =~= before.update(i as int, (before[i as int].0, c)));
            assert forall|a: int, b: int|
                #![trigger self.type_counts@[a], self.type_counts@[b]]
                0 <= a < b < self.type_counts@.len() implies self.type_counts@[a].0@
                != self.type_counts@[b].0@ by {
                assert(self.type_counts@[a].0@ == before[a].0@);
                assert(self.type_counts@[b].0@ == before[b].0@);
            }
        } else {
            let ghost before = self.type_counts@;
            proof {
                lemma_count_absent(before, key@);
            }
            self.type_counts.push((key.clone(), 1));
            assert(self.type_counts@.drop_last() =~= before);
            assert forall|a: int, b: int|
                #![trigger self.type_counts@[a], self.type_counts@[b]]
                0 <= a < b < self.type_counts@.len() implies self.type_counts@[a].0@
                != self.type_counts@[b].0@ by {
                if b < n {
                    assert(self.type_counts@[a].0@ == before[a].0@);
                    assert(self.type_counts@[b].0@ == before[b].0@);
                } else {
                    assert(self.type_counts@[a].0@ == before[a].0@);
                }
            }
        }
        self.last_message_type = Some(key);
    }

    /// The count recorded for event type `t`.
    pub fn count_of(&self, t: &str) -> (r: u64)
        ensures
            r == self.count_spec(t@),
    {
        let mut j = self.type_counts.len();
        proof {
            assert(self.type_counts@.subrange(0, j as int) =~= self.type_counts@);
        }
        while j > 0
            invariant
                j <= self.type_counts@.len(),
                count_in(self.type_counts@, t@) == count_in(
                    self.type_counts@.subrange(0, j as int),
                    t@,
                ),
            decreases j,
        {
            let ghost pre = self.type_counts@.subrange(0, j as int);
            if same_text(self.type_counts[j - 1].0.as_str(), t) {
                return self.type_counts[j - 1].1;
            }
            proof {
                assert(pre.drop_last() =~= self.type_counts@.subrange(0, j - 1));
            }
            j = j - 1;
        }
        0
    }
}

} // verus!
