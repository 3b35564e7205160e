use polymarket_adapter::probe::{PriceReply, PriceSide};
use polymarket_adapter::resolver::ResolverConfig;
use polymarket_adapter::series::MarketSeries;
use polymarket_adapter::switch::{PollStep, SwitchAction, SwitchConfig, SwitchController, SwitchPhase};
use polymarket_adapter::time::rfc3339_text;
use polymarket_adapter::types::{ResolveResult, ResolvedMarket, SelectionReason};

const B: i64 = 1736073000;

fn resolved(bucket: i64, prefix: &str) -> ResolvedMarket {
    ResolvedMarket {
        gamma_market_id: format!("id-{}", bucket),
        condition_id: format!("cond-{}", bucket),
        clob_token_ids: [format!("{}-up", prefix), format!("{}-dn", prefix)],
        slug: format!("btc-updown-15m-{}", bucket),
        question: "Will BTC be up or down?".to_string(),
        start_date: rfc3339_text(bucket),
        end_date: rfc3339_text(bucket + 900),
        selected_at_ms: 0,
        selection_reason: SelectionReason::UniqueMatchInWindow,
        outcomes: ["Up".to_string(), "Down".to_string()],
        asof_utc: rfc3339_text(bucket + 5),
        candidate_slugs: vec![format!("btc-updown-15m-{}", bucket)],
        bucket_start_ts: bucket,
    }
}

fn started() -> SwitchController {
    let mut ctl = SwitchController::new(MarketSeries::Btc15m, SwitchConfig::default());
    let action = ctl.init(ResolveResult::Resolved(resolved(B, "old")), 0);
    match action {
        SwitchAction::SubscribeNew { tokens, slug } => {
            assert_eq!(tokens, ["old-up".to_string(), "old-dn".to_string()]);
            assert_eq!(slug, format!("btc-updown-15m-{}", B));
        }
        other => panic!("expected SubscribeNew, got {:?}", other),
    }
    ctl
}

fn act(step: PollStep) -> SwitchAction {
    match step {
        PollStep::Act(a) => a,
        other => panic!("expected an action, got {:?}", other),
    }
}

#[test]
fn test_switch_config_default() {
    let config = SwitchConfig::default();
    assert_eq!(config.lead_time_secs, 90);
    assert_eq!(config.min_consecutive, 3);
    assert_eq!(config.overlap_secs, 15);
    assert_eq!(config.poll_interval_ms, 2000);
}

#[test]
fn init_freeze_is_counted() {
    let mut ctl = SwitchController::new(MarketSeries::Btc15m, SwitchConfig::default());
    let action = ctl.init(
        ResolveResult::Freeze {
            reason: SelectionReason::NoCandidates,
            message: "No valid market candidates found".to_string(),
            candidates: vec![],
        },
        0,
    );
    match action {
        SwitchAction::Freeze { reason, message } => {
            assert_eq!(reason, "NoCandidates");
            assert_eq!(message, "No valid market candidates found");
        }
        other => panic!("expected Freeze, got {:?}", other),
    }
    assert_eq!(ctl.stats().freeze_count, 1);
    assert!(ctl.current().is_none());
    // With no current market a poll does nothing.
    assert!(matches!(act(ctl.poll(B, 10)), SwitchAction::Idle));
}

#[test]
fn stable_poll_is_idempotent_before_lead_time() {
    let mut ctl = started();
    let end = B + 900;
    for wall in [end - 500, end - 91, end - 91] {
        assert!(matches!(act(ctl.poll(wall, 1_000)), SwitchAction::Idle));
        assert_eq!(*ctl.phase(), SwitchPhase::Stable);
        assert!(ctl.next_candidate().is_none());
        assert_eq!(ctl.stats().freeze_count, 0);
    }
    assert_eq!(ctl.status_line(end - 91), format!(
        "[10:43:29] phase=Stable current=btc-updown-15m-{} next=None freeze_count=0",
        B
    ));
}

#[test]
fn monotonicity_violation_freezes() {
    for bad in [B, B - 1800] {
        let mut ctl = started();
        let end = B + 900;
        let step = ctl.poll(end - 60, 1_000);
        match step {
            PollStep::Resolve(asof) => assert_eq!(asof, B + 905),
            other => panic!("expected Resolve, got {:?}", other),
        }
        assert_eq!(*ctl.phase(), SwitchPhase::Prepare);
        // A good candidate first, then a market that does not advance.
        ctl.on_next_resolved(ResolveResult::Resolved(resolved(B + 900, "new")), end - 60, 1_000);
        assert!(ctl.next_candidate().is_some());
        let action = ctl.on_next_resolved(ResolveResult::Resolved(resolved(bad, "bad")), end - 58, 3_000);
        match action {
            SwitchAction::Freeze { reason, message } => {
                assert_eq!(reason, "MonotonicityViolation");
                assert_eq!(message, format!("next.bucket_start={} is not current+900", bad));
            }
            other => panic!("expected Freeze, got {:?}", other),
        }
        assert!(ctl.next_candidate().is_none());
        assert_eq!(*ctl.phase(), SwitchPhase::Prepare);
        assert_eq!(ctl.stats().freeze_count, 1);
    }
}

#[test]
fn end_to_end_switch() {
    let mut ctl = started();
    let t = B + 900;
    let mut mono: u64 = 10_000;
    // Lead time reached: Prepare.
    let mut wall = t - 60;
    for i in 0..3u32 {
        let step = ctl.poll(wall, mono);
        let asof = match step {
            PollStep::Resolve(asof) => asof,
            other => panic!("expected Resolve, got {:?}", other),
        };
        assert_eq!(asof, t + 5);
        assert_eq!(*ctl.phase(), SwitchPhase::Prepare);
        let action = ctl.on_next_resolved(ResolveResult::Resolved(resolved(t, "new")), wall, mono);
        assert!(matches!(action, SwitchAction::Idle));
        assert_eq!(ctl.next_candidate().unwrap().consecutive_matches, i + 1);
        wall += 2;
        mono += 2_000;
    }
    assert_eq!(*ctl.phase(), SwitchPhase::Ready);
    assert_eq!(ctl.stats().last_ready_lead_secs, Some(56));
    assert_eq!(ctl.status_line(wall).contains("next=btc-updown-15m-1736073900(3/3)"), true);
    // Before the boundary nothing happens.
    assert!(matches!(act(ctl.poll(t - 1, mono)), SwitchAction::Idle));
    // At the boundary the first token is probed, then the switch happens.
    let step = ctl.poll(t, mono);
    match step {
        PollStep::Probe { token, side } => {
            assert_eq!(token, "new-up");
            assert_eq!(side, PriceSide::Upper);
        }
        other => panic!("expected Probe, got {:?}", other),
    }
    let action = act(ctl.on_commit_price(PriceReply::Priced, mono + 120));
    match action {
        SwitchAction::SubscribeNew { tokens, slug } => {
            assert_eq!(tokens, ["new-up".to_string(), "new-dn".to_string()]);
            assert_eq!(slug, format!("btc-updown-15m-{}", t));
        }
        other => panic!("expected SubscribeNew, got {:?}", other),
    }
    assert_eq!(*ctl.phase(), SwitchPhase::Stable);
    assert_eq!(ctl.current().unwrap().bucket_start_ts, t);
    assert_eq!(ctl.stats().switch_count, 1);
    assert_eq!(ctl.stats().last_switch_latency_ms, Some(120));
    // Within the overlap the old subscription stays.
    assert!(matches!(act(ctl.poll(t + 10, mono + 120 + 14_999)), SwitchAction::Idle));
    // Fifteen seconds after the switch it is dropped, once.
    match act(ctl.poll(t + 15, mono + 120 + 15_000)) {
        SwitchAction::UnsubscribeOld { tokens, slug } => {
            assert_eq!(tokens, ["old-up".to_string(), "old-dn".to_string()]);
            assert_eq!(slug, format!("btc-updown-15m-{}", B));
        }
        other => panic!("expected UnsubscribeOld, got {:?}", other),
    }
    assert!(matches!(act(ctl.poll(t + 17, mono + 120 + 17_000)), SwitchAction::Idle));
}

#[test]
fn commit_probe_fallback_and_failures() {
    let mut ctl = started();
    let t = B + 900;
    for _ in 0..3 {
        let _ = ctl.poll(t - 30, 0);
        ctl.on_next_resolved(ResolveResult::Resolved(resolved(t, "new")), t - 30, 0);
    }
    assert_eq!(*ctl.phase(), SwitchPhase::Ready);
    let _ = ctl.poll(t, 5);
    let retry = ctl.on_commit_price(PriceReply::Failed("HTTP 400 Bad Request".to_string()), 6);
    match retry {
        PollStep::Probe { token, side } => {
            assert_eq!(token, "new-up");
            assert_eq!(side, PriceSide::Lower);
        }
        other => panic!("expected Probe, got {:?}", other),
    }
    match act(ctl.on_commit_price(PriceReply::NoPriceField, 7)) {
        SwitchAction::Freeze { reason, message } => {
            assert_eq!(reason, "CommitClobNoPriceField");
            assert_eq!(message, "CLOB tokens have no price at commit time");
        }
        other => panic!("expected Freeze, got {:?}", other),
    }
    assert_eq!(*ctl.phase(), SwitchPhase::Ready);
    let _ = ctl.poll(t + 2, 2_000);
    match act(ctl.on_commit_price(
        PriceReply::Failed("HTTP 503 Service Unavailable".to_string()),
        2_001,
    )) {
        SwitchAction::Freeze { reason, message } => {
            assert_eq!(reason, "CommitClobError");
            assert_eq!(message, "CLOB error at commit time: HTTP 503 Service Unavailable");
        }
        other => panic!("expected Freeze, got {:?}", other),
    }
    assert_eq!(ctl.stats().freeze_count, 2);
    assert_eq!(ctl.stats().switch_count, 0);
    assert_eq!(ctl.current().unwrap().bucket_start_ts, B);
}

#[test]
fn mismatched_candidate_restarts_count() {
    let mut ctl = started();
    let t = B + 900;
    let _ = ctl.poll(t - 60, 0);
    ctl.on_next_resolved(ResolveResult::Resolved(resolved(t, "new")), t - 60, 0);
    ctl.on_next_resolved(ResolveResult::Resolved(resolved(t, "new")), t - 58, 2_000);
    assert_eq!(ctl.next_candidate().unwrap().consecutive_matches, 2);
    ctl.on_next_resolved(ResolveResult::Resolved(resolved(t, "other")), t - 56, 4_000);
    let c = ctl.next_candidate().unwrap();
    assert_eq!(c.consecutive_matches, 1);
    assert_eq!(c.first_seen_at, 4_000);
    assert_eq!(c.market.clob_token_ids[0], "other-up");
    let action = ctl.on_next_resolved(
        ResolveResult::Freeze {
            reason: SelectionReason::NoCandidates,
            message: "No valid market candidates found".to_string(),
            candidates: vec![],
        },
        t - 54,
        6_000,
    );
    assert!(matches!(action, SwitchAction::Idle));
    assert_eq!(ctl.stats().freeze_count, 1);
    assert_eq!(*ctl.phase(), SwitchPhase::Prepare);
}

#[test]
fn controller_with_custom_bucket() {
    let mut cfg = ResolverConfig::default();
    cfg.bucket_size_secs = 300;
    let ctl = SwitchController::with_resolver_config(MarketSeries::Eth15m, SwitchConfig::default(), cfg);
    assert_eq!(ctl.resolver_config().bucket_size_secs, 300);
    assert_eq!(*ctl.phase(), SwitchPhase::Stable);
    assert_eq!(ctl.stats().switch_count, 0);
}

#[test]
fn commit_probe_side_is_kept_by_the_controller() {
    let mut ctl = started();
    let t = B + 900;
    // No probe asked for: a reply changes nothing.
    assert!(matches!(act(ctl.on_commit_price(PriceReply::Priced, 0)), SwitchAction::Idle));
    assert_eq!(ctl.stats().switch_count, 0);
    for _ in 0..3 {
        let _ = ctl.poll(t - 30, 0);
        ctl.on_next_resolved(ResolveResult::Resolved(resolved(t, "new")), t - 30, 0);
    }
    let _ = ctl.poll(t, 5);
    assert_eq!(ctl.commit_probe, Some(PriceSide::Upper));
    let bad = || PriceReply::Failed("HTTP 400 Bad Request: invalid side".to_string());
    match ctl.on_commit_price(bad(), 6) {
        PollStep::Probe { side, .. } => assert_eq!(side, PriceSide::Lower),
        other => panic!("expected Probe, got {:?}", other),
    }
    // A second bad request, now to `buy`, is not retried.
    match act(ctl.on_commit_price(bad(), 7)) {
        SwitchAction::Freeze { reason, .. } => assert_eq!(reason, "CommitClobError"),
        other => panic!("expected Freeze, got {:?}", other),
    }
    assert_eq!(ctl.commit_probe, None);
    assert!(matches!(act(ctl.on_commit_price(bad(), 8)), SwitchAction::Idle));
    assert_eq!(*ctl.phase(), SwitchPhase::Ready);
}

#[test]
fn previous_bucket_market_prepares_the_bucket_after_it() {
    // Started 60 s into bucket B while only bucket B - 900 was listed: the
    // current market carries its own bucket, so the next resolution targets B.
    let mut ctl = SwitchController::new(MarketSeries::Btc15m, SwitchConfig::default());
    let _ = ctl.init(ResolveResult::Resolved(resolved(B - 900, "prev")), 0);
    match ctl.poll(B + 60, 1_000) {
        PollStep::Resolve(asof) => assert_eq!(asof, B + 5),
        other => panic!("expected Resolve, got {:?}", other),
    }
    let action = ctl.on_next_resolved(ResolveResult::Resolved(resolved(B + 900, "skip")), B + 60, 1_000);
    assert!(matches!(action, SwitchAction::Freeze { .. }));
    let action = ctl.on_next_resolved(ResolveResult::Resolved(resolved(B, "cur")), B + 62, 3_000);
    assert!(matches!(action, SwitchAction::Idle));
    assert_eq!(ctl.next_candidate().unwrap().market.bucket_start_ts, B);
}
