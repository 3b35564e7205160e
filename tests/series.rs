use polymarket_adapter::series::MarketSeries;
use polymarket_adapter::text::{
    contains_text, int_text, last_dash_segment, parse_i64, replace_placeholder, same_text,
    trim_trailing_slashes,
};
use polymarket_adapter::time::{clock_text, rfc3339_text, UTC_MAX_SECS, UTC_MIN_SECS};
use polymarket_adapter::types::GammaMarket;

#[test]
fn test_market_series_slug_patterns() {
    let btc = MarketSeries::Btc15m;
    let patterns = btc.slug_patterns();
    assert_eq!(patterns.len(), 2);
    assert!(patterns[0].contains("btc"));
}

#[test]
fn test_market_series_from_str() {
    assert_eq!(MarketSeries::from_str("btc15m"), Some(MarketSeries::Btc15m));
    assert_eq!(MarketSeries::from_str("BTC-15M"), Some(MarketSeries::Btc15m));
    assert_eq!(MarketSeries::from_str("invalid"), None);
}

#[test]
fn test_slug_generation() {
    let series = MarketSeries::Btc15m;
    let patterns = series.slug_patterns();

    let bucket_start = 1767301200i64;
    let slugs: Vec<String> = patterns
        .iter()
        .map(|p| p.replace("{}", &bucket_start.to_string()))
        .collect();

    assert!(slugs.contains(&"btc-updown-15m-1767301200".to_string()));
    assert!(slugs.contains(&"btc-up-or-down-15m-1767301200".to_string()));
}

#[test]
fn series_aliases_cover_all_spellings() {
    for alias in ["btc15m", "btc-15m", "btc_15m", "Btc_15M"] {
        assert_eq!(MarketSeries::from_str(alias), Some(MarketSeries::Btc15m));
    }
    for alias in ["eth15m", "ETH-15m", "eth_15m"] {
        assert_eq!(MarketSeries::from_str(alias), Some(MarketSeries::Eth15m));
    }
    assert_eq!(MarketSeries::from_str("btc15"), None);
    assert_eq!(MarketSeries::from_alias("BTC15M"), None);
    assert_eq!(MarketSeries::from_alias("eth-15m"), Some(MarketSeries::Eth15m));
}

#[test]
fn eth_patterns_in_order() {
    let patterns = MarketSeries::Eth15m.slug_patterns();
    assert_eq!(patterns, vec!["eth-updown-15m-{}", "eth-up-or-down-15m-{}"]);
}

#[test]
fn placeholder_is_filled_like_replace() {
    assert_eq!(replace_placeholder("btc-updown-15m-{}", "1767301200"), "btc-updown-15m-1767301200");
    assert_eq!(replace_placeholder("{}-{}", "7"), "7-7");
    assert_eq!(replace_placeholder("no-holes", "7"), "no-holes");
    assert_eq!(replace_placeholder("{", "7"), "{");
}

#[test]
fn integers_render_in_decimal() {
    assert_eq!(int_text(0), "0");
    assert_eq!(int_text(1736073000), "1736073000");
    assert_eq!(int_text(-900), "-900");
    assert_eq!(int_text(i128::MIN), i128::MIN.to_string());
}

#[test]
fn integers_parse_like_std() {
    assert_eq!(parse_i64("1767603600"), Some(1767603600));
    assert_eq!(parse_i64("+12"), Some(12));
    assert_eq!(parse_i64("-12"), Some(-12));
    assert_eq!(parse_i64("9223372036854775807"), Some(i64::MAX));
    assert_eq!(parse_i64("-9223372036854775808"), Some(i64::MIN));
    assert_eq!(parse_i64("9223372036854775808"), None);
    assert_eq!(parse_i64(""), None);
    assert_eq!(parse_i64("+"), None);
    assert_eq!(parse_i64("12a"), None);
    assert_eq!(parse_i64("99999999999999999999999"), None);
}

#[test]
fn last_segment_after_dash() {
    assert_eq!(last_dash_segment("btc-updown-15m-1767603600"), "1767603600");
    assert_eq!(last_dash_segment("plain"), "plain");
    assert_eq!(last_dash_segment("ends-"), "");
}

#[test]
fn substring_search() {
    assert!(contains_text("HTTP 400 Bad Request", "400"));
    assert!(contains_text("abc", ""));
    assert!(!contains_text("ab", "abc"));
    assert!(!contains_text("Internal Server Error", "invalid"));
    assert!(same_text("abc", "abc"));
    assert!(!same_text("abc", "abd"));
}

#[test]
fn base_urls_lose_trailing_slashes() {
    assert_eq!(trim_trailing_slashes("https://example.com/"), "https://example.com");
    assert_eq!(trim_trailing_slashes("https://example.com//"), "https://example.com");
    assert_eq!(trim_trailing_slashes("https://example.com"), "https://example.com");
}

#[test]
fn time_texts() {
    assert_eq!(rfc3339_text(1736073000), "2025-01-05T10:30:00+00:00");
    let mut m = GammaMarket {
        id: "m".to_string(),
        slug: "s".to_string(),
        question: "q".to_string(),
        condition_id: "c".to_string(),
        clob_token_ids: vec![],
        outcomes: vec![],
        outcome_prices: vec![],
        start_date: Some("2025-01-05T10:30:00Z".to_string()),
        end_date: Some("2025-01-05T11:30:00+01:00".to_string()),
        active: true,
        closed: false,
        archived: false,
        enable_order_book: true,
        resolution_source: None,
        description: None,
    };
    assert_eq!(m.start_timestamp(), Some(1736073000));
    assert_eq!(m.end_timestamp(), Some(1736073000));
    m.end_date = Some("not a date".to_string());
    assert_eq!(m.end_timestamp(), None);
    m.end_date = None;
    assert_eq!(m.end_timestamp(), None);
    assert_eq!(clock_text(1736073000), "10:30:00");
    assert_eq!(clock_text(-1), "23:59:59");
}

#[test]
fn utc_range_ends_are_held() {
    assert!(rfc3339_text(UTC_MIN_SECS).starts_with("-262143-01-01T00:00:00"));
    assert!(rfc3339_text(UTC_MAX_SECS).starts_with("+262142-12-31T23:59:59"));
}
