use polymarket_adapter::auth::ApiCredentials;
use polymarket_adapter::rsclob::RsClobClient;
use polymarket_adapter::types::{MessageStats, ResolveResult, SelectionReason};
use polymarket_adapter::ws::{
    next_backoff_secs, MarketWsClient, UserWsClient, INITIAL_BACKOFF_SECS, MAX_BACKOFF_SECS,
};
use polymarket_adapter::CLOB_WSS_ENDPOINT;

#[test]
fn test_credentials_debug_redacts_secrets() {
    let creds = ApiCredentials {
        api_key: "test_api_key_12345".to_string(),
        secret: "super_secret".to_string(),
        passphrase: "my_passphrase".to_string(),
    };

    let debug_str = creds.redacted();
    assert!(!debug_str.contains("super_secret"));
    assert!(!debug_str.contains("my_passphrase"));
    assert!(debug_str.contains("test_api"));
}

#[test]
fn test_credentials_validity() {
    let valid = ApiCredentials {
        api_key: "key".to_string(),
        secret: "secret".to_string(),
        passphrase: "pass".to_string(),
    };
    assert!(valid.is_valid());

    let invalid = ApiCredentials {
        api_key: "".to_string(),
        secret: "secret".to_string(),
        passphrase: "pass".to_string(),
    };
    assert!(!invalid.is_valid());
}

#[test]
fn redacted_form_is_exact() {
    let short = ApiCredentials {
        api_key: "abc".to_string(),
        secret: "s".to_string(),
        passphrase: "p".to_string(),
    };
    assert_eq!(
        short.redacted(),
        "ApiCredentials { api_key: \"abc...\", secret: \"[REDACTED]\", passphrase: \"[REDACTED]\" }"
    );
    let auth = short.to_ws_auth();
    assert_eq!(auth.api_key, "abc");
    assert_eq!(auth.secret, "s");
    assert_eq!(auth.passphrase, "p");
}

#[test]
fn ws_market_test_client_creation() {
    let client = MarketWsClient::new(vec!["test".to_string()]);
    assert_eq!(client.asset_ids(), &vec!["test"]);
    assert_eq!(client.endpoint(), CLOB_WSS_ENDPOINT);
}

#[test]
fn market_client_settings() {
    let mut client = MarketWsClient::with_endpoint("ws://localhost:1", vec!["a".to_string()]);
    assert_eq!(client.endpoint(), "ws://localhost:1");
    assert!(client.enable_features());
    client.set_enable_features(false);
    assert!(!client.enable_features());
    let creds = ApiCredentials {
        api_key: "k".to_string(),
        secret: "s".to_string(),
        passphrase: "p".to_string(),
    };
    let user = UserWsClient::new(creds, vec!["m1".to_string()]);
    assert_eq!(user.endpoint(), CLOB_WSS_ENDPOINT);
    assert_eq!(user.market_ids(), &vec!["m1".to_string()]);
    assert_eq!(user.credentials().api_key, "k");
}

#[test]
fn client_test_client_creation() {
    let client = RsClobClient::new();
    let _ = client;
}

#[test]
fn test_availability_check() {
    let available = RsClobClient::is_available();
    assert!(!available);
}

#[test]
fn message_stats_counts() {
    let mut stats = MessageStats::new();
    stats.record_event(false, Some("book"));
    stats.record_event(false, Some("book"));
    stats.record_event(true, Some("some_future_type"));
    stats.record_event(true, None);
    stats.record_parse_error();
    assert_eq!(stats.total_messages, 5);
    assert_eq!(stats.parsed_ok, 2);
    assert_eq!(stats.unknown_type_count, 2);
    assert_eq!(stats.parse_error_count, 1);
    assert_eq!(stats.count_of("book"), 2);
    assert_eq!(stats.count_of("some_future_type"), 1);
    assert_eq!(stats.count_of("_no_type"), 1);
    assert_eq!(stats.count_of("trade"), 0);
    assert_eq!(stats.last_message_type.as_deref(), Some("_no_type"));
}

#[test]
fn resolve_result_accessors() {
    let r = ResolveResult::Freeze {
        reason: SelectionReason::GammaApiError,
        message: "down".to_string(),
        candidates: vec![],
    };
    assert!(!r.is_ok());
    assert!(r.market().is_none());
    assert_eq!(SelectionReason::GammaApiError.name(), "GammaApiError");
}

#[test]
fn reconnect_backoff_doubles_up_to_cap() {
    let mut b = INITIAL_BACKOFF_SECS;
    let mut seen = vec![b];
    for _ in 0..6 {
        b = next_backoff_secs(b);
        seen.push(b);
    }
    assert_eq!(seen, vec![1, 2, 4, 8, 16, 30, 30]);
    assert_eq!(next_backoff_secs(u64::MAX), MAX_BACKOFF_SECS);
}
