use neural_fs::cloud::{is_cloud_available, is_retryable_error, should_use_cloud, CloudBridge, CloudConfig, RequestRetry, RetryStep};
use neural_fs::inference::InferenceOptions;
use neural_fs::inference::{CloudModelType, InferenceError, UsageRecord};

#[test]
fn test_cloud_config_default() {
    let config = CloudConfig::default();
    assert!(!config.enabled);
    assert_eq!(config.monthly_cost_limit_micros as f64 / 1_000_000.0, 10.0);
    assert_eq!(config.requests_per_minute, 60);
}

#[test]
fn test_cloud_config_openai() {
    let config = CloudConfig::openai("test-key".to_string());
    assert!(config.enabled);
    assert!(config.endpoint.contains("openai"));
    assert!(matches!(config.model, CloudModelType::GPT4oMini));
}

#[test]
fn test_cloud_config_anthropic() {
    let config = CloudConfig::anthropic("test-key".to_string());
    assert!(config.enabled);
    assert!(config.endpoint.contains("anthropic"));
    assert!(matches!(config.model, CloudModelType::ClaudeHaiku));
}

#[test]
fn cloud_config_presets_keep_key_and_limits() {
    let config = CloudConfig::openai("k1".to_string());
    assert_eq!(config.api_key, "k1");
    assert_eq!(config.endpoint, "https://api.openai.com/v1/chat/completions");
    assert_eq!(config.timeout_ms, 5000);
    assert_eq!(config.max_retries, 3);
    let config = CloudConfig::anthropic("k2".to_string());
    assert_eq!(config.api_key, "k2");
    assert_eq!(config.endpoint, "https://api.anthropic.com/v1/messages");
    assert_eq!(CloudConfig::default().api_key, "");
}

#[test]
fn bridge_refuses_when_disabled() {
    let mut bridge = CloudBridge::new_at(CloudConfig::default(), 0, (2024, 5));
    assert!(!bridge.is_available());
    match bridge.begin_infer_at(10, (2024, 5)) {
        Err(InferenceError::CloudUnavailable { reason }) => assert_eq!(reason, "Cloud inference is disabled"),
        other => panic!("unexpected {:?}", other),
    }
    assert_eq!(bridge.rate_limiter().available_tokens(), 60);
}

#[test]
fn bridge_refuses_over_the_cost_limit() {
    let mut config = CloudConfig::openai("key".to_string());
    config.monthly_cost_limit_micros = 500;
    let mut bridge = CloudBridge::new_at(config, 0, (2024, 5));
    assert!(bridge.is_available());
    bridge.record_usage(UsageRecord { timestamp: 1, tokens: 1000, cost_micros: 500, model: "gpt-4o-mini".to_string() });
    assert!(!bridge.is_available());
    match bridge.begin_infer_at(10, (2024, 5)) {
        Err(InferenceError::CostLimitReached { current, limit }) => {
            assert_eq!(current, 500);
            assert_eq!(limit, 500);
        }
        other => panic!("unexpected {:?}", other),
    }
}

#[test]
fn bridge_spends_the_request_budget() {
    let mut config = CloudConfig::openai("key".to_string());
    config.requests_per_minute = 2;
    let mut bridge = CloudBridge::new_at(config, 0, (2024, 5));
    assert!(bridge.begin_infer_at(1, (2024, 5)).is_ok());
    assert!(bridge.begin_infer_at(2, (2024, 5)).is_ok());
    match bridge.begin_infer_at(3, (2024, 5)) {
        Err(InferenceError::RateLimitExceeded { retry_after_secs }) => assert_eq!(retry_after_secs, 60),
        other => panic!("unexpected {:?}", other),
    }
    // A minute later the budget is back.
    assert!(bridge.begin_infer_at(60_001, (2024, 5)).is_ok());
    assert_eq!(bridge.rate_limiter().available_tokens(), 1);
}

#[test]
fn bridge_starts_a_new_month() {
    let mut bridge = CloudBridge::new_at(CloudConfig::openai("key".to_string()), 0, (2024, 5));
    bridge.record_usage(UsageRecord { timestamp: 1, tokens: 10, cost_micros: 7, model: "m".to_string() });
    assert_eq!(bridge.cost_tracker().current_cost_micros(), 7);
    assert!(bridge.begin_infer_at(5, (2024, 5)).is_ok());
    assert_eq!(bridge.cost_tracker().current_cost_micros(), 7);
    assert!(bridge.begin_infer_at(6, (2024, 6)).is_ok());
    assert_eq!(bridge.cost_tracker().current_cost_micros(), 0);
    assert_eq!(bridge.cost_tracker().get_stats().total_requests, 0);
}

#[test]
fn retryable_errors() {
    assert!(is_retryable_error(&InferenceError::NetworkError { reason: "x".to_string() }));
    assert!(is_retryable_error(&InferenceError::Timeout { timeout_ms: 5 }));
    assert!(is_retryable_error(&InferenceError::RateLimitExceeded { retry_after_secs: 60 }));
    assert!(!is_retryable_error(&InferenceError::CloudApiError { reason: "x".to_string() }));
    assert!(!is_retryable_error(&InferenceError::SerializationError { reason: "x".to_string() }));
}

#[test]
fn retry_backs_off_exponentially_then_gives_up() {
    let mut retry = RequestRetry::new(3);
    let mut waits = Vec::new();
    while retry.should_attempt() {
        match retry.on_failure(InferenceError::Timeout { timeout_ms: waits.len() as u64 }) {
            RetryStep::Wait { delay_ms } => waits.push(delay_ms),
            RetryStep::Fail(e) => panic!("unexpected {:?}", e),
        }
    }
    assert_eq!(waits, vec![100, 200, 400]);
    match retry.give_up() {
        InferenceError::Timeout { timeout_ms } => assert_eq!(timeout_ms, 2),
        other => panic!("unexpected {:?}", other),
    }
}

#[test]
fn retry_stops_at_a_lasting_error() {
    let mut retry = RequestRetry::new(3);
    match retry.on_failure(InferenceError::CloudApiError { reason: "HTTP 500".to_string() }) {
        RetryStep::Fail(InferenceError::CloudApiError { reason }) => assert_eq!(reason, "HTTP 500"),
        other => panic!("unexpected {:?}", other),
    }
    assert!(retry.should_attempt());
}

#[test]
fn retry_with_no_attempt_allowed() {
    let retry = RequestRetry::new(0);
    assert!(!retry.should_attempt());
    match retry.give_up() {
        InferenceError::CloudApiError { reason } => assert_eq!(reason, "Max retries exceeded"),
        other => panic!("unexpected {:?}", other),
    }
}

#[test]
fn cloud_use_decision() {
    let options = InferenceOptions::default();
    assert!(!is_cloud_available(true, &None));
    let on = Some(CloudBridge::new_at(CloudConfig::openai("k".to_string()), 0, (2024, 1)));
    assert!(is_cloud_available(true, &on));
    assert!(!is_cloud_available(false, &on));
    assert!(should_use_cloud(&options, true, &on));
    let mut no_cloud = InferenceOptions::default();
    no_cloud.enable_cloud = false;
    assert!(!should_use_cloud(&no_cloud, true, &on));
    let off = Some(CloudBridge::new_at(CloudConfig::default(), 0, (2024, 1)));
    assert!(!should_use_cloud(&options, true, &off));
}
