use neural_fs::inference::{CostTracker, UsageRecord};
use neural_fs::inference_cache::{InferenceCache, CACHE_TTL_MS};

#[test]
fn test_cache_keys_and_expiry() {
    let mut cache: InferenceCache<u32> = InferenceCache::new(10);
    assert_eq!(InferenceCache::<u32>::normalize_key("  Find My PDF \n"), "find my pdf");
    assert!(!cache.lookup_at("report", 0));
    cache.put_at("  Report ", 7, 1_000);
    assert!(cache.lookup_at("REPORT", 1_000 + CACHE_TTL_MS - 1));
    assert_eq!(cache.peek("report"), Some(&7));
    // five minutes after it was made the answer is gone
    assert!(!cache.lookup_at("report", 1_000 + CACHE_TTL_MS));
    assert_eq!(cache.peek("report"), None);
    let stats = cache.stats();
    assert_eq!((stats.hits, stats.misses, stats.evictions, stats.entry_count), (1, 2, 0, 0));
}

#[test]
fn test_cache_evicts_least_recent() {
    let mut cache: InferenceCache<&str> = InferenceCache::new(2);
    cache.put_at("a", "A", 10);
    cache.put_at("b", "B", 20);
    assert!(cache.lookup_at("a", 30));
    cache.put_at("c", "C", 40);
    assert_eq!(cache.peek("b"), None);
    assert_eq!(cache.peek("a"), Some(&"A"));
    assert_eq!(cache.peek("c"), Some(&"C"));
    assert_eq!(cache.stats().evictions, 1);
    // replacing an answer evicts nothing
    cache.put_at("A", "A2", 50);
    assert_eq!(cache.peek("a"), Some(&"A2"));
    assert_eq!(cache.stats().entry_count, 2);
    cache.clear();
    assert_eq!(cache.stats().entry_count, 0);
    assert_eq!(cache.stats().evictions, 1);
}

#[test]
fn test_cost_tracker_creation() {
    let tracker = CostTracker::new((10.0f64 * 1_000_000.0) as u64, (2024, 1));
    assert!(!tracker.is_limit_reached());
    assert_eq!(tracker.current_cost_micros() as f64 / 1_000_000.0, 0.0);
    assert_eq!(tracker.monthly_limit_micros() as f64 / 1_000_000.0, 10.0);
}

#[test]
fn test_cost_tracker_records() {
    let mut tracker = CostTracker::new(1_000, (2024, 1));
    let record = |tokens: u32, cost: u64| UsageRecord { timestamp: 0, tokens, cost_micros: cost, model: "m".to_string() };
    tracker.record(record(1000, 375));
    let stats = tracker.get_stats();
    assert_eq!((stats.total_requests, stats.total_tokens, stats.current_cost_micros), (1, 1000, 375));
    tracker.record(record(10, 700));
    assert!(tracker.is_limit_reached());
    for _ in 0..999 {
        tracker.record(record(1, 0));
    }
    // 1001 records: the oldest hundred went
    let stats = tracker.get_stats();
    assert_eq!(stats.total_requests, 901);
    assert_eq!(stats.total_tokens, 901);
    tracker.reset_if_new_month((2024, 1));
    assert_eq!(tracker.get_stats().total_requests, 901);
    tracker.reset_if_new_month((2024, 2));
    assert_eq!(tracker.get_stats().total_requests, 0);
    assert_eq!(tracker.current_cost_micros(), 0);
}
