use neural_fs::anonymizer::{AnonymizationConfig, DataAnonymizer, UserEnvironment};
use neural_fs::embeddings::{ModelId, ModelType};
use neural_fs::inference::{CostTracker, RateLimiter, UsageRecord};
use neural_fs::inference_cache::InferenceCache;
use neural_fs::vram::{ModelInfo, VRAMManager};

fn text_model(name: &str) -> ModelInfo {
    ModelInfo {
        id: ModelId::from_type(ModelType::TextEmbedding),
        name: name.to_string(),
        vram_bytes: 256 * 1024 * 1024,
        last_used: 0,
        use_count: 0,
    }
}

#[test]
fn test_vram_manager_creation() {
    let manager = VRAMManager::new(4096);
    let status = manager.get_status();
    assert_eq!(status.used_bytes, 0);
    assert_eq!(status.max_bytes, 4096 * 1024 * 1024);
    assert_eq!(status.loaded_models, 0);
    assert_eq!(status.used_bytes as f32 / status.max_bytes as f32, 0.0);
}

#[test]
fn test_register_model() {
    let mut manager = VRAMManager::new(4096);
    manager.register_model(text_model("test"));
    let status = manager.get_status();
    assert_eq!(status.used_bytes, 256 * 1024 * 1024);
    assert_eq!(status.loaded_models, 1);
}

#[test]
fn test_unregister_model() {
    let mut manager = VRAMManager::new(4096);
    let model_id = ModelId::from_type(ModelType::TextEmbedding);
    manager.register_model(text_model("test"));
    manager.unregister_model(model_id);
    let status = manager.get_status();
    assert_eq!(status.used_bytes, 0);
    assert_eq!(status.loaded_models, 0);
}

#[test]
fn test_has_available_vram() {
    let manager = VRAMManager::new(1024);
    assert!(manager.has_available_vram(512 * 1024 * 1024));
    assert!(manager.has_available_vram(1024 * 1024 * 1024));
    assert!(!manager.has_available_vram(2048 * 1024 * 1024));
}

#[test]
fn test_evict_all_models() {
    let mut manager = VRAMManager::new(4096);
    for i in 0..3 {
        manager.register_model(ModelInfo {
            id: ModelId(i),
            name: format!("model_{}", i),
            vram_bytes: 256 * 1024 * 1024,
            last_used: 0,
            use_count: 0,
        });
    }
    assert_eq!(manager.get_status().loaded_models, 3);
    manager.evict_all_models();
    let status = manager.get_status();
    assert_eq!(status.used_bytes, 0);
    assert_eq!(status.loaded_models, 0);
}

#[test]
fn test_record_model_use() {
    let mut manager = VRAMManager::new(4096);
    let model_id = ModelId::from_type(ModelType::TextEmbedding);
    manager.register_model(text_model("test"));
    manager.record_model_use(model_id, 5);
    let models = manager.get_loaded_models();
    assert_eq!(models.len(), 1);
    assert_eq!(models[0].use_count, 1);
}

#[test]
fn test_vram_manager_basic() {
    let manager = VRAMManager::new(4096);
    let status = manager.get_status();
    assert_eq!(status.used_bytes, 0);
    assert_eq!(status.max_bytes, 4096 * 1024 * 1024);
    assert_eq!(status.loaded_models, 0);
}

#[test]
fn test_register_unregister_model() {
    let mut manager = VRAMManager::new(4096);
    let model_info = text_model("test_model");
    let id = model_info.id;
    manager.register_model(model_info);
    let status = manager.get_status();
    assert_eq!(status.used_bytes, 256 * 1024 * 1024);
    assert_eq!(status.loaded_models, 1);
    manager.unregister_model(id);
    let status = manager.get_status();
    assert_eq!(status.used_bytes, 0);
    assert_eq!(status.loaded_models, 0);
}

#[test]
fn test_vram_limit_check() {
    let manager = VRAMManager::new(1024);
    assert!(manager.has_available_vram(512 * 1024 * 1024));
    assert!(manager.has_available_vram(1024 * 1024 * 1024));
    assert!(!manager.has_available_vram(2048 * 1024 * 1024));
}

#[test]
fn test_cache_miss() {
    let mut cache: InferenceCache<u32> = InferenceCache::new(10);
    assert!(!cache.lookup_at("nonexistent query", 0));
    let stats = cache.stats();
    assert_eq!(stats.misses, 1);
    assert_eq!(stats.hits, 0);
}

#[test]
fn test_cache_eviction() {
    let mut cache: InferenceCache<u32> = InferenceCache::new(2);
    cache.put_at("query1", 0, 1);
    cache.put_at("query2", 0, 2);
    cache.put_at("query3", 0, 3);
    let stats = cache.stats();
    assert_eq!(stats.entry_count, 2);
    assert_eq!(stats.evictions, 1);
}

#[test]
fn hybrid_test_cache_clear() {
    let mut cache: InferenceCache<u32> = InferenceCache::new(10);
    cache.put_at("query1", 0, 1);
    cache.put_at("query2", 0, 2);
    cache.clear();
    assert_eq!(cache.stats().entry_count, 0);
}

#[test]
fn test_cache_key_normalization() {
    let mut cache: InferenceCache<u32> = InferenceCache::new(10);
    cache.put_at("Test Query", 0, 1);
    assert!(cache.lookup_at("test query", 2));
    assert!(cache.lookup_at("  test query  ", 3));
}

#[test]
fn test_rate_limiter_acquire() {
    let mut limiter = RateLimiter::new_at(2, 0);
    assert!(limiter.acquire_at(1).is_ok());
    assert!(limiter.acquire_at(2).is_ok());
    assert!(limiter.acquire_at(3).is_err());
}

#[test]
fn test_rate_limiter_respects_limit() {
    let mut limiter = RateLimiter::new_at(5, 0);
    for t in 0..5 {
        assert!(limiter.acquire_at(t).is_ok());
    }
    assert!(limiter.acquire_at(5).is_err());
}

#[test]
fn test_cost_tracker_record() {
    let mut tracker = CostTracker::new(10_000_000, (2024, 1));
    // 1000 tokens of GPT-4o-mini at 0.375 USD per million tokens.
    tracker.record(UsageRecord { timestamp: 0, tokens: 1000, cost_micros: 375, model: "gpt-4o-mini".to_string() });
    assert!(tracker.current_cost_micros() as f64 / 1_000_000.0 > 0.0);
    let stats = tracker.get_stats();
    assert_eq!(stats.total_requests, 1);
    assert_eq!(stats.total_tokens, 1000);
}

#[test]
fn test_cost_tracker_limit_enforcement() {
    let mut tracker = CostTracker::new(1_000, (2024, 1));
    // A million tokens of GPT-4o-mini cost 0.375 USD.
    tracker.record(UsageRecord { timestamp: 0, tokens: 1_000_000, cost_micros: 375_000, model: "gpt-4o-mini".to_string() });
    assert!(tracker.is_limit_reached());
}

#[test]
fn test_anonymizer_disabled_features() {
    let config = AnonymizationConfig {
        anonymize_usernames: false,
        anonymize_paths: false,
        anonymize_emails: false,
        anonymize_ips: false,
        custom_patterns: Vec::new(),
        preserve_words: Vec::new(),
    };
    let env = UserEnvironment { username: Some("someone".to_string()), home: Some("/home/someone".to_string()) };
    let anonymizer = DataAnonymizer::with_config(config, env).expect("built-in patterns compile");
    let input = "test@example.com 192.168.1.1";
    let output = anonymizer.anonymize(input);
    assert_eq!(input, output);
}
