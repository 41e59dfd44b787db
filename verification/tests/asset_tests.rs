use neural_fs::asset::{
    serve_file, AssetError, AssetServerConfig, AssetServerState, CachedPreview, CachedThumbnail, PreviewType,
    SecureAssetStreamServer, TokenParams, DEFAULT_ASSET_SERVER_PORT,
};

const SAMPLE_ID: u128 = 0x550e8400_e29b_41d4_a716_446655440000;

#[test]
fn test_token_params_deserialization() {
    let params = TokenParams { token: Some("abc123".to_string()) };
    assert_eq!(params.token, Some("abc123".to_string()));

    let params = TokenParams { token: None };
    assert!(params.token.is_none());
}

#[test]
fn test_state_token_validation() {
    let config = AssetServerConfig::with_port(19283);
    let state = AssetServerState::new(config);
    assert!(state.validate_token(&state.session_token));
    assert!(!state.validate_token("invalid_token"));
    assert!(!state.validate_token(""));
}

#[test]
fn test_state_origin_validation() {
    let config = AssetServerConfig::with_port(19283);
    let state = AssetServerState::new(config);
    assert!(state.is_origin_allowed("http://localhost:19283"));
    assert!(state.is_origin_allowed("http://127.0.0.1:19283"));
    assert!(state.is_origin_allowed("tauri://localhost"));
    assert!(!state.is_origin_allowed("http://evil.com"));
    assert!(!state.is_origin_allowed("http://localhost:8080"));
}

#[test]
fn test_state_referer_validation() {
    let config = AssetServerConfig::with_port(19283);
    let state = AssetServerState::new(config);
    assert!(state.is_referer_allowed("http://localhost:19283/page"));
    assert!(state.is_referer_allowed("http://127.0.0.1:19283/some/path"));
    assert!(state.is_referer_allowed("tauri://localhost/index.html"));
    assert!(!state.is_referer_allowed("http://evil.com/page"));
    assert!(!state.is_referer_allowed("http://localhost:8080/page"));
}

#[test]
fn test_thumbnail_caching() {
    let config = AssetServerConfig::with_port(19283);
    let mut state = AssetServerState::new(config);
    let uuid = SAMPLE_ID;
    assert!(state.get_thumbnail(uuid).is_none());
    let thumbnail = CachedThumbnail::new(vec![1, 2, 3, 4], "image/png".to_string(), uuid);
    state.cache_thumbnail(uuid, thumbnail);
    let cached = state.get_thumbnail(uuid).unwrap();
    assert_eq!(&cached.data, &vec![1, 2, 3, 4]);
    assert_eq!(cached.content_type, "image/png");
    state.invalidate_thumbnail(uuid);
    assert!(state.get_thumbnail(uuid).is_none());
}

#[test]
fn test_server_creation() {
    let server = SecureAssetStreamServer::new(19283);
    assert_eq!(server.port(), 19283);
    assert!(!server.get_session_token().is_empty());
    assert_eq!(server.get_session_token().len(), 64);
}

#[test]
fn test_server_with_config() {
    let config = AssetServerConfig {
        port: 8080,
        additional_origins: vec!["http://custom.origin".to_string()],
        max_cache_size: 50 * 1024 * 1024,
        cache_ttl_secs: 1800,
    };
    let server = SecureAssetStreamServer::with_config(config);
    assert_eq!(server.port(), 8080);
}

#[test]
fn test_session_token_uniqueness() {
    let server1 = SecureAssetStreamServer::new(19283);
    let server2 = SecureAssetStreamServer::new(19284);
    assert_ne!(server1.get_session_token(), server2.get_session_token());
}

#[test]
fn test_url_generation() {
    let server = SecureAssetStreamServer::new(19283);
    let uuid = SAMPLE_ID;
    let thumbnail_url = server.get_thumbnail_url(uuid);
    assert!(thumbnail_url.contains("thumbnail"));
    assert!(thumbnail_url.contains("550e8400-e29b-41d4-a716-446655440000"));
    assert!(thumbnail_url.contains("token="));
    let preview_url = server.get_preview_url(uuid);
    assert!(preview_url.contains("preview"));
    let file_url = server.get_file_url(uuid);
    assert!(file_url.contains("file"));
}

#[test]
fn test_url_exact_form() {
    let server = SecureAssetStreamServer::new(19283);
    let token = server.get_session_token().to_string();
    assert_eq!(
        server.get_thumbnail_url(SAMPLE_ID),
        format!("http://127.0.0.1:19283/thumbnail/550e8400-e29b-41d4-a716-446655440000?token={}", token)
    );
    assert_eq!(
        server.get_file_url(SAMPLE_ID),
        format!("http://127.0.0.1:19283/file/550e8400-e29b-41d4-a716-446655440000?token={}", token)
    );
}

#[test]
fn test_cache_stats() {
    let mut server = SecureAssetStreamServer::new(19283);
    let stats = server.cache_stats();
    assert_eq!(stats.thumbnail_count, 0);
    assert_eq!(stats.preview_count, 0);
    assert_eq!(stats.total_size_bytes, 0);

    let uuid1: u128 = 1;
    let uuid2: u128 = 2;
    server.cache_thumbnail(uuid1, CachedThumbnail::new(vec![0u8; 1000], "image/png".to_string(), uuid1));
    server.cache_thumbnail(uuid2, CachedThumbnail::new(vec![0u8; 2000], "image/jpeg".to_string(), uuid2));
    let stats = server.cache_stats();
    assert_eq!(stats.thumbnail_count, 2);
    assert_eq!(stats.thumbnail_size_bytes, 3000);

    server.cache_preview(uuid1, CachedPreview::new(vec![0u8; 500], "text/plain".to_string(), uuid1, PreviewType::Text));
    let stats = server.cache_stats();
    assert_eq!(stats.preview_count, 1);
    assert_eq!(stats.preview_size_bytes, 500);
    assert_eq!(stats.total_size_bytes, 3500);
}

#[test]
fn tests_test_cache_clear() {
    let mut server = SecureAssetStreamServer::new(19283);
    let uuid = SAMPLE_ID;
    server.cache_thumbnail(uuid, CachedThumbnail::new(vec![1, 2, 3], "image/png".to_string(), uuid));
    assert!(server.get_thumbnail(uuid).is_some());
    server.clear_caches();
    assert!(server.get_thumbnail(uuid).is_none());
    assert_eq!(server.cache_stats().total_size_bytes, 0);
}

#[test]
fn test_allowed_origins_default() {
    let config = AssetServerConfig::with_port(19283);
    let origins = config.allowed_origins();
    assert!(origins.contains(&"http://localhost:19283".to_string()));
    assert!(origins.contains(&"http://127.0.0.1:19283".to_string()));
    assert!(origins.contains(&"tauri://localhost".to_string()));
    assert!(origins.contains(&"https://tauri.localhost".to_string()));
}

#[test]
fn test_allowed_origins_custom() {
    let config = AssetServerConfig {
        port: 19283,
        additional_origins: vec!["http://custom.origin:3000".to_string(), "https://another.origin".to_string()],
        ..Default::default()
    };
    let origins = config.allowed_origins();
    assert!(origins.contains(&"http://custom.origin:3000".to_string()));
    assert!(origins.contains(&"https://another.origin".to_string()));
}

#[test]
fn test_cached_thumbnail_size() {
    let thumbnail = CachedThumbnail::new(vec![0u8; 1024], "image/png".to_string(), SAMPLE_ID);
    assert_eq!(thumbnail.size(), 1024);
}

#[test]
fn test_cached_preview_types() {
    let text_preview = CachedPreview::new(b"Hello, world!".to_vec(), "text/plain".to_string(), SAMPLE_ID, PreviewType::Text);
    assert_eq!(text_preview.preview_type, PreviewType::Text);
    let image_preview = CachedPreview::new(vec![0u8; 100], "image/png".to_string(), SAMPLE_ID, PreviewType::Image);
    assert_eq!(image_preview.preview_type, PreviewType::Image);
}

#[test]
fn test_check_request_errors() {
    let state = AssetServerState::new(AssetServerConfig::with_port(DEFAULT_ASSET_SERVER_PORT));
    let token = state.session_token.clone();
    assert!(state.check_request("/health", None, None, None, None).is_ok());
    assert!(matches!(state.check_request("/file/x", None, None, None, None), Err(AssetError::InvalidToken)));
    assert!(state.check_request("/file/x", Some(&token), None, None, None).is_ok());
    assert!(state.check_request("/file/x", None, Some(&token), Some("tauri://localhost"), None).is_ok());
    match state.check_request("/file/x", Some(&token), None, Some("http://evil.com"), None) {
        Err(e) => assert!(e.is_forbidden()),
        Ok(()) => panic!("origin accepted"),
    }
    match state.check_request("/file/x", Some(&token), None, None, Some("http://evil.com/page")) {
        Err(e) => assert!(e.is_forbidden()),
        Ok(()) => panic!("referer accepted"),
    }
}

#[test]
fn test_serve_answers() {
    let mut state = AssetServerState::new(AssetServerConfig::with_port(19283));
    let missing = state.serve_thumbnail(SAMPLE_ID);
    assert_eq!(missing.status, 404);
    assert_eq!(missing.body, b"Thumbnail not found".to_vec());
    assert_eq!(missing.headers[1], ("Cache-Control".to_string(), "no-cache".to_string()));
    state.cache_thumbnail(SAMPLE_ID, CachedThumbnail::new(vec![9, 8], "image/png".to_string(), SAMPLE_ID));
    let found = state.serve_thumbnail(SAMPLE_ID);
    assert_eq!(found.status, 200);
    assert_eq!(found.body, vec![9, 8]);
    assert_eq!(found.headers[0], ("Content-Type".to_string(), "image/png".to_string()));
    assert_eq!(state.serve_preview(SAMPLE_ID).body, b"Preview not found".to_vec());
    let file = serve_file(SAMPLE_ID);
    assert_eq!(file.status, 501);
    assert_eq!(file.body, b"File serving not yet implemented for UUID: 550e8400-e29b-41d4-a716-446655440000".to_vec());
}

#[test]
fn server_preview_cache_and_invalidation() {
    let mut server = SecureAssetStreamServer::new(19400);
    let uuid: u128 = 0x0190_0000_0000_7000_8000_0000_0000_00aa;
    server.cache_preview(uuid, CachedPreview::new(vec![7u8; 40], "text/plain".to_string(), uuid, PreviewType::Text));
    server.cache_thumbnail(uuid, CachedThumbnail::new(vec![1u8; 10], "image/png".to_string(), uuid));
    assert_eq!(server.get_preview(uuid).map(|p| p.data.len()), Some(40));
    let stats = server.cache_stats();
    assert_eq!((stats.thumbnail_count, stats.preview_count, stats.total_size_bytes), (1, 1, 50));
    server.invalidate_preview(uuid);
    assert!(server.get_preview(uuid).is_none());
    assert!(server.get_thumbnail(uuid).is_some());
    server.invalidate_thumbnail(uuid);
    assert!(server.get_thumbnail(uuid).is_none());
    assert_eq!(server.cache_stats().total_size_bytes, 0);
}
