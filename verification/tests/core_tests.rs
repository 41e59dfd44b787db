use neural_fs::errors::{
    CloudError, DatabaseError, ErrorRecovery, FileSystemError, IndexError, NeuralFSError, RecoveryAction,
    SearchError,
};
use neural_fs::launcher::Platform;
use neural_fs::runtime::RuntimeDependencies;
use neural_fs::utils::{format_file_size, get_extension, hash_content, truncate_string};

#[test]
fn test_index_error_retryable() {
    let err = IndexError::FileLocked { path: "/test/file.txt".to_string() };
    assert!(err.is_retryable());
    assert!(err.retry_delay_ms().is_some());
    assert_eq!(err.recovery_action(), RecoveryAction::Retry);

    let err = IndexError::FileNotFound { path: "/test/file.txt".to_string() };
    assert!(!err.is_retryable());
    assert!(err.retry_delay_ms().is_none());
    assert_eq!(err.recovery_action(), RecoveryAction::Skip);

    let err = IndexError::UnsupportedFileType { extension: "xyz".to_string() };
    assert!(!err.is_retryable());
    assert_eq!(err.recovery_action(), RecoveryAction::Skip);

    let err = IndexError::EmbeddingFailed { reason: "VRAM exhausted".to_string() };
    assert!(err.is_retryable());
    assert_eq!(err.recovery_action(), RecoveryAction::Retry);
}

#[test]
fn test_search_error_retryable() {
    let err = SearchError::Timeout { timeout_ms: 5000 };
    assert!(err.is_retryable());
    assert_eq!(err.recovery_action(), RecoveryAction::Fallback);

    let err = SearchError::QueryParseFailed { reason: "Invalid syntax".to_string() };
    assert!(!err.is_retryable());
    assert_eq!(err.recovery_action(), RecoveryAction::NotifyUser);

    let err = SearchError::VectorSearchFailed { reason: "Connection lost".to_string() };
    assert!(err.is_retryable());
    assert_eq!(err.recovery_action(), RecoveryAction::Retry);
}

#[test]
fn test_cloud_error_retryable() {
    let err = CloudError::RateLimitExceeded;
    assert!(!err.is_retryable());
    assert_eq!(err.retry_delay_ms(), Some(60000));
    assert_eq!(err.recovery_action(), RecoveryAction::Retry);

    let err = CloudError::CostLimitReached { current: 10.5f64.to_bits(), limit: 10.0f64.to_bits() };
    assert!(!err.is_retryable());
    assert_eq!(err.recovery_action(), RecoveryAction::Fallback);

    let err = CloudError::NetworkUnavailable;
    assert!(err.is_retryable());
    assert_eq!(err.recovery_action(), RecoveryAction::Fallback);

    let err = CloudError::AuthenticationFailed;
    assert!(!err.is_retryable());
    assert_eq!(err.recovery_action(), RecoveryAction::NotifyUser);
}

#[test]
fn test_database_error_retryable() {
    let err = DatabaseError::ConnectionFailed { reason: "Pool exhausted".to_string() };
    assert!(err.is_retryable());
    assert_eq!(err.recovery_action(), RecoveryAction::Retry);

    let err = DatabaseError::Corrupted { reason: "Invalid checksum".to_string() };
    assert!(!err.is_retryable());
    assert_eq!(err.recovery_action(), RecoveryAction::NotifyUser);

    let err = DatabaseError::MigrationFailed { reason: "Schema conflict".to_string() };
    assert!(!err.is_retryable());
    assert_eq!(err.recovery_action(), RecoveryAction::Abort);
}

#[test]
fn test_filesystem_error_retryable() {
    let err = FileSystemError::PathNotFound { path: "/nonexistent".to_string() };
    assert!(!err.is_retryable());
    assert_eq!(err.recovery_action(), RecoveryAction::Skip);

    let err = FileSystemError::PermissionDenied { path: "/protected".to_string() };
    assert!(!err.is_retryable());
    assert_eq!(err.recovery_action(), RecoveryAction::Skip);

    let err = FileSystemError::ReadFailed { path: "/test.txt".to_string(), reason: "Temporary lock".to_string() };
    assert!(err.is_retryable());
    assert_eq!(err.recovery_action(), RecoveryAction::Retry);
}

#[test]
fn test_neuralfs_error_conversion() {
    let index_err = IndexError::FileNotFound { path: "/test".to_string() };
    let neural_err: NeuralFSError = index_err.into();
    assert!(!neural_err.is_retryable());

    let cloud_err = CloudError::NetworkUnavailable;
    let neural_err: NeuralFSError = cloud_err.into();
    assert!(neural_err.is_retryable());
    assert_eq!(neural_err.recovery_action(), RecoveryAction::Fallback);
}

#[test]
fn test_retry_delay_values() {
    let err = IndexError::FileLocked { path: "/test".to_string() };
    assert_eq!(err.retry_delay_ms(), Some(2000));

    let err = CloudError::Timeout { timeout_ms: 5000 };
    assert_eq!(err.retry_delay_ms(), Some(1000));

    let err = CloudError::NetworkUnavailable;
    assert_eq!(err.retry_delay_ms(), Some(5000));
}

#[test]
fn test_cuda_check_stub() {
    let status = RuntimeDependencies::check_cuda();
    assert!(status.available || !status.available);
}

#[test]
fn test_onnx_check() {
    let status = RuntimeDependencies::check_onnx(Platform::Linux, None);
    assert!(status.execution_providers.contains(&"CPU".to_string()));
}

#[test]
fn test_runtime_status() {
    let status = RuntimeDependencies::check_all(Platform::Linux, None);
    assert!(!status.recommended_provider().is_empty());
}

#[test]
fn test_onnx_found_library() {
    let status = RuntimeDependencies::check_onnx(Platform::Linux, Some("/usr/local/lib".to_string()));
    assert!(status.available);
    assert_eq!(status.version.as_deref(), Some("1.16.0"));
    assert_eq!(status.library_path.as_deref(), Some("/usr/local/lib"));
    let status = RuntimeDependencies::check_all(Platform::Linux, None);
    assert_eq!(status.recommended_provider(), "CPU");
    assert!(!status.has_gpu_acceleration());
    assert_eq!(status.available_vram_mb(), 0);
}

#[test]
fn test_onnx_search_paths_order() {
    let v = RuntimeDependencies::onnx_search_paths(Platform::Linux, Some("/opt/ort".to_string()));
    assert_eq!(v, vec!["deps/onnxruntime".to_string(), "/opt/ort".to_string(), "/usr/local/lib".to_string()]);
    let v = RuntimeDependencies::onnx_search_paths(Platform::Linux, Some(String::new()));
    assert_eq!(v, vec!["deps/onnxruntime".to_string(), "/usr/local/lib".to_string()]);
}

#[test]
fn test_hash_content() {
    let content = b"hello world";
    let hash = hash_content(content);
    assert!(!hash.is_empty());
    assert_eq!(hash.len(), 64);
    assert!(hash.chars().all(|c| c.is_ascii_hexdigit() && !c.is_ascii_uppercase()));
    assert_eq!(hash, hash_content(b"hello world"));
    assert_ne!(hash, hash_content(b"hello worle"));
}

#[test]
fn test_get_extension() {
    assert_eq!(get_extension("test.TXT"), "txt");
    assert_eq!(get_extension("test.pdf"), "pdf");
    assert_eq!(get_extension("no_extension"), "");
}

#[test]
fn test_format_file_size() {
    assert_eq!(format_file_size(500), "500 B");
    assert_eq!(format_file_size(1024), "1.00 KB");
    assert_eq!(format_file_size(1024 * 1024), "1.00 MB");
    assert_eq!(format_file_size(1024 * 1024 * 1024), "1.00 GB");
}

#[test]
fn test_format_file_size_rounding() {
    assert_eq!(format_file_size(1152), "1.12 KB");
    assert_eq!(format_file_size(1536), "1.50 KB");
    assert_eq!(format_file_size(1023), "1023 B");
    assert_eq!(format_file_size(0), "0 B");
}

#[test]
fn test_truncate_string() {
    assert_eq!(truncate_string("hello", 10), "hello");
    assert_eq!(truncate_string("hello world", 8), "hello...");
}

#[test]
fn test_truncate_string_short_limits() {
    assert_eq!(truncate_string("hello", 3), "...");
    assert_eq!(truncate_string("hello", 2), "..");
    assert_eq!(truncate_string("hello", 0), "");
    assert_eq!(truncate_string("hi", 2), "hi");
    for max_len in 0..8 {
        assert!(truncate_string("hello world", max_len).len() <= max_len);
    }
}

#[test]
fn onnx_search_paths_on_windows() {
    let v = RuntimeDependencies::onnx_search_paths(Platform::Windows, None);
    assert_eq!(v, vec!["deps/onnxruntime".to_string(), "C:\\Program Files\\onnxruntime\\lib".to_string()]);
    let v = RuntimeDependencies::onnx_search_paths(Platform::MacOs, Some("/opt/ort".to_string()));
    assert_eq!(v, vec!["deps/onnxruntime".to_string(), "/opt/ort".to_string(), "/usr/local/lib".to_string()]);
}

#[test]
fn onnx_library_is_first_existing_path() {
    let paths = vec!["deps/onnxruntime".to_string(), String::new(), "/opt/ort".to_string(), "/usr/local/lib".to_string()];
    assert_eq!(RuntimeDependencies::find_onnx_library(&paths, &vec![false, true, true, true]), Some("/opt/ort".to_string()));
    assert_eq!(RuntimeDependencies::find_onnx_library(&paths, &vec![true, false, false, true]), Some("deps/onnxruntime".to_string()));
    assert_eq!(RuntimeDependencies::find_onnx_library(&paths, &vec![false, true, false, false]), None);
    assert_eq!(RuntimeDependencies::find_onnx_library(&paths, &vec![false]), None);
}

#[test]
fn onnx_providers_by_platform() {
    let s = RuntimeDependencies::check_onnx(Platform::Windows, None);
    assert_eq!(s.execution_providers, vec!["CPU".to_string(), "DirectML".to_string()]);
    assert!(!s.available);
    let s = RuntimeDependencies::check_all(Platform::MacOs, None);
    assert_eq!(s.onnx.execution_providers, vec!["CPU".to_string(), "CoreML".to_string()]);
    assert_eq!(s.recommended_provider(), "CoreML");
    assert!(s.has_gpu_acceleration());
    let s = RuntimeDependencies::check_all(Platform::Windows, None);
    assert_eq!(s.recommended_provider(), "DirectML");
}

#[test]
fn extension_ignores_case() {
    assert_eq!(get_extension("docs/Report.PDF"), "pdf");
    assert_eq!(get_extension("docs/Report.pdf"), get_extension("docs/Report.PDF"));
    assert_eq!(get_extension("docs/Report.PdF"), "pdf");
}
