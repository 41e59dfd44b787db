use neural_fs::config_commands::{set_config, set_config_at, PrivacyConfigDto, UpdateCloudConfigRequest, UpdateConfigRequest};
use neural_fs::config::{backup_name, validate_config, AppConfig, ConfigStore, ConfigStoreConfig};
use neural_fs::config_migration::{MigrationManager, CURRENT_VERSION};

fn test_store() -> ConfigStore {
    let settings = ConfigStoreConfig {
        config_path: "/tmp/neuralfs-test/config.json".to_string(),
        backup_dir: "/tmp/neuralfs-test/backups".to_string(),
        max_backups: 3,
        create_default: true,
    };
    ConfigStore::with_config(settings, AppConfig::default())
}

#[test]
fn tests_test_migration_manager_creation() {
    let manager = MigrationManager::new();
    assert_eq!(manager.current_version(), CURRENT_VERSION);
}

#[test]
fn test_needs_migration() {
    let manager = MigrationManager::new();
    assert!(manager.needs_migration(0));
    assert!(!manager.needs_migration(CURRENT_VERSION));
    assert!(!manager.needs_migration(CURRENT_VERSION + 1));
}

#[test]
fn test_validate_config_valid() {
    let config = AppConfig::default();
    assert!(validate_config(&config).is_ok());
}

#[test]
fn test_validate_config_invalid_vram() {
    let mut config = AppConfig::default();
    config.performance.max_vram_mb = 100;
    assert!(validate_config(&config).is_err());
}

#[test]
fn test_validate_config_invalid_threads() {
    let mut config = AppConfig::default();
    config.performance.indexing_threads = 0;
    assert!(validate_config(&config).is_err());
}

#[test]
fn test_validate_config_invalid_theme() {
    let mut config = AppConfig::default();
    config.ui.theme = "invalid_theme".to_string();
    assert!(validate_config(&config).is_err());
}

#[test]
fn test_default_excluded_patterns() {
    let config = AppConfig::default();
    assert!(config.privacy.excluded_patterns.contains(&"*.tmp".to_string()));
    assert!(config.privacy.excluded_patterns.contains(&"node_modules".to_string()));
    assert!(config.privacy.excluded_patterns.contains(&".git".to_string()));
}

#[test]
fn test_default_config_values() {
    let store = test_store();
    assert_eq!(store.config.version, 1);
    assert!(store.config.monitored_directories.is_empty());
    assert!(!store.config.cloud.enabled);
    assert_eq!(store.config.ui.theme, "dark");
    assert_eq!(store.config_path(), "/tmp/neuralfs-test/config.json");
    assert_eq!(store.backup_dir(), "/tmp/neuralfs-test/backups");
}

#[test]
fn test_monitored_directory_added_once() {
    let mut store = test_store();
    store.add_monitored_directory("/home/user/docs");
    assert_eq!(store.config.monitored_directories, vec!["/home/user/docs".to_string()]);
    store.add_monitored_directory("/home/user/docs");
    assert_eq!(store.config.monitored_directories.len(), 1);
    store.remove_monitored_directory("/home/user/docs");
    assert!(store.config.monitored_directories.is_empty());
}

#[test]
fn test_cloud_and_privacy_switches() {
    let mut store = test_store();
    store.set_cloud_enabled(true);
    assert!(store.config.cloud.enabled);
    store.set_privacy_mode(true);
    assert!(store.config.privacy.privacy_mode);
    assert!(!store.config.cloud.enabled);
    store.set_privacy_mode(false);
    assert!(!store.config.cloud.enabled);
    store.set_cloud_enabled(false);
    assert!(!store.config.cloud.enabled);
}

#[test]
fn test_theme_and_language() {
    let mut store = test_store();
    store.set_theme("light".to_string());
    assert_eq!(store.config.ui.theme, "light");
    store.set_language("en-US".to_string());
    assert_eq!(store.config.ui.language, "en-US");
}

#[test]
fn test_migration_lookup() {
    let manager = MigrationManager::new();
    assert!(manager.find_migration(7).is_err());
    let history = manager.get_migration_history();
    assert_eq!(history.len(), 1);
    assert_eq!(history[0].version, 1);
}

#[test]
fn test_backup_listing_and_cleanup() {
    let store = test_store();
    let entries = vec![
        "/b/config_backup_20240103_000000.json".to_string(),
        "/b/notes.txt".to_string(),
        "/b/config_backup_20240101_000000.json".to_string(),
        "/b/config_backup_20240104_000000.json".to_string(),
        "/b/config_backup_20240102_000000.json".to_string(),
        "/b/config.json.tmp".to_string(),
    ];
    let list = store.list_backups(&entries);
    assert_eq!(
        list,
        vec![
            "/b/config_backup_20240101_000000.json".to_string(),
            "/b/config_backup_20240102_000000.json".to_string(),
            "/b/config_backup_20240103_000000.json".to_string(),
            "/b/config_backup_20240104_000000.json".to_string(),
        ]
    );
    // max_backups is 3: the oldest one goes
    assert_eq!(store.backups_to_remove(&entries), vec!["/b/config_backup_20240101_000000.json".to_string()]);
    assert!(store.backups_to_remove(&entries[..2]).is_empty());
    assert_eq!(backup_name("20240105_120000"), "config_backup_20240105_120000.json");
}

#[test]
fn test_set_config_answers() {
    let request = UpdateConfigRequest {
        monitored_directories: Some(vec!["/data".to_string()]),
        cloud: Some(UpdateCloudConfigRequest {
            enabled: Some(true),
            endpoint: None,
            api_key: Some("k".to_string()),
            monthly_cost_limit: None,
            requests_per_minute: Some(30),
            model: None,
            provider: None,
        }),
        performance: None,
        privacy: Some(PrivacyConfigDto {
            privacy_mode: true,
            excluded_directories: vec![],
            excluded_patterns: vec![],
            enable_telemetry: false,
        }),
        ui: None,
    };
    let mut none: Option<ConfigStore> = None;
    let r = set_config(&mut none, &request);
    assert!(!r.success);
    assert_eq!(r.message, "Config store not initialized");
    assert!(r.config.is_none());
    assert!(none.is_none());

    let mut store = Some(test_store());
    let r = set_config_at(&mut store, &request, "2024-05-01T00:00:00+00:00".to_string());
    assert!(r.success);
    assert_eq!(r.message, "Configuration updated successfully");
    let dto = r.config.unwrap();
    assert_eq!(dto.monitored_directories, vec!["/data".to_string()]);
    // Privacy mode turns the cloud off, whatever the request says of it.
    assert!(!dto.cloud.enabled);
    assert!(dto.privacy.privacy_mode);
    let s = store.unwrap();
    assert!(!s.config.cloud.enabled);
    assert_eq!(s.config.cloud.requests_per_minute, 30);
    assert_eq!(s.config.cloud.api_key, Some("k".to_string()));
    assert_eq!(s.config.last_modified, "2024-05-01T00:00:00+00:00");
}
