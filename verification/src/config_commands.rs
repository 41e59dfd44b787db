//! What the settings screens send and receive: the settings as the front end
//! sees them (the API key only as "set or not"), and the changes a request
//! makes.

use vstd::prelude::*;
use crate::text::{string_views, clone_strings, to_string};
use crate::config::{AppConfig, CloudConfig, ConfigStore, PerformanceConfig, PrivacyConfig, UIConfig};

verus! {

/// The settings as the front end sees them.
#[derive(Debug, Clone)]
pub struct AppConfigDto {
    pub version: u32,
    pub monitored_directories: Vec<String>,
    pub cloud: CloudConfigDto,
    pub performance: PerformanceConfigDto,
    pub privacy: PrivacyConfigDto,
    pub ui: UIConfigDto,
    pub last_modified: String,
}

/// Cloud settings as the front end sees them: whether an API key is set,
/// never the key.
#[derive(Debug, Clone)]
pub struct CloudConfigDto {
    pub enabled: bool,
    pub endpoint: Option<String>,
    pub api_key_set: bool,
    /// Monthly cost limit in USD, as the bit pattern of an `f64`.
    pub monthly_cost_limit: u64,
    pub requests_per_minute: u32,
    pub model: String,
    pub provider: String,
}

/// Performance settings as the front end sees them.
#[derive(Debug, Clone, Copy, PartialEq, Eq, Structural)]
pub struct PerformanceConfigDto {
    pub max_vram_mb: u32,
    pub indexing_threads: u32,
    pub embedding_batch_size: u32,
    pub enable_cuda: bool,
    pub fast_inference_mode: bool,
}

/// Privacy settings as the front end sees them.
#[derive(Debug, Clone)]
pub struct PrivacyConfigDto {
    pub privacy_mode: bool,
    pub excluded_directories: Vec<String>,
    pub excluded_patterns: Vec<String>,
    pub enable_telemetry: bool,
}

/// Interface settings as the front end sees them.
#[derive(Debug, Clone)]
pub struct UIConfigDto {
    pub theme: String,
    pub language: String,
    pub enable_animations: bool,
    pub show_extensions: bool,
    pub default_view: String,
    pub thumbnail_size: String,
}

/// The cloud service's state as the front end sees it. Amounts are the bit
/// patterns of `f64` values.
#[derive(Debug, Clone)]
pub struct CloudStatusDto {
    pub enabled: bool,
    pub connected: bool,
    pub current_month_usage: u64,
    pub monthly_limit: u64,
    pub remaining_budget: u64,
    pub requests_this_minute: u32,
    pub requests_per_minute_limit: u32,
    pub last_api_call: Option<String>,
    pub error: Option<String>,
}

/// A change to the settings: each part given replaces its counterpart.
#[derive(Debug, Clone)]
pub struct UpdateConfigRequest {
    pub monitored_directories: Option<Vec<String>>,
    pub cloud: Option<UpdateCloudConfigRequest>,
    pub performance: Option<PerformanceConfigDto>,
    pub privacy: Option<PrivacyConfigDto>,
    pub ui: Option<UIConfigDto>,
}

/// A change to the cloud settings: each field given replaces its
/// counterpart.
#[derive(Debug, Clone)]
pub struct UpdateCloudConfigRequest {
    pub enabled: Option<bool>,
    pub endpoint: Option<String>,
    pub api_key: Option<String>,
    /// Monthly cost limit in USD, as the bit pattern of an `f64`.
    pub monthly_cost_limit: Option<u64>,
    pub requests_per_minute: Option<u32>,
    pub model: Option<String>,
    pub provider: Option<String>,
}

/// The answer to a settings command.
#[derive(Debug, Clone)]
pub struct ConfigOperationResult {
    pub success: bool,
    pub message: String,
    pub config: Option<AppConfigDto>,
}

/// The view of an optional string.
pub open spec fn opt_text(o: Option<String>) -> Option<Seq<char>> {
    match o {
        Some(s) => Some(s@),
        None => None,
    }
}

/// A copy of an optional string.
fn clone_opt(o: &Option<String>) -> (r: Option<String>)
    ensures
        opt_text(r) == opt_text(*o),
{
    match o {
        Some(s) => Some(s.clone()),
        None => None,
    }
}

/// `d` shows the performance settings `c`.
pub open spec fn performance_dto_is(d: PerformanceConfigDto, c: PerformanceConfig) -> bool {
    &&& d.max_vram_mb == c.max_vram_mb
    &&& d.indexing_threads == c.indexing_threads
    &&& d.embedding_batch_size == c.embedding_batch_size
    &&& d.enable_cuda == c.enable_cuda
    &&& d.fast_inference_mode == c.fast_inference_mode
}

/// `d` shows the privacy settings `c`.
pub open spec fn privacy_dto_is(d: PrivacyConfigDto, c: PrivacyConfig) -> bool {
    &&& d.privacy_mode == c.privacy_mode
    &&& string_views(d.excluded_directories@) == string_views(c.excluded_directories@)
    &&& string_views(d.excluded_patterns@) == string_views(c.excluded_patterns@)
    &&& d.enable_telemetry == c.enable_telemetry
}

/// `d` shows the interface settings `c`.
pub open spec fn ui_dto_is(d: UIConfigDto, c: UIConfig) -> bool {
    &&& d.theme@ == c.theme@
    &&& d.language@ == c.language@
    &&& d.enable_animations == c.enable_animations
    &&& d.show_extensions == c.show_extensions
    &&& d.default_view@ == c.default_view@
    &&& d.thumbnail_size@ == c.thumbnail_size@
}

/// `d` shows the cloud settings `c`, the API key only as set or not.
pub open spec fn cloud_dto_is(d: CloudConfigDto, c: CloudConfig) -> bool {
    &&& d.enabled == c.enabled
    &&& opt_text(d.endpoint) == opt_text(c.endpoint)
    &&& d.api_key_set == c.api_key is Some
    &&& d.monthly_cost_limit == c.monthly_cost_limit
    &&& d.requests_per_minute == c.requests_per_minute
    &&& d.model@ == c.model@
    &&& d.provider@ == c.provider@
}

/// `d` shows the settings `c`.
pub open spec fn config_dto_is(d: AppConfigDto, c: AppConfig) -> bool {
    &&& d.version == c.version
    &&& string_views(d.monitored_directories@) == string_views(c.monitored_directories@)
    &&& cloud_dto_is(d.cloud, c.cloud)
    &&& performance_dto_is(d.performance, c.performance)
    &&& privacy_dto_is(d.privacy, c.privacy)
    &&& ui_dto_is(d.ui, c.ui)
    &&& d.last_modified@ == c.last_modified@
}

/// Performance settings as the front end sees them.
pub fn performance_config_to_dto(config: &PerformanceConfig) -> (d: PerformanceConfigDto)
    ensures
        d.max_vram_mb == config.max_vram_mb,
        d.indexing_threads == config.indexing_threads,
        d.embedding_batch_size == config.embedding_batch_size,
        d.enable_cuda == config.enable_cuda,
        d.fast_inference_mode == config.fast_inference_mode,
{
    PerformanceConfigDto {
        max_vram_mb: config.max_vram_mb,
        indexing_threads: config.indexing_threads,
        embedding_batch_size: config.embedding_batch_size,
        enable_cuda: config.enable_cuda,
        fast_inference_mode: config.fast_inference_mode,
    }
}

/// Privacy settings as the front end sees them.
pub fn privacy_config_to_dto(config: &PrivacyConfig) -> (d: PrivacyConfigDto)
    ensures
        d.privacy_mode == config.privacy_mode,
        string_views(d.excluded_directories@) == string_views(config.excluded_directories@),
        string_views(d.excluded_patterns@) == string_views(config.excluded_patterns@),
        d.enable_telemetry == config.enable_telemetry,
{
    PrivacyConfigDto {
        privacy_mode: config.privacy_mode,
        excluded_directories: clone_strings(&config.excluded_directories),
        excluded_patterns: clone_strings(&config.excluded_patterns),
        enable_telemetry: config.enable_telemetry,
    }
}

/// Interface settings as the front end sees them.
pub fn ui_config_to_dto(config: &UIConfig) -> (d: UIConfigDto)
    ensures
        d.theme@ == config.theme@,
        d.language@ == config.language@,
        d.enable_animations == config.enable_animations,
        d.show_extensions == config.show_extensions,
        d.default_view@ == config.default_view@,
        d.thumbnail_size@ == config.thumbnail_size@,
{
    UIConfigDto {
        theme: config.theme.clone(),
        language: config.language.clone(),
        enable_animations: config.enable_animations,
        show_extensions: config.show_extensions,
        default_view: config.default_view.clone(),
        thumbnail_size: config.thumbnail_size.clone(),
    }
}

/// Cloud settings as the front end sees them: the key is reported only as
/// set or not.
pub fn cloud_config_to_dto(config: &CloudConfig) -> (d: CloudConfigDto)
    ensures
        d.enabled == config.enabled,
        opt_text(d.endpoint) == opt_text(config.endpoint),
        d.api_key_set == config.api_key is Some,
        d.monthly_cost_limit == config.monthly_cost_limit,
        d.requests_per_minute == config.requests_per_minute,
        d.model@ == config.model@,
        d.provider@ == config.provider@,
{
    CloudConfigDto {
        enabled: config.enabled,
        endpoint: clone_opt(&config.endpoint),
        api_key_set: config.api_key.is_some(),
        monthly_cost_limit: config.monthly_cost_limit,
        requests_per_minute: config.requests_per_minute,
        model: config.model.clone(),
        provider: config.provider.clone(),
    }
}

/// The settings as the front end sees them.
pub fn app_config_to_dto(config: &AppConfig) -> (d: AppConfigDto)
    ensures
        config_dto_is(d, *config),
{
    AppConfigDto {
        version: config.version,
        monitored_directories: clone_strings(&config.monitored_directories),
        cloud: cloud_config_to_dto(&config.cloud),
        performance: performance_config_to_dto(&config.performance),
        privacy: privacy_config_to_dto(&config.privacy),
        ui: ui_config_to_dto(&config.ui),
        last_modified: config.last_modified.clone(),
    }
}

/// `new` is `old` with the fields of a cloud change request given.
pub open spec fn cloud_updated(old: CloudConfig, new: CloudConfig, r: UpdateCloudConfigRequest) -> bool {
    &&& new.enabled == match r.enabled { Some(e) => e, None => old.enabled }
    &&& opt_text(new.endpoint) == if r.endpoint is Some { opt_text(r.endpoint) } else { opt_text(old.endpoint) }
    &&& opt_text(new.api_key) == if r.api_key is Some { opt_text(r.api_key) } else { opt_text(old.api_key) }
    &&& new.monthly_cost_limit == match r.monthly_cost_limit { Some(x) => x, None => old.monthly_cost_limit }
    &&& new.requests_per_minute == match r.requests_per_minute { Some(x) => x, None => old.requests_per_minute }
    &&& new.model@ == match r.model { Some(x) => x@, None => old.model@ }
    &&& new.provider@ == match r.provider { Some(x) => x@, None => old.provider@ }
}

/// `new` holds the performance settings of `p`.
pub open spec fn performance_set(new: PerformanceConfig, p: PerformanceConfigDto) -> bool {
    &&& new.max_vram_mb == p.max_vram_mb
    &&& new.indexing_threads == p.indexing_threads
    &&& new.embedding_batch_size == p.embedding_batch_size
    &&& new.enable_cuda == p.enable_cuda
    &&& new.fast_inference_mode == p.fast_inference_mode
}

/// `new` holds the privacy settings of `p`.
pub open spec fn privacy_set(new: PrivacyConfig, p: PrivacyConfigDto) -> bool {
    &&& new.privacy_mode == p.privacy_mode
    &&& string_views(new.excluded_directories@) == string_views(p.excluded_directories@)
    &&& string_views(new.excluded_patterns@) == string_views(p.excluded_patterns@)
    &&& new.enable_telemetry == p.enable_telemetry
}

/// `new` holds the interface settings of `u`.
pub open spec fn ui_set(new: UIConfig, u: UIConfigDto) -> bool {
    &&& new.theme@ == u.theme@
    &&& new.language@ == u.language@
    &&& new.enable_animations == u.enable_animations
    &&& new.show_extensions == u.show_extensions
    &&& new.default_view@ == u.default_view@
    &&& new.thumbnail_size@ == u.thumbnail_size@
}

/// Applies a cloud change request.
fn apply_cloud_update(cloud: &mut CloudConfig, r: &UpdateCloudConfigRequest)
    ensures
        cloud_updated(*old(cloud), *final(cloud), *r),
{
    match r.enabled {
        Some(e) => {
            cloud.enabled = e;
        },
        None => {},
    }
    match &r.endpoint {
        Some(x) => {
            cloud.endpoint = Some(x.clone());
        },
        None => {},
    }
    match &r.api_key {
        Some(x) => {
            cloud.api_key = Some(x.clone());
        },
        None => {},
    }
    match r.monthly_cost_limit {
        Some(x) => {
            cloud.monthly_cost_limit = x;
        },
        None => {},
    }
    match r.requests_per_minute {
        Some(x) => {
            cloud.requests_per_minute = x;
        },
        None => {},
    }
    match &r.model {
        Some(x) => {
            cloud.model = x.clone();
        },
        None => {},
    }
    match &r.provider {
        Some(x) => {
            cloud.provider = x.clone();
        },
        None => {},
    }
}

/// Takes over the privacy settings of `p`.
fn apply_privacy(privacy: &mut PrivacyConfig, p: &PrivacyConfigDto)
    ensures
        privacy_set(*final(privacy), *p),
{
    privacy.privacy_mode = p.privacy_mode;
    privacy.excluded_directories = clone_strings(&p.excluded_directories);
    privacy.excluded_patterns = clone_strings(&p.excluded_patterns);
    privacy.enable_telemetry = p.enable_telemetry;
}

/// Takes over the interface settings of `u`.
fn apply_ui(ui: &mut UIConfig, u: &UIConfigDto)
    ensures
        ui_set(*final(ui), *u),
{
    ui.theme = u.theme.clone();
    ui.language = u.language.clone();
    ui.enable_animations = u.enable_animations;
    ui.show_extensions = u.show_extensions;
    ui.default_view = u.default_view.clone();
    ui.thumbnail_size = u.thumbnail_size.clone();
}

/// Whether a change request turns privacy mode on.
pub open spec fn privacy_turned_on(r: UpdateConfigRequest) -> bool {
    match r.privacy {
        Some(p) => p.privacy_mode,
        None => false,
    }
}

/// The settings after a change request: the watched directories, the cloud
/// fields, the performance, privacy and interface settings given replace their
/// counterparts, the others stay; turning privacy mode on turns cloud
/// features off whatever the request says of them. The version and the time
/// of the last change are left as they were.
pub open spec fn config_updated(old: AppConfig, r: UpdateConfigRequest, new: AppConfig) -> bool {
    &&& match r.monitored_directories {
        Some(d) => string_views(new.monitored_directories@) == string_views(d@),
        None => new.monitored_directories == old.monitored_directories,
    }
    &&& new.cloud.enabled == if privacy_turned_on(r) {
        false
    } else {
        match r.cloud {
            Some(c) => match c.enabled {
                Some(e) => e,
                None => old.cloud.enabled,
            },
            None => old.cloud.enabled,
        }
    }
    &&& match r.cloud {
        Some(c) => cloud_updated(
            old.cloud,
            CloudConfig {
                enabled: match c.enabled {
                    Some(e) => e,
                    None => old.cloud.enabled,
                },
                ..new.cloud
            },
            c,
        ),
        None => new.cloud == (CloudConfig { enabled: new.cloud.enabled, ..old.cloud }),
    }
    &&& match r.performance {
        Some(p) => performance_set(new.performance, p),
        None => new.performance == old.performance,
    }
    &&& match r.privacy {
        Some(p) => privacy_set(new.privacy, p),
        None => new.privacy == old.privacy,
    }
    &&& match r.ui {
        Some(u) => ui_set(new.ui, u),
        None => new.ui == old.ui,
    }
    &&& new.version == old.version
    &&& new.last_modified == old.last_modified
}

/// Applies a settings change (see `config_updated`).
pub fn apply_config_update(config: &mut AppConfig, request: &UpdateConfigRequest)
    ensures
        config_updated(*old(config), *request, *final(config)),
{
    match &request.monitored_directories {
        Some(dirs) => {
            config.monitored_directories = clone_strings(dirs);
        },
        None => {},
    }
    match &request.cloud {
        Some(cloud) => {
            apply_cloud_update(&mut config.cloud, cloud);
        },
        None => {},
    }
    match &request.performance {
        Some(p) => {
            config.performance.max_vram_mb = p.max_vram_mb;
            config.performance.indexing_threads = p.indexing_threads;
            config.performance.embedding_batch_size = p.embedding_batch_size;
            config.performance.enable_cuda = p.enable_cuda;
            config.performance.fast_inference_mode = p.fast_inference_mode;
        },
        None => {},
    }
    match &request.privacy {
        Some(p) => {
            apply_privacy(&mut config.privacy, p);
            if p.privacy_mode {
                config.cloud.enabled = false;
            }
        },
        None => {},
    }
    match &request.ui {
        Some(u) => {
            apply_ui(&mut config.ui, u);
        },
        None => {},
    }
}

/// The cloud service's state from the settings alone: connected when enabled
/// with an API key; nothing used yet this month or minute, so the whole
/// budget remains.
pub fn cloud_status(config: &AppConfig) -> (s: CloudStatusDto)
    ensures
        s.enabled == config.cloud.enabled,
        s.connected == (config.cloud.enabled && config.cloud.api_key is Some),
        s.current_month_usage == 0,
        s.monthly_limit == config.cloud.monthly_cost_limit,
        s.remaining_budget == config.cloud.monthly_cost_limit,
        s.requests_this_minute == 0,
        s.requests_per_minute_limit == config.cloud.requests_per_minute,
        s.last_api_call is None,
        s.error is None,
{
    CloudStatusDto {
        enabled: config.cloud.enabled,
        connected: config.cloud.enabled && config.cloud.api_key.is_some(),
        current_month_usage: 0,
        monthly_limit: config.cloud.monthly_cost_limit,
        remaining_budget: config.cloud.monthly_cost_limit,
        requests_this_minute: 0,
        requests_per_minute_limit: config.cloud.requests_per_minute,
        last_api_call: None,
        error: None,
    }
}

/// The answer when the settings are not loaded yet.
pub fn not_initialized() -> (r: ConfigOperationResult)
    ensures
        !r.success,
        r.message@ == "Config store not initialized"@,
        r.config is None,
{
    ConfigOperationResult { success: false, message: to_string("Config store not initialized"), config: None }
}

/// A successful answer after a settings change, with the settings `c`.
pub open spec fn updated_answer(r: ConfigOperationResult, c: AppConfig) -> bool {
    &&& r.success
    &&& r.message@ == "Configuration updated successfully"@
    &&& r.config matches Some(d) && config_dto_is(d, c)
}

/// The answer after the settings were changed.
pub fn updated_result(config: &AppConfig) -> (r: ConfigOperationResult)
    ensures
        updated_answer(r, *config),
{
    config_result("Configuration updated successfully", config)
}

/// A settings change on the loaded settings, stamped with `now` (RFC 3339):
/// without loaded settings, nothing changes and the answer says so;
/// otherwise the change is applied (see `config_updated`), the time of the
/// last change becomes `now`, and the answer carries the new settings.
pub fn set_config_at(store: &mut Option<ConfigStore>, request: &UpdateConfigRequest, now: String) -> (r: ConfigOperationResult)
    ensures
        (*old(store)) is None ==> (*final(store)) is None && !r.success
            && r.message@ == "Config store not initialized"@ && r.config is None,
        (*old(store)) is Some ==> (*final(store)) is Some
            && config_updated(
                (*old(store))->0.config,
                *request,
                AppConfig { last_modified: (*old(store))->0.config.last_modified, ..(*final(store))->0.config },
            )
            && (*final(store))->0.config.last_modified == now
            && (*final(store))->0.settings == (*old(store))->0.settings
            && updated_answer(r, (*final(store))->0.config),
{
    match store {
        Some(s) => {
            apply_config_update(&mut s.config, request);
            s.config.last_modified = now;
            updated_result(&s.config)
        },
        None => not_initialized(),
    }
}

/// A settings change on the loaded settings, stamped now (see
/// `set_config_at`).
pub fn set_config(store: &mut Option<ConfigStore>, request: &UpdateConfigRequest) -> (r: ConfigOperationResult)
    ensures
        (*old(store)) is None ==> (*final(store)) is None && !r.success
            && r.message@ == "Config store not initialized"@ && r.config is None,
        (*old(store)) is Some ==> (*final(store)) is Some
            && config_updated(
                (*old(store))->0.config,
                *request,
                AppConfig { last_modified: (*old(store))->0.config.last_modified, ..(*final(store))->0.config },
            )
            && (*final(store))->0.settings == (*old(store))->0.settings
            && updated_answer(r, (*final(store))->0.config),
{
    let now = crate::clock::now_rfc3339();
    set_config_at(store, request, now)
}

/// The answer after cloud features were turned on or off.
pub fn cloud_enabled_result(enabled: bool, config: &AppConfig) -> (r: ConfigOperationResult)
    ensures
        r.success,
        r.message@ == if enabled { "Cloud features enabled"@ } else { "Cloud features disabled"@ },
        r.config matches Some(d) && config_dto_is(d, *config),
{
    let message = if enabled {
        to_string("Cloud features enabled")
    } else {
        to_string("Cloud features disabled")
    };
    ConfigOperationResult { success: true, message, config: Some(app_config_to_dto(config)) }
}


/// The answer after the settings were written to `path`.
pub fn exported_result(path: &str) -> (r: ConfigOperationResult)
    ensures
        r.success,
        r.message@ == "Configuration exported to "@ + path@,
        r.config is None,
{
    let mut v = crate::text::chars_of("Configuration exported to ");
    crate::diluted::append_text(&mut v, path);
    ConfigOperationResult { success: true, message: crate::text::string_from_chars(v.as_slice()), config: None }
}

/// A successful answer with a message and the settings now in force.
fn config_result(message: &str, config: &AppConfig) -> (r: ConfigOperationResult)
    ensures
        r.success,
        r.message@ == message@,
        r.config matches Some(d) && config_dto_is(d, *config),
{
    ConfigOperationResult { success: true, message: to_string(message), config: Some(app_config_to_dto(config)) }
}

/// The answer after settings were read from a file.
pub fn imported_result(config: &AppConfig) -> (r: ConfigOperationResult)
    ensures
        r.success,
        r.message@ == "Configuration imported successfully"@,
        r.config matches Some(d) && config_dto_is(d, *config),
{
    config_result("Configuration imported successfully", config)
}

/// The answer after the settings were reset to the defaults.
pub fn reset_result(config: &AppConfig) -> (r: ConfigOperationResult)
    ensures
        r.success,
        r.message@ == "Configuration reset to defaults"@,
        r.config matches Some(d) && config_dto_is(d, *config),
{
    config_result("Configuration reset to defaults", config)
}

/// The answer after the settings were restored from a backup.
pub fn restored_result(config: &AppConfig) -> (r: ConfigOperationResult)
    ensures
        r.success,
        r.message@ == "Configuration restored from backup"@,
        r.config matches Some(d) && config_dto_is(d, *config),
{
    config_result("Configuration restored from backup", config)
}

/// The message when the file to read does not exist (`what` is `File` or
/// `Backup file`).
pub open spec fn missing_file_text(what: Seq<char>, path: Seq<char>) -> Seq<char> {
    what + " does not exist: "@ + path
}

/// The message when the settings file to import does not exist.
pub fn missing_import_message(path: &str) -> (r: String)
    ensures
        r@ == missing_file_text("File"@, path@),
{
    let mut v = crate::text::chars_of("File does not exist: ");
    crate::diluted::append_text(&mut v, path);
    proof {
        reveal_strlit("File does not exist: ");
        reveal_strlit("File");
        reveal_strlit(" does not exist: ");
        assert("File"@ + " does not exist: "@ =~= "File does not exist: "@);
    }
    crate::text::string_from_chars(v.as_slice())
}

/// The message when the backup to restore does not exist.
pub fn missing_backup_message(path: &str) -> (r: String)
    ensures
        r@ == missing_file_text("Backup file"@, path@),
{
    let mut v = crate::text::chars_of("Backup file does not exist: ");
    crate::diluted::append_text(&mut v, path);
    proof {
        reveal_strlit("Backup file does not exist: ");
        reveal_strlit("Backup file");
        reveal_strlit(" does not exist: ");
        assert("Backup file"@ + " does not exist: "@ =~= "Backup file does not exist: "@);
    }
    crate::text::string_from_chars(v.as_slice())
}

} // verus!
