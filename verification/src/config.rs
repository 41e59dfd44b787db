//! Application settings: their defaults, their validation, and the changes
//! the settings screens make to them.
//!
//! Reading and writing the settings file happens outside the library.
//! Amounts of money are held as the bit pattern of an `f64`.

use vstd::prelude::*;
use crate::text::{str_eq, string_views, clone_strings, to_string, string_from_chars};

verus! {

/// A JSON error of `serde_json`, carried as it is.
#[verifier::external_type_specification]
#[verifier::external_body]
pub struct ExJsonError(serde_json::Error);

/// Errors of reading, writing and checking the settings.
#[derive(Debug)]
pub enum ConfigError {
    Io(std::io::Error),
    Json(serde_json::Error),
    NotFound(String),
    Invalid(String),
    Migration(String),
    Backup(String),
}

impl From<std::io::Error> for ConfigError {
    fn from(e: std::io::Error) -> (r: Self) {
        ConfigError::Io(e)
    }
}

impl vstd::std_specs::convert::FromSpecImpl<std::io::Error> for ConfigError {
    open spec fn obeys_from_spec() -> bool {
        true
    }

    open spec fn from_spec(e: std::io::Error) -> Self {
        ConfigError::Io(e)
    }
}

impl From<serde_json::Error> for ConfigError {
    fn from(e: serde_json::Error) -> (r: Self) {
        ConfigError::Json(e)
    }
}

impl vstd::std_specs::convert::FromSpecImpl<serde_json::Error> for ConfigError {
    open spec fn obeys_from_spec() -> bool {
        true
    }

    open spec fn from_spec(e: serde_json::Error) -> Self {
        ConfigError::Json(e)
    }
}

/// Where the settings are kept.
#[derive(Debug, Clone)]
pub struct ConfigStoreConfig {
    /// The settings file.
    pub config_path: String,
    /// The directory of backups.
    pub backup_dir: String,
    /// How many backups to keep.
    pub max_backups: usize,
    /// Whether to write the defaults when there is no settings file.
    pub create_default: bool,
}

/// The user's configuration directory, as `dirs::config_dir()` gives it. It
/// depends on the user's environment, so no clause states it.
#[verifier::external_body]
fn user_config_dir() -> (r: Option<String>) {
    match dirs::config_dir() {
        Some(p) => Some(p.to_string_lossy().into_owned()),
        None => None,
    }
}

impl Default for ConfigStoreConfig {
    /// `config.json` and `backups/` in the `neuralfs` directory of the
    /// user's configuration directory (of the working directory when there is
    /// none); five backups; the defaults are written when there are no
    /// settings.
    fn default() -> (c: Self)
        ensures
            c.max_backups == 5,
            c.create_default,
    {
        let base = match user_config_dir() {
            Some(d) => d,
            None => to_string("."),
        };
        let app_data = crate::utils::join_path(base.as_str(), "neuralfs");
        ConfigStoreConfig {
            config_path: crate::utils::join_path(app_data.as_str(), "config.json"),
            backup_dir: crate::utils::join_path(app_data.as_str(), "backups"),
            max_backups: 5,
            create_default: true,
        }
    }
}

/// The application's settings.
#[derive(Debug, Clone)]
pub struct AppConfig {
    /// The settings' schema version.
    pub version: u32,
    /// The directories watched for changes.
    pub monitored_directories: Vec<String>,
    /// Cloud settings.
    pub cloud: CloudConfig,
    /// Performance settings.
    pub performance: PerformanceConfig,
    /// Privacy settings.
    pub privacy: PrivacyConfig,
    /// Interface settings.
    pub ui: UIConfig,
    /// When the settings last changed (RFC 3339).
    pub last_modified: String,
}

/// Cloud settings.
#[derive(Debug, Clone)]
pub struct CloudConfig {
    pub enabled: bool,
    pub endpoint: Option<String>,
    pub api_key: Option<String>,
    /// Monthly cost limit in USD, as the bit pattern of an `f64`.
    pub monthly_cost_limit: u64,
    pub requests_per_minute: u32,
    pub model: String,
    pub provider: String,
}

/// Performance settings.
#[derive(Debug, Clone)]
pub struct PerformanceConfig {
    pub max_vram_mb: u32,
    pub indexing_threads: u32,
    pub embedding_batch_size: u32,
    pub enable_cuda: bool,
    pub fast_inference_mode: bool,
}

/// Privacy settings.
#[derive(Debug, Clone)]
pub struct PrivacyConfig {
    pub privacy_mode: bool,
    pub excluded_directories: Vec<String>,
    pub excluded_patterns: Vec<String>,
    pub enable_telemetry: bool,
}

/// Interface settings.
#[derive(Debug, Clone)]
pub struct UIConfig {
    pub theme: String,
    pub language: String,
    pub enable_animations: bool,
    pub show_extensions: bool,
    pub default_view: String,
    pub thumbnail_size: String,
}

/// The settings' schema version when none is given.
pub fn default_version() -> (v: u32)
    ensures
        v == 1,
{
    1
}

/// The monthly cost limit when none is given: 10.0 USD (as `f64` bits).
pub fn default_monthly_limit() -> (v: u64)
    ensures
        v == 0x4024_0000_0000_0000,
{
    0x4024_0000_0000_0000
}

/// Requests per minute when none is given.
pub fn default_rpm() -> (v: u32)
    ensures
        v == 60,
{
    60
}

/// The cloud model when none is given.
pub fn default_model() -> (s: String)
    ensures
        s@ == "gpt-4o-mini"@,
{
    to_string("gpt-4o-mini")
}

/// The cloud provider when none is given.
pub fn default_provider() -> (s: String)
    ensures
        s@ == "openai"@,
{
    to_string("openai")
}

/// The VRAM limit when none is given, in MB.
pub fn default_vram() -> (v: u32)
    ensures
        v == 4096,
{
    4096
}

/// Indexing threads when none is given.
pub fn default_threads() -> (v: u32)
    ensures
        v == 4,
{
    4
}

/// Embedding batch size when none is given.
pub fn default_batch() -> (v: u32)
    ensures
        v == 32,
{
    32
}

/// Whether CUDA is used when not said.
pub fn default_cuda() -> (b: bool)
    ensures
        b,
{
    true
}

/// Whether fast inference is used when not said.
pub fn default_fast_mode() -> (b: bool)
    ensures
        b,
{
    true
}

/// The file patterns excluded from indexing by default.
pub open spec fn default_pattern_list() -> Seq<Seq<char>> {
    seq![
        "*.tmp"@, "*.log"@, "node_modules"@, ".git"@, "__pycache__"@, "*.pyc"@, ".DS_Store"@,
        "Thumbs.db"@,
    ]
}

/// The file patterns excluded from indexing by default.
pub fn default_patterns() -> (v: Vec<String>)
    ensures
        string_views(v@) == default_pattern_list(),
{
    let mut v: Vec<String> = Vec::new();
    v.push(to_string("*.tmp"));
    v.push(to_string("*.log"));
    v.push(to_string("node_modules"));
    v.push(to_string(".git"));
    v.push(to_string("__pycache__"));
    v.push(to_string("*.pyc"));
    v.push(to_string(".DS_Store"));
    v.push(to_string("Thumbs.db"));
    proof {
        assert(string_views(v@) =~= default_pattern_list());
    }
    v
}

/// The theme when none is given.
pub fn default_theme() -> (s: String)
    ensures
        s@ == "dark"@,
{
    to_string("dark")
}

/// The language when none is given.
pub fn default_language() -> (s: String)
    ensures
        s@ == "zh-CN"@,
{
    to_string("zh-CN")
}

/// Whether animations run when not said.
pub fn default_animations() -> (b: bool)
    ensures
        b,
{
    true
}

/// Whether file extensions show when not said.
pub fn default_show_ext() -> (b: bool)
    ensures
        b,
{
    true
}

/// The view mode when none is given.
pub fn default_view() -> (s: String)
    ensures
        s@ == "grid"@,
{
    to_string("grid")
}

/// The thumbnail size when none is given.
pub fn default_thumb_size() -> (s: String)
    ensures
        s@ == "medium"@,
{
    to_string("medium")
}

/// The default cloud settings: off, no endpoint or key, a limit of 10 US
/// dollars a month (the bits of the `f64`), 60 requests a minute,
/// `gpt-4o-mini` from `openai`.
pub open spec fn default_cloud(c: CloudConfig) -> bool {
    &&& !c.enabled
    &&& c.endpoint is None
    &&& c.api_key is None
    &&& c.monthly_cost_limit == 0x4024_0000_0000_0000
    &&& c.requests_per_minute == 60
    &&& c.model@ == "gpt-4o-mini"@
    &&& c.provider@ == "openai"@
}

/// The default performance settings: 4096 MB of VRAM, 4 threads, batches
/// of 32, CUDA and fast inference on.
pub open spec fn default_performance(c: PerformanceConfig) -> bool {
    &&& c.max_vram_mb == 4096
    &&& c.indexing_threads == 4
    &&& c.embedding_batch_size == 32
    &&& c.enable_cuda
    &&& c.fast_inference_mode
}

/// The default privacy settings: privacy mode and telemetry off, no
/// excluded directory, the usual excluded patterns.
pub open spec fn default_privacy(c: PrivacyConfig) -> bool {
    &&& !c.privacy_mode
    &&& c.excluded_directories@.len() == 0
    &&& string_views(c.excluded_patterns@) == default_pattern_list()
    &&& !c.enable_telemetry
}

/// The default interface settings: dark theme, `zh-CN`, animations and
/// extensions shown, grid view, medium thumbnails.
pub open spec fn default_ui(c: UIConfig) -> bool {
    &&& c.theme@ == "dark"@
    &&& c.language@ == "zh-CN"@
    &&& c.enable_animations
    &&& c.show_extensions
    &&& c.default_view@ == "grid"@
    &&& c.thumbnail_size@ == "medium"@
}

impl Default for CloudConfig {
    fn default() -> (c: Self)
        ensures
            default_cloud(c),
    {
        CloudConfig {
            enabled: false,
            endpoint: None,
            api_key: None,
            monthly_cost_limit: default_monthly_limit(),
            requests_per_minute: default_rpm(),
            model: default_model(),
            provider: default_provider(),
        }
    }
}

impl Default for PerformanceConfig {
    fn default() -> (c: Self)
        ensures
            default_performance(c),
    {
        PerformanceConfig {
            max_vram_mb: default_vram(),
            indexing_threads: default_threads(),
            embedding_batch_size: default_batch(),
            enable_cuda: default_cuda(),
            fast_inference_mode: default_fast_mode(),
        }
    }
}

impl Default for PrivacyConfig {
    fn default() -> (c: Self)
        ensures
            default_privacy(c),
    {
        PrivacyConfig {
            privacy_mode: false,
            excluded_directories: Vec::new(),
            excluded_patterns: default_patterns(),
            enable_telemetry: false,
        }
    }
}

impl Default for UIConfig {
    fn default() -> (c: Self)
        ensures
            default_ui(c),
    {
        UIConfig {
            theme: default_theme(),
            language: default_language(),
            enable_animations: default_animations(),
            show_extensions: default_show_ext(),
            default_view: default_view(),
            thumbnail_size: default_thumb_size(),
        }
    }
}

impl Default for AppConfig {
    /// The defaults, stamped with the current time.
    fn default() -> (c: Self)
        ensures
            c.version == 1,
            c.monitored_directories@.len() == 0,
            default_cloud(c.cloud),
            default_performance(c.performance),
            default_privacy(c.privacy),
            default_ui(c.ui),
    {
        AppConfig {
            version: default_version(),
            monitored_directories: Vec::new(),
            cloud: CloudConfig::default(),
            performance: PerformanceConfig::default(),
            privacy: PrivacyConfig::default(),
            ui: UIConfig::default(),
            last_modified: crate::clock::now_rfc3339(),
        }
    }
}

/// The themes the interface has.
pub open spec fn valid_themes() -> Seq<Seq<char>> {
    seq!["light"@, "dark"@, "system"@]
}

/// The message for a theme the interface does not have.
pub open spec fn invalid_theme_text(theme: Seq<char>) -> Seq<char> {
    "Invalid theme: "@ + theme + ". Must be one of: [\"light\", \"dark\", \"system\"]"@
}

/// The error a configuration is refused with, if any, checked in this
/// order: cloud on without key or endpoint; less than 512 MB of VRAM; no
/// indexing thread; an unknown theme.
pub open spec fn config_problem(c: AppConfig) -> Option<Seq<char>> {
    if c.cloud.enabled && c.cloud.api_key is None && c.cloud.endpoint is None {
        Some("Cloud enabled but no API key or endpoint configured"@)
    } else if c.performance.max_vram_mb < 512 {
        Some("max_vram_mb must be at least 512 MB"@)
    } else if c.performance.indexing_threads == 0 {
        Some("indexing_threads must be at least 1"@)
    } else if !valid_themes().contains(c.ui.theme@) {
        Some(invalid_theme_text(c.ui.theme@))
    } else {
        None
    }
}

/// The message for a theme the interface does not have.
pub fn invalid_theme_message(theme: &str) -> (r: String)
    ensures
        r@ == invalid_theme_text(theme@),
{
    let mut v: Vec<char> = Vec::new();
    crate::diluted::append_text(&mut v, "Invalid theme: ");
    crate::diluted::append_text(&mut v, theme);
    crate::diluted::append_text(&mut v, ". Must be one of: [\"light\", \"dark\", \"system\"]");
    string_from_chars(v.as_slice())
}

/// Whether the interface has the theme.
pub fn is_valid_theme(theme: &str) -> (r: bool)
    ensures
        r == valid_themes().contains(theme@),
{
    let themes: [&str; 3] = ["light", "dark", "system"];
    proof {
        assert(themes@.map_values(|o: &str| o@) =~= valid_themes());
    }
    crate::launcher::is_one_of(&themes, theme)
}

/// Checks a configuration: cloud features need an API key or an endpoint,
/// at least 512 MB of VRAM and one indexing thread are needed, and the theme
/// must be light, dark or system. (Watched directories that do not exist are
/// allowed: they may be on removable media.)
pub fn validate_config(config: &AppConfig) -> (r: Result<(), ConfigError>)
    ensures
        config_problem(*config) is None <==> r is Ok,
        config_problem(*config) matches Some(m) ==> (r matches Err(ConfigError::Invalid(x)) && x@ == m),
{
    if config.cloud.enabled && config.cloud.api_key.is_none() && config.cloud.endpoint.is_none() {
        return Err(ConfigError::Invalid(to_string("Cloud enabled but no API key or endpoint configured")));
    }
    if config.performance.max_vram_mb < 512 {
        return Err(ConfigError::Invalid(to_string("max_vram_mb must be at least 512 MB")));
    }
    if config.performance.indexing_threads == 0 {
        return Err(ConfigError::Invalid(to_string("indexing_threads must be at least 1")));
    }
    if !is_valid_theme(config.ui.theme.as_str()) {
        return Err(ConfigError::Invalid(invalid_theme_message(config.ui.theme.as_str())));
    }
    Ok(())
}


/// The settings in memory, with where they are kept. Reading and writing
/// the file, and the backups, happen outside the library; the changes are
/// made here.
#[derive(Debug)]
pub struct ConfigStore {
    /// The current settings.
    pub config: AppConfig,
    /// Where they are kept.
    pub settings: ConfigStoreConfig,
}

/// The directories after `dir` is added: unchanged when it is there.
pub open spec fn with_directory(dirs: Seq<Seq<char>>, dir: Seq<char>) -> Seq<Seq<char>> {
    if dirs.contains(dir) {
        dirs
    } else {
        dirs.push(dir)
    }
}

/// The directories other than `dir`, in order.
pub open spec fn without_directory(dirs: Seq<Seq<char>>, dir: Seq<char>) -> Seq<Seq<char>>
    decreases dirs.len(),
{
    if dirs.len() == 0 {
        Seq::empty()
    } else if dirs.last() == dir {
        without_directory(dirs.drop_last(), dir)
    } else {
        without_directory(dirs.drop_last(), dir).push(dirs.last())
    }
}

/// Whether `v` holds a string equal to `s`.
fn contains_text(v: &Vec<String>, s: &str) -> (r: bool)
    ensures
        r == string_views(v@).contains(s@),
{
    let mut i: usize = 0;
    while i < v.len()
        invariant
            i <= v@.len(),
            forall|k: int| 0 <= k < i ==> v@[k]@ != s@,
        decreases v@.len() - i,
    {
        if str_eq(v[i].as_str(), s) {
            proof {
                assert(string_views(v@)[i as int] == s@);
            }
            return true;
        }
        i = i + 1;
    }
    proof {
        let vs = string_views(v@);
        if vs.contains(s@) {
            let k = choose|k: int| 0 <= k < vs.len() && #[trigger] vs[k] == s@;
            assert(v@[k]@ == s@);
        }
    }
    false
}

impl ConfigStore {
    /// Settings kept at `settings`.
    pub fn with_config(settings: ConfigStoreConfig, config: AppConfig) -> (s: Self)
        ensures
            s.config == config,
            s.settings == settings,
    {
        ConfigStore { config, settings }
    }

    /// The settings file.
    pub fn config_path(&self) -> (p: &str)
        ensures
            p@ == self.settings.config_path@,
    {
        self.settings.config_path.as_str()
    }

    /// The backup directory.
    pub fn backup_dir(&self) -> (p: &str)
        ensures
            p@ == self.settings.backup_dir@,
    {
        self.settings.backup_dir.as_str()
    }

    /// Replaces the watched directories.
    pub fn set_monitored_directories(&mut self, dirs: Vec<String>)
        ensures
            final(self).config.monitored_directories == dirs,
            final(self).config.cloud == old(self).config.cloud,
            final(self).config.privacy == old(self).config.privacy,
            final(self).config.ui == old(self).config.ui,
            final(self).config.performance == old(self).config.performance,
    {
        self.config.monitored_directories = dirs;
    }

    /// Watches `dir` too, unless it is watched already.
    pub fn add_monitored_directory(&mut self, dir: &str)
        ensures
            string_views(final(self).config.monitored_directories@) == with_directory(string_views(old(self).config.monitored_directories@), dir@),
            final(self).config.cloud == old(self).config.cloud,
            final(self).config.privacy == old(self).config.privacy,
            final(self).config.ui == old(self).config.ui,
            final(self).config.performance == old(self).config.performance,
    {
        if !contains_text(&self.config.monitored_directories, dir) {
            let ghost before = string_views(self.config.monitored_directories@);
            self.config.monitored_directories.push(to_string(dir));
            proof {
                assert(string_views(self.config.monitored_directories@) =~= before.push(dir@));
            }
        }
    }

    /// Stops watching `dir`.
    pub fn remove_monitored_directory(&mut self, dir: &str)
        ensures
            string_views(final(self).config.monitored_directories@) == without_directory(string_views(old(self).config.monitored_directories@), dir@),
            final(self).config.cloud == old(self).config.cloud,
            final(self).config.privacy == old(self).config.privacy,
            final(self).config.ui == old(self).config.ui,
            final(self).config.performance == old(self).config.performance,
    {
        let ghost src = string_views(self.config.monitored_directories@);
        let mut kept: Vec<String> = Vec::new();
        let mut i: usize = 0;
        while i < self.config.monitored_directories.len()
            invariant
                src == string_views(self.config.monitored_directories@),
                i <= src.len(),
                string_views(kept@) == without_directory(src.take(i as int), dir@),
            decreases src.len() - i,
        {
            proof {
                assert(src.take(i + 1).drop_last() =~= src.take(i as int));
                assert(src.take(i + 1).last() == src[i as int]);
            }
            if !str_eq(self.config.monitored_directories[i].as_str(), dir) {
                let ghost k0 = string_views(kept@);
                kept.push(self.config.monitored_directories[i].clone());
                proof {
                    assert(string_views(kept@) =~= k0.push(src[i as int]));
                }
            }
            i = i + 1;
        }
        proof {
            assert(src.take(src.len() as int) =~= src);
        }
        self.config.monitored_directories = kept;
    }

    /// Replaces the cloud settings.
    pub fn set_cloud_config(&mut self, cloud: CloudConfig)
        ensures
            final(self).config.cloud == cloud,
            final(self).config.monitored_directories == old(self).config.monitored_directories,
            final(self).config.privacy == old(self).config.privacy,
            final(self).config.ui == old(self).config.ui,
            final(self).config.performance == old(self).config.performance,
    {
        self.config.cloud = cloud;
    }

    /// Turns cloud features on or off.
    pub fn set_cloud_enabled(&mut self, enabled: bool)
        ensures
            final(self).config.cloud == (CloudConfig { enabled, ..old(self).config.cloud }),
            final(self).config.monitored_directories == old(self).config.monitored_directories,
            final(self).config.privacy == old(self).config.privacy,
            final(self).config.ui == old(self).config.ui,
            final(self).config.performance == old(self).config.performance,
    {
        self.config.cloud.enabled = enabled;
    }

    /// Sets the theme.
    pub fn set_theme(&mut self, theme: String)
        ensures
            final(self).config.ui == (UIConfig { theme, ..old(self).config.ui }),
            final(self).config.cloud == old(self).config.cloud,
            final(self).config.privacy == old(self).config.privacy,
            final(self).config.monitored_directories == old(self).config.monitored_directories,
            final(self).config.performance == old(self).config.performance,
    {
        self.config.ui.theme = theme;
    }

    /// Sets the language.
    pub fn set_language(&mut self, language: String)
        ensures
            final(self).config.ui == (UIConfig { language, ..old(self).config.ui }),
            final(self).config.cloud == old(self).config.cloud,
            final(self).config.privacy == old(self).config.privacy,
            final(self).config.monitored_directories == old(self).config.monitored_directories,
            final(self).config.performance == old(self).config.performance,
    {
        self.config.ui.language = language;
    }

    /// Turns privacy mode on or off; turning it on turns cloud features off.
    pub fn set_privacy_mode(&mut self, enabled: bool)
        ensures
            final(self).config.privacy == (PrivacyConfig { privacy_mode: enabled, ..old(self).config.privacy }),
            final(self).config.cloud == (CloudConfig {
                enabled: if enabled { false } else { old(self).config.cloud.enabled },
                ..old(self).config.cloud
            }),
            final(self).config.ui == old(self).config.ui,
            final(self).config.monitored_directories == old(self).config.monitored_directories,
            final(self).config.performance == old(self).config.performance,
    {
        self.config.privacy.privacy_mode = enabled;
        if enabled {
            self.config.cloud.enabled = false;
        }
    }

    /// Replaces the settings, stamped with `now` (RFC 3339).
    pub fn set(&mut self, new_config: AppConfig, now: String)
        ensures
            final(self).config == (AppConfig { last_modified: now, ..new_config }),
            final(self).settings == old(self).settings,
    {
        self.config = new_config;
        self.config.last_modified = now;
    }
}


/// `s` with `x` put before the first text that comes after it.
pub open spec fn insert_text(s: Seq<Seq<char>>, x: Seq<char>) -> Seq<Seq<char>>
    decreases s.len(),
{
    if s.len() == 0 {
        seq![x]
    } else if crate::text::text_lt(x, s[0]) {
        seq![x] + s
    } else {
        seq![s[0]] + insert_text(s.drop_first(), x)
    }
}

/// The texts in order (an insertion sort).
pub open spec fn sort_texts(s: Seq<Seq<char>>) -> Seq<Seq<char>>
    decreases s.len(),
{
    if s.len() == 0 {
        Seq::empty()
    } else {
        insert_text(sort_texts(s.drop_last()), s.last())
    }
}

/// No text comes after one that follows it.
pub open spec fn texts_ordered(s: Seq<Seq<char>>) -> bool {
    forall|i: int, j: int| 0 <= i < j < s.len() ==> !crate::text::text_lt(#[trigger] s[j], #[trigger] s[i])
}

proof fn lemma_insert_text_at(s: Seq<Seq<char>>, x: Seq<char>, p: int)
    requires
        0 <= p <= s.len(),
        forall|k: int| 0 <= k < p ==> !crate::text::text_lt(x, #[trigger] s[k]),
        p < s.len() ==> crate::text::text_lt(x, s[p]),
    ensures
        insert_text(s, x) == s.insert(p, x),
    decreases s.len(),
{
    if s.len() == 0 {
        assert(s.insert(p, x) =~= seq![x]);
    } else if p == 0 {
        assert(s.insert(0, x) =~= seq![x] + s);
    } else {
        let t = s.drop_first();
        assert forall|k: int| 0 <= k < p - 1 implies !crate::text::text_lt(x, #[trigger] t[k]) by {
            assert(t[k] == s[k + 1]);
        }
        lemma_insert_text_at(t, x, p - 1);
        assert(seq![s[0]] + t.insert(p - 1, x) =~= s.insert(p, x));
    }
}

proof fn lemma_insert_text_position(s: Seq<Seq<char>>, x: Seq<char>) -> (p: int)
    ensures
        0 <= p <= s.len(),
        insert_text(s, x) == s.insert(p, x),
        forall|k: int| 0 <= k < p ==> !crate::text::text_lt(x, #[trigger] s[k]),
        p < s.len() ==> crate::text::text_lt(x, s[p]),
    decreases s.len(),
{
    if s.len() == 0 {
        assert(s.insert(0, x) =~= seq![x]);
        0
    } else if crate::text::text_lt(x, s[0]) {
        assert(s.insert(0, x) =~= seq![x] + s);
        0
    } else {
        let t = s.drop_first();
        let q = lemma_insert_text_position(t, x);
        assert(seq![s[0]] + t.insert(q, x) =~= s.insert(q + 1, x));
        assert forall|k: int| 0 <= k < q + 1 implies !crate::text::text_lt(x, #[trigger] s[k]) by {
            if k > 0 {
                assert(s[k] == t[k - 1]);
            }
        }
        if q + 1 < s.len() {
            assert(s[q + 1] == t[q]);
        }
        q + 1
    }
}

proof fn lemma_insert_text_ordered(s: Seq<Seq<char>>, x: Seq<char>)
    requires
        texts_ordered(s),
    ensures
        texts_ordered(insert_text(s, x)),
        insert_text(s, x).len() == s.len() + 1,
{
    let p = lemma_insert_text_position(s, x);
    let r = s.insert(p, x);
    assert forall|i: int, j: int| 0 <= i < j < r.len() implies !crate::text::text_lt(#[trigger] r[j], #[trigger] r[i]) by {
        if j < p {
            assert(r[i] == s[i] && r[j] == s[j]);
        } else if j == p {
            assert(r[i] == s[i]);
        } else if i < p {
            assert(r[i] == s[i] && r[j] == s[j - 1]);
        } else if i == p {
            assert(r[j] == s[j - 1]);
            if p < j - 1 {
                assert(!crate::text::text_lt(s[j - 1], s[p]));
            }
            crate::text::lemma_text_lt_irreflexive(s[p]);
            if crate::text::text_lt(s[j - 1], x) {
                crate::text::lemma_text_lt_transitive(s[j - 1], x, s[p]);
            }
        } else {
            assert(r[i] == s[i - 1] && r[j] == s[j - 1]);
        }
    }
}

/// Sorted texts are in order, and as many as before.
pub proof fn lemma_sort_texts_ordered(s: Seq<Seq<char>>)
    ensures
        texts_ordered(sort_texts(s)),
        sort_texts(s).len() == s.len(),
    decreases s.len(),
{
    if s.len() > 0 {
        lemma_sort_texts_ordered(s.drop_last());
        lemma_insert_text_ordered(sort_texts(s.drop_last()), s.last());
    }
}

/// The paths among `paths` whose extension is `json`, in order.
pub open spec fn json_paths(paths: Seq<Seq<char>>) -> Seq<Seq<char>>
    decreases paths.len(),
{
    if paths.len() == 0 {
        Seq::empty()
    } else if crate::utils::path_extension(paths.last()) == Some("json"@) {
        json_paths(paths.drop_last()).push(paths.last())
    } else {
        json_paths(paths.drop_last())
    }
}

/// The backups in a directory holding `entries`: its `json` files, in order
/// of their paths (oldest first, as the names carry their time).
pub open spec fn backup_list(entries: Seq<Seq<char>>) -> Seq<Seq<char>> {
    sort_texts(json_paths(entries))
}

/// The name of a backup made at `stamp` (`YYYYmmdd_HHMMSS`).
pub open spec fn backup_file_name(stamp: Seq<char>) -> Seq<char> {
    "config_backup_"@ + stamp + ".json"@
}

/// The name of a backup made at `stamp` (`YYYYmmdd_HHMMSS`).
pub fn backup_name(stamp: &str) -> (r: String)
    ensures
        r@ == backup_file_name(stamp@),
{
    let mut v = crate::text::chars_of("config_backup_");
    crate::diluted::append_text(&mut v, stamp);
    crate::diluted::append_text(&mut v, ".json");
    crate::text::string_from_chars(v.as_slice())
}

fn sorted_texts(v: &Vec<String>) -> (r: Vec<String>)
    ensures
        string_views(r@) == sort_texts(string_views(v@)),
{
    let ghost orig = string_views(v@);
    let mut sorted: Vec<String> = Vec::new();
    let mut k: usize = 0;
    proof {
        assert(sort_texts(orig.take(0)) =~= Seq::<Seq<char>>::empty());
    }
    while k < v.len()
        invariant
            orig == string_views(v@),
            k <= v@.len(),
            string_views(sorted@) == sort_texts(orig.take(k as int)),
        decreases v@.len() - k,
    {
        let x = v[k].clone();
        proof {
            assert(x@ == orig[k as int]);
            assert(orig.take(k + 1).drop_last() =~= orig.take(k as int));
            assert(orig.take(k + 1).last() == orig[k as int]);
        }
        let ghost s = string_views(sorted@);
        let mut p: usize = 0;
        while p < sorted.len() && !crate::text::text_less(x.as_str(), sorted[p].as_str())
            invariant
                s == string_views(sorted@),
                p <= sorted@.len(),
                forall|i: int| 0 <= i < p ==> !crate::text::text_lt(x@, #[trigger] s[i]),
            decreases sorted@.len() - p,
        {
            proof {
                assert(s[p as int] == sorted@[p as int]@);
            }
            p = p + 1;
        }
        proof {
            if p < sorted@.len() {
                assert(s[p as int] == sorted@[p as int]@);
            }
            lemma_insert_text_at(s, x@, p as int);
        }
        sorted.insert(p, x);
        proof {
            assert(string_views(sorted@) =~= s.insert(p as int, x@));
        }
        k = k + 1;
    }
    proof {
        assert(orig.take(v@.len() as int) =~= orig);
    }
    sorted
}

impl ConfigStore {
    /// The backups among the entries of the backup directory (full paths):
    /// its `json` files, oldest first.
    pub fn list_backups(&self, entries: &[String]) -> (r: Vec<String>)
        ensures
            string_views(r@) == backup_list(string_views(entries@)),
    {
        let mut json: Vec<String> = Vec::new();
        let mut i: usize = 0;
        while i < entries.len()
            invariant
                i <= entries@.len(),
                string_views(json@) == json_paths(string_views(entries@).take(i as int)),
            decreases entries@.len() - i,
        {
            let ghost e = string_views(entries@);
            proof {
                assert(e.take(i + 1).drop_last() =~= e.take(i as int));
                assert(e.take(i + 1).last() == entries@[i as int]@);
            }
            let is_json = match crate::utils::file_extension(entries[i].as_str()) {
                Some(x) => crate::text::str_eq(x.as_str(), "json"),
                None => false,
            };
            proof {
                reveal_strlit("json");
            }
            if is_json {
                let ghost before = string_views(json@);
                json.push(entries[i].clone());
                proof {
                    assert(string_views(json@) =~= before.push(entries@[i as int]@));
                }
            }
            i = i + 1;
        }
        proof {
            assert(string_views(entries@).take(entries@.len() as int) =~= string_views(entries@));
        }
        sorted_texts(&json)
    }

    /// The backups to delete so that at most `max_backups` stay: the oldest
    /// ones beyond the limit.
    pub fn backups_to_remove(&self, entries: &[String]) -> (r: Vec<String>)
        ensures
            string_views(r@) == if backup_list(string_views(entries@)).len() > self.settings.max_backups {
                backup_list(string_views(entries@)).take(backup_list(string_views(entries@)).len() - self.settings.max_backups)
            } else {
                Seq::empty()
            },
    {
        let all = self.list_backups(entries);
        let mut r: Vec<String> = Vec::new();
        if all.len() > self.settings.max_backups {
            let extra = all.len() - self.settings.max_backups;
            let mut i: usize = 0;
            while i < extra
                invariant
                    extra <= all@.len(),
                    i <= extra,
                    string_views(r@) == string_views(all@).take(i as int),
                decreases extra - i,
            {
                let ghost before = string_views(r@);
                r.push(all[i].clone());
                proof {
                    assert(string_views(r@) =~= before.push(all@[i as int]@));
                    assert(string_views(all@).take(i + 1) =~= string_views(all@).take(i as int).push(all@[i as int]@));
                }
                i = i + 1;
            }
        } else {
            proof {
                assert(string_views(r@) =~= Seq::<Seq<char>>::empty());
            }
        }
        r
    }
}

} // verus!
