//! The core's own view of the settings: the parts the indexing and search
//! core reads, with their defaults.

use vstd::prelude::*;
use crate::text::{string_views, to_string};

verus! {

/// The settings the core reads.
#[derive(Debug, Clone)]
pub struct AppConfig {
    pub monitored_directories: Vec<String>,
    pub cloud: CloudConfig,
    pub performance: PerformanceConfig,
    pub privacy: PrivacyConfig,
    pub ui: UIConfig,
}

/// Cloud settings.
#[derive(Debug, Clone)]
pub struct CloudConfig {
    pub enabled: bool,
    pub endpoint: Option<String>,
    /// Monthly cost limit in USD, as the bit pattern of an `f64`.
    pub monthly_cost_limit: u64,
    pub requests_per_minute: u32,
    pub model: String,
}

/// Performance settings.
#[derive(Debug, Clone, Copy, PartialEq, Eq, Structural)]
pub struct PerformanceConfig {
    pub max_vram_mb: u32,
    pub indexing_threads: u32,
    pub embedding_batch_size: u32,
    pub enable_cuda: bool,
}

/// Privacy settings.
#[derive(Debug, Clone)]
pub struct PrivacyConfig {
    pub privacy_mode: bool,
    pub excluded_directories: Vec<String>,
    pub excluded_patterns: Vec<String>,
}

/// Interface settings.
#[derive(Debug, Clone)]
pub struct UIConfig {
    pub theme: String,
    pub language: String,
    pub enable_animations: bool,
}

impl Default for CloudConfig {
    fn default() -> (c: Self)
        ensures
            !c.enabled,
            c.endpoint is None,
            c.monthly_cost_limit == 0x4024_0000_0000_0000,
            c.requests_per_minute == 60,
            c.model@ == "gpt-4o-mini"@,
    {
        CloudConfig {
            enabled: false,
            endpoint: None,
            monthly_cost_limit: 0x4024_0000_0000_0000,
            requests_per_minute: 60,
            model: to_string("gpt-4o-mini"),
        }
    }
}

impl Default for PerformanceConfig {
    /// 4 GB of VRAM (room to spare on a 6 GB card), 4 threads, batches of 32,
    /// CUDA on.
    fn default() -> (c: Self)
        ensures
            c.max_vram_mb == 4096,
            c.indexing_threads == 4,
            c.embedding_batch_size == 32,
            c.enable_cuda,
    {
        PerformanceConfig { max_vram_mb: 4096, indexing_threads: 4, embedding_batch_size: 32, enable_cuda: true }
    }
}

impl Default for PrivacyConfig {
    fn default() -> (c: Self)
        ensures
            !c.privacy_mode,
            c.excluded_directories@.len() == 0,
            string_views(c.excluded_patterns@) == seq!["*.tmp"@, "*.log"@, "node_modules"@, ".git"@],
    {
        let mut p: Vec<String> = Vec::new();
        p.push(to_string("*.tmp"));
        p.push(to_string("*.log"));
        p.push(to_string("node_modules"));
        p.push(to_string(".git"));
        proof {
            assert(string_views(p@) =~= seq!["*.tmp"@, "*.log"@, "node_modules"@, ".git"@]);
        }
        PrivacyConfig { privacy_mode: false, excluded_directories: Vec::new(), excluded_patterns: p }
    }
}

impl Default for UIConfig {
    fn default() -> (c: Self)
        ensures
            c.theme@ == "dark"@,
            c.language@ == "zh-CN"@,
            c.enable_animations,
    {
        UIConfig { theme: to_string("dark"), language: to_string("zh-CN"), enable_animations: true }
    }
}

impl Default for AppConfig {
    fn default() -> (c: Self)
        ensures
            c.monitored_directories@.len() == 0,
            !c.cloud.enabled,
            c.cloud.endpoint is None,
            c.cloud.monthly_cost_limit == 0x4024_0000_0000_0000,
            c.cloud.requests_per_minute == 60,
            c.cloud.model@ == "gpt-4o-mini"@,
            c.performance.max_vram_mb == 4096,
            c.performance.indexing_threads == 4,
            c.performance.embedding_batch_size == 32,
            c.performance.enable_cuda,
            !c.privacy.privacy_mode,
            c.privacy.excluded_directories@.len() == 0,
            string_views(c.privacy.excluded_patterns@) == seq!["*.tmp"@, "*.log"@, "node_modules"@, ".git"@],
            c.ui.theme@ == "dark"@,
            c.ui.language@ == "zh-CN"@,
            c.ui.enable_animations,
    {
        AppConfig {
            monitored_directories: Vec::new(),
            cloud: CloudConfig::default(),
            performance: PerformanceConfig::default(),
            privacy: PrivacyConfig::default(),
            ui: UIConfig::default(),
        }
    }
}

} // verus!
