//! NeuralFS core library: the verified logic of the NeuralFS file-system shell.

pub mod text;
pub mod numbers;
pub mod clock;
pub mod indexer;
pub mod errors;
pub mod utils;
pub mod runtime;
pub mod chunk;
pub mod diluted;
pub mod embeddings;
pub mod text_embedder;
pub mod vram;
pub mod launcher;
pub mod navigator;
pub mod db;
pub mod asset;
pub mod config;
pub mod config_commands;
pub mod core_config;
pub mod config_migration;
pub mod commands;
pub mod search;
pub mod inference;
pub mod cloud;
pub mod anonymizer;
pub mod prompt;
pub mod inference_cache;
pub mod tags;
pub mod onboarding;
pub mod model_manager;
pub mod watchdog_args;
