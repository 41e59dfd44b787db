use neural_fs::chunk::ChunkType;
use neural_fs::diluted::{DilutedAttentionConfig, DilutedAttentionProcessor, Token};
use neural_fs::embeddings::{EmbeddingConfig, EmbeddingError, ModelId, ModelLoadingState, ModelType};
use neural_fs::text_embedder::{simple_token_id, tokenize_batch};
use neural_fs::vram::{ModelInfo, VRAMManager, MB};

#[test]
fn test_default_config() {
    let config = EmbeddingConfig::default();
    assert_eq!(config.max_vram_mb, 4096);
    assert!(config.use_gpu);
    assert_eq!(config.batch_size, 32);
}

#[test]
fn test_model_type_properties() {
    assert_eq!(ModelType::TextEmbedding.embedding_dim(), 384);
    assert_eq!(ModelType::ImageEmbedding.embedding_dim(), 512);
    assert_eq!(ModelType::FastText.embedding_dim(), 384);
    assert_eq!(ModelType::AccurateText.embedding_dim(), 768);
}

#[test]
fn test_model_type_vram() {
    assert_eq!(ModelType::TextEmbedding.estimated_vram_mb(), 256);
    assert_eq!(ModelType::ImageEmbedding.estimated_vram_mb(), 512);
}

#[test]
fn test_state_is_ready() {
    assert!(ModelLoadingState::Ready.is_ready());
    assert!(!ModelLoadingState::Missing.is_ready());
    assert!(!ModelLoadingState::Loading.is_ready());
}

#[test]
fn test_state_is_loading() {
    assert!(ModelLoadingState::Loading.is_loading());
    assert!(ModelLoadingState::Downloading { progress: 0.5f32.to_bits() }.is_loading());
    assert!(!ModelLoadingState::Ready.is_loading());
    assert!(!ModelLoadingState::Missing.is_loading());
}

#[test]
fn test_state_is_failed() {
    assert!(ModelLoadingState::Failed { reason: "test".to_string() }.is_failed());
    assert!(!ModelLoadingState::Ready.is_failed());
    assert!(!ModelLoadingState::Loading.is_failed());
}

#[test]
fn test_error_retryable() {
    let err = EmbeddingError::ModelLoading { model_type: "test".to_string() };
    assert!(err.is_retryable());
    let err = EmbeddingError::ModelNotFound { path: "test".to_string() };
    assert!(!err.is_retryable());
    let err = EmbeddingError::VRAMInsufficient { needed_mb: 512, available_mb: 256 };
    assert!(err.is_retryable());
}

#[test]
fn test_error_should_degrade() {
    let err = EmbeddingError::ModelNotFound { path: "test".to_string() };
    assert!(err.should_degrade());
    let err = EmbeddingError::ModelNotLoaded { model_type: "test".to_string() };
    assert!(err.should_degrade());
    let err = EmbeddingError::InferenceFailed { reason: "test".to_string() };
    assert!(!err.should_degrade());
}

fn model(id: u64, mb: u64, last_used: u64) -> ModelInfo {
    ModelInfo { id: ModelId(id), name: format!("model_{}", id), vram_bytes: mb * MB, last_used, use_count: 0 }
}

#[test]
fn test_vram_manager_bookkeeping() {
    let mut manager = VRAMManager::new(4096);
    let status = manager.get_status();
    assert_eq!(status.used_bytes, 0);
    assert_eq!(status.max_bytes, 4096 * 1024 * 1024);
    assert_eq!(status.loaded_models, 0);

    manager.register_model(model(1, 256, 10));
    let status = manager.get_status();
    assert_eq!(status.used_bytes, 256 * 1024 * 1024);
    assert_eq!(status.loaded_models, 1);

    manager.record_model_use(ModelId(1), 20);
    let models = manager.get_loaded_models();
    assert_eq!(models.len(), 1);
    assert_eq!(models[0].use_count, 1);
    assert_eq!(models[0].last_used, 20);

    manager.unregister_model(ModelId(1));
    let status = manager.get_status();
    assert_eq!(status.used_bytes, 0);
    assert_eq!(status.loaded_models, 0);
}

#[test]
fn test_vram_availability_and_eviction() {
    let mut manager = VRAMManager::new(1024);
    assert!(manager.has_available_vram(512 * 1024 * 1024));
    assert!(manager.has_available_vram(1024 * 1024 * 1024));
    assert!(!manager.has_available_vram(2048 * 1024 * 1024));

    manager.register_model(model(1, 400, 30));
    manager.register_model(model(2, 400, 10));
    manager.register_model(model(3, 100, 20));
    assert_eq!(manager.available_vram(), 124 * MB);
    // The least recently used models leave first, until enough is free.
    let evicted = manager.evict_models(500 * MB).unwrap();
    assert_eq!(evicted, vec![ModelId(2), ModelId(3)]);
    assert_eq!(manager.available_vram(), 624 * MB);
    assert!(manager.evict_models(4096 * MB).is_err());
    manager.evict_all_models();
    assert_eq!(manager.get_status().loaded_models, 0);
    assert_eq!(manager.get_status().used_bytes, 0);
}

#[test]
fn test_tokenize_simple() {
    let processor = DilutedAttentionProcessor::with_defaults();
    let tokens = processor.tokenize("hello world test");
    assert_eq!(tokens.len(), 3);
    assert_eq!(tokens[0], Token::Word("hello".to_string()));
    assert_eq!(tokens[1], Token::Word("world".to_string()));
    assert_eq!(tokens[2], Token::Word("test".to_string()));
}

#[test]
fn test_detokenize() {
    let processor = DilutedAttentionProcessor::with_defaults();
    let tokens = vec![Token::Word("hello".to_string()), Token::Word("world".to_string())];
    let text = processor.detokenize(&tokens);
    assert_eq!(text, "hello world");
}

#[test]
fn test_short_document_single_window() {
    let config = DilutedAttentionConfig { window_size: 100, max_seq_length: 200, ..Default::default() };
    let processor = DilutedAttentionProcessor::new(config);
    let content = "This is a short document with few words";
    let windows = processor.process_document(content);
    assert_eq!(windows.len(), 1);
    assert_eq!(windows[0].window_index, 0);
}

#[test]
fn test_long_document_multiple_windows() {
    let config = DilutedAttentionConfig {
        window_size: 5,
        max_seq_length: 10,
        overlap_permille: 500,
        dilution_factor: 2,
        max_global_context: 10,
    };
    let processor = DilutedAttentionProcessor::new(config);
    let words: Vec<&str> = (0..20)
        .map(|i| match i % 4 {
            0 => "alpha",
            1 => "beta",
            2 => "gamma",
            _ => "delta",
        })
        .collect();
    let content = words.join(" ");
    let windows = processor.process_document(&content);
    assert!(windows.len() > 1);
    for window in &windows {
        assert!(!window.global_tokens.is_empty());
    }
}

#[test]
fn test_window_layout() {
    let config = DilutedAttentionConfig {
        window_size: 5,
        max_seq_length: 10,
        overlap_permille: 500,
        dilution_factor: 2,
        max_global_context: 10,
    };
    let processor = DilutedAttentionProcessor::new(config);
    let content = (0..20).map(|i| format!("w{}", i)).collect::<Vec<_>>().join(" ");
    let windows = processor.process_document(&content);
    // step 3: windows start at words 0, 3, 6, ..., 18
    assert_eq!(windows.len(), 7);
    assert_eq!(windows[1].local_tokens[0], Token::Word("w3".to_string()));
    assert_eq!(windows[0].start_offset, 0);
    assert_eq!(&content[windows[1].start_offset..windows[1].end_offset], "w3 w4 w5 w6 w7");
    assert_eq!(windows[6].local_tokens.len(), 2);
    assert_eq!(windows[0].global_tokens.len(), 10);
    assert_eq!(windows[0].global_tokens[1], Token::Word("w2".to_string()));
}

#[test]
fn test_combine_context_format() {
    let processor = DilutedAttentionProcessor::with_defaults();
    let local = vec![Token::Word("local".to_string()), Token::Word("content".to_string())];
    let global = vec![Token::Word("global".to_string())];
    let combined = processor.combine_context(&local, &global);
    assert_eq!(combined[0], Token::CLS);
    assert_eq!(combined[1], Token::Word("global".to_string()));
    assert_eq!(combined[2], Token::SEP);
    assert_eq!(combined[3], Token::Word("local".to_string()));
    assert_eq!(combined[4], Token::Word("content".to_string()));
    assert_eq!(combined[5], Token::SEP);
}

#[test]
fn test_coverage_complete() {
    let config = DilutedAttentionConfig { window_size: 10, max_seq_length: 20, overlap_permille: 500, ..Default::default() };
    let processor = DilutedAttentionProcessor::new(config);
    let content = "word1 word2 word3 word4 word5 word6 word7 word8 word9 word10";
    let windows = processor.process_document(content);
    let stats = processor.calculate_coverage(content, &windows);
    assert!(stats.is_complete(), "covered {} of {}", stats.covered_chars, stats.total_chars);
}

#[test]
fn test_windows_to_chunks() {
    let processor = DilutedAttentionProcessor::with_defaults();
    let content = "This is test content for chunking";
    let file_id: u128 = 0x1234_5678_9abc_def0_1234_5678_9abc_def0;
    let chunks = processor.process_to_chunks(content, file_id);
    assert!(!chunks.is_empty());
    for chunk in &chunks {
        assert_eq!(chunk.file_id, file_id);
        assert_eq!(chunk.chunk_type, ChunkType::Paragraph);
    }
}

#[test]
fn test_needs_diluted_processing() {
    let config = DilutedAttentionConfig { window_size: 2, max_seq_length: 3, ..Default::default() };
    let processor = DilutedAttentionProcessor::new(config);
    assert!(!processor.needs_diluted_processing("a b c"));
    assert!(processor.needs_diluted_processing("a b c d"));
}

#[test]
fn test_token_id_hash() {
    // "a" = 97 -> 97 % 30000 + 1000
    assert_eq!(simple_token_id("a"), 1097);
    // "ab" = 97 * 31 + 98 = 3105
    assert_eq!(simple_token_id("ab"), 4105);
    assert_eq!(simple_token_id(""), 1000);
}

#[test]
fn test_tokenize_batch_rows() {
    let batch = tokenize_batch(&["ab a", ""], 5);
    assert_eq!(batch.input_ids, vec![vec![101, 4105, 1097, 102, 0], vec![101, 102, 0, 0, 0]]);
    assert_eq!(batch.attention_mask, vec![vec![1, 1, 1, 1, 0], vec![1, 1, 0, 0, 0]]);
    assert_eq!(batch.token_type_ids, vec![vec![0; 5], vec![0; 5]]);
    // Words beyond the row's room are dropped; [SEP] still closes the row.
    let batch = tokenize_batch(&["a a a a a"], 4);
    assert_eq!(batch.input_ids, vec![vec![101, 1097, 1097, 102]]);
}

#[test]
fn test_window_size_bounded() {
    for window_size in [10usize, 13, 50] {
        for word_count in [1usize, 9, 10, 11, 15, 20, 21, 99] {
            let content = (0..word_count).map(|i| format!("x{}", i)).collect::<Vec<_>>().join(" ");
            let config = DilutedAttentionConfig {
                window_size,
                max_seq_length: window_size * 2,
                overlap_permille: 500,
                dilution_factor: 4,
                max_global_context: 64,
            };
            let processor = DilutedAttentionProcessor::new(config);
            let windows = processor.process_document(&content);
            for window in &windows {
                assert!(window.local_tokens.len() <= window_size);
            }
            if word_count <= window_size {
                assert_eq!(windows.len(), 1);
            }
        }
    }
}
