use neural_fs::embeddings::{EmbeddingError, ModelLoadingState, ModelType};
use neural_fs::model_manager::{LoadStep, ModelManager};
use neural_fs::vram::{VRAMManager, MB};

#[test]
fn test_model_lifecycle() {
    let mut m = ModelManager::new("/models".to_string(), VRAMManager::new(4096));
    assert_eq!(m.get_model_path(ModelType::ImageEmbedding), "/models/clip-vit-base-patch32.onnx");
    assert_eq!(m.get_model_state(ModelType::TextEmbedding, false), ModelLoadingState::Missing);
    assert_eq!(m.get_model_state(ModelType::TextEmbedding, true), ModelLoadingState::Ready);

    match m.begin_load(ModelType::TextEmbedding, false) {
        Err(EmbeddingError::ModelNotFound { path }) => assert_eq!(path, "/models/all-MiniLM-L6-v2.onnx"),
        _ => panic!("missing model loaded"),
    }
    assert_eq!(m.begin_load(ModelType::TextEmbedding, true).unwrap(), LoadStep::CreateSession);
    assert_eq!(m.get_model_state(ModelType::TextEmbedding, true), ModelLoadingState::Loading);
    match m.begin_load(ModelType::TextEmbedding, true) {
        Err(EmbeddingError::ModelLoading { model_type }) => assert_eq!(model_type, "TextEmbedding"),
        _ => panic!("loading twice"),
    }
    m.finish_load(ModelType::TextEmbedding, 42);
    assert!(m.is_model_loaded(ModelType::TextEmbedding));
    assert_eq!(m.get_loaded_models(), vec![ModelType::TextEmbedding]);
    assert_eq!(m.vram().get_status().used_bytes, 256 * MB);
    assert_eq!(m.begin_load(ModelType::TextEmbedding, true).unwrap(), LoadStep::AlreadyLoaded);

    m.unload_model(ModelType::TextEmbedding);
    assert!(!m.is_model_loaded(ModelType::TextEmbedding));
    assert_eq!(m.vram().get_status().used_bytes, 0);
    assert_eq!(m.get_model_state(ModelType::TextEmbedding, false), ModelLoadingState::Missing);
}

#[test]
fn test_model_failure_and_vram_shortage() {
    let mut m = ModelManager::new("/models".to_string(), VRAMManager::new(300));
    assert_eq!(m.begin_load(ModelType::ImageEmbedding, true).unwrap_err().is_retryable(), true);
    match m.get_model_state(ModelType::ImageEmbedding, true) {
        ModelLoadingState::Failed { reason } => {
            assert_eq!(reason, "Failed to free VRAM: Cannot free enough VRAM: need 512 MB, can free 0 MB")
        }
        other => panic!("unexpected state {:?}", other),
    }
    match m.begin_load(ModelType::ImageEmbedding, true) {
        Err(EmbeddingError::ModelFailed { model_type, .. }) => assert_eq!(model_type, "ImageEmbedding"),
        _ => panic!("failed model loaded"),
    }
    m.fail_load(ModelType::FastText, "bad file".to_string());
    assert!(m.get_model_state(ModelType::FastText, true).is_failed());

    // an older model is evicted to make room
    let mut m = ModelManager::new("/models".to_string(), VRAMManager::new(600));
    m.begin_load(ModelType::ImageEmbedding, true).unwrap();
    m.finish_load(ModelType::ImageEmbedding, 1);
    assert_eq!(m.begin_load(ModelType::TextEmbedding, true).unwrap(), LoadStep::CreateSession);
    assert_eq!(m.vram().get_status().loaded_models, 0);
}
