//! Embedding engine settings, model kinds, errors and model states.
//!
//! Paths are held as strings; the models directory is joined with a model's
//! file name as `Path::join` does.

use vstd::prelude::*;
use crate::utils::{join_path, path_join};

verus! {

/// Settings of the embedding engine.
#[derive(Debug, Clone)]
pub struct EmbeddingConfig {
    /// Directory holding the ONNX model files.
    pub models_dir: String,
    /// The most VRAM to use, in MB.
    pub max_vram_mb: u64,
    /// Text model settings.
    pub text_config: TextEmbeddingConfig,
    /// Image model settings.
    pub image_config: ImageEmbeddingConfig,
    /// Whether to use the GPU.
    pub use_gpu: bool,
    /// Items per embedding batch.
    pub batch_size: usize,
}

/// Settings of the text embedding model.
#[derive(Debug, Clone)]
pub struct TextEmbeddingConfig {
    /// Model file, relative to the models directory.
    pub model_file: String,
    /// Vocabulary file of the tokenizer.
    pub vocab_file: String,
    /// Longest input, in tokens.
    pub max_seq_length: usize,
    /// Dimension of the embeddings.
    pub embedding_dim: usize,
    /// Estimated VRAM, in MB.
    pub vram_mb: u64,
}

/// Settings of the image embedding model (CLIP).
#[derive(Debug, Clone)]
pub struct ImageEmbeddingConfig {
    /// Model file, relative to the models directory.
    pub model_file: String,
    /// Width and height of the model's input image.
    pub image_size: u32,
    /// Dimension of the embeddings.
    pub embedding_dim: usize,
    /// Estimated VRAM, in MB.
    pub vram_mb: u64,
}

impl Default for TextEmbeddingConfig {
    fn default() -> (c: Self)
        ensures
            c.model_file@ == "all-MiniLM-L6-v2.onnx"@,
            c.vocab_file@ == "vocab.txt"@,
            c.max_seq_length == 256,
            c.embedding_dim == 384,
            c.vram_mb == 256,
    {
        TextEmbeddingConfig {
            model_file: "all-MiniLM-L6-v2.onnx".to_owned(),
            vocab_file: "vocab.txt".to_owned(),
            max_seq_length: 256,
            embedding_dim: 384,
            vram_mb: 256,
        }
    }
}

impl Default for ImageEmbeddingConfig {
    fn default() -> (c: Self)
        ensures
            c.model_file@ == "clip-vit-base-patch32.onnx"@,
            c.image_size == 224,
            c.embedding_dim == 512,
            c.vram_mb == 512,
    {
        ImageEmbeddingConfig {
            model_file: "clip-vit-base-patch32.onnx".to_owned(),
            image_size: 224,
            embedding_dim: 512,
            vram_mb: 512,
        }
    }
}

impl Default for EmbeddingConfig {
    fn default() -> (c: Self)
        ensures
            c.models_dir@ == "models"@,
            c.max_vram_mb == 4096,
            c.text_config.model_file@ == "all-MiniLM-L6-v2.onnx"@,
            c.text_config.max_seq_length == 256,
            c.text_config.embedding_dim == 384,
            c.image_config.model_file@ == "clip-vit-base-patch32.onnx"@,
            c.image_config.image_size == 224,
            c.image_config.embedding_dim == 512,
            c.use_gpu,
            c.batch_size == 32,
    {
        EmbeddingConfig {
            models_dir: "models".to_owned(),
            max_vram_mb: 4096,
            text_config: TextEmbeddingConfig::default(),
            image_config: ImageEmbeddingConfig::default(),
            use_gpu: true,
            batch_size: 32,
        }
    }
}

/// The kinds of model.
#[derive(Debug, Clone, Copy, PartialEq, Eq, Hash, Structural)]
pub enum ModelType {
    /// Text embeddings (all-MiniLM-L6-v2).
    TextEmbedding,
    /// Image embeddings (CLIP).
    ImageEmbedding,
    /// Fast text model.
    FastText,
    /// Accurate text model.
    AccurateText,
}

/// The position of a model kind in the list of kinds, from 0.
pub open spec fn model_type_index(t: ModelType) -> u64 {
    match t {
        ModelType::TextEmbedding => 0,
        ModelType::ImageEmbedding => 1,
        ModelType::FastText => 2,
        ModelType::AccurateText => 3,
    }
}

impl ModelType {
    /// The model file of this kind.
    pub fn default_filename(&self) -> (r: &'static str)
        ensures
            r@ == match *self {
                ModelType::TextEmbedding => "all-MiniLM-L6-v2.onnx"@,
                ModelType::ImageEmbedding => "clip-vit-base-patch32.onnx"@,
                ModelType::FastText => "all-MiniLM-L6-v2.onnx"@,
                ModelType::AccurateText => "bge-base-en-v1.5.onnx"@,
            },
    {
        match self {
            ModelType::TextEmbedding => "all-MiniLM-L6-v2.onnx",
            ModelType::ImageEmbedding => "clip-vit-base-patch32.onnx",
            ModelType::FastText => "all-MiniLM-L6-v2.onnx",
            ModelType::AccurateText => "bge-base-en-v1.5.onnx",
        }
    }

    /// The dimension of this kind's embeddings.
    pub fn embedding_dim(&self) -> (r: usize)
        ensures
            r == match *self {
                ModelType::TextEmbedding => 384usize,
                ModelType::ImageEmbedding => 512usize,
                ModelType::FastText => 384usize,
                ModelType::AccurateText => 768usize,
            },
    {
        match self {
            ModelType::TextEmbedding => 384,
            ModelType::ImageEmbedding => 512,
            ModelType::FastText => 384,
            ModelType::AccurateText => 768,
        }
    }

    /// The estimated VRAM of this kind, in MB.
    pub fn estimated_vram_mb(&self) -> (r: u64)
        ensures
            r == match *self {
                ModelType::TextEmbedding => 256u64,
                ModelType::ImageEmbedding => 512u64,
                ModelType::FastText => 256u64,
                ModelType::AccurateText => 512u64,
            },
    {
        match self {
            ModelType::TextEmbedding => 256,
            ModelType::ImageEmbedding => 512,
            ModelType::FastText => 256,
            ModelType::AccurateText => 512,
        }
    }
}

/// Settings of one model.
#[derive(Debug, Clone)]
pub struct ModelConfig {
    /// The kind of model.
    pub model_type: ModelType,
    /// The model file.
    pub model_path: String,
    /// Dimension of the embeddings.
    pub embedding_dim: usize,
    /// Longest input (text models).
    pub max_input_length: Option<usize>,
    /// Input image size (image models).
    pub input_image_size: Option<u32>,
    /// Estimated VRAM, in MB.
    pub vram_mb: u64,
    /// Whether to use the GPU.
    pub use_gpu: bool,
}

impl ModelConfig {
    /// The text embedding model in `models_dir`.
    pub fn text_embedding(models_dir: &str, use_gpu: bool) -> (c: Self)
        ensures
            c.model_type == ModelType::TextEmbedding,
            c.model_path@ == path_join(models_dir@, "all-MiniLM-L6-v2.onnx"@),
            c.embedding_dim == 384,
            c.max_input_length == Some(256usize),
            c.input_image_size is None,
            c.vram_mb == 256,
            c.use_gpu == use_gpu,
    {
        ModelConfig {
            model_type: ModelType::TextEmbedding,
            model_path: join_path(models_dir, "all-MiniLM-L6-v2.onnx"),
            embedding_dim: 384,
            max_input_length: Some(256),
            input_image_size: None,
            vram_mb: 256,
            use_gpu,
        }
    }

    /// The image embedding model in `models_dir`.
    pub fn image_embedding(models_dir: &str, use_gpu: bool) -> (c: Self)
        ensures
            c.model_type == ModelType::ImageEmbedding,
            c.model_path@ == path_join(models_dir@, "clip-vit-base-patch32.onnx"@),
            c.embedding_dim == 512,
            c.max_input_length is None,
            c.input_image_size == Some(224u32),
            c.vram_mb == 512,
            c.use_gpu == use_gpu,
    {
        ModelConfig {
            model_type: ModelType::ImageEmbedding,
            model_path: join_path(models_dir, "clip-vit-base-patch32.onnx"),
            embedding_dim: 512,
            max_input_length: None,
            input_image_size: Some(224),
            vram_mb: 512,
            use_gpu,
        }
    }
}

/// Identifier of a loaded model.
#[derive(Debug, Clone, Copy, PartialEq, Eq, Hash, Structural)]
pub struct ModelId(pub u64);

impl ModelId {
    /// The identifier of a model kind: its position among the kinds.
    pub fn from_type(model_type: ModelType) -> (id: Self)
        ensures
            id.0 == model_type_index(model_type),
    {
        match model_type {
            ModelType::TextEmbedding => ModelId(0),
            ModelType::ImageEmbedding => ModelId(1),
            ModelType::FastText => ModelId(2),
            ModelType::AccurateText => ModelId(3),
        }
    }
}

/// Where a model is in the loading pipeline.
#[derive(Debug, Clone, PartialEq)]
pub enum ModelLoadingState {
    /// The file is missing.
    Missing,
    /// The file is being downloaded; `progress` is the bit pattern of an `f32`
    /// between 0 and 1.
    Downloading { progress: u32 },
    /// The model is being loaded.
    Loading,
    /// The model is ready.
    Ready,
    /// Loading failed.
    Failed { reason: String },
}

impl ModelLoadingState {
    /// Whether the model is ready for inference.
    pub fn is_ready(&self) -> (r: bool)
        ensures
            r == (*self is Ready),
    {
        match self {
            ModelLoadingState::Ready => true,
            _ => false,
        }
    }

    /// Whether the model is being downloaded or loaded.
    pub fn is_loading(&self) -> (r: bool)
        ensures
            r == (*self is Downloading || *self is Loading),
    {
        match self {
            ModelLoadingState::Downloading { .. } => true,
            ModelLoadingState::Loading => true,
            _ => false,
        }
    }

    /// Whether loading failed.
    pub fn is_failed(&self) -> (r: bool)
        ensures
            r == (*self is Failed),
    {
        match self {
            ModelLoadingState::Failed { .. } => true,
            _ => false,
        }
    }
}

/// Errors of the embedding engine.
#[derive(Debug)]
pub enum EmbeddingError {
    ModelNotFound { path: String },
    ModelNotLoaded { model_type: String },
    ModelLoading { model_type: String },
    ModelLoadFailed { reason: String },
    ModelFailed { model_type: String, reason: String },
    VRAMInsufficient { needed_mb: u64, available_mb: u64 },
    InferenceFailed { reason: String },
    TokenizationFailed { reason: String },
    ImageProcessingFailed { reason: String },
    InvalidInput { reason: String },
    OnnxError(String),
    IoError(std::io::Error),
    DownloadFailed { reason: String },
    ConfigError { reason: String },
}

impl EmbeddingError {
    /// Whether the operation may succeed when tried again: while a model loads,
    /// after a failed inference, or when VRAM is short.
    pub fn is_retryable(&self) -> (r: bool)
        ensures
            r == (*self is ModelLoading || *self is InferenceFailed || *self is VRAMInsufficient),
    {
        match self {
            EmbeddingError::ModelLoading { .. } => true,
            EmbeddingError::InferenceFailed { .. } => true,
            EmbeddingError::VRAMInsufficient { .. } => true,
            _ => false,
        }
    }

    /// How long to wait before trying again, in milliseconds.
    pub fn retry_delay_ms(&self) -> (r: Option<u64>)
        ensures
            r == if *self is ModelLoading {
                Some(1000u64)
            } else if *self is InferenceFailed {
                Some(100u64)
            } else if *self is VRAMInsufficient {
                Some(2000u64)
            } else {
                None
            },
    {
        match self {
            EmbeddingError::ModelLoading { .. } => Some(1000),
            EmbeddingError::InferenceFailed { .. } => Some(100),
            EmbeddingError::VRAMInsufficient { .. } => Some(2000),
            _ => None,
        }
    }

    /// Whether the engine should fall back to a degraded mode: the model is
    /// missing, not loaded, failed, or does not fit in VRAM.
    pub fn should_degrade(&self) -> (r: bool)
        ensures
            r == (*self is ModelNotFound || *self is ModelNotLoaded || *self is ModelFailed || *self is VRAMInsufficient),
    {
        match self {
            EmbeddingError::ModelNotFound { .. } => true,
            EmbeddingError::ModelNotLoaded { .. } => true,
            EmbeddingError::ModelFailed { .. } => true,
            EmbeddingError::VRAMInsufficient { .. } => true,
            _ => false,
        }
    }
}

impl From<std::io::Error> for EmbeddingError {
    fn from(e: std::io::Error) -> (r: Self) {
        EmbeddingError::IoError(e)
    }
}

impl vstd::std_specs::convert::FromSpecImpl<std::io::Error> for EmbeddingError {
    open spec fn obeys_from_spec() -> bool {
        true
    }

    open spec fn from_spec(e: std::io::Error) -> Self {
        EmbeddingError::IoError(e)
    }
}

} // verus!
