//! Lazy loading of the embedding models: the loading state of each model
//! kind, which models are loaded, and their share of the VRAM.
//!
//! Loading a model is split in two: `begin_load` decides, from the state and
//! the VRAM, whether an inference session must be created (evicting other
//! models when VRAM runs short); the caller creates it and reports back with
//! `finish_load` or `fail_load`.

use vstd::prelude::*;
use crate::embeddings::{ModelType, ModelId, ModelLoadingState, EmbeddingError};
use crate::vram::{VRAMManager, ModelInfo, MB};
use crate::utils::path_join;

verus! {

/// What a load asks the caller to do next.
#[derive(Debug, Clone, Copy, PartialEq, Eq, Structural)]
pub enum LoadStep {
    /// The model is loaded already; its session can be used.
    AlreadyLoaded,
    /// Create the model's inference session, then report with `finish_load`
    /// or `fail_load`.
    CreateSession,
}

/// The name of a model kind, as `Debug` writes it.
pub open spec fn model_type_name(t: ModelType) -> Seq<char> {
    match t {
        ModelType::TextEmbedding => "TextEmbedding"@,
        ModelType::ImageEmbedding => "ImageEmbedding"@,
        ModelType::FastText => "FastText"@,
        ModelType::AccurateText => "AccurateText"@,
    }
}

/// The name of a model kind, as `Debug` writes it.
pub fn model_type_name_string(t: ModelType) -> (r: String)
    ensures
        r@ == model_type_name(t),
{
    match t {
        ModelType::TextEmbedding => crate::text::to_string("TextEmbedding"),
        ModelType::ImageEmbedding => crate::text::to_string("ImageEmbedding"),
        ModelType::FastText => crate::text::to_string("FastText"),
        ModelType::AccurateText => crate::text::to_string("AccurateText"),
    }
}

/// The file of a model kind.
pub open spec fn model_file_name(t: ModelType) -> Seq<char> {
    match t {
        ModelType::TextEmbedding => "all-MiniLM-L6-v2.onnx"@,
        ModelType::ImageEmbedding => "clip-vit-base-patch32.onnx"@,
        ModelType::FastText => "all-MiniLM-L6-v2.onnx"@,
        ModelType::AccurateText => "bge-base-en-v1.5.onnx"@,
    }
}

/// The VRAM a model kind takes, in MB.
pub open spec fn model_vram_mb(t: ModelType) -> u64 {
    match t {
        ModelType::TextEmbedding => 256,
        ModelType::ImageEmbedding => 512,
        ModelType::FastText => 256,
        ModelType::AccurateText => 512,
    }
}

fn copy_state(s: &ModelLoadingState) -> (r: ModelLoadingState)
    ensures
        r == *s,
{
    match s {
        ModelLoadingState::Missing => ModelLoadingState::Missing,
        ModelLoadingState::Downloading { progress } => ModelLoadingState::Downloading { progress: *progress },
        ModelLoadingState::Loading => ModelLoadingState::Loading,
        ModelLoadingState::Ready => ModelLoadingState::Ready,
        ModelLoadingState::Failed { reason } => ModelLoadingState::Failed { reason: reason.clone() },
    }
}

/// The model manager: the models directory, the recorded state of each model
/// kind, which kinds are loaded, and the VRAM bookkeeping.
pub struct ModelManager {
    models_dir: String,
    vram: VRAMManager,
    text_state: Option<ModelLoadingState>,
    image_state: Option<ModelLoadingState>,
    fast_state: Option<ModelLoadingState>,
    accurate_state: Option<ModelLoadingState>,
    loaded: [bool; 4],
}

/// The slot of a model kind.
pub open spec fn slot(t: ModelType) -> int {
    match t {
        ModelType::TextEmbedding => 0,
        ModelType::ImageEmbedding => 1,
        ModelType::FastText => 2,
        ModelType::AccurateText => 3,
    }
}

fn slot_of(t: ModelType) -> (i: usize)
    ensures
        i == slot(t),
{
    match t {
        ModelType::TextEmbedding => 0,
        ModelType::ImageEmbedding => 1,
        ModelType::FastText => 2,
        ModelType::AccurateText => 3,
    }
}

/// The model kind of a slot.
pub open spec fn kind_at(i: int) -> ModelType {
    if i == 0 {
        ModelType::TextEmbedding
    } else if i == 1 {
        ModelType::ImageEmbedding
    } else if i == 2 {
        ModelType::FastText
    } else {
        ModelType::AccurateText
    }
}

impl ModelManager {
    /// The directory of the model files.
    pub closed spec fn spec_models_dir(&self) -> Seq<char> {
        self.models_dir@
    }

    /// The VRAM bookkeeping.
    pub closed spec fn spec_vram(&self) -> VRAMManager {
        self.vram
    }

    /// The recorded state of a model kind, if any.
    pub closed spec fn state_of(&self, t: ModelType) -> Option<ModelLoadingState> {
        match t {
            ModelType::TextEmbedding => self.text_state,
            ModelType::ImageEmbedding => self.image_state,
            ModelType::FastText => self.fast_state,
            ModelType::AccurateText => self.accurate_state,
        }
    }

    /// Whether a model kind is loaded.
    pub closed spec fn is_loaded(&self, t: ModelType) -> bool {
        self.loaded@[slot(t)]
    }

    /// The manager's invariant: the VRAM bookkeeping's own.
    pub open spec fn well_formed(&self) -> bool {
        self.spec_vram().well_formed()
    }

    /// A manager of the models in `models_dir`, with nothing recorded or loaded.
    pub fn new(models_dir: String, vram: VRAMManager) -> (m: Self)
        requires
            vram.well_formed(),
        ensures
            m.well_formed(),
            m.spec_models_dir() == models_dir@,
            m.spec_vram() == vram,
            forall|t: ModelType| #[trigger] m.state_of(t) is None && !m.is_loaded(t),
    {
        ModelManager {
            models_dir,
            vram,
            text_state: None,
            image_state: None,
            fast_state: None,
            accurate_state: None,
            loaded: [false, false, false, false],
        }
    }

    /// The VRAM bookkeeping.
    pub fn vram(&self) -> (v: &VRAMManager)
        ensures
            *v == self.spec_vram(),
    {
        &self.vram
    }

    /// The path of a model's file in the models directory.
    pub fn get_model_path(&self, model_type: ModelType) -> (r: String)
        ensures
            r@ == path_join(self.spec_models_dir(), model_file_name(model_type)),
    {
        crate::utils::join_path(self.models_dir.as_str(), model_type.default_filename())
    }

    /// The state of a model: the recorded one, or else `Ready` when its file
    /// exists (found, not loaded yet) and `Missing` when it does not.
    pub fn get_model_state(&self, model_type: ModelType, file_exists: bool) -> (r: ModelLoadingState)
        ensures
            r == match self.state_of(model_type) {
                Some(s) => s,
                None => if file_exists { ModelLoadingState::Ready } else { ModelLoadingState::Missing },
            },
    {
        let recorded = match model_type {
            ModelType::TextEmbedding => &self.text_state,
            ModelType::ImageEmbedding => &self.image_state,
            ModelType::FastText => &self.fast_state,
            ModelType::AccurateText => &self.accurate_state,
        };
        match recorded {
            Some(s) => copy_state(s),
            None => if file_exists { ModelLoadingState::Ready } else { ModelLoadingState::Missing },
        }
    }

    fn set_state(&mut self, t: ModelType, s: Option<ModelLoadingState>)
        ensures
            final(self).loaded == old(self).loaded,
            final(self).vram == old(self).vram,
            final(self).models_dir == old(self).models_dir,
            final(self).state_of(t) == s,
            forall|u: ModelType| #![trigger final(self).state_of(u)] #![trigger old(self).state_of(u)] u != t ==> final(self).state_of(u) == old(self).state_of(u),
            forall|u: ModelType| #![trigger final(self).is_loaded(u)] #![trigger old(self).is_loaded(u)] final(self).is_loaded(u) == old(self).is_loaded(u),
            final(self).spec_vram() == old(self).spec_vram(),
            final(self).spec_models_dir() == old(self).spec_models_dir(),
    {
        match t {
            ModelType::TextEmbedding => self.text_state = s,
            ModelType::ImageEmbedding => self.image_state = s,
            ModelType::FastText => self.fast_state = s,
            ModelType::AccurateText => self.accurate_state = s,
        }
    }

    fn set_loaded(&mut self, t: ModelType, b: bool)
        ensures
            final(self).text_state == old(self).text_state,
            final(self).image_state == old(self).image_state,
            final(self).fast_state == old(self).fast_state,
            final(self).accurate_state == old(self).accurate_state,
            final(self).vram == old(self).vram,
            final(self).models_dir == old(self).models_dir,
            final(self).is_loaded(t) == b,
            forall|u: ModelType| #![trigger final(self).is_loaded(u)] #![trigger old(self).is_loaded(u)] u != t ==> final(self).is_loaded(u) == old(self).is_loaded(u),
            forall|u: ModelType| #![trigger final(self).state_of(u)] #![trigger old(self).state_of(u)] final(self).state_of(u) == old(self).state_of(u),
            final(self).spec_vram() == old(self).spec_vram(),
            final(self).spec_models_dir() == old(self).spec_models_dir(),
    {
        let i = slot_of(t);
        self.loaded.set(i, b);
        proof {
            assert forall|u: ModelType| u != t implies #[trigger] self.is_loaded(u) == old(self).is_loaded(u) by {
                assert(slot(u) != slot(t));
            }
        }
    }

    /// Whether a model is loaded.
    pub fn is_model_loaded(&self, model_type: ModelType) -> (r: bool)
        ensures
            r == self.is_loaded(model_type),
    {
        self.loaded[slot_of(model_type)]
    }

    /// The loaded model kinds, in the order of the kinds.
    pub fn get_loaded_models(&self) -> (r: Vec<ModelType>)
        ensures
            forall|t: ModelType| r@.contains(t) <==> #[trigger] self.is_loaded(t),
            r@.no_duplicates(),
    {
        let mut r: Vec<ModelType> = Vec::new();
        let mut i: usize = 0;
        while i < 4
            invariant
                i <= 4,
                forall|k: int| 0 <= k < r@.len() ==> slot(#[trigger] r@[k]) < i && self.loaded@[slot(r@[k])],
                forall|k: int, l: int| 0 <= k < l < r@.len() ==> slot(#[trigger] r@[k]) < slot(#[trigger] r@[l]),
                forall|j: int| 0 <= j < i && self.loaded@[j] ==> r@.contains(kind_at(j)),
            decreases 4 - i,
        {
            if self.loaded[i] {
                let t = if i == 0 {
                    ModelType::TextEmbedding
                } else if i == 1 {
                    ModelType::ImageEmbedding
                } else if i == 2 {
                    ModelType::FastText
                } else {
                    ModelType::AccurateText
                };
                let ghost before = r@;
                r.push(t);
                proof {
                    assert(slot(t) == i);
                    assert(t == kind_at(i as int));
                    assert forall|j: int| 0 <= j < i + 1 && self.loaded@[j] implies r@.contains(kind_at(j)) by {
                        if j < i {
                            let k = choose|k: int| 0 <= k < before.len() && before[k] == kind_at(j);
                            assert(r@[k] == kind_at(j));
                        } else {
                            assert(r@[before.len() as int] == t);
                        }
                    }
                }
            }
            i = i + 1;
        }
        proof {
            assert forall|t: ModelType| r@.contains(t) <==> #[trigger] self.is_loaded(t) by {
                if r@.contains(t) {
                    let k = choose|k: int| 0 <= k < r@.len() && r@[k] == t;
                    assert(self.loaded@[slot(r@[k])]);
                }
                if self.is_loaded(t) {
                    assert(kind_at(slot(t)) == t);
                }
            }
            assert forall|k: int, l: int| 0 <= k < r@.len() && 0 <= l < r@.len() && k != l implies r@[k] != r@[l] by {
                if k < l {
                    assert(slot(r@[k]) < slot(r@[l]));
                } else {
                    assert(slot(r@[l]) < slot(r@[k]));
                }
            }
        }
        r
    }

    /// The state recorded when loading fails: `Failed` with the reason.
    pub fn fail_load(&mut self, model_type: ModelType, reason: String)
        requires
            old(self).well_formed(),
        ensures
            final(self).well_formed(),
            final(self).state_of(model_type) == Some(ModelLoadingState::Failed { reason }),
            forall|u: ModelType| u != model_type ==> #[trigger] final(self).state_of(u) == old(self).state_of(u),
            forall|u: ModelType| #[trigger] final(self).is_loaded(u) == old(self).is_loaded(u),
            final(self).spec_vram() == old(self).spec_vram(),
            final(self).spec_models_dir() == old(self).spec_models_dir(),
    {
        self.set_state(model_type, Some(ModelLoadingState::Failed { reason }));
    }

    /// Starts loading a model whose file exists or not. A loaded model needs
    /// nothing more. Otherwise, by its state: a ready model is marked
    /// `Loading` and, when the free VRAM (in whole MB) is short of what it
    /// needs, models are evicted to make room; when that fails it is marked
    /// `Failed` ("Failed to free VRAM: ...") and the error names what it
    /// needs and what was free. A missing file, a model loading already and a
    /// failed model give their errors and change nothing.
    pub fn begin_load(&mut self, model_type: ModelType, file_exists: bool) -> (r: Result<LoadStep, EmbeddingError>)
        requires
            old(self).well_formed(),
        ensures
            final(self).well_formed(),
            final(self).spec_models_dir() == old(self).spec_models_dir(),
            forall|u: ModelType| #[trigger] final(self).is_loaded(u) == old(self).is_loaded(u),
            forall|u: ModelType| u != model_type ==> #[trigger] final(self).state_of(u) == old(self).state_of(u),
            final(self).spec_vram().spec_max() == old(self).spec_vram().spec_max(),
            old(self).is_loaded(model_type) ==> r == Ok::<LoadStep, EmbeddingError>(LoadStep::AlreadyLoaded) && *final(self) == *old(self),
            !old(self).is_loaded(model_type) ==> load_begun(*old(self), *final(self), model_type, file_exists, r),
    {
        if self.is_model_loaded(model_type) {
            return Ok(LoadStep::AlreadyLoaded);
        }
        let state = self.get_model_state(model_type, file_exists);
        match state {
            ModelLoadingState::Ready => {
                self.set_state(model_type, Some(ModelLoadingState::Loading));
                let needed = model_type.estimated_vram_mb();
                let available = self.vram.available_vram() / MB;
                if available < needed {
                    match self.vram.evict_models(needed * MB) {
                        Err(e) => {
                            let mut v = crate::text::chars_of("Failed to free VRAM: ");
                            crate::diluted::append_text(&mut v, e.as_str());
                            let reason = crate::text::string_from_chars(v.as_slice());
                            self.set_state(model_type, Some(ModelLoadingState::Failed { reason }));
                            return Err(EmbeddingError::VRAMInsufficient { needed_mb: needed, available_mb: available });
                        },
                        Ok(_ids) => {},
                    }
                }
                Ok(LoadStep::CreateSession)
            },
            ModelLoadingState::Missing => Err(EmbeddingError::ModelNotFound { path: self.get_model_path(model_type) }),
            ModelLoadingState::Failed { reason } => Err(EmbeddingError::ModelFailed { model_type: model_type_name_string(model_type), reason }),
            _ => Err(EmbeddingError::ModelLoading { model_type: model_type_name_string(model_type) }),
        }
    }

    /// Records a model whose session was created at `now`: it takes its VRAM,
    /// is loaded, and is `Ready`.
    pub fn finish_load(&mut self, model_type: ModelType, now: u64)
        requires
            old(self).well_formed(),
        ensures
            final(self).well_formed(),
            final(self).spec_models_dir() == old(self).spec_models_dir(),
            final(self).is_loaded(model_type),
            forall|u: ModelType| u != model_type ==> #[trigger] final(self).is_loaded(u) == old(self).is_loaded(u),
            final(self).state_of(model_type) == Some(ModelLoadingState::Ready),
            forall|u: ModelType| u != model_type ==> #[trigger] final(self).state_of(u) == old(self).state_of(u),
            exists|info: ModelInfo| {
                &&& #[trigger] final(self).spec_vram().registered(old(self).spec_vram(), info)
                &&& info.id == ModelId(crate::embeddings::model_type_index(model_type))
                &&& info.name@ == model_type_name(model_type)
                &&& info.vram_bytes == model_vram_mb(model_type) * MB
                &&& info.last_used == now
                &&& info.use_count == 0
            },
    {
        let needed = model_type.estimated_vram_mb();
        let info = ModelInfo {
            id: ModelId::from_type(model_type),
            name: model_type_name_string(model_type),
            vram_bytes: needed * MB,
            last_used: now,
            use_count: 0,
        };
        let ghost g = info;
        self.vram.register_model(info);
        self.set_loaded(model_type, true);
        self.set_state(model_type, Some(ModelLoadingState::Ready));
        proof {
            assert(self.spec_vram().registered(old(self).spec_vram(), g));
        }
    }

    /// Unloads a model: it is no longer loaded, its recorded state is
    /// dropped, and its VRAM is released.
    pub fn unload_model(&mut self, model_type: ModelType)
        requires
            old(self).well_formed(),
        ensures
            final(self).well_formed(),
            final(self).spec_models_dir() == old(self).spec_models_dir(),
            !final(self).is_loaded(model_type),
            forall|u: ModelType| u != model_type ==> #[trigger] final(self).is_loaded(u) == old(self).is_loaded(u),
            final(self).state_of(model_type) is None,
            forall|u: ModelType| u != model_type ==> #[trigger] final(self).state_of(u) == old(self).state_of(u),
            final(self).spec_vram().models() == crate::vram::without(old(self).spec_vram().models(), ModelId(crate::embeddings::model_type_index(model_type))),
            final(self).spec_vram().spec_max() == old(self).spec_vram().spec_max(),
    {
        self.set_loaded(model_type, false);
        self.set_state(model_type, None);
        self.vram.unregister_model(ModelId::from_type(model_type));
    }
}


/// Starting a ready model: it is marked `Loading` and a session is to be
/// created; when the free VRAM is short, models are evicted first, and when
/// that fails the model is marked `Failed` and the error names what it needs
/// and what was free.
pub open spec fn ready_load_begun(before: ModelManager, after: ModelManager, t: ModelType, r: Result<LoadStep, EmbeddingError>) -> bool {
    let needed = model_vram_mb(t);
    let available = before.spec_vram().available_mb();
    let bytes = (needed * MB) as u64;
    if available >= needed {
        &&& r == Ok::<LoadStep, EmbeddingError>(LoadStep::CreateSession)
        &&& after.state_of(t) == Some(ModelLoadingState::Loading)
        &&& after.spec_vram() == before.spec_vram()
    } else if before.spec_vram().eviction_fails(bytes) {
        &&& after.spec_vram().evicted_for(before.spec_vram(), bytes)
        &&& r matches Err(EmbeddingError::VRAMInsufficient { needed_mb, available_mb })
        &&& r->Err_0->needed_mb == needed
        &&& r->Err_0->available_mb == available
        &&& after.state_of(t) matches Some(ModelLoadingState::Failed { reason })
        &&& after.state_of(t)->0->reason@ == "Failed to free VRAM: "@ + crate::vram::evict_failure_text(bytes, before.spec_vram().freeable(bytes))
    } else {
        &&& after.spec_vram().evicted_for(before.spec_vram(), bytes)
        &&& r == Ok::<LoadStep, EmbeddingError>(LoadStep::CreateSession)
        &&& after.state_of(t) == Some(ModelLoadingState::Loading)
    }
}

/// Starting to load a model that is not loaded, by its state (the recorded
/// one, or else `Ready` when its file exists and `Missing` when not): a ready
/// model as `ready_load_begun` says; a missing file, a model loading already
/// and a failed model give their errors and change nothing.
pub open spec fn load_begun(before: ModelManager, after: ModelManager, t: ModelType, file_exists: bool, r: Result<LoadStep, EmbeddingError>) -> bool {
    let state = match before.state_of(t) {
        Some(s) => s,
        None => if file_exists { ModelLoadingState::Ready } else { ModelLoadingState::Missing },
    };
    match state {
        ModelLoadingState::Ready => ready_load_begun(before, after, t, r),
        ModelLoadingState::Missing => {
            &&& r matches Err(EmbeddingError::ModelNotFound { path })
            &&& r->Err_0->path@ == path_join(before.spec_models_dir(), model_file_name(t))
            &&& after == before
        },
        ModelLoadingState::Failed { reason } => {
            &&& r matches Err(EmbeddingError::ModelFailed { model_type, reason })
            &&& r->Err_0->ModelFailed_model_type@ == model_type_name(t)
            &&& r->Err_0->ModelFailed_reason == reason
            &&& after == before
        },
        _ => {
            &&& r matches Err(EmbeddingError::ModelLoading { model_type })
            &&& r->Err_0->ModelLoading_model_type@ == model_type_name(t)
            &&& after == before
        },
    }
}

} // verus!
