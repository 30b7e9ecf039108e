//! Transcription engine adapter: the load-state machine around the speech
//! model, which every inference must pass through. The model itself is an
//! external collaborator that turns audio into text and may fail; its answer
//! comes back to the controller as an inference outcome.

use vstd::prelude::*;
use crate::models::TranscriptionError;

verus! {

/// The closed set of speech model sizes the engine can load.
#[derive(Debug, Clone, Copy, PartialEq, Eq, Structural)]
pub enum ModelType {
    Tiny,
    Base,
    Small,
    Medium,
    Large,
}

/// A loaded speech model, tagged with its size.
#[derive(Debug, Clone, Copy, PartialEq, Eq, Structural)]
pub struct Model {
    pub model_type: ModelType,
}

/// One inference the engine has accepted: the buffer whose ownership was
/// transferred to the engine, the configured language tag, and the model that
/// will run it.
#[derive(Debug)]
pub struct InferenceJob {
    pub model_type: ModelType,
    pub samples: Vec<i16>,
    pub language: String,
}

/// Stateful wrapper around the loaded speech model. Inference calls are
/// serialized by the pipeline's one-session-at-a-time guard, so the engine
/// holds no queue.
#[derive(Debug)]
pub struct TranscriptionEngine {
    pub loaded: Option<Model>,
}

impl Default for TranscriptionEngine {
    fn default() -> (r: Self)
        ensures
            r.loaded is None,
    {
        TranscriptionEngine::new()
    }
}

impl TranscriptionEngine {
    pub fn new() -> (r: Self)
        ensures
            r.loaded is None,
    {
        TranscriptionEngine { loaded: None }
    }

    /// Load the model of the given size if it is not already the loaded one.
    /// Idempotent: the engine ends loaded with exactly that model, whatever
    /// it held before.
    pub fn ensure_loaded(&mut self, model_type: ModelType)
        ensures
            final (self).loaded == Some(Model { model_type }),
    {
        self.loaded = Some(Model { model_type });
    }

    pub fn is_loaded(&self) -> (r: bool)
        ensures
            r == (self.loaded is Some),
    {
        self.loaded.is_some()
    }

    /// Accept a buffer for inference. Returns `ModelNotLoaded` exactly when
    /// no model is loaded; otherwise the job that the loaded model will run,
    /// owning the buffer.
    pub fn begin_inference(&self, samples: Vec<i16>, language: String) -> (r: Result<
        InferenceJob,
        TranscriptionError,
    >)
        ensures
            match self.loaded {
                Some(m) => match r {
                    Ok(job) => job.model_type == m.model_type && job.samples@ == samples@
                        && job.language@ == language@,
                    Err(_) => false,
                },
                None => r == Err::<InferenceJob, TranscriptionError>(
                    TranscriptionError::ModelNotLoaded,
                ),
            },
    {
        match self.loaded {
            Some(m) => Ok(InferenceJob { model_type: m.model_type, samples, language }),
            None => Err(TranscriptionError::ModelNotLoaded),
        }
    }
}

} // verus!
