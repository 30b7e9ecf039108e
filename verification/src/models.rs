//! Shared data model: devices, transcriptions, history entries, settings,
//! and the error taxonomy of the pipeline.

use vstd::prelude::*;

verus! {

/// An input audio device: its OS-reported name and a stable identifier.
///
/// The identifier is derived from a durable device property (the name), so a
/// device id stored in settings stays resolvable across enumerations within a
/// process lifetime.
#[derive(Debug, Clone)]
pub struct AudioDevice {
    pub name: String,
    pub id: String,
}

/// A finished transcription: created once per completed recording session and
/// immutable after creation.
#[derive(Debug, Clone)]
pub struct Transcription {
    pub id: String,
    pub text: String,
    pub timestamp: i64,
}

/// Persisted projection of a [`Transcription`]; its lifecycle is owned by the
/// history store collaborator, not by the pipeline.
#[derive(Debug, Clone)]
pub struct HistoryEntry {
    pub id: String,
    pub text: String,
    pub timestamp: i64,
}

impl HistoryEntry {
    /// Project a transcription into the entry the history store persists.
    pub fn of_transcription(t: &Transcription) -> (r: HistoryEntry)
        ensures
            r.id@ == t.id@,
            r.text@ == t.text@,
            r.timestamp == t.timestamp,
    {
        HistoryEntry { id: t.id.clone(), text: t.text.clone(), timestamp: t.timestamp }
    }
}

/// Application settings read at session start and never mutated by the core.
#[derive(Debug, Clone)]
pub struct AppSettings {
    pub recording_hotkey: String,
    pub language: String,
}

/// Failures of the capture side: opening a stream, or the stream itself.
#[derive(Debug, Clone, Copy, PartialEq, Eq, Structural)]
pub enum CaptureError {
    DeviceUnavailable,
    DevicePermissionDenied,
    StreamError,
    CaptureAlreadyClosed,
}

/// Failures of the transcription engine.
#[derive(Debug, Clone, Copy, PartialEq, Eq, Structural)]
pub enum TranscriptionError {
    ModelNotLoaded,
    InferenceError,
}

/// Failures of the refinement collaborator; never fatal to the pipeline.
#[derive(Debug, Clone, Copy, PartialEq, Eq, Structural)]
pub enum RefinementError {
    NetworkError,
    RateLimited,
    InvalidResponse,
}

/// A failure fatal to the current session, surfaced to the UI collaborator.
#[derive(Debug, Clone, Copy, PartialEq, Eq, Structural)]
pub enum PipelineError {
    Capture(CaptureError),
    Transcription(TranscriptionError),
}

} // verus!
