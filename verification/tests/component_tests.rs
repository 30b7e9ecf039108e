use dictation_core::capture::{CaptureSession, CaptureState};
use dictation_core::clipboard::Clipboard;
use dictation_core::device::{assign_stable_ids, find_device};
use dictation_core::engine::{ModelType, TranscriptionEngine};
use dictation_core::models::{CaptureError, HistoryEntry, RefinementError, Transcription, TranscriptionError};
use dictation_core::refine::{build_request, choose_delivery, PromptTemplate};

#[test]
fn device_ids_are_stable_across_enumerations() {
    let names = vec![String::from("Built-in Mic"), String::from("USB Mic")];
    let first = assign_stable_ids(&names);
    let second = assign_stable_ids(&names);
    assert_eq!(first.len(), 2);
    assert_eq!(first[0].name, "Built-in Mic");
    assert_eq!(first[0].id, second[0].id);
    assert_eq!(first[1].id, second[1].id);
}

#[test]
fn stored_device_id_resolves() {
    let names = vec![String::from("Built-in Mic"), String::from("USB Mic")];
    let devices = assign_stable_ids(&names);
    let stored = devices[1].id.clone();
    assert_eq!(find_device(&devices, &stored), Some(1));
    assert_eq!(find_device(&devices, &String::from("gone")), None);
}

#[test]
fn capture_buffers_and_hands_off_on_stop() {
    let mut s = CaptureSession::open(String::from("d1"), 0);
    assert_eq!(s.state, CaptureState::Recording);
    // 1.2 s of mono audio at 16 kHz
    let chunk = vec![7i16; 19200];
    s.append(&chunk);
    assert_eq!(s.buffered_ms(), 1200);
    let buf = s.stop().unwrap();
    assert_eq!(buf.len(), 19200);
    assert_eq!(s.state, CaptureState::Finished);
    assert!(s.buffer.is_empty());
}

#[test]
fn capture_stop_after_stop_is_an_error() {
    let mut s = CaptureSession::open(String::from("d1"), 0);
    let _ = s.stop().unwrap();
    assert_eq!(s.stop(), Err(CaptureError::CaptureAlreadyClosed));
}

#[test]
fn capture_abort_discards_samples_and_is_idempotent() {
    let mut s = CaptureSession::open(String::from("d1"), 0);
    s.append(&vec![1i16; 100]);
    s.abort();
    assert_eq!(s.state, CaptureState::Aborted);
    assert!(s.buffer.is_empty());
    // safe to call again after the stream already failed
    s.abort();
    assert_eq!(s.state, CaptureState::Aborted);
    // samples arriving after the abort are dropped, never buffered
    s.append(&vec![2i16; 10]);
    assert!(s.buffer.is_empty());
}

#[test]
fn engine_refuses_inference_until_loaded() {
    let engine = TranscriptionEngine::new();
    assert!(!engine.is_loaded());
    let r = engine.begin_inference(vec![0i16; 4], String::from("en"));
    assert!(matches!(r, Err(TranscriptionError::ModelNotLoaded)));
}

#[test]
fn engine_ensure_loaded_is_idempotent_and_gates_inference() {
    let mut engine = TranscriptionEngine::new();
    engine.ensure_loaded(ModelType::Base);
    engine.ensure_loaded(ModelType::Base);
    assert!(engine.is_loaded());
    let job = engine.begin_inference(vec![3i16; 8], String::from("en")).unwrap();
    assert_eq!(job.model_type, ModelType::Base);
    assert_eq!(job.samples.len(), 8);
    assert_eq!(job.language, "en");
}

#[test]
fn prompt_template_has_default_system_prompt() {
    let t = PromptTemplate::new();
    assert_eq!(t.system_prompt, "Improve the text for clarity and grammar.");
}

#[test]
fn refine_request_carries_prompt_and_text() {
    let t = PromptTemplate::new();
    let req = build_request(&t, &String::from("hello world"));
    assert_eq!(req.system_prompt, t.system_prompt);
    assert_eq!(req.text, "hello world");
}

#[test]
fn refinement_success_delivers_improved_text() {
    let out = choose_delivery(String::from("helo wrld"), Ok(String::from("hello world")));
    assert_eq!(out, "hello world");
}

#[test]
fn refinement_failure_delivers_raw_text() {
    let raw = String::from("hello world");
    let out = choose_delivery(raw.clone(), Err(RefinementError::NetworkError));
    assert_eq!(out, "hello world");
    let out2 = choose_delivery(raw.clone(), Err(RefinementError::RateLimited));
    assert_eq!(out2, "hello world");
    let out3 = choose_delivery(raw, Err(RefinementError::InvalidResponse));
    assert_eq!(out3, "hello world");
}

#[test]
fn clipboard_copy_is_non_fatal() {
    let c = Clipboard::new();
    assert!(c.copy_text("hello world").is_ok());
    let d = Clipboard::default();
    assert!(d.copy_text("").is_ok());
}

#[test]
fn default_engine_has_no_model() {
    let engine = TranscriptionEngine::default();
    assert!(!engine.is_loaded());
}

#[test]
fn history_entry_projects_a_transcription() {
    let t = Transcription {
        id: String::from("t1"),
        text: String::from("hello world"),
        timestamp: 42,
    };
    let e = HistoryEntry::of_transcription(&t);
    assert_eq!(e.id, "t1");
    assert_eq!(e.text, "hello world");
    assert_eq!(e.timestamp, 42);
}
