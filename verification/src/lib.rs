//! Hotkey-triggered dictation pipeline.
//!
//! A keyboard gesture is recognized as a trigger intent (`Start`, `Stop`,
//! `Cancel`); the dictation controller turns intents into the lifecycle of a
//! recording session, hands captured audio to the transcription engine, runs
//! the optional refinement pass, and delivers the finished transcription.

pub mod capture;
pub mod clipboard;
pub mod controller;
pub mod device;
pub mod engine;
pub mod hotkey;
pub mod ids;
pub mod models;
pub mod refine;
