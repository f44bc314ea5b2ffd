//! Dictation session controller: a state machine that sequences audio capture,
//! streaming transcription and text insertion, with verified contracts.

pub mod model;
pub mod error;
pub mod text;
pub mod provider;
pub mod services;
pub mod clipboard;
pub mod state_machine;
pub mod settings;
pub mod store;
