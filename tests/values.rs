use std::path::PathBuf;

use whispersmart::error::DictationError;
use whispersmart::model::UiState;
use whispersmart::services::{HotkeyService, StubHotkeyService};
use whispersmart::settings::AppSettings;
use whispersmart::store::SettingsStore;
use whispersmart::text::is_blank;

#[test]
fn labels_name_each_state() {
    assert_eq!(UiState::Idle.label(), "Idle");
    assert_eq!(UiState::Recording.label(), "Recording");
    assert_eq!(UiState::Transcribing.label(), "Transcribing");
    assert_eq!(UiState::Success.label(), "Success");
    assert_eq!(UiState::Error("x".to_string()).label(), "Error");
}

#[test]
fn blank_detection() {
    assert!(is_blank(""));
    assert!(is_blank(" \t\r\n"));
    assert!(is_blank("\u{a0}\u{2003}\u{3000}"));
    assert!(!is_blank(" a "));
    assert!(!is_blank("hello world"));
}

#[test]
fn error_reasons() {
    assert_eq!(DictationError::EmptyTranscript.reason(), "No transcript returned");
    assert_eq!(DictationError::InsertionError("no focus".to_string()).reason(), "no focus");
    assert_eq!(
        DictationError::AlreadyActive.reason(),
        "A dictation session is already active"
    );
    assert_eq!(DictationError::InvalidTransition.reason(), "Invalid state transition");
}

#[test]
fn default_settings() {
    let s = AppSettings::default();
    assert_eq!(s.global_hotkey, "Option+Space");
    assert_eq!(s.provider, "placeholder");
    assert!(s.auto_insert);
}

#[test]
fn defaults_when_file_absent() {
    let store = SettingsStore::new(PathBuf::from("whisper-smart-settings-missing.json"));
    assert_eq!(store.path(), &PathBuf::from("whisper-smart-settings-missing.json"));
    let settings = SettingsStore::resolve_load(None).expect("load defaults");
    assert_eq!(settings.provider, "placeholder");
    assert_eq!(settings, AppSettings::default());
}

#[test]
fn stored_settings_are_kept() {
    let stored = AppSettings {
        global_hotkey: "Ctrl+Shift+D".to_string(),
        provider: "cloud".to_string(),
        auto_insert: false,
    };
    assert_eq!(SettingsStore::resolve_load(Some(Ok(stored.clone()))), Ok(stored));
}

#[test]
fn unreadable_settings_are_a_load_error() {
    assert_eq!(
        SettingsStore::resolve_load(Some(Err("expected value at line 1".to_string()))),
        Err(DictationError::SettingsLoadError("expected value at line 1".to_string()))
    );
}

#[test]
fn stub_hotkey_service_accepts_commands() {
    let mut h = StubHotkeyService;
    assert_eq!(h.start_monitoring(), Ok(()));
    assert_eq!(h.stop_monitoring(), Ok(()));
}
