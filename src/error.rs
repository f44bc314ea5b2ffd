use vstd::prelude::*;

verus! {

/// Why a controller command or a settings operation did not succeed.
#[derive(Debug, Clone, PartialEq, Eq)]
pub enum DictationError {
    /// `start_recording` while a recording or transcription is under way.
    AlreadyActive,
    /// A command that the current state does not accept.
    InvalidTransition,
    /// The audio source refused to start, stop or deliver audio.
    CaptureStateError(String),
    /// The transcription backend could not open a session.
    ProviderUnavailable(String),
    /// The transcription backend failed while audio was streamed to it.
    ProviderStreamError(String),
    /// The transcription backend failed to produce the final result.
    ProviderFinalizeError(String),
    /// The final text could not be delivered to the focused application.
    InsertionError(String),
    /// The transcript was empty or held only whitespace.
    EmptyTranscript,
    /// The settings file could not be read or parsed.
    SettingsLoadError(String),
    /// The settings file could not be written.
    SettingsSaveError(String),
}

/// The human-readable reason that `UiState::Error` carries for an error.
pub open spec fn reason_of(e: DictationError) -> Seq<char> {
    match e {
        DictationError::AlreadyActive => "A dictation session is already active"@,
        DictationError::InvalidTransition => "Invalid state transition"@,
        DictationError::CaptureStateError(m) => m@,
        DictationError::ProviderUnavailable(m) => m@,
        DictationError::ProviderStreamError(m) => m@,
        DictationError::ProviderFinalizeError(m) => m@,
        DictationError::InsertionError(m) => m@,
        DictationError::EmptyTranscript => "No transcript returned"@,
        DictationError::SettingsLoadError(m) => m@,
        DictationError::SettingsSaveError(m) => m@,
    }
}

impl DictationError {
    /// The reason text, as shown in `UiState::Error`.
    pub fn reason(&self) -> (r: String)
        ensures
            r@ == reason_of(*self),
    {
        match self {
            DictationError::AlreadyActive => String::from_str("A dictation session is already active"),
            DictationError::InvalidTransition => String::from_str("Invalid state transition"),
            DictationError::CaptureStateError(m) => m.clone(),
            DictationError::ProviderUnavailable(m) => m.clone(),
            DictationError::ProviderStreamError(m) => m.clone(),
            DictationError::ProviderFinalizeError(m) => m.clone(),
            DictationError::InsertionError(m) => m.clone(),
            DictationError::EmptyTranscript => String::from_str("No transcript returned"),
            DictationError::SettingsLoadError(m) => m.clone(),
            DictationError::SettingsSaveError(m) => m.clone(),
        }
    }
}

} // verus!
