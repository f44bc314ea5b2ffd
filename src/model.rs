use vstd::prelude::*;

verus! {

/// What the user interface shows; exactly one variant is current at any time.
#[derive(Debug, Clone, PartialEq, Eq)]
pub enum UiState {
    Idle,
    Recording,
    Transcribing,
    Success,
    Error(String),
}

/// How many of the five states `s` is.
pub open spec fn variants_held(s: UiState) -> nat {
    (if s is Idle { 1nat } else { 0nat }) + (if s is Recording { 1nat } else { 0nat }) + (if s
        is Transcribing { 1nat } else { 0nat }) + (if s is Success { 1nat } else { 0nat }) + (
    if s is Error { 1nat } else { 0nat })
}

/// Every state value is exactly one of `Idle`, `Recording`, `Transcribing`,
/// `Success` and `Error`.
pub proof fn lemma_exactly_one_variant(s: UiState)
    ensures
        variants_held(s) == 1,
{
}

/// The label shown for each state.
pub open spec fn label_of(s: UiState) -> Seq<char> {
    match s {
        UiState::Idle => "Idle"@,
        UiState::Recording => "Recording"@,
        UiState::Transcribing => "Transcribing"@,
        UiState::Success => "Success"@,
        UiState::Error(_) => "Error"@,
    }
}

impl UiState {
    pub fn label(&self) -> (r: &'static str)
        ensures
            r@ == label_of(*self),
    {
        match self {
            UiState::Idle => "Idle",
            UiState::Recording => "Recording",
            UiState::Transcribing => "Transcribing",
            UiState::Success => "Success",
            UiState::Error(_) => "Error",
        }
    }

    /// True of `Error(m)` whose message reads `m`.
    pub open spec fn is_error_with(self, m: Seq<char>) -> bool {
        &&& self is Error
        &&& self->Error_0@ == m
    }
}

/// One recording attempt: the interim transcript and, once known, the final one.
#[derive(Debug, Clone, PartialEq, Eq)]
pub struct DictationSession {
    pub partial_text: String,
    pub final_text: Option<String>,
}

impl DictationSession {
    /// A session with no text yet.
    pub open spec fn is_fresh(self) -> bool {
        &&& self.partial_text@.len() == 0
        &&& self.final_text is None
    }
}

impl Default for DictationSession {
    fn default() -> (r: Self)
        ensures
            r.is_fresh(),
    {
        DictationSession { partial_text: String::new(), final_text: None }
    }
}

} // verus!
