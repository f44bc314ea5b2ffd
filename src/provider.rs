use vstd::prelude::*;
use core::marker::PhantomData;
use crate::text::{decimal_digits, decimal_string};

verus! {

/// Text produced by a transcription backend; `is_partial` marks an interim result.
#[derive(Debug, Clone, PartialEq, Eq)]
pub struct ProviderResult {
    pub text: String,
    pub is_partial: bool,
}

/// A session-oriented speech-to-text backend, fed chunks of mono samples of type `S`.
pub trait SttProvider<S>: Send {
    fn display_name(&self) -> &'static str;

    /// Opens a session; fails when the backend cannot be reached or initialised.
    fn begin_session(&mut self) -> Result<(), String>;

    /// Consumes one non-empty chunk; may hand back an interim result (marked
    /// `is_partial`), which the controller shows as the partial text. The final
    /// text comes from `end_session` alone.
    fn feed_audio_chunk(&mut self, pcm: &[S]) -> Result<Option<ProviderResult>, String>;

    /// Ends the session and returns the final result; valid even when no chunk was fed.
    fn end_session(&mut self) -> Result<ProviderResult, String>;
}

/// The text that the placeholder backend reports after `frames` samples.
pub open spec fn simulated_transcript(frames: nat) -> Seq<char> {
    "Simulated transcript from "@ + decimal_digits(frames) + " frames."@
}

/// A simulated backend that counts the samples of type `S` it was fed.
pub struct PlaceholderProvider<S> {
    buffered_frames: usize,
    samples: PhantomData<S>,
}

impl<S> Default for PlaceholderProvider<S> {
    fn default() -> (r: Self)
        ensures
            r.frames() == 0,
    {
        PlaceholderProvider::new()
    }
}

impl<S> PlaceholderProvider<S> {
    pub closed spec fn frames(&self) -> nat {
        self.buffered_frames as nat
    }

    pub fn new() -> (r: Self)
        ensures
            r.frames() == 0,
    {
        PlaceholderProvider { buffered_frames: 0, samples: PhantomData }
    }

    /// The final text for the samples counted so far.
    pub fn transcript(&self) -> (r: String)
        ensures
            r@ == simulated_transcript(self.frames()),
    {
        let digits = decimal_string(self.buffered_frames);
        let head = String::from_str("Simulated transcript from ");
        let with_digits = head.concat(digits.as_str());
        with_digits.concat(" frames.")
    }
}

impl<S: Send> SttProvider<S> for PlaceholderProvider<S> {
    fn display_name(&self) -> &'static str {
        "Placeholder (simulated)"
    }

    fn begin_session(&mut self) -> (r: Result<(), String>)
        ensures
            r == Ok::<(), String>(()),
            final(self).frames() == 0,
    {
        self.buffered_frames = 0;
        Ok(())
    }

    fn feed_audio_chunk(&mut self, pcm: &[S]) -> (r: Result<Option<ProviderResult>, String>)
        ensures
            r == Ok::<Option<ProviderResult>, String>(None),
            final(self).frames() == if old(self).frames() + pcm@.len() > usize::MAX {
                usize::MAX as nat
            } else {
                old(self).frames() + pcm@.len()
            },
    {
        self.buffered_frames = self.buffered_frames.saturating_add(pcm.len());
        Ok(None)
    }

    fn end_session(&mut self) -> (r: Result<ProviderResult, String>)
        ensures
            r is Ok,
            r->Ok_0.text@ == simulated_transcript(old(self).frames()),
            !r->Ok_0.is_partial,
            final(self).frames() == old(self).frames(),
    {
        Ok(ProviderResult { text: self.transcript(), is_partial: false })
    }
}

} // verus!
