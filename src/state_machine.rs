use vstd::prelude::*;
use core::marker::PhantomData;
use crate::clipboard::ClipboardInserter;
use crate::error::{reason_of, DictationError};
use crate::model::{DictationSession, UiState};
use crate::provider::{ProviderResult, SttProvider};
use crate::services::AudioCaptureService;
use crate::text::{blank, is_blank};

verus! {

/// At most this many buffered chunks are read back from the audio source
/// after capture stops; anything beyond is not transcribed.
pub const DRAIN_CHUNK_LIMIT: usize = 65536;

/// The session controller: owns the user-visible state and the current session,
/// and drives the audio source, the transcription backend and the text inserter.
pub struct DictationStateMachine<S, P: SttProvider<S>, A: AudioCaptureService<S>, C: ClipboardInserter> {
    pub state: UiState,
    pub session: DictationSession,
    provider: P,
    audio: A,
    clipboard: C,
    provider_open: bool,
    capture_open: bool,
    samples: PhantomData<S>,
    /// Non-empty chunks read from the audio source in this session, in order.
    read_log: Ghost<Seq<Seq<S>>>,
    /// Chunks handed to the transcription backend in this session, in order.
    fed_log: Ghost<Seq<Seq<S>>>,
    /// Every text handed to the inserter, in order.
    inserted_log: Ghost<Seq<Seq<char>>>,
    /// The audio source has handed back the empty end-of-audio chunk in this session.
    audio_ended: Ghost<bool>,
}

/// What `stop_and_transcribe` leaves behind when it ran from `Recording`:
/// `Success` exactly when it returns `Ok`, an error state that carries the
/// returned error's reason otherwise, and the decision rule on the final text.
pub open spec fn transcription_settled(state: UiState, final_text: Option<String>, r: Result<(), DictationError>) -> bool {
    &&& (state is Success) <==> (r is Ok)
    &&& r is Err ==> state.is_error_with(reason_of(r->Err_0))
    &&& match final_text {
        Some(t) => {
            &&& blank(t@) ==> r == Err::<(), DictationError>(DictationError::EmptyTranscript)
            &&& !blank(t@) ==> (r is Ok || r->Err_0 is InsertionError)
        },
        None => {
            &&& r is Err
            &&& (r->Err_0 is CaptureStateError || r->Err_0 is ProviderStreamError
                || r->Err_0 is ProviderFinalizeError)
        },
    }
}

/// Every chunk holds at least one sample.
pub open spec fn nonempty_chunks<S>(chunks: Seq<Seq<S>>) -> bool {
    forall|i: int| 0 <= i < chunks.len() ==> #[trigger] chunks[i].len() > 0
}

/// What `stop_and_transcribe` hands to the inserter: the final text, once,
/// exactly when there is one and it is not blank.
pub open spec fn inserted_for(final_text: Option<String>) -> Seq<Seq<char>> {
    match final_text {
        Some(t) => if blank(t@) { Seq::empty() } else { seq![t@] },
        None => Seq::empty(),
    }
}

/// `chunks` is `before` followed by `n` more chunks.
pub open spec fn extends_by<S>(before: Seq<Seq<S>>, chunks: Seq<Seq<S>>, n: nat) -> bool {
    &&& chunks.len() == before.len() + n
    &&& chunks.subrange(0, before.len() as int) == before
}

impl<S, P: SttProvider<S>, A: AudioCaptureService<S>, C: ClipboardInserter> DictationStateMachine<S, P, A, C> {
    /// The state that the user interface shows.
    pub closed spec fn ui_state(&self) -> UiState {
        self.state
    }

    /// The current (or most recent) dictation session.
    pub closed spec fn current_session(&self) -> DictationSession {
        self.session
    }

    /// The non-empty chunks read from the audio source since the session began.
    pub closed spec fn chunks_read(&self) -> Seq<Seq<S>> {
        self.read_log@
    }

    /// The chunks fed to the transcription backend since the session began.
    pub closed spec fn chunks_fed(&self) -> Seq<Seq<S>> {
        self.fed_log@
    }

    /// The texts handed to the inserter so far.
    pub closed spec fn insertions(&self) -> Seq<Seq<char>> {
        self.inserted_log@
    }

    /// Since the session began, the audio source has handed back an empty chunk,
    /// its sign that no audio is left.
    pub closed spec fn audio_ended(&self) -> bool {
        self.audio_ended@
    }

    /// A transcription session has been begun and not yet ended.
    pub closed spec fn provider_is_open(&self) -> bool {
        self.provider_open
    }

    /// A capture session has been started and not yet stopped.
    pub closed spec fn capture_is_open(&self) -> bool {
        self.capture_open
    }

    /// `Recording` holds exactly while both sessions are open; a recording has
    /// no final text and has fed every chunk it read; `Success` shows a
    /// non-blank final text.
    pub closed spec fn wf(&self) -> bool {
        &&& self.state is Recording ==> {
            &&& self.provider_is_open()
            &&& self.capture_is_open()
            &&& self.session.final_text is None
            &&& self.fed_log@ == self.read_log@
        }
        &&& !(self.state is Recording) ==> !self.provider_is_open() && !self.capture_is_open()
        &&& self.state is Success ==> {
            &&& self.session.final_text is Some
            &&& !blank(self.session.final_text->Some_0@)
        }
        &&& nonempty_chunks(self.read_log@)
    }

    /// Between commands: a transcription session and a capture session are
    /// open, one of each, exactly while `Recording`; a recording has no final
    /// text yet; and `Success` shows the non-blank final text.
    pub proof fn lemma_wf_state(m: Self)
        requires
            m.wf(),
        ensures
            m.ui_state() is Recording <==> (m.provider_is_open() && m.capture_is_open()),
            m.provider_is_open() <==> m.capture_is_open(),
            m.ui_state() is Recording ==> m.current_session().final_text is None,
            m.ui_state() is Success ==> {
                &&& m.current_session().final_text is Some
                &&& !blank(m.current_session().final_text->Some_0@)
            },
    {
    }

    pub fn new(provider: P, audio: A, clipboard: C) -> (r: Self)
        ensures
            r.wf(),
            r.ui_state() is Idle,
            r.current_session().is_fresh(),
            r.chunks_read().len() == 0,
            r.chunks_fed().len() == 0,
            r.insertions().len() == 0,
    {
        DictationStateMachine {
            state: UiState::Idle,
            session: DictationSession::default(),
            provider,
            audio,
            clipboard,
            provider_open: false,
            capture_open: false,
            samples: PhantomData,
            read_log: Ghost(Seq::empty()),
            fed_log: Ghost(Seq::empty()),
            inserted_log: Ghost(Seq::empty()),
            audio_ended: Ghost(false),
        }
    }

    /// `after` differs from `before` in the open flags at most.
    spec fn same_but_flags(before: Self, after: Self) -> bool {
        &&& after.state == before.state
        &&& after.session == before.session
        &&& after.read_log == before.read_log
        &&& after.fed_log == before.fed_log
        &&& after.inserted_log == before.inserted_log
        &&& after.audio_ended == before.audio_ended
    }

    /// `after` is `before` with every session closed and `e` shown as the state.
    spec fn aborted(before: Self, after: Self, e: DictationError) -> bool {
        &&& !after.provider_open
        &&& !after.capture_open
        &&& after.state.is_error_with(reason_of(e))
        &&& after.session == before.session
        &&& after.read_log == before.read_log
        &&& after.fed_log == before.fed_log
        &&& after.inserted_log == before.inserted_log
        &&& after.audio_ended == before.audio_ended
    }

    /// Best-effort close of whatever session is open; a failure to close is ignored.
    fn close_open_sessions(&mut self)
        ensures
            !final(self).provider_open,
            !final(self).capture_open,
            Self::same_but_flags(*old(self), *final(self)),
    {
        if self.capture_open {
            let _ = self.audio.stop_capture();
            self.capture_open = false;
        }
        if self.provider_open {
            let _ = self.provider.end_session();
            self.provider_open = false;
        }
    }

    /// Closes what is open and records `e` in the state.
    fn abort_with(&mut self, e: &DictationError)
        ensures
            Self::aborted(*old(self), *final(self), *e),
    {
        self.close_open_sessions();
        self.state = UiState::Error(e.reason());
    }

    /// Acts on what `begin_session` returned: the transcription session is
    /// open, or the backend's message becomes `ProviderUnavailable`.
    fn opened_provider(&mut self, begun: Result<(), String>) -> (r: Result<(), DictationError>)
        ensures
            match begun {
                Ok(()) => {
                    &&& r == Ok::<(), DictationError>(())
                    &&& final(self).provider_open
                    &&& final(self).capture_open == old(self).capture_open
                    &&& Self::same_but_flags(*old(self), *final(self))
                },
                Err(m) => {
                    &&& r == Err::<(), DictationError>(DictationError::ProviderUnavailable(m))
                    &&& Self::aborted(*old(self), *final(self), DictationError::ProviderUnavailable(m))
                },
            },
    {
        match begun {
            Ok(()) => {
                self.provider_open = true;
                Ok(())
            },
            Err(m) => {
                let e = DictationError::ProviderUnavailable(m);
                self.abort_with(&e);
                Err(e)
            },
        }
    }

    /// Acts on what `start_capture` returned: the capture session is open, or
    /// the source's message becomes `CaptureStateError`.
    fn opened_capture(&mut self, started: Result<(), String>) -> (r: Result<(), DictationError>)
        ensures
            match started {
                Ok(()) => {
                    &&& r == Ok::<(), DictationError>(())
                    &&& final(self).capture_open
                    &&& final(self).provider_open == old(self).provider_open
                    &&& Self::same_but_flags(*old(self), *final(self))
                },
                Err(m) => {
                    &&& r == Err::<(), DictationError>(DictationError::CaptureStateError(m))
                    &&& Self::aborted(*old(self), *final(self), DictationError::CaptureStateError(m))
                },
            },
    {
        match started {
            Ok(()) => {
                self.capture_open = true;
                Ok(())
            },
            Err(m) => {
                let e = DictationError::CaptureStateError(m);
                self.abort_with(&e);
                Err(e)
            },
        }
    }

    /// Acts on what `stop_capture` returned: the capture session is closed, or
    /// the source's message becomes `CaptureStateError`.
    fn closed_capture(&mut self, stopped: Result<(), String>) -> (r: Result<(), DictationError>)
        ensures
            match stopped {
                Ok(()) => {
                    &&& r == Ok::<(), DictationError>(())
                    &&& !final(self).capture_open
                    &&& final(self).provider_open == old(self).provider_open
                    &&& Self::same_but_flags(*old(self), *final(self))
                },
                Err(m) => {
                    &&& r == Err::<(), DictationError>(DictationError::CaptureStateError(m))
                    &&& Self::aborted(*old(self), *final(self), DictationError::CaptureStateError(m))
                },
            },
    {
        match stopped {
            Ok(()) => {
                self.capture_open = false;
                Ok(())
            },
            Err(m) => {
                let e = DictationError::CaptureStateError(m);
                self.abort_with(&e);
                Err(e)
            },
        }
    }

    /// Acts on what `read_mono_chunk` returned: an empty chunk marks the end of
    /// the audio and gives `None`; a non-empty one is logged as read and handed
    /// back; the source's message becomes `CaptureStateError`.
    fn took_chunk(&mut self, read: Result<Vec<S>, String>) -> (r: Result<Option<Vec<S>>, DictationError>)
        ensures
            match read {
                Ok(c) => if c@.len() == 0 {
                    &&& r == Ok::<Option<Vec<S>>, DictationError>(None)
                    &&& final(self).audio_ended@
                    &&& final(self).read_log == old(self).read_log
                    &&& final(self).state == old(self).state
                    &&& final(self).session == old(self).session
                    &&& final(self).fed_log == old(self).fed_log
                    &&& final(self).inserted_log == old(self).inserted_log
                    &&& final(self).provider_open == old(self).provider_open
                    &&& final(self).capture_open == old(self).capture_open
                } else {
                    &&& r == Ok::<Option<Vec<S>>, DictationError>(Some(c))
                    &&& final(self).read_log@ == old(self).read_log@.push(c@)
                    &&& final(self).audio_ended == old(self).audio_ended
                    &&& final(self).state == old(self).state
                    &&& final(self).session == old(self).session
                    &&& final(self).fed_log == old(self).fed_log
                    &&& final(self).inserted_log == old(self).inserted_log
                    &&& final(self).provider_open == old(self).provider_open
                    &&& final(self).capture_open == old(self).capture_open
                },
                Err(m) => {
                    &&& r == Err::<Option<Vec<S>>, DictationError>(DictationError::CaptureStateError(m))
                    &&& Self::aborted(*old(self), *final(self), DictationError::CaptureStateError(m))
                },
            },
    {
        match read {
            Ok(c) => {
                if c.len() == 0 {
                    self.audio_ended = Ghost(true);
                    Ok(None)
                } else {
                    self.read_log = Ghost(self.read_log@.push(c@));
                    Ok(Some(c))
                }
            },
            Err(m) => {
                let e = DictationError::CaptureStateError(m);
                self.abort_with(&e);
                Err(e)
            },
        }
    }

    /// Acts on what `feed_audio_chunk` returned for `chunk`: the chunk is logged
    /// as fed and an interim result replaces `partial_text`; the backend's
    /// message becomes `ProviderStreamError`.
    fn fed_chunk(&mut self, fed: Result<Option<ProviderResult>, String>, chunk: &Vec<S>) -> (r: Result<(), DictationError>)
        ensures
            match fed {
                Ok(interim) => {
                    &&& r == Ok::<(), DictationError>(())
                    &&& final(self).fed_log@ == old(self).fed_log@.push(chunk@)
                    &&& final(self).session.partial_text == match interim {
                        Some(p) => if p.is_partial { p.text } else { old(self).session.partial_text },
                        None => old(self).session.partial_text,
                    }
                    &&& final(self).session.final_text == old(self).session.final_text
                    &&& final(self).state == old(self).state
                    &&& final(self).read_log == old(self).read_log
                    &&& final(self).inserted_log == old(self).inserted_log
                    &&& final(self).audio_ended == old(self).audio_ended
                    &&& final(self).provider_open == old(self).provider_open
                    &&& final(self).capture_open == old(self).capture_open
                },
                Err(m) => {
                    &&& r == Err::<(), DictationError>(DictationError::ProviderStreamError(m))
                    &&& Self::aborted(*old(self), *final(self), DictationError::ProviderStreamError(m))
                },
            },
    {
        match fed {
            Ok(interim) => {
                self.fed_log = Ghost(self.fed_log@.push(chunk@));
                if let Some(p) = interim {
                    if p.is_partial {
                        self.session.partial_text = p.text;
                    }
                }
                Ok(())
            },
            Err(m) => {
                let e = DictationError::ProviderStreamError(m);
                self.abort_with(&e);
                Err(e)
            },
        }
    }

    /// Acts on what `end_session` returned: the transcription session is
    /// closed and its text kept as the final text; a blank text shows
    /// `Error("No transcript returned")` and gives `EmptyTranscript`; the
    /// backend's message becomes `ProviderFinalizeError`.
    fn kept_final_text(&mut self, ended: Result<ProviderResult, String>) -> (r: Result<(), DictationError>)
        ensures
            !final(self).provider_open,
            match ended {
                Ok(res) => {
                    &&& final(self).session.final_text == Some(res.text)
                    &&& final(self).session.partial_text == old(self).session.partial_text
                    &&& final(self).capture_open == old(self).capture_open
                    &&& final(self).read_log == old(self).read_log
                    &&& final(self).fed_log == old(self).fed_log
                    &&& final(self).inserted_log == old(self).inserted_log
                    &&& final(self).audio_ended == old(self).audio_ended
                    &&& blank(res.text@) ==> {
                        &&& r == Err::<(), DictationError>(DictationError::EmptyTranscript)
                        &&& final(self).state.is_error_with("No transcript returned"@)
                    }
                    &&& !blank(res.text@) ==> {
                        &&& r == Ok::<(), DictationError>(())
                        &&& final(self).state == old(self).state
                    }
                },
                Err(m) => {
                    &&& r == Err::<(), DictationError>(DictationError::ProviderFinalizeError(m))
                    &&& Self::aborted(*old(self), *final(self), DictationError::ProviderFinalizeError(m))
                },
            },
    {
        self.provider_open = false;
        match ended {
            Ok(res) => {
                let text = res.text;
                let empty = is_blank(text.as_str());
                self.session.final_text = Some(text);
                if empty {
                    let e = DictationError::EmptyTranscript;
                    self.state = UiState::Error(e.reason());
                    Err(e)
                } else {
                    Ok(())
                }
            },
            Err(m) => {
                let e = DictationError::ProviderFinalizeError(m);
                self.abort_with(&e);
                Err(e)
            },
        }
    }

    /// Acts on what `insert_text` returned: `Success`, or the inserter's
    /// message shown as the error state and returned as `InsertionError`.
    fn settled_insertion(&mut self, inserted: Result<(), String>) -> (r: Result<(), DictationError>)
        ensures
            final(self).session == old(self).session,
            final(self).read_log == old(self).read_log,
            final(self).fed_log == old(self).fed_log,
            final(self).inserted_log == old(self).inserted_log,
            final(self).audio_ended == old(self).audio_ended,
            final(self).provider_open == old(self).provider_open,
            final(self).capture_open == old(self).capture_open,
            match inserted {
                Ok(()) => r == Ok::<(), DictationError>(()) && final(self).state is Success,
                Err(m) => {
                    &&& r == Err::<(), DictationError>(DictationError::InsertionError(m))
                    &&& final(self).state.is_error_with(m@)
                },
            },
    {
        match inserted {
            Ok(()) => {
                self.state = UiState::Success;
                Ok(())
            },
            Err(m) => {
                let e = DictationError::InsertionError(m);
                self.state = UiState::Error(e.reason());
                Err(e)
            },
        }
    }

    /// What `start_recording` does, from `before` to `after`, returning `r`.
    pub open spec fn start_outcome(before: Self, after: Self, r: Result<(), DictationError>) -> bool {
        &&& after.wf()
        &&& after.insertions() == before.insertions()
        &&& (before.ui_state() is Recording || before.ui_state() is Transcribing) ==> {
            &&& r == Err::<(), DictationError>(DictationError::AlreadyActive)
            &&& after == before
        }
        &&& !(before.ui_state() is Recording || before.ui_state() is Transcribing) ==> match r {
            Ok(()) => {
                &&& after.ui_state() is Recording
                &&& after.current_session().is_fresh()
                &&& after.chunks_read().len() == 0
                &&& after.chunks_fed().len() == 0
                &&& !after.audio_ended()
            },
            Err(e) => {
                &&& (e is ProviderUnavailable || e is CaptureStateError)
                &&& after.ui_state().is_error_with(reason_of(e))
                &&& after.current_session() == before.current_session()
                &&& !after.provider_is_open()
                &&& !after.capture_is_open()
            },
        }
    }

    /// A second `start_recording` right after one that succeeded is refused
    /// with `AlreadyActive` and leaves the machine exactly as the first left it.
    pub proof fn lemma_second_start_rejected(
        m0: Self,
        m1: Self,
        m2: Self,
        r2: Result<(), DictationError>,
    )
        requires
            m0.wf(),
            Self::start_outcome(m0, m1, Ok(())),
            Self::start_outcome(m1, m2, r2),
        ensures
            r2 == Err::<(), DictationError>(DictationError::AlreadyActive),
            m2 == m1,
            m2.ui_state() is Recording,
    {
    }

    /// Starts a new recording from `Idle`, `Success` or `Error`: opens a
    /// transcription session, then a capture session, then replaces the
    /// session with a fresh one. If either open fails, nothing is left open
    /// and the state shows the error that is returned, which carries the
    /// collaborator's message. While `Recording` or `Transcribing` it changes
    /// nothing and returns `AlreadyActive`.
    pub fn start_recording(&mut self) -> (r: Result<(), DictationError>)
        requires
            old(self).wf(),
        ensures
            Self::start_outcome(*old(self), *final(self), r),
    {
        match self.state {
            UiState::Recording | UiState::Transcribing => {
                return Err(DictationError::AlreadyActive);
            },
            _ => {},
        }
        let begun = self.provider.begin_session();
        if let Err(e) = self.opened_provider(begun) {
            return Err(e);
        }
        let started = self.audio.start_capture();
        if let Err(e) = self.opened_capture(started) {
            return Err(e);
        }
        self.read_log = Ghost(Seq::empty());
        self.fed_log = Ghost(Seq::empty());
        self.audio_ended = Ghost(false);
        self.session = DictationSession::default();
        self.state = UiState::Recording;
        Ok(())
    }

    /// Reads up to `max_chunks` chunks from the audio source and forwards each
    /// non-empty one, in the order read, to the transcription backend; an
    /// interim result replaces `partial_text`. Stops early at the first empty
    /// chunk. On a read or feed failure nothing further is fed, both sessions
    /// are closed and the error is recorded and returned.
    fn forward_chunks(&mut self, max_chunks: usize) -> (r: Result<usize, DictationError>)
        requires
            old(self).provider_open,
            old(self).session.final_text is None,
            old(self).fed_log@ == old(self).read_log@,
            nonempty_chunks(old(self).read_log@),
        ensures
            final(self).session.final_text is None,
            final(self).inserted_log == old(self).inserted_log,
            nonempty_chunks(final(self).read_log@),
            old(self).audio_ended@ ==> final(self).audio_ended@,
            match r {
                Ok(n) => {
                    &&& n <= max_chunks
                    &&& final(self).audio_ended@ || n == max_chunks
                    &&& extends_by(old(self).read_log@, final(self).read_log@, n as nat)
                    &&& final(self).fed_log@ == final(self).read_log@
                    &&& final(self).state == old(self).state
                    &&& final(self).provider_open
                    &&& final(self).capture_open == old(self).capture_open
                },
                Err(e) => {
                    &&& (e is CaptureStateError || e is ProviderStreamError)
                    &&& final(self).state.is_error_with(reason_of(e))
                    &&& !final(self).provider_open
                    &&& !final(self).capture_open
                    &&& final(self).read_log@.subrange(0, old(self).read_log@.len() as int)
                        == old(self).read_log@
                    &&& old(self).read_log@.len() <= final(self).read_log@.len()
                },
            },
    {
        let mut count: usize = 0;
        assert(self.read_log@.subrange(0, self.read_log@.len() as int) =~= self.read_log@);
        while count < max_chunks
            invariant
                count <= max_chunks,
                self.state == old(self).state,
                self.provider_open,
                self.capture_open == old(self).capture_open,
                self.session.final_text is None,
                self.inserted_log == old(self).inserted_log,
                self.fed_log@ == self.read_log@,
                nonempty_chunks(self.read_log@),
                extends_by(old(self).read_log@, self.read_log@, count as nat),
                old(self).audio_ended@ ==> self.audio_ended@,
            ensures
                self.audio_ended@ || count == max_chunks,
            decreases max_chunks - count,
        {
            let read = self.audio.read_mono_chunk();
            let chunk = match self.took_chunk(read) {
                Ok(Some(c)) => c,
                Ok(None) => {
                    break;
                },
                Err(e) => {
                    return Err(e);
                },
            };
            assert(self.read_log@.subrange(0, old(self).read_log@.len() as int)
                =~= old(self).read_log@);
            let fed = self.provider.feed_audio_chunk(chunk.as_slice());
            if let Err(e) = self.fed_chunk(fed, &chunk) {
                return Err(e);
            }
            count = count + 1;
        }
        Ok(count)
    }

    /// The streaming feed step: while `Recording`, forwards up to `max_chunks`
    /// captured chunks to the backend in capture order and returns how many
    /// were fed; fewer than `max_chunks` only once the source has handed back
    /// an empty chunk. From any other state it changes nothing and fails.
    pub fn pump_audio(&mut self, max_chunks: usize) -> (r: Result<usize, DictationError>)
        requires
            old(self).wf(),
        ensures
            final(self).wf(),
            final(self).insertions() == old(self).insertions(),
            !(old(self).ui_state() is Recording) ==> {
                &&& r == Err::<usize, DictationError>(DictationError::InvalidTransition)
                &&& *final(self) == *old(self)
            },
            old(self).ui_state() is Recording ==> match r {
                Ok(n) => {
                    &&& n <= max_chunks
                    &&& final(self).audio_ended() || n == max_chunks
                    &&& final(self).ui_state() is Recording
                    &&& extends_by(old(self).chunks_read(), final(self).chunks_read(), n as nat)
                    &&& final(self).chunks_fed() == final(self).chunks_read()
                },
                Err(e) => {
                    &&& (e is CaptureStateError || e is ProviderStreamError)
                    &&& final(self).ui_state().is_error_with(reason_of(e))
                },
            },
    {
        match self.state {
            UiState::Recording => {},
            _ => {
                return Err(DictationError::InvalidTransition);
            },
        }
        self.forward_chunks(max_chunks)
    }

    /// Ends the recording: shows `Transcribing`, stops capture, feeds the audio
    /// still buffered (up to `DRAIN_CHUNK_LIMIT` chunks, or until the source
    /// hands back an empty chunk), ends the transcription session and keeps its
    /// text as the final text. A blank text ends in `Error("No transcript
    /// returned")` with no insertion; any other text is handed to the inserter,
    /// and the state becomes `Success` if that succeeds and the inserter's error
    /// otherwise. Valid only from `Recording`; from any other state it changes
    /// nothing and fails.
    pub fn stop_and_transcribe(&mut self) -> (r: Result<(), DictationError>)
        requires
            old(self).wf(),
        ensures
            final(self).wf(),
            !(old(self).ui_state() is Recording) ==> {
                &&& r == Err::<(), DictationError>(DictationError::InvalidTransition)
                &&& *final(self) == *old(self)
            },
            old(self).ui_state() is Recording ==> {
                &&& transcription_settled(
                    final(self).ui_state(),
                    final(self).current_session().final_text,
                    r,
                )
                &&& final(self).insertions() == old(self).insertions() + inserted_for(
                    final(self).current_session().final_text,
                )
                &&& old(self).chunks_read().len() <= final(self).chunks_read().len()
                &&& final(self).chunks_read().subrange(0, old(self).chunks_read().len() as int)
                    == old(self).chunks_read()
                &&& (r is Ok || r->Err_0 is EmptyTranscript || r->Err_0 is InsertionError
                    || r->Err_0 is ProviderFinalizeError) ==> {
                    &&& final(self).chunks_fed() == final(self).chunks_read()
                    &&& final(self).audio_ended() || final(self).chunks_read().len()
                        == old(self).chunks_read().len() + DRAIN_CHUNK_LIMIT
                }
            },
    {
        match self.state {
            UiState::Recording => {},
            _ => {
                return Err(DictationError::InvalidTransition);
            },
        }
        self.state = UiState::Transcribing;
        let stopped = self.audio.stop_capture();
        if let Err(e) = self.closed_capture(stopped) {
            return Err(e);
        }
        if let Err(e) = self.forward_chunks(DRAIN_CHUNK_LIMIT) {
            return Err(e);
        }
        let ended = self.provider.end_session();
        if let Err(e) = self.kept_final_text(ended) {
            return Err(e);
        }
        let inserted = match &self.session.final_text {
            Some(t) => self.clipboard.insert_text(t.as_str()),
            None => Ok(()),
        };
        self.inserted_log = Ghost(self.inserted_log@.push(self.session.final_text->Some_0@));
        self.settled_insertion(inserted)
    }

    /// Returns to `Idle` from any state: closes any open session (best effort)
    /// and clears `partial_text`; `final_text` stays for display.
    pub fn reset_to_idle(&mut self)
        requires
            old(self).wf(),
        ensures
            final(self).wf(),
            final(self).ui_state() is Idle,
            final(self).current_session().partial_text@.len() == 0,
            final(self).current_session().final_text == old(self).current_session().final_text,
            final(self).insertions() == old(self).insertions(),
            !final(self).provider_is_open(),
            !final(self).capture_is_open(),
    {
        self.close_open_sessions();
        self.state = UiState::Idle;
        self.session.partial_text = String::new();
    }

    /// Forces `Error(reason)` from any state, closing any open session (best
    /// effort); the session itself is kept.
    pub fn fail(&mut self, reason: String)
        requires
            old(self).wf(),
        ensures
            final(self).wf(),
            final(self).ui_state().is_error_with(reason@),
            final(self).current_session() == old(self).current_session(),
            final(self).insertions() == old(self).insertions(),
            !final(self).provider_is_open(),
            !final(self).capture_is_open(),
    {
        self.close_open_sessions();
        self.state = UiState::Error(reason);
    }

    /// The state that the user interface shows.
    pub fn state(&self) -> (r: &UiState)
        ensures
            *r == self.ui_state(),
    {
        &self.state
    }

    /// The current (or most recent) dictation session.
    pub fn session(&self) -> (r: &DictationSession)
        ensures
            *r == self.current_session(),
    {
        &self.session
    }
}

} // verus!
