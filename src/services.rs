use vstd::prelude::*;

verus! {

/// Turns global key presses into start and stop commands.
pub trait HotkeyService: Send {
    fn start_monitoring(&mut self) -> Result<(), String>;

    fn stop_monitoring(&mut self) -> Result<(), String>;
}

/// Produces chunks of mono samples of type `S` while capture is active; after
/// `stop_capture`, `read_mono_chunk` returns the remaining buffered audio and
/// then an empty chunk.
pub trait AudioCaptureService<S>: Send {
    fn start_capture(&mut self) -> Result<(), String>;

    fn stop_capture(&mut self) -> Result<(), String>;

    fn read_mono_chunk(&mut self) -> Result<Vec<S>, String>;
}

/// A hotkey service that never reports a key press.
#[derive(Default)]
pub struct StubHotkeyService;

impl HotkeyService for StubHotkeyService {
    fn start_monitoring(&mut self) -> (r: Result<(), String>)
        ensures
            r == Ok::<(), String>(()),
    {
        Ok(())
    }

    fn stop_monitoring(&mut self) -> (r: Result<(), String>)
        ensures
            r == Ok::<(), String>(()),
    {
        Ok(())
    }
}

/// Samples in each chunk that the stub capture service delivers.
pub const STUB_CHUNK_FRAMES: usize = 1600;

/// A capture service that, while started, delivers chunks filled with one sample value.
pub struct StubAudioCaptureService<S> {
    pub sample: S,
    pub capturing: bool,
}

impl<S: Copy> StubAudioCaptureService<S> {
    pub fn new(sample: S) -> (r: Self)
        ensures
            r.sample == sample,
            !r.capturing,
    {
        StubAudioCaptureService { sample, capturing: false }
    }

    /// The chunk delivered while capturing: `STUB_CHUNK_FRAMES` copies of the sample.
    pub fn chunk(&self) -> (r: Vec<S>)
        ensures
            r@ == Seq::new(STUB_CHUNK_FRAMES as nat, |_i: int| self.sample),
    {
        let mut v: Vec<S> = Vec::new();
        let mut i: usize = 0;
        while i < STUB_CHUNK_FRAMES
            invariant
                i <= STUB_CHUNK_FRAMES,
                v@ == Seq::new(i as nat, |_i: int| self.sample),
            decreases STUB_CHUNK_FRAMES - i,
        {
            v.push(self.sample);
            i = i + 1;
            assert(v@ =~= Seq::new(i as nat, |_i: int| self.sample));
        }
        v
    }
}

impl<S: Copy + Send> AudioCaptureService<S> for StubAudioCaptureService<S> {
    fn start_capture(&mut self) -> (r: Result<(), String>)
        ensures
            old(self).capturing ==> r is Err && *final(self) == *old(self),
            !old(self).capturing ==> {
                &&& r == Ok::<(), String>(())
                &&& final(self).capturing
                &&& final(self).sample == old(self).sample
            },
    {
        if self.capturing {
            Err(String::from_str("capture already started"))
        } else {
            self.capturing = true;
            Ok(())
        }
    }

    fn stop_capture(&mut self) -> (r: Result<(), String>)
        ensures
            !old(self).capturing ==> r is Err && *final(self) == *old(self),
            old(self).capturing ==> {
                &&& r == Ok::<(), String>(())
                &&& !final(self).capturing
                &&& final(self).sample == old(self).sample
            },
    {
        if self.capturing {
            self.capturing = false;
            Ok(())
        } else {
            Err(String::from_str("capture not started"))
        }
    }

    fn read_mono_chunk(&mut self) -> (r: Result<Vec<S>, String>)
        ensures
            r is Ok,
            *final(self) == *old(self),
            old(self).capturing ==> r->Ok_0@ == Seq::new(
                STUB_CHUNK_FRAMES as nat,
                |_i: int| old(self).sample,
            ),
            !old(self).capturing ==> r->Ok_0@.len() == 0,
    {
        if self.capturing {
            Ok(self.chunk())
        } else {
            Ok(Vec::new())
        }
    }
}

} // verus!
