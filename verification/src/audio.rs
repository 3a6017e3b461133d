use vstd::prelude::*;
use crate::session::step;
use crate::session::AudioCommand;

verus! {

/// The fixed nominal sample rate of the keep-alive signal, in Hertz.
pub const SAMPLE_RATE: u32 = 48000;

/// The fixed channel count of the keep-alive signal.
pub const CHANNELS: u16 = 2;

/// A lazy, infinite generator of pure silence: every sample it yields is
/// the constant amplitude 0, it never signals an end, and it reports both
/// its current frame length and its total duration as unknown.
pub struct SilenceSource {
    channels: u16,
    sample_rate: u32,
}

impl SilenceSource {
    /// The channel count the generator was made with.
    pub closed spec fn spec_channels(self) -> u16 {
        self.channels
    }

    /// The sample rate the generator was made with.
    pub closed spec fn spec_sample_rate(self) -> u32 {
        self.sample_rate
    }

    /// The generator carries the fixed nominal signal format.
    pub open spec fn wf(self) -> bool {
        self.spec_channels() == CHANNELS && self.spec_sample_rate() == SAMPLE_RATE
    }

    /// A silence generator at the fixed nominal format.
    pub fn new() -> (s: Self)
        ensures
            s.wf(),
    {
        SilenceSource { channels: CHANNELS, sample_rate: SAMPLE_RATE }
    }

    /// The next sample. It always exists (the generator never ends) and
    /// is always the constant amplitude 0; yielding it changes nothing.
    pub fn next_sample(&mut self) -> (sample: i16)
        ensures
            sample == 0,
            *final(self) == *old(self),
    {
        0
    }

    /// Render the next `count` samples into a buffer: all silence.
    pub fn render(&mut self, count: usize) -> (buf: Vec<i16>)
        ensures
            buf@.len() == count,
            forall|i: int| 0 <= i < buf@.len() ==> buf@[i] == 0,
            *final(self) == *old(self),
    {
        let mut buf: Vec<i16> = Vec::new();
        let mut i: usize = 0;
        while i < count
            invariant
                i <= count,
                buf@.len() == i,
                forall|j: int| 0 <= j < buf@.len() ==> buf@[j] == 0,
                *self == *old(self),
            decreases count - i,
        {
            let sample = self.next_sample();
            buf.push(sample);
            i = i + 1;
        }
        buf
    }

    /// The number of samples left in the current frame: unknown, as the
    /// generator is unbounded.
    pub fn current_frame_len(&self) -> (len: Option<usize>)
        ensures
            len is None,
    {
        None
    }

    /// The total playing time in whole seconds: unknown, as the generator
    /// never ends.
    pub fn total_duration_secs(&self) -> (duration: Option<u64>)
        ensures
            duration is None,
    {
        None
    }

    /// The channel count of the signal.
    pub fn channels(&self) -> (n: u16)
        ensures
            n == self.spec_channels(),
    {
        self.channels
    }

    /// The sample rate of the signal, in Hertz.
    pub fn sample_rate(&self) -> (n: u32)
        ensures
            n == self.spec_sample_rate(),
    {
        self.sample_rate
    }
}

/// What the session holds of an open output stream: the keep-alive signal
/// attached to it and the fact that its playback volume is forced to 0.
/// The platform layer that opens the real device constructs one for each
/// stream it hands over.
pub struct StreamHandle {
    source: SilenceSource,
    muted: bool,
}

impl StreamHandle {
    /// The generator attached to the stream.
    pub closed spec fn spec_source(self) -> SilenceSource {
        self.source
    }

    /// Whether the playback volume is forced to 0.
    pub closed spec fn spec_muted(self) -> bool {
        self.muted
    }

    /// A handle carries a well-formed silent source and is muted.
    pub open spec fn wf(self) -> bool {
        self.spec_source().wf() && self.spec_muted()
    }

    /// The handle for a freshly opened stream: the silent source at the
    /// fixed nominal format, volume forced to 0.
    pub fn new() -> (h: Self)
        ensures
            h.wf(),
    {
        StreamHandle { source: SilenceSource::new(), muted: true }
    }
}

/// The audio keep-alive session: holds an open output stream exactly while
/// it is running, and produces the silent keep-alive signal on it.
pub struct SilentAudioPlayer {
    _stream: Option<StreamHandle>,
    is_running: bool,
}

impl SilentAudioPlayer {
    /// The running flag.
    pub closed spec fn running(self) -> bool {
        self.is_running
    }

    /// The stream handle the session holds, if any.
    pub closed spec fn stream(self) -> Option<StreamHandle> {
        self._stream
    }

    /// The session invariant: the running flag is set exactly when a
    /// stream handle is held, and a held handle is well-formed.
    pub open spec fn wf(self) -> bool {
        &&& self.running() <==> self.stream() is Some
        &&& self.stream() matches Some(h) ==> h.wf()
    }

    /// A fresh session: stopped, holding no stream.
    pub fn new() -> (p: Self)
        ensures
            p.wf(),
            !p.running(),
    {
        SilentAudioPlayer { _stream: None, is_running: false }
    }

    /// Whether a `start` must first acquire an output stream: exactly when
    /// no session is running. The platform layer consults this so that an
    /// already-running session triggers no duplicate acquisition.
    pub fn needs_stream(&self) -> (b: bool)
        ensures
            b == !self.running(),
    {
        !self.is_running
    }

    /// Start the keep-alive session, given the outcome of the one stream
    /// acquisition the platform layer attempted for it. Already running:
    /// a no-op that keeps the existing session. Acquisition succeeded: the
    /// session takes sole ownership of the stream and marks itself running.
    /// Acquisition failed: the error is returned and the session stays
    /// stopped, unchanged.
    pub fn start(&mut self, acquisition: Result<StreamHandle, String>) -> (r: Result<(), String>)
        requires
            old(self).wf(),
            acquisition matches Ok(h) ==> h.wf(),
        ensures
            final(self).wf(),
            old(self).running() ==> r is Ok && *final(self) == *old(self),
            !old(self).running() ==> (acquisition matches Ok(h) ==> r is Ok
                && final(self).stream() == Some(h)),
            !old(self).running() ==> (acquisition matches Err(e) ==> r == Err::<(), String>(e)
                && *final(self) == *old(self)),
            final(self).running() == step(
                old(self).running(),
                AudioCommand::Start,
                acquisition is Ok,
            ),
    {
        if self.is_running {
            return Ok(());
        }
        match acquisition {
            Ok(handle) => {
                self._stream = Some(handle);
                self.is_running = true;
                Ok(())
            },
            Err(e) => Err(e),
        }
    }

    /// Stop the keep-alive session: releases the stream handle, which
    /// halts the signal; a no-op when already stopped. Never fails.
    pub fn stop(&mut self)
        requires
            old(self).wf(),
        ensures
            final(self).wf(),
            !final(self).running(),
            final(self).stream() is None,
            !old(self).running() ==> *final(self) == *old(self),
            final(self).running() == step(old(self).running(), AudioCommand::Stop, false),
    {
        self.is_running = false;
        self._stream = None;
    }

    /// The running flag, with no side effect and without touching the
    /// audio hardware.
    pub fn is_playing(&self) -> (b: bool)
        ensures
            b == self.running(),
    {
        self.is_running
    }
}

} // verus!
