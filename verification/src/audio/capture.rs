//! The capture engine's state.
//!
//! The engine owns one recording session at a time. Opening the input device,
//! running the stream on its worker thread and joining that thread are done
//! by the caller; this module decides what each of those events does to the
//! session: whether a start opens a stream, what a delivered block adds to
//! the buffer and to the level, and what a stop hands over.

use vstd::prelude::*;
use vstd::string::*;

use crate::audio::sample::{block_rms, downmix, downmixed, from_pcm16, rms};
use crate::errors::{ErrorKind, VoiceFlowError};

verus! {

/// The interval between two polls of the level, in milliseconds.
pub const LEVEL_POLL_MS: u64 = 50;

/// The event that carries a level to the observers.
pub const EVENT_LEVEL: &'static str = "audio-level";

/// The detail of the failure of a start on a host without an input device.
pub const NO_INPUT_DEVICE: &'static str = "No input device found";

/// The sample format that the input device delivers.
#[derive(Clone, Copy, Debug, PartialEq, Eq, Structural)]
pub enum DeviceFormat {
    /// 32-bit floating point, nominally between -1.0 and 1.0.
    F32,
    /// Signed 16-bit integers.
    I16,
    /// Any other format; a stream in it cannot be captured.
    Unsupported,
}

/// The input configuration negotiated with the device.
#[derive(Clone, Copy, Debug, PartialEq, Eq, Structural)]
pub struct StreamConfig {
    /// The device's native rate in samples per second.
    pub sample_rate: u32,
    /// The number of interleaved channels.
    pub channels: u16,
    /// The format of one sample.
    pub format: DeviceFormat,
}

/// What opening the default input device gave.
#[derive(Debug)]
pub enum DeviceProbe {
    /// The host has no input device.
    NoDevice,
    /// The device did not report an input configuration; the driver's words.
    ConfigError(String),
    /// The device is ready with this configuration.
    Ready(StreamConfig),
}

/// The detail of the audio error of a start that `probe` lets fail: the
/// driver's words where it has any.
pub open spec fn probe_failure(probe: DeviceProbe) -> Seq<char> {
    match probe {
        DeviceProbe::ConfigError(reason) => reason@,
        _ => NO_INPUT_DEVICE@,
    }
}

/// What the caller does after a successful start.
#[derive(Clone, Copy, Debug, PartialEq, Eq, Structural)]
pub enum StartAction {
    /// A session is live already: nothing to do, no worker to spawn.
    AlreadyRecording,
    /// Spawn the one worker thread that runs the stream with this
    /// configuration.
    SpawnWorker(StreamConfig),
}

/// The mathematical state of the capture engine.
pub struct EngineView {
    /// The mono amplitudes buffered for the live session.
    pub samples: Seq<i32>,
    /// Whether a session is live.
    pub recording: bool,
    /// The root-mean-square amplitude of the last non-empty block.
    pub level: u32,
    /// The native rate found when the live session's stream was opened.
    pub sample_rate: u32,
    /// Whether a worker thread is attached: spawned by a start and not yet
    /// joined by a stop.
    pub worker: bool,
}

impl EngineView {
    /// The state before any session.
    pub open spec fn idle() -> EngineView {
        EngineView {
            samples: Seq::empty(),
            recording: false,
            level: 0,
            sample_rate: 0,
            worker: false,
        }
    }

    /// What holds of every state of the engine: a session is live only
    /// while a worker is attached.
    pub open spec fn well_formed(self) -> bool {
        self.recording ==> self.worker
    }

    /// The state after a start request answered by `probe`. A live session
    /// is left as it is. Otherwise leftover samples are dropped, and a ready
    /// device begins a session at its native rate.
    pub open spec fn start(self, probe: DeviceProbe) -> EngineView {
        if self.recording {
            self
        } else {
            match probe {
                DeviceProbe::Ready(config) => EngineView {
                    samples: Seq::empty(),
                    recording: true,
                    level: self.level,
                    sample_rate: config.sample_rate,
                    worker: true,
                },
                _ => EngineView {
                    samples: Seq::empty(),
                    recording: false,
                    level: self.level,
                    sample_rate: self.sample_rate,
                    worker: self.worker,
                },
            }
        }
    }

    /// What a start request answered by `probe` asks of the caller, or
    /// `None` where the start fails.
    pub open spec fn start_action(self, probe: DeviceProbe) -> Option<StartAction> {
        if self.recording {
            Some(StartAction::AlreadyRecording)
        } else {
            match probe {
                DeviceProbe::Ready(config) => Some(StartAction::SpawnWorker(config)),
                _ => None,
            }
        }
    }

    /// The state after the stream delivered one block of interleaved
    /// amplitudes: each frame adds its mean to the buffer, and a block with
    /// at least one frame sets the level.
    pub open spec fn block(self, data: Seq<i32>, channels: int) -> EngineView {
        let mono = downmixed(data, channels);
        EngineView {
            samples: self.samples + mono,
            recording: self.recording,
            level: if mono.len() > 0 {
                rms(mono) as u32
            } else {
                self.level
            },
            sample_rate: self.sample_rate,
            worker: self.worker,
        }
    }

    /// The state after the worker tore the stream down or failed to run it.
    /// The worker stays attached until a stop joins it.
    pub open spec fn worker_exit(self) -> EngineView {
        EngineView {
            samples: self.samples,
            recording: false,
            level: self.level,
            sample_rate: self.sample_rate,
            worker: self.worker,
        }
    }

    /// What a stop hands over: the buffered samples and the native rate.
    pub open spec fn drained(self) -> (Seq<i32>, u32) {
        (self.samples, self.sample_rate)
    }

    /// The state after a stop: no session, no worker, an empty buffer.
    pub open spec fn stop(self) -> EngineView {
        EngineView {
            samples: Seq::empty(),
            recording: false,
            level: self.level,
            sample_rate: self.sample_rate,
            worker: false,
        }
    }
}

/// What a poll shows of a level read beside the recording flag: the level
/// while a session is live, nothing once it has ended.
pub open spec fn shown_level(recording: bool, level: u32) -> Option<u32> {
    if recording {
        Some(level)
    } else {
        None
    }
}

/// Decides what the level poll shows from the flag and the level as it
/// read them: the level to announce, or `None`, at which the polling stops.
pub fn level_to_show(recording: bool, level: u32) -> (shown: Option<u32>)
    ensures
        shown == shown_level(recording, level),
{
    if recording {
        Some(level)
    } else {
        None
    }
}

/// The capture engine's state: the session's buffer and rate, the recording
/// flag and the live level.
pub struct AudioState {
    samples: Vec<i32>,
    recording: bool,
    level: u32,
    sample_rate: u32,
    worker: bool,
}

impl View for AudioState {
    type V = EngineView;

    closed spec fn view(&self) -> EngineView {
        EngineView {
            samples: self.samples@,
            recording: self.recording,
            level: self.level,
            sample_rate: self.sample_rate,
            worker: self.worker,
        }
    }
}

impl Default for AudioState {
    fn default() -> (state: AudioState)
        ensures
            state@ == EngineView::idle(),
    {
        AudioState::new()
    }
}

impl AudioState {
    /// A session is live only while a worker is attached.
    #[verifier::type_invariant]
    spec fn session_has_worker(self) -> bool {
        self.recording ==> self.worker
    }

    /// An engine with no session.
    pub fn new() -> (state: AudioState)
        ensures
            state@ == EngineView::idle(),
    {
        AudioState {
            samples: Vec::new(),
            recording: false,
            level: 0,
            sample_rate: 0,
            worker: false,
        }
    }

    /// Whether a worker thread is attached and is to be signalled and
    /// joined before the stop. A live session always has one.
    pub fn has_worker(&self) -> (attached: bool)
        ensures
            attached == self@.worker,
            self@.well_formed(),
    {
        proof {
            use_type_invariant(self);
        }
        self.worker
    }

    /// The root-mean-square amplitude of the last block, in amplitude
    /// units. It is meaningful while recording; afterwards it is stale.
    pub fn get_level(&self) -> (level: u32)
        ensures
            level == self@.level,
    {
        self.level
    }

    /// What a poll of the level shows now.
    pub fn poll_level(&self) -> (shown: Option<u32>)
        ensures
            shown == shown_level(self@.recording, self@.level),
    {
        level_to_show(self.recording, self.level)
    }

    /// Whether a session is live.
    pub fn is_recording(&self) -> (recording: bool)
        ensures
            recording == self@.recording,
    {
        self.recording
    }

    /// Starts a session unless one is live. `probe` is what opening the
    /// default input device gave; it is not consulted while recording.
    pub fn start_recording(
        &mut self,
        probe: DeviceProbe,
    ) -> (r: Result<StartAction, VoiceFlowError>)
        ensures
            final(self)@ == old(self)@.start(probe),
            match old(self)@.start_action(probe) {
                Some(action) => r == Ok::<StartAction, VoiceFlowError>(action),
                None => r is Err,
            },
            r matches Err(e) ==> e.spec_kind() == ErrorKind::Audio && e.detail() == probe_failure(
                probe,
            ),
    {
        proof {
            use_type_invariant(&*self);
        }
        if self.recording {
            return Ok(StartAction::AlreadyRecording);
        }
        self.samples = Vec::new();
        match probe {
            DeviceProbe::NoDevice => Err(VoiceFlowError::Audio(String::from_str(NO_INPUT_DEVICE))),
            DeviceProbe::ConfigError(reason) => Err(VoiceFlowError::Audio(reason)),
            DeviceProbe::Ready(config) => {
                self.sample_rate = config.sample_rate;
                self.worker = true;
                self.recording = true;
                Ok(StartAction::SpawnWorker(config))
            },
        }
    }

    /// Takes in one block of interleaved amplitudes from the stream.
    pub fn push_block(&mut self, data: &[i32], channels: u16)
        requires
            channels > 0,
        ensures
            final(self)@ == old(self)@.block(data@, channels as int),
    {
        proof {
            use_type_invariant(&*self);
        }
        let mut mono = downmix(data, channels);
        if let Some(level) = block_rms(mono.as_slice()) {
            self.level = level;
        }
        let mut buffer: Vec<i32> = Vec::new();
        std::mem::swap(&mut self.samples, &mut buffer);
        buffer.append(&mut mono);
        self.samples = buffer;
    }

    /// Takes in one block of interleaved 16-bit device samples.
    pub fn push_pcm16_block(&mut self, data: &[i16], channels: u16)
        requires
            channels > 0,
        ensures
            final(self)@ == old(self)@.block(
                Seq::new(data@.len(), |i: int| data@[i] as i32),
                channels as int,
            ),
    {
        let mut wide: Vec<i32> = Vec::new();
        let mut i: usize = 0;
        while i < data.len()
            invariant
                i <= data.len(),
                wide@ == Seq::new(i as nat, |k: int| data@[k] as i32),
            decreases data.len() - i,
        {
            wide.push(from_pcm16(data[i]));
            i = i + 1;
            assert(wide@ =~= Seq::new(i as nat, |k: int| data@[k] as i32));
        }
        self.push_block(wide.as_slice(), channels);
    }

    /// Records that the worker has torn the stream down, or could not run
    /// it: the session is over, what was buffered stays until the stop.
    pub fn worker_exited(&mut self)
        ensures
            final(self)@ == old(self)@.worker_exit(),
    {
        self.recording = false;
    }

    /// Ends the session and hands over what was captured. The caller has
    /// signalled the worker and joined it before. Never fails.
    pub fn stop_recording(&mut self) -> (r: Result<(Vec<i32>, u32), VoiceFlowError>)
        ensures
            final(self)@ == old(self)@.stop(),
            r matches Ok(pair) && (pair.0@, pair.1) == old(self)@.drained(),
    {
        proof {
            use_type_invariant(&*self);
        }
        let mut samples: Vec<i32> = Vec::new();
        std::mem::swap(&mut self.samples, &mut samples);
        self.recording = false;
        self.worker = false;
        Ok((samples, self.sample_rate))
    }
}

/// A stop with no start before it hands over no samples and leaves the
/// engine idle.
pub proof fn lemma_stop_without_start()
    ensures
        EngineView::idle().drained() == (Seq::<i32>::empty(), 0u32),
        EngineView::idle().stop() == EngineView::idle(),
{
}

/// A stop right after a stop hands over no samples, and after a stop no
/// session is live and no worker is attached.
pub proof fn lemma_stop_twice(s: EngineView)
    ensures
        s.stop().drained().0 == Seq::<i32>::empty(),
        s.stop().stop() == s.stop(),
        !s.stop().recording,
        !s.stop().worker,
{
}

/// Every event keeps the engine well formed: whatever a start, a block, the
/// worker's exit or a stop leaves, a live session has its worker.
pub proof fn lemma_events_keep_well_formed(
    s: EngineView,
    probe: DeviceProbe,
    data: Seq<i32>,
    channels: int,
)
    requires
        s.well_formed(),
    ensures
        EngineView::idle().well_formed(),
        s.start(probe).well_formed(),
        s.block(data, channels).well_formed(),
        s.worker_exit().well_formed(),
        s.stop().well_formed(),
{
}

/// A start that follows a successful start, with no stop between them,
/// changes nothing and asks for no worker, whatever the device says.
pub proof fn lemma_start_twice(s: EngineView, first: DeviceProbe, second: DeviceProbe)
    requires
        s.start_action(first) is Some,
    ensures
        s.start(first).start(second) == s.start(first),
        s.start(first).start_action(second) == Some(StartAction::AlreadyRecording),
{
}

/// A block never changes the recording flag or the rate, and only ever
/// lengthens the buffer, by one sample for each frame.
pub proof fn lemma_block_appends(s: EngineView, data: Seq<i32>, channels: int)
    requires
        channels > 0,
    ensures
        s.block(data, channels).recording == s.recording,
        s.block(data, channels).sample_rate == s.sample_rate,
        s.block(data, channels).samples.len() == s.samples.len() + crate::audio::sample::frame_count(
            data.len() as int,
            channels,
        ),
        s.block(data, channels).samples.subrange(0, s.samples.len() as int) == s.samples,
{
    vstd::arithmetic::div_mod::lemma_div_pos_is_pos(data.len() + channels - 1, channels);
    assert(s.block(data, channels).samples.subrange(0, s.samples.len() as int) =~= s.samples);
}

} // verus!
