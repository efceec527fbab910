//! The recorder lifecycle: a two-state machine, idle or recording,
//! that is the sole source of truth for whether a session is live.
//!
//! The surrounding application owns everything platform-bound: it
//! resolves the input device and its default config, creates the
//! output path, runs the audio stream and hands each callback buffer
//! to `feed_int16` or `feed_float32_bits`.  Teardown order on stop is
//! the caller's duty: the stream must be stopped before
//! `stop_recording` is called, so no buffer can race the finalized
//! header.  The two `start_transition` / `stop_transition` spec
//! functions say exactly what each operation does to the abstract
//! state.

use crate::convert::{convert_f32_bits, convert_f32_spec, convert_i16, SampleFormat};
use crate::wav::{wav_bytes, WavEncoder, WavSpec, MAX_SAMPLES};
use vstd::prelude::*;

verus! {

/// The negotiated input configuration of the capture device, as the
/// platform layer reports it: channel count, sample rate and the
/// native encoding of delivered samples.
#[derive(Clone, Copy, PartialEq, Eq, Structural, Debug)]
pub struct AudioDeviceConfig {
    pub channels: u16,
    pub sample_rate_hz: u32,
    pub format: SampleFormat,
}

impl AudioDeviceConfig {
    /// The shape of the output file this config dictates: channel
    /// count and rate carry over; 16 bits per sample and integer PCM
    /// are fixed.
    pub open spec fn wav_spec(self) -> WavSpec {
        WavSpec { channels: self.channels, sample_rate: self.sample_rate_hz }
    }

    /// A config the container can represent.
    pub open spec fn wf(self) -> bool {
        self.wav_spec().wf()
    }

    pub fn is_wf(&self) -> (r: bool)
        ensures
            r == self.wf(),
    {
        let w = WavSpec { channels: self.channels, sample_rate: self.sample_rate_hz };
        w.is_wf()
    }
}

/// Everything that can go wrong around a recording session.
#[derive(Clone, Copy, PartialEq, Eq, Structural, Debug)]
pub enum RecorderError {
    /// No input device was found; fatal to `start_recording`.
    DeviceUnavailable,
    /// The device's native sample format is outside {Int16, Float32}.
    UnsupportedFormat,
    /// The output could not be created, written or finalized.
    IoError,
    /// `start_recording` was called while a session was live.
    AlreadyRecording,
    /// The platform audio layer reported a fatal stream error; the
    /// application's error callback reports it after stopping the
    /// session.
    StreamFault,
}

/// The recorder's abstract state: idle, or recording under a device
/// config with the samples captured so far.
pub enum RecorderState {
    Idle,
    Recording { config: AudioDeviceConfig, samples: Seq<i16> },
}

/// What `stop_recording` does to the abstract state: tearing down a
/// live session finalizes the file; stopping when idle changes nothing
/// and yields nothing.
pub open spec fn stop_transition(s: RecorderState) -> (RecorderState, Option<Seq<u8>>) {
    match s {
        RecorderState::Recording { config, samples } => (
            RecorderState::Idle,
            Some(wav_bytes(config.wav_spec(), samples)),
        ),
        RecorderState::Idle => (RecorderState::Idle, None),
    }
}

/// What `start_recording` does to the abstract state.  A live session
/// is never disturbed; otherwise the device, its format and the output
/// sink are checked in that order, and only when all are in place does
/// a fresh session begin.
pub open spec fn start_transition(
    s: RecorderState,
    device: Option<AudioDeviceConfig>,
    output_ready: bool,
) -> (RecorderState, Result<(), RecorderError>) {
    if s is Recording {
        (s, Err(RecorderError::AlreadyRecording))
    } else {
        match device {
            Option::None => (s, Err(RecorderError::DeviceUnavailable)),
            Option::Some(c) => if !c.format.supported() {
                (s, Err(RecorderError::UnsupportedFormat))
            } else if !output_ready {
                (s, Err(RecorderError::IoError))
            } else {
                (RecorderState::Recording { config: c, samples: Seq::empty() }, Ok(()))
            },
        }
    }
}

/// The converted image of a buffer of float samples given as IEEE 754
/// bit patterns.
pub open spec fn convert_f32_seq(data: Seq<u32>) -> Seq<i16> {
    Seq::new(data.len(), |i: int| convert_f32_spec(data[i]) as i16)
}

/// Stopping twice has the observable effect of stopping once: after
/// one stop the recorder is idle, and a second stop changes nothing
/// and yields nothing, so the file is finalized exactly once.
pub proof fn lemma_stop_idempotent(s: RecorderState)
    ensures
        stop_transition(stop_transition(s).0).0 == stop_transition(s).0,
        stop_transition(stop_transition(s).0).1 is None,
{
}

/// Starting while recording rejects the call with `AlreadyRecording`
/// and leaves the running session untouched, whatever device or sink
/// the call brought.
pub proof fn lemma_start_while_recording(
    s: RecorderState,
    device: Option<AudioDeviceConfig>,
    output_ready: bool,
)
    requires
        s is Recording,
    ensures
        start_transition(s, device, output_ready).0 == s,
        start_transition(s, device, output_ready).1 == Err::<(), RecorderError>(
            RecorderError::AlreadyRecording,
        ),
{
}

/// The recorder.  At most one session is live at a time; `view` gives
/// the abstract state the transition functions speak of.
pub struct AudioRecorder {
    active: bool,
    config: AudioDeviceConfig,
    encoder: WavEncoder,
}

impl View for AudioRecorder {
    type V = RecorderState;

    closed spec fn view(&self) -> RecorderState {
        if self.active {
            RecorderState::Recording { config: self.config, samples: self.encoder.samples() }
        } else {
            RecorderState::Idle
        }
    }
}

impl AudioRecorder {
    /// Internal consistency: while a session is live, its format is
    /// one of the two supported ones and the writer was opened under
    /// the spec the config dictates.
    pub closed spec fn wf(self) -> bool {
        self.active ==> {
            &&& self.config.wf()
            &&& self.config.format.supported()
            &&& self.encoder.wf()
            &&& self.encoder.spec() == self.config.wav_spec()
        }
    }

    /// A recorder that is not recording.  The session fields hold
    /// placeholders until `start_recording` overwrites them.
    pub fn new() -> (r: Self)
        ensures
            r.wf(),
            r@ == RecorderState::Idle,
    {
        AudioRecorder {
            active: false,
            config: AudioDeviceConfig {
                channels: 1,
                sample_rate_hz: 8000,
                format: SampleFormat::Int16,
            },
            encoder: WavEncoder::open(WavSpec { channels: 1, sample_rate: 8000 }),
        }
    }

    pub fn is_recording(&self) -> (r: bool)
        ensures
            r == (self@ is Recording),
    {
        self.active
    }

    /// Begin a session.  `device` is the negotiated default input
    /// config, if a device was found at all; `output_ready` says
    /// whether the collaborator that owns the output path could create
    /// it.  Every failure leaves the recorder idle with no open
    /// writer, and a later retry may succeed.
    pub fn start_recording(&mut self, device: Option<AudioDeviceConfig>, output_ready: bool) -> (r:
        Result<(), RecorderError>)
        requires
            old(self).wf(),
            device matches Some(c) ==> c.wf(),
        ensures
            final(self).wf(),
            (final(self)@, r) == start_transition(old(self)@, device, output_ready),
    {
        if self.active {
            return Err(RecorderError::AlreadyRecording);
        }
        match device {
            None => Err(RecorderError::DeviceUnavailable),
            Some(c) => {
                if !c.format.is_supported() {
                    Err(RecorderError::UnsupportedFormat)
                } else if !output_ready {
                    Err(RecorderError::IoError)
                } else {
                    self.config = c;
                    self.encoder = WavEncoder::open(
                        WavSpec { channels: c.channels, sample_rate: c.sample_rate_hz },
                    );
                    self.active = true;
                    Ok(())
                }
            },
        }
    }

    /// End the session and return the finished file's bytes, header
    /// size fields patched to the recorded length.  A no-op yielding
    /// nothing when idle, so a second call cannot corrupt what the
    /// first produced.  The caller must have stopped the audio stream
    /// first: no buffer may be fed once the file is finalized.
    pub fn stop_recording(&mut self) -> (r: Option<Vec<u8>>)
        requires
            old(self).wf(),
        ensures
            final(self).wf(),
            final(self)@ == stop_transition(old(self)@).0,
            match r {
                Some(bytes) => stop_transition(old(self)@).1 == Some(bytes@),
                None => stop_transition(old(self)@).1 is None,
            },
    {
        if self.active {
            self.active = false;
            Some(self.encoder.finalize())
        } else {
            None
        }
    }

    /// The platform layer reported a fatal stream error.  The session
    /// stops itself rather than crash: whatever was captured is
    /// finalized exactly as by `stop_recording`, and the report pairs
    /// the finished bytes with `StreamFault` for the caller.  Nothing
    /// to report when no session was live.
    pub fn report_stream_fault(&mut self) -> (r: Option<(Vec<u8>, RecorderError)>)
        requires
            old(self).wf(),
        ensures
            final(self).wf(),
            final(self)@ == stop_transition(old(self)@).0,
            match r {
                Some(report) => stop_transition(old(self)@).1 == Some(report.0@) && report.1
                    == RecorderError::StreamFault,
                None => stop_transition(old(self)@).1 is None,
            },
    {
        match self.stop_recording() {
            Some(bytes) => Some((bytes, RecorderError::StreamFault)),
            None => None,
        }
    }

    /// Deliver one callback buffer of native 16-bit samples: they pass
    /// through unchanged, in order.  A buffer arriving when no session
    /// is live is dropped whole, as a callback outliving its session
    /// must not touch the writer.  A buffer that would overflow the
    /// container's size fields is refused whole with `IoError`, and a
    /// buffer for a session in the other native format with
    /// `UnsupportedFormat`; neither changes the state.
    pub fn feed_int16(&mut self, data: &Vec<i16>) -> (r: Result<(), RecorderError>)
        requires
            old(self).wf(),
        ensures
            final(self).wf(),
            match old(self)@ {
                RecorderState::Idle => final(self)@ == old(self)@ && r == Ok::<
                    (),
                    RecorderError,
                >(()),
                RecorderState::Recording { config, samples } => {
                    if config.format != SampleFormat::Int16 {
                        &&& final(self)@ == old(self)@
                        &&& r == Err::<(), RecorderError>(RecorderError::UnsupportedFormat)
                    } else if samples.len() + data@.len() <= MAX_SAMPLES {
                        &&& (final(self)@ == RecorderState::Recording {
                            config,
                            samples: samples + data@,
                        })
                        &&& r == Ok::<(), RecorderError>(())
                    } else {
                        &&& final(self)@ == old(self)@
                        &&& r == Err::<(), RecorderError>(RecorderError::IoError)
                    }
                },
            },
    {
        if !self.active {
            return Ok(());
        }
        if self.config.format != SampleFormat::Int16 {
            return Err(RecorderError::UnsupportedFormat);
        }
        if data.len() > MAX_SAMPLES as usize - self.encoder.sample_count() {
            return Err(RecorderError::IoError);
        }
        let ghost entry = self.encoder.samples();
        let mut i: usize = 0;
        while i < data.len()
            invariant
                self.wf(),
                self.active,
                self.config == old(self).config,
                self.encoder.spec() == old(self).encoder.spec(),
                i <= data@.len(),
                entry == old(self).encoder.samples(),
                entry.len() + data@.len() <= MAX_SAMPLES,
                self.encoder.samples() == entry + data@.take(i as int),
            decreases data@.len() - i,
        {
            let s = convert_i16(data[i]);
            proof {
                assert((entry + data@.take(i as int)).push(data@[i as int]) =~= entry + data@.take(
                    i as int + 1,
                ));
            }
            self.encoder.append(s);
            i = i + 1;
        }
        proof {
            assert(data@.take(data@.len() as int) =~= data@);
        }
        Ok(())
    }

    /// Deliver one callback buffer of native 32-bit float samples as
    /// their IEEE 754 bit patterns: each is converted to 16-bit PCM
    /// and appended in order.  Dropped or refused exactly as
    /// `feed_int16`, with the formats swapped.
    pub fn feed_float32_bits(&mut self, data: &Vec<u32>) -> (r: Result<(), RecorderError>)
        requires
            old(self).wf(),
        ensures
            final(self).wf(),
            match old(self)@ {
                RecorderState::Idle => final(self)@ == old(self)@ && r == Ok::<
                    (),
                    RecorderError,
                >(()),
                RecorderState::Recording { config, samples } => {
                    if config.format != SampleFormat::Float32 {
                        &&& final(self)@ == old(self)@
                        &&& r == Err::<(), RecorderError>(RecorderError::UnsupportedFormat)
                    } else if samples.len() + data@.len() <= MAX_SAMPLES {
                        &&& (final(self)@ == RecorderState::Recording {
                            config,
                            samples: samples + convert_f32_seq(data@),
                        })
                        &&& r == Ok::<(), RecorderError>(())
                    } else {
                        &&& final(self)@ == old(self)@
                        &&& r == Err::<(), RecorderError>(RecorderError::IoError)
                    }
                },
            },
    {
        if !self.active {
            return Ok(());
        }
        if self.config.format != SampleFormat::Float32 {
            return Err(RecorderError::UnsupportedFormat);
        }
        if data.len() > MAX_SAMPLES as usize - self.encoder.sample_count() {
            return Err(RecorderError::IoError);
        }
        let ghost entry = self.encoder.samples();
        let mut i: usize = 0;
        while i < data.len()
            invariant
                self.wf(),
                self.active,
                self.config == old(self).config,
                self.encoder.spec() == old(self).encoder.spec(),
                i <= data@.len(),
                entry == old(self).encoder.samples(),
                entry.len() + data@.len() <= MAX_SAMPLES,
                self.encoder.samples() == entry + convert_f32_seq(data@.take(i as int)),
            decreases data@.len() - i,
        {
            let s = convert_f32_bits(data[i]);
            proof {
                assert((entry + convert_f32_seq(data@.take(i as int))).push(
                    convert_f32_spec(data@[i as int]) as i16,
                ) =~= entry + convert_f32_seq(data@.take(i as int + 1)));
            }
            self.encoder.append(s);
            i = i + 1;
        }
        proof {
            assert(data@.take(data@.len() as int) =~= data@);
            assert(convert_f32_seq(data@.take(data@.len() as int)) =~= convert_f32_seq(data@));
        }
        Ok(())
    }
}

} // verus!
