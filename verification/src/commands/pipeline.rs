//! The pipeline orchestrator.
//!
//! One run goes through its stages in a fixed order: stop the capture,
//! encode, resolve the configuration, transcribe, refine, inject, persist.
//! Each stage is a value that holds what the stage needs; completing a stage
//! consumes it and gives the next stage or the run's failure. A failure is
//! final: no later stage can be reached from it. The caller announces a
//! stage's state before it performs the stage's work, performs the work, and
//! hands back what came of it.

use vstd::prelude::*;
use vstd::string::*;

use crate::audio::capture::{probe_failure, AudioState, DeviceProbe, StartAction};
use crate::audio::encoder::{
    at_target_rate,
    encodable,
    encode_wav,
    wav_container,
    TARGET_CHANNELS,
    TARGET_SAMPLE_RATE,
};
use crate::audio::sample::quantized_all;
use crate::errors::{ErrorKind, VoiceFlowError};
use crate::storage::database::{is_record_of, new_record};
use crate::storage::models::NewTranscription;

verus! {

/// The transcription model used where the settings name none.
pub const DEFAULT_STT_MODEL: &'static str = "whisper-large-v3";

/// The refinement model used where the settings name none.
pub const DEFAULT_LLM_MODEL: &'static str = "llama-3.3-70b-versatile";

/// The language used where the settings name none.
pub const DEFAULT_LANGUAGE: &'static str = "pt";

/// The settings key of the transcription model.
pub const KEY_STT_MODEL: &'static str = "stt_model";

/// The settings key of the refinement model.
pub const KEY_LLM_MODEL: &'static str = "llm_model";

/// The settings key of the language.
pub const KEY_LANGUAGE: &'static str = "language";

/// The detail of the failure of a run that captured nothing.
pub const NO_AUDIO: &'static str = "No audio recorded";

/// The detail of the failure of a run without a credential.
pub const NO_API_KEY: &'static str = "No API key configured. Set it in Settings.";

/// The detail of the failure of a run whose transcript came back empty.
pub const EMPTY_TRANSCRIPTION: &'static str = "Empty transcription";

/// The event that carries a state change to the observers.
pub const EVENT_STATE: &'static str = "pipeline-state";

/// The event that carries the result of a run that succeeded.
pub const EVENT_COMPLETE: &'static str = "pipeline-complete";

/// The event that carries the message of a run that failed.
pub const EVENT_ERROR: &'static str = "pipeline-error";

/// What a run that succeeded produced.
#[derive(Debug, Clone)]
pub struct PipelineResult {
    /// The transcript as the provider returned it.
    pub raw_text: String,
    /// The transcript after refinement.
    pub refined_text: String,
    /// The time the transcription call took, in milliseconds.
    pub stt_latency_ms: u64,
    /// The time the refinement call took, in milliseconds.
    pub llm_latency_ms: u64,
    /// The time from the start of the run to the end of the injection, in
    /// milliseconds.
    pub total_latency_ms: u64,
}

/// The states that observers are told of. `Idle` is where every run starts
/// and ends.
#[derive(Debug, Clone, Copy, PartialEq, Eq, Structural)]
pub enum PipelineState {
    Recording,
    Encoding,
    Transcribing,
    Refining,
    Injecting,
    Idle,
}

/// Why a run ended early.
#[derive(Debug)]
pub struct PipelineFailure {
    /// The error of the stage that failed.
    pub error: VoiceFlowError,
    /// The refined text, where the run had computed it and only its
    /// delivery failed.
    pub refined_text: Option<String>,
}

/// What crosses the boundary to the user interface when a run has failed.
#[derive(Debug, Clone)]
pub struct FailureReport {
    /// The error as a human-readable message.
    pub message: String,
    /// The refined text that was computed but could not be delivered, if
    /// the run got that far.
    pub refined_text: Option<String>,
}

/// The run after the capture was stopped with samples in hand.
#[derive(Debug)]
pub struct EncodeStage {
    /// The captured mono amplitudes.
    pub samples: Vec<i32>,
    /// The rate at which they were captured.
    pub sample_rate: u32,
}

/// The run after encoding, before the credential is known.
#[derive(Debug)]
pub struct ConfigStage {
    /// The encoded audio.
    pub wav: Vec<u8>,
}

/// The run with a credential, before the per-run settings are known.
#[derive(Debug)]
pub struct SettingsStage {
    /// The provider credential.
    pub api_key: String,
    /// The encoded audio.
    pub wav: Vec<u8>,
}

/// The run ready to transcribe.
#[derive(Debug)]
pub struct TranscribeStage {
    /// The provider credential.
    pub api_key: String,
    /// The encoded audio to upload.
    pub wav: Vec<u8>,
    /// The transcription model.
    pub stt_model: String,
    /// The refinement model, kept for the next stage.
    pub llm_model: String,
    /// The language hint.
    pub language: String,
}

/// The run ready to refine.
#[derive(Debug)]
pub struct RefineStage {
    /// The provider credential.
    pub api_key: String,
    /// The transcript to refine.
    pub raw_text: String,
    /// The refinement model.
    pub llm_model: String,
    /// The language hint.
    pub language: String,
    /// The time the transcription call took, in milliseconds.
    pub stt_latency_ms: u64,
}

/// The run ready to inject.
#[derive(Debug)]
pub struct InjectStage {
    /// The transcript as the provider returned it.
    pub raw_text: String,
    /// The text to deliver to the focused application.
    pub refined_text: String,
    /// The time the transcription call took, in milliseconds.
    pub stt_latency_ms: u64,
    /// The time the refinement call took, in milliseconds.
    pub llm_latency_ms: u64,
}

/// The run after delivery, ready to be logged.
#[derive(Debug)]
pub struct PersistStage {
    /// The run's result, settled whatever the store does.
    pub result: PipelineResult,
    /// The record to append to the log.
    pub record: NewTranscription,
}

impl PipelineState {
    /// The name under which the state is announced.
    pub open spec fn spec_name(self) -> Seq<char> {
        match self {
            PipelineState::Recording => "recording"@,
            PipelineState::Encoding => "encoding"@,
            PipelineState::Transcribing => "transcribing"@,
            PipelineState::Refining => "refining"@,
            PipelineState::Injecting => "injecting"@,
            PipelineState::Idle => "idle"@,
        }
    }

    /// The name under which the state is announced.
    pub fn name(self) -> (name: &'static str)
        ensures
            name@ == self.spec_name(),
    {
        match self {
            PipelineState::Recording => "recording",
            PipelineState::Encoding => "encoding",
            PipelineState::Transcribing => "transcribing",
            PipelineState::Refining => "refining",
            PipelineState::Injecting => "injecting",
            PipelineState::Idle => "idle",
        }
    }
}

impl PipelineFailure {
    /// The class of the error that ended the run.
    pub open spec fn kind(&self) -> ErrorKind {
        self.error.spec_kind()
    }

    /// The detail of the error that ended the run.
    pub open spec fn detail(&self) -> Seq<char> {
        self.error.detail()
    }

    /// The refined text that the failure carries, if any.
    pub open spec fn undelivered(&self) -> Option<Seq<char>> {
        match self.refined_text {
            Some(text) => Some(text@),
            None => None,
        }
    }

    /// Whether this is the sequencing failure with the given detail, with no
    /// refined text beside it.
    pub open spec fn is_sequencing(&self, detail: Seq<char>) -> bool {
        self.kind() == ErrorKind::Pipeline && self.detail() == detail && self.refined_text is None
    }

    /// Whether this is the failure of a stage with the given error, with no
    /// refined text beside it.
    pub open spec fn is_stage_error(&self, error: VoiceFlowError) -> bool {
        self.error == error && self.refined_text is None
    }

    /// The message that crosses the boundary to the user interface: that of
    /// the error.
    pub fn message(&self) -> (text: String)
        ensures
            text@ == self.error.rendered(),
    {
        self.error.message()
    }
}

/// A failure of a stage before any text was refined.
fn failed(error: VoiceFlowError) -> (f: PipelineFailure)
    ensures
        f.is_stage_error(error),
{
    PipelineFailure { error, refined_text: None }
}

/// A sequencing failure with the given detail.
fn out_of_sequence(detail: &str) -> (f: PipelineFailure)
    ensures
        f.is_sequencing(detail@),
{
    failed(VoiceFlowError::Pipeline(String::from_str(detail)))
}

/// What a setting resolves to: its stored value, or the default where it is
/// unset or could not be read.
pub open spec fn setting_or(
    stored: Result<Option<String>, VoiceFlowError>,
    default: Seq<char>,
) -> Seq<char> {
    match stored {
        Ok(Some(value)) => value@,
        _ => default,
    }
}

/// Resolves a setting against its default.
pub fn resolve_setting(
    stored: Result<Option<String>, VoiceFlowError>,
    default: &str,
) -> (value: String)
    ensures
        value@ == setting_or(stored, default@),
{
    match stored {
        Ok(Some(value)) => value,
        _ => String::from_str(default),
    }
}

/// Begins a recording: delegates to the capture engine. On success the
/// caller announces the returned state, `Recording`; on failure nothing is
/// announced and the engine's error is passed on as it is.
pub fn start_recording(
    audio: &mut AudioState,
    probe: DeviceProbe,
) -> (r: Result<(StartAction, PipelineState), VoiceFlowError>)
    ensures
        final(audio)@ == old(audio)@.start(probe),
        match old(audio)@.start_action(probe) {
            Some(action) => r == Ok::<(StartAction, PipelineState), VoiceFlowError>(
                (action, PipelineState::Recording),
            ),
            None => r is Err,
        },
        r matches Err(e) ==> e.spec_kind() == ErrorKind::Audio && e.detail() == probe_failure(
            probe,
        ),
{
    match audio.start_recording(probe) {
        Ok(action) => Ok((action, PipelineState::Recording)),
        Err(e) => Err(e),
    }
}

/// Begins a run: stops the capture engine and takes what it captured. The
/// caller has signalled and joined the worker before. A capture without
/// samples ends the run at once with a sequencing failure, before any stage
/// work and before any request to the provider.
pub fn stop_and_process(audio: &mut AudioState) -> (r: Result<EncodeStage, PipelineFailure>)
    ensures
        final(audio)@ == old(audio)@.stop(),
        old(audio)@.samples.len() == 0 ==> (r matches Err(f) && f.is_sequencing(NO_AUDIO@)),
        old(audio)@.samples.len() > 0 ==> (r matches Ok(stage) && (stage.samples@, stage.sample_rate)
            == old(audio)@.drained()),
{
    match audio.stop_recording() {
        Ok((samples, sample_rate)) => {
            if samples.len() == 0 {
                Err(out_of_sequence(NO_AUDIO))
            } else {
                Ok(EncodeStage { samples, sample_rate })
            }
        },
        Err(e) => Err(failed(e)),
    }
}

impl EncodeStage {
    /// The state to announce before encoding.
    pub fn state(&self) -> (state: PipelineState)
        ensures
            state == PipelineState::Encoding,
    {
        PipelineState::Encoding
    }

    /// Whether the captured samples can be encoded.
    pub fn can_encode(&self) -> (ok: bool)
        ensures
            ok == encodable(self.samples@.len() as int, self.sample_rate as int),
    {
        crate::audio::encoder::can_encode(self.samples.len(), self.sample_rate)
    }

    /// Encodes the captured samples, which succeeds for every capture that
    /// can be encoded.
    pub fn encode(self) -> (r: Result<ConfigStage, PipelineFailure>)
        requires
            encodable(self.samples@.len() as int, self.sample_rate as int),
        ensures
            r matches Ok(stage) && stage.wav@ == wav_container(
                quantized_all(at_target_rate(self.samples@, self.sample_rate as int)),
                TARGET_CHANNELS as int,
                TARGET_SAMPLE_RATE as int,
            ),
    {
        match encode_wav(self.samples.as_slice(), self.sample_rate) {
            Ok(wav) => Ok(ConfigStage { wav }),
            Err(e) => Err(failed(e)),
        }
    }
}

impl ConfigStage {
    /// Takes the credential as the secure store gave it. A credential that
    /// could not be read counts as none; without one the run ends.
    pub fn credential(
        self,
        api_key: Result<String, VoiceFlowError>,
    ) -> (r: Result<SettingsStage, PipelineFailure>)
        ensures
            match api_key {
                Ok(key) if key@.len() > 0 => r == Ok::<SettingsStage, PipelineFailure>(
                    (SettingsStage { api_key: key, wav: self.wav }),
                ),
                _ => r matches Err(f) && f.is_sequencing(NO_API_KEY@),
            },
    {
        match api_key {
            Ok(key) => {
                if key.as_str().is_empty() {
                    Err(out_of_sequence(NO_API_KEY))
                } else {
                    Ok(SettingsStage { api_key: key, wav: self.wav })
                }
            },
            Err(_) => Err(out_of_sequence(NO_API_KEY)),
        }
    }
}

impl SettingsStage {
    /// Takes the per-run settings as the store gave them; each falls back
    /// to its default where it is unset or could not be read.
    pub fn settings(
        self,
        stt_model: Result<Option<String>, VoiceFlowError>,
        llm_model: Result<Option<String>, VoiceFlowError>,
        language: Result<Option<String>, VoiceFlowError>,
    ) -> (stage: TranscribeStage)
        ensures
            stage.api_key == self.api_key,
            stage.wav == self.wav,
            stage.stt_model@ == setting_or(stt_model, DEFAULT_STT_MODEL@),
            stage.llm_model@ == setting_or(llm_model, DEFAULT_LLM_MODEL@),
            stage.language@ == setting_or(language, DEFAULT_LANGUAGE@),
    {
        TranscribeStage {
            api_key: self.api_key,
            wav: self.wav,
            stt_model: resolve_setting(stt_model, DEFAULT_STT_MODEL),
            llm_model: resolve_setting(llm_model, DEFAULT_LLM_MODEL),
            language: resolve_setting(language, DEFAULT_LANGUAGE),
        }
    }
}

impl TranscribeStage {
    /// The state to announce before transcribing.
    pub fn state(&self) -> (state: PipelineState)
        ensures
            state == PipelineState::Transcribing,
    {
        PipelineState::Transcribing
    }

    /// Takes the outcome of the transcription call and the time it took. A
    /// failed call ends the run with the call's error; an empty transcript
    /// ends it with a sequencing failure, before refinement.
    pub fn transcribed(
        self,
        outcome: Result<String, VoiceFlowError>,
        latency_ms: u64,
    ) -> (r: Result<RefineStage, PipelineFailure>)
        ensures
            match outcome {
                Ok(text) if text@.len() > 0 => r == Ok::<RefineStage, PipelineFailure>(
                    (RefineStage {
                        api_key: self.api_key,
                        raw_text: text,
                        llm_model: self.llm_model,
                        language: self.language,
                        stt_latency_ms: latency_ms,
                    }),
                ),
                Ok(_) => r matches Err(f) && f.is_sequencing(EMPTY_TRANSCRIPTION@),
                Err(e) => r matches Err(f) && f.is_stage_error(e),
            },
    {
        match outcome {
            Ok(text) => {
                if text.as_str().is_empty() {
                    Err(out_of_sequence(EMPTY_TRANSCRIPTION))
                } else {
                    Ok(
                        RefineStage {
                            api_key: self.api_key,
                            raw_text: text,
                            llm_model: self.llm_model,
                            language: self.language,
                            stt_latency_ms: latency_ms,
                        },
                    )
                }
            },
            Err(e) => Err(failed(e)),
        }
    }
}

impl RefineStage {
    /// The state to announce before refining.
    pub fn state(&self) -> (state: PipelineState)
        ensures
            state == PipelineState::Refining,
    {
        PipelineState::Refining
    }

    /// Takes the outcome of the refinement call and the time it took. A
    /// failed call ends the run with the call's error.
    pub fn refined(
        self,
        outcome: Result<String, VoiceFlowError>,
        latency_ms: u64,
    ) -> (r: Result<InjectStage, PipelineFailure>)
        ensures
            match outcome {
                Ok(text) => r == Ok::<InjectStage, PipelineFailure>(
                    (InjectStage {
                        raw_text: self.raw_text,
                        refined_text: text,
                        stt_latency_ms: self.stt_latency_ms,
                        llm_latency_ms: latency_ms,
                    }),
                ),
                Err(e) => r matches Err(f) && f.is_stage_error(e),
            },
    {
        match outcome {
            Ok(text) => Ok(
                InjectStage {
                    raw_text: self.raw_text,
                    refined_text: text,
                    stt_latency_ms: self.stt_latency_ms,
                    llm_latency_ms: latency_ms,
                },
            ),
            Err(e) => Err(failed(e)),
        }
    }
}

impl InjectStage {
    /// The state to announce before injecting.
    pub fn state(&self) -> (state: PipelineState)
        ensures
            state == PipelineState::Injecting,
    {
        PipelineState::Injecting
    }

    /// Takes the outcome of the injection and the time since the run began.
    /// A failed delivery ends the run with the injection's error, and the
    /// failure carries the refined text that could not be delivered.
    pub fn injected(
        self,
        outcome: Result<(), VoiceFlowError>,
        total_latency_ms: u64,
    ) -> (r: Result<PersistStage, PipelineFailure>)
        ensures
            match outcome {
                Ok(_) => r matches Ok(stage) && stage.result == (PipelineResult {
                    raw_text: self.raw_text,
                    refined_text: self.refined_text,
                    stt_latency_ms: self.stt_latency_ms,
                    llm_latency_ms: self.llm_latency_ms,
                    total_latency_ms,
                }) && is_record_of(
                    stage.record,
                    self.raw_text@,
                    self.refined_text@,
                    self.stt_latency_ms,
                    self.llm_latency_ms,
                ),
                Err(e) => r == Err::<PersistStage, PipelineFailure>(
                    (PipelineFailure { error: e, refined_text: Some(self.refined_text) }),
                ),
            },
    {
        match outcome {
            Ok(_) => {
                let record = new_record(
                    self.raw_text.as_str(),
                    self.refined_text.as_str(),
                    self.stt_latency_ms,
                    self.llm_latency_ms,
                );
                Ok(
                    PersistStage {
                        result: PipelineResult {
                            raw_text: self.raw_text,
                            refined_text: self.refined_text,
                            stt_latency_ms: self.stt_latency_ms,
                            llm_latency_ms: self.llm_latency_ms,
                            total_latency_ms,
                        },
                        record,
                    },
                )
            },
            Err(e) => Err(PipelineFailure { error: e, refined_text: Some(self.refined_text) }),
        }
    }
}

impl PersistStage {
    /// Takes the outcome of appending the record to the log. The run
    /// succeeds either way; a failure of the store is handed back only to be
    /// logged.
    pub fn persisted(self, outcome: Result<(), VoiceFlowError>) -> (done: (
        PipelineResult,
        Option<VoiceFlowError>,
    ))
        ensures
            done.0 == self.result,
            done.1 == (match outcome {
                Ok(_) => None::<VoiceFlowError>,
                Err(e) => Some(e),
            }),
    {
        match outcome {
            Ok(_) => (self.result, None),
            Err(e) => (self.result, Some(e)),
        }
    }
}

/// Ends a run: the result as it is, or the failure as what crosses the
/// boundary, which is the error's message and, where the delivery failed,
/// the refined text beside it. After it the caller hides the recording
/// indicator and only then announces the returned state, `Idle`, whatever
/// the outcome.
pub fn finish(outcome: Result<PipelineResult, PipelineFailure>) -> (r: (
    Result<PipelineResult, FailureReport>,
    PipelineState,
))
    ensures
        r.1 == PipelineState::Idle,
        match outcome {
            Ok(result) => r.0 == Ok::<PipelineResult, FailureReport>(result),
            Err(f) => r.0 matches Err(report) && report.message@ == f.error.rendered()
                && report.refined_text == f.refined_text,
        },
{
    match outcome {
        Ok(result) => (Ok(result), PipelineState::Idle),
        Err(f) => {
            let message = f.message();
            (Err(FailureReport { message, refined_text: f.refined_text }), PipelineState::Idle)
        },
    }
}

} // verus!
