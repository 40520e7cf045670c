use voiceflow::audio::capture::{
    level_to_show, AudioState, DeviceFormat, DeviceProbe, StartAction, StreamConfig, EVENT_LEVEL,
    LEVEL_POLL_MS,
};
use voiceflow::errors::VoiceFlowError;

#[test]
fn new_engine_is_idle() {
    let state = AudioState::new();
    assert!(!state.is_recording());
    assert_eq!(state.get_level(), 0);
    assert_eq!(state.poll_level(), None);
    let by_default = AudioState::default();
    assert!(!by_default.is_recording());
    assert_eq!(by_default.get_level(), 0);
    assert_eq!(LEVEL_POLL_MS, 50);
}

#[test]
fn stop_without_start_returns_no_samples() {
    let mut state = AudioState::new();
    let (samples, rate) = state.stop_recording().unwrap();
    assert!(samples.is_empty());
    assert_eq!(rate, 0);
    assert!(!state.is_recording());
}

#[test]
fn stop_is_idempotent() {
    let mut state = AudioState::new();
    let config = StreamConfig { sample_rate: 48000, channels: 1, format: DeviceFormat::F32 };
    state.start_recording(DeviceProbe::Ready(config)).unwrap();
    state.push_block(&[1, 2, 3], 1);
    let (first, rate) = state.stop_recording().unwrap();
    assert_eq!(first, vec![1, 2, 3]);
    assert_eq!(rate, 48000);
    let (second, rate_again) = state.stop_recording().unwrap();
    assert!(second.is_empty());
    assert_eq!(rate_again, 48000);
    assert!(!state.is_recording());
}

#[test]
fn start_spawns_one_worker_and_sets_the_flag() {
    let mut state = AudioState::new();
    assert!(!state.has_worker());
    let config = StreamConfig { sample_rate: 44100, channels: 2, format: DeviceFormat::I16 };
    let action = state.start_recording(DeviceProbe::Ready(config)).unwrap();
    assert_eq!(action, StartAction::SpawnWorker(config));
    assert!(state.is_recording());
    assert!(state.has_worker());
}

#[test]
fn worker_stays_attached_until_the_stop() {
    let mut state = AudioState::new();
    let config = StreamConfig { sample_rate: 44100, channels: 2, format: DeviceFormat::I16 };
    state.start_recording(DeviceProbe::Ready(config)).unwrap();
    state.worker_exited();
    assert!(!state.is_recording());
    assert!(state.has_worker());
    // a failed start neither attaches nor detaches a worker
    assert!(state.start_recording(DeviceProbe::NoDevice).is_err());
    assert!(state.has_worker());
    state.stop_recording().unwrap();
    assert!(!state.has_worker());
    assert!(state.start_recording(DeviceProbe::NoDevice).is_err());
    assert!(!state.has_worker());
}

#[test]
fn second_start_is_a_no_op() {
    let mut state = AudioState::new();
    let first = StreamConfig { sample_rate: 44100, channels: 2, format: DeviceFormat::I16 };
    state.start_recording(DeviceProbe::Ready(first)).unwrap();
    state.push_block(&[10, 20, 30, 40], 2);
    let level = state.get_level();

    let other = StreamConfig { sample_rate: 8000, channels: 1, format: DeviceFormat::F32 };
    let again = state.start_recording(DeviceProbe::Ready(other)).unwrap();
    assert_eq!(again, StartAction::AlreadyRecording);
    assert!(state.is_recording());
    assert_eq!(state.get_level(), level);
    // not even a missing device disturbs the live session
    assert_eq!(state.start_recording(DeviceProbe::NoDevice).unwrap(), StartAction::AlreadyRecording);
    assert_eq!(
        state.start_recording(DeviceProbe::ConfigError("busy".to_string())).unwrap(),
        StartAction::AlreadyRecording
    );

    let (samples, rate) = state.stop_recording().unwrap();
    assert_eq!(samples, vec![15, 35]);
    assert_eq!(rate, 44100);
}

#[test]
fn start_without_device_fails_with_audio_error() {
    let mut state = AudioState::new();
    let err = state.start_recording(DeviceProbe::NoDevice).unwrap_err();
    assert!(matches!(&err, VoiceFlowError::Audio(m) if m == "No input device found"));
    assert_eq!(err.message(), "Audio error: No input device found");
    assert!(!state.is_recording());
}

#[test]
fn start_with_config_error_passes_the_reason_on() {
    let mut state = AudioState::new();
    let err = state
        .start_recording(DeviceProbe::ConfigError("device busy".to_string()))
        .unwrap_err();
    assert!(matches!(&err, VoiceFlowError::Audio(m) if m == "device busy"));
    assert!(!state.is_recording());
}

#[test]
fn start_clears_leftover_samples() {
    let mut state = AudioState::new();
    let config = StreamConfig { sample_rate: 16000, channels: 1, format: DeviceFormat::I16 };
    state.start_recording(DeviceProbe::Ready(config)).unwrap();
    state.push_block(&[1, 2, 3], 1);
    state.worker_exited();
    assert!(!state.is_recording());
    // the buffer still holds the samples; a failed start drops them
    assert!(state.start_recording(DeviceProbe::NoDevice).is_err());
    let (samples, rate) = state.stop_recording().unwrap();
    assert!(samples.is_empty());
    assert_eq!(rate, 16000);

    state.start_recording(DeviceProbe::Ready(config)).unwrap();
    state.push_block(&[4, 5], 1);
    state.worker_exited();
    let fresh = StreamConfig { sample_rate: 22050, channels: 1, format: DeviceFormat::F32 };
    state.start_recording(DeviceProbe::Ready(fresh)).unwrap();
    state.push_block(&[6], 1);
    let (samples, rate) = state.stop_recording().unwrap();
    assert_eq!(samples, vec![6]);
    assert_eq!(rate, 22050);
}

#[test]
fn blocks_append_and_set_the_level() {
    let mut state = AudioState::new();
    let config = StreamConfig { sample_rate: 48000, channels: 2, format: DeviceFormat::F32 };
    state.start_recording(DeviceProbe::Ready(config)).unwrap();
    state.push_block(&[3, 3, 4, 4], 2);
    assert_eq!(state.get_level(), 3);
    assert_eq!(state.poll_level(), Some(3));
    state.push_block(&[32768, 32768, -32768, -32768], 2);
    assert_eq!(state.get_level(), 32768);
    // an empty block leaves the level as it is
    state.push_block(&[], 2);
    assert_eq!(state.get_level(), 32768);
    let (samples, _) = state.stop_recording().unwrap();
    assert_eq!(samples, vec![3, 4, 32768, -32768]);
    // the level is stale after the stop, and the poll shows nothing
    assert_eq!(state.get_level(), 32768);
    assert_eq!(state.poll_level(), None);
}

#[test]
fn pcm16_blocks_are_taken_at_face_value() {
    let mut state = AudioState::new();
    let config = StreamConfig { sample_rate: 16000, channels: 2, format: DeviceFormat::I16 };
    state.start_recording(DeviceProbe::Ready(config)).unwrap();
    state.push_pcm16_block(&[i16::MAX, i16::MAX, i16::MIN, i16::MIN, 100, -100], 2);
    let (samples, _) = state.stop_recording().unwrap();
    assert_eq!(samples, vec![32767, -32768, 0]);
}

#[test]
fn worker_exit_ends_the_session_and_keeps_the_buffer() {
    let mut state = AudioState::new();
    let config = StreamConfig { sample_rate: 48000, channels: 1, format: DeviceFormat::Unsupported };
    state.start_recording(DeviceProbe::Ready(config)).unwrap();
    assert!(state.is_recording());
    state.worker_exited();
    assert!(!state.is_recording());
    let (samples, rate) = state.stop_recording().unwrap();
    assert!(samples.is_empty());
    assert_eq!(rate, 48000);
}

#[test]
fn level_poll_stops_when_recording_ends() {
    assert_eq!(level_to_show(true, 0), Some(0));
    assert_eq!(level_to_show(true, 1234), Some(1234));
    assert_eq!(level_to_show(false, 1234), None);
    assert_eq!(level_to_show(false, 0), None);
    assert_eq!(EVENT_LEVEL, "audio-level");
}
