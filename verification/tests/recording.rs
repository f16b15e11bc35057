use audio_capture::device::{
    negotiate, select_input_device, DeviceDescriptor, SampleFormat, StreamConfig,
};
use audio_capture::session::{run_recording, RecordingSession, SessionStatus};
use audio_capture::wav::SampleBuffer;
use audio_capture::RecordingError;

fn dev(name: &str, config: Option<StreamConfig>) -> DeviceDescriptor {
    DeviceDescriptor {
        name: name.to_string(),
        default_config: config,
    }
}

fn mono_i16_8k() -> StreamConfig {
    StreamConfig {
        channels: 1,
        sample_rate: 8000,
        sample_format: SampleFormat::Int16,
    }
}

#[test]
fn no_devices_at_all_is_no_device_found() {
    let r = run_recording(Vec::new(), &Vec::new());
    assert_eq!(r.unwrap_err(), RecordingError::NoDeviceFound);
}

#[test]
fn devices_without_input_config_are_no_device_found() {
    let devices = vec![dev("hdmi-out", None), dev("null-sink", None)];
    let r = run_recording(devices, &Vec::new());
    assert_eq!(r.unwrap_err(), RecordingError::NoDeviceFound);
}

#[test]
fn unsupported_default_format_fails_before_any_bytes() {
    let cfg = StreamConfig {
        channels: 1,
        sample_rate: 44100,
        sample_format: SampleFormat::Unsupported,
    };
    let devices = vec![dev("mic", Some(cfg))];
    let r = run_recording(devices, &Vec::new());
    assert_eq!(r.unwrap_err(), RecordingError::UnsupportedSampleFormat);
}

#[test]
fn degenerate_config_is_no_supported_config() {
    let cfg = StreamConfig {
        channels: 0,
        sample_rate: 44100,
        sample_format: SampleFormat::Int16,
    };
    let devices = vec![dev("mic", Some(cfg))];
    let r = run_recording(devices, &Vec::new());
    assert_eq!(r.unwrap_err(), RecordingError::NoSupportedConfig);
}

#[test]
fn selector_takes_first_capture_capable_device() {
    let devices = vec![
        dev("hdmi-out", None),
        dev("mic-a", Some(mono_i16_8k())),
        dev(
            "mic-b",
            Some(StreamConfig {
                channels: 2,
                sample_rate: 48000,
                sample_format: SampleFormat::Float32,
            }),
        ),
    ];
    let chosen = select_input_device(devices).unwrap();
    assert_eq!(chosen.name, "mic-a");
    assert_eq!(negotiate(&chosen).unwrap(), mono_i16_8k());
}

#[test]
fn selector_with_no_candidates_fails() {
    let r = select_input_device(vec![dev("hdmi-out", None)]);
    assert_eq!(r.unwrap_err(), RecordingError::NoDeviceFound);
}

#[test]
fn negotiate_without_default_config_fails() {
    let r = negotiate(&dev("mic", None));
    assert_eq!(r.unwrap_err(), RecordingError::NoSupportedConfig);
}

#[test]
fn successful_run_produces_exact_bytes() {
    let devices = vec![dev("mic", Some(mono_i16_8k()))];
    let buffers = vec![SampleBuffer::Int16(vec![0, -1, 32767, -32768])];
    let bytes = run_recording(devices, &buffers).unwrap();
    assert_eq!(bytes.len(), 44 + 8);
    // "RIFF", riff size, "WAVE"
    assert_eq!(&bytes[0..4], b"RIFF");
    assert_eq!(&bytes[4..8], &(36u32 + 8).to_le_bytes());
    assert_eq!(&bytes[8..12], b"WAVE");
    // fmt chunk: tag 1, mono, 8000 Hz, 16000 B/s, block 2, 16 bits
    assert_eq!(&bytes[12..16], b"fmt ");
    assert_eq!(&bytes[16..20], &16u32.to_le_bytes());
    assert_eq!(&bytes[20..22], &1u16.to_le_bytes());
    assert_eq!(&bytes[22..24], &1u16.to_le_bytes());
    assert_eq!(&bytes[24..28], &8000u32.to_le_bytes());
    assert_eq!(&bytes[28..32], &16000u32.to_le_bytes());
    assert_eq!(&bytes[32..34], &2u16.to_le_bytes());
    assert_eq!(&bytes[34..36], &16u16.to_le_bytes());
    // data chunk: size, then the samples little-endian two's-complement
    assert_eq!(&bytes[36..40], b"data");
    assert_eq!(&bytes[40..44], &8u32.to_le_bytes());
    assert_eq!(&bytes[44..], &[0, 0, 255, 255, 255, 127, 0, 128]);
}

#[test]
fn mismatched_buffers_are_dropped_whole() {
    let devices = vec![dev("mic", Some(mono_i16_8k()))];
    let buffers = vec![
        SampleBuffer::Int32(vec![7]),
        SampleBuffer::Int16(vec![5]),
        SampleBuffer::Float32(vec![0x3f800000]),
    ];
    let bytes = run_recording(devices, &buffers).unwrap();
    // only the matching 16-bit buffer was kept
    assert_eq!(bytes.len(), 44 + 2);
    assert_eq!(&bytes[44..], &[5, 0]);
}

#[test]
fn session_lifecycle_reaches_completed_and_releases_everything() {
    let mut session = RecordingSession::new();
    assert_eq!(session.status(), SessionStatus::Idle);
    session.begin();
    let cfg = session
        .negotiate(vec![dev("mic", Some(mono_i16_8k()))])
        .unwrap();
    assert_eq!(cfg, mono_i16_8k());
    session.start_streaming();
    assert_eq!(session.status(), SessionStatus::Streaming);
    assert!(session.stream_active);
    assert!(session.writer.is_some());
    assert!(session.append(&SampleBuffer::Int16(vec![1, 2])));
    session.begin_finalize();
    assert!(!session.stream_active);
    let bytes = session.finalize_success();
    assert_eq!(session.status(), SessionStatus::Completed);
    // terminal: the writer slot is empty and the stream handle released
    assert!(session.writer.is_none());
    assert!(!session.stream_active);
    assert_eq!(bytes.len(), 44 + 4);
}

#[test]
fn failed_session_releases_everything() {
    let mut session = RecordingSession::new();
    session.begin();
    session
        .negotiate(vec![dev("mic", Some(mono_i16_8k()))])
        .unwrap();
    session.start_streaming();
    // the edge failed to build the host stream
    session.fail(RecordingError::IoError);
    assert_eq!(session.status(), SessionStatus::Failed);
    assert_eq!(session.error, Some(RecordingError::IoError));
    assert!(session.writer.is_none());
    assert!(!session.stream_active);
}

#[test]
fn negotiation_failure_is_recorded_in_the_session() {
    let mut session = RecordingSession::new();
    session.begin();
    let r = session.negotiate(Vec::new());
    assert_eq!(r.unwrap_err(), RecordingError::NoDeviceFound);
    assert_eq!(session.status(), SessionStatus::Failed);
    assert_eq!(session.error, Some(RecordingError::NoDeviceFound));
}

#[test]
fn append_outside_streaming_is_dropped() {
    let mut session = RecordingSession::new();
    assert!(!session.append(&SampleBuffer::Int16(vec![1])));
    session.begin();
    assert!(!session.append(&SampleBuffer::Int16(vec![1])));
    assert_eq!(session.status(), SessionStatus::Negotiating);
}
