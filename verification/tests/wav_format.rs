use std::io::Cursor;

use audio_capture::device::{DeviceDescriptor, SampleFormat, StreamConfig};
use audio_capture::session::run_recording;
use audio_capture::wav::{
    encode_samples, sample_format, wav_spec_from_config, SampleBuffer, SampleKind, WavBuffer,
    WavSpec,
};

fn record(config: StreamConfig, buffers: Vec<SampleBuffer>) -> Vec<u8> {
    let devices = vec![DeviceDescriptor {
        name: "mic".to_string(),
        default_config: Some(config),
    }];
    run_recording(devices, &buffers).unwrap()
}

#[test]
fn sample_format_maps_float_and_integer() {
    assert_eq!(sample_format(SampleFormat::Int8), SampleKind::Integer);
    assert_eq!(sample_format(SampleFormat::Int16), SampleKind::Integer);
    assert_eq!(sample_format(SampleFormat::Int32), SampleKind::Integer);
    assert_eq!(sample_format(SampleFormat::Float32), SampleKind::Float);
}

#[test]
fn wav_spec_is_derived_from_the_config() {
    let spec = wav_spec_from_config(&StreamConfig {
        channels: 2,
        sample_rate: 44100,
        sample_format: SampleFormat::Float32,
    });
    assert_eq!(
        spec,
        WavSpec {
            channels: 2,
            sample_rate: 44100,
            bits_per_sample: 32,
            sample_kind: SampleKind::Float,
        }
    );
    let spec = wav_spec_from_config(&StreamConfig {
        channels: 1,
        sample_rate: 8000,
        sample_format: SampleFormat::Int8,
    });
    assert_eq!(spec.bits_per_sample, 8);
    assert_eq!(spec.sample_kind, SampleKind::Integer);
}

#[test]
fn eight_bit_samples_are_stored_offset_biased() {
    let enc = encode_samples(&SampleBuffer::Int8(vec![-128, -1, 0, 1, 127]));
    assert_eq!(enc, vec![0, 127, 128, 129, 255]);
}

#[test]
fn sixteen_bit_samples_are_little_endian_twos_complement() {
    let enc = encode_samples(&SampleBuffer::Int16(vec![258, -2]));
    assert_eq!(enc, vec![2, 1, 254, 255]);
}

#[test]
fn thirty_two_bit_samples_are_little_endian_twos_complement() {
    let enc = encode_samples(&SampleBuffer::Int32(vec![0x01020304, -1]));
    assert_eq!(enc, vec![4, 3, 2, 1, 255, 255, 255, 255]);
}

#[test]
fn float_samples_are_their_bit_patterns() {
    let bits = 1.5f32.to_bits();
    let enc = encode_samples(&SampleBuffer::Float32(vec![bits]));
    assert_eq!(enc, bits.to_le_bytes().to_vec());
}

#[test]
fn hound_reads_back_int16_recording() {
    let config = StreamConfig {
        channels: 2,
        sample_rate: 44100,
        sample_format: SampleFormat::Int16,
    };
    let samples: Vec<i16> = vec![0, 1, -1, 32767, -32768, 12345];
    let bytes = record(config, vec![SampleBuffer::Int16(samples.clone())]);
    let reader = hound::WavReader::new(Cursor::new(bytes)).unwrap();
    let spec = reader.spec();
    assert_eq!(spec.channels, 2);
    assert_eq!(spec.sample_rate, 44100);
    assert_eq!(spec.bits_per_sample, 16);
    assert_eq!(spec.sample_format, hound::SampleFormat::Int);
    let back: Vec<i16> = reader.into_samples().map(|s| s.unwrap()).collect();
    assert_eq!(back, samples);
}

#[test]
fn hound_reads_back_int8_recording() {
    let config = StreamConfig {
        channels: 1,
        sample_rate: 8000,
        sample_format: SampleFormat::Int8,
    };
    let samples: Vec<i8> = vec![-128, -5, 0, 5, 127];
    let bytes = record(config, vec![SampleBuffer::Int8(samples.clone())]);
    let reader = hound::WavReader::new(Cursor::new(bytes)).unwrap();
    assert_eq!(reader.spec().bits_per_sample, 8);
    let back: Vec<i8> = reader.into_samples().map(|s| s.unwrap()).collect();
    assert_eq!(back, samples);
}

#[test]
fn hound_reads_back_int32_recording() {
    let config = StreamConfig {
        channels: 1,
        sample_rate: 48000,
        sample_format: SampleFormat::Int32,
    };
    let samples: Vec<i32> = vec![i32::MIN, -1, 0, 1, i32::MAX];
    let bytes = record(config, vec![SampleBuffer::Int32(samples.clone())]);
    let reader = hound::WavReader::new(Cursor::new(bytes)).unwrap();
    assert_eq!(reader.spec().bits_per_sample, 32);
    let back: Vec<i32> = reader.into_samples().map(|s| s.unwrap()).collect();
    assert_eq!(back, samples);
}

#[test]
fn hound_reads_back_float32_recording() {
    let config = StreamConfig {
        channels: 1,
        sample_rate: 48000,
        sample_format: SampleFormat::Float32,
    };
    let samples: Vec<f32> = vec![0.0, 1.0, -1.0, 0.25, -12.5];
    let buffers = vec![SampleBuffer::Float32(
        samples.iter().map(|s| s.to_bits()).collect(),
    )];
    let bytes = record(config, buffers);
    let reader = hound::WavReader::new(Cursor::new(bytes)).unwrap();
    let spec = reader.spec();
    assert_eq!(spec.bits_per_sample, 32);
    assert_eq!(spec.sample_format, hound::SampleFormat::Float);
    let back: Vec<f32> = reader.into_samples().map(|s| s.unwrap()).collect();
    assert_eq!(back, samples);
}

#[test]
fn frame_count_matches_delivered_samples() {
    // two channels, three frames delivered over two callback buffers
    let config = StreamConfig {
        channels: 2,
        sample_rate: 16000,
        sample_format: SampleFormat::Int16,
    };
    let bytes = record(
        config,
        vec![
            SampleBuffer::Int16(vec![1, 2, 3, 4]),
            SampleBuffer::Int16(vec![5, 6]),
        ],
    );
    let reader = hound::WavReader::new(Cursor::new(bytes)).unwrap();
    assert_eq!(reader.duration(), 3); // frames
    assert_eq!(reader.len(), 6); // samples
}

#[test]
fn empty_recording_is_still_a_valid_wav() {
    let config = StreamConfig {
        channels: 1,
        sample_rate: 8000,
        sample_format: SampleFormat::Int16,
    };
    let bytes = record(config, Vec::new());
    assert_eq!(bytes.len(), 44);
    let reader = hound::WavReader::new(Cursor::new(bytes)).unwrap();
    assert_eq!(reader.len(), 0);
}

#[test]
fn writer_rejects_mismatched_buffer_and_keeps_data() {
    let spec = WavSpec {
        channels: 1,
        sample_rate: 8000,
        bits_per_sample: 16,
        sample_kind: SampleKind::Integer,
    };
    let mut writer = WavBuffer::new(spec);
    assert!(writer.append(&SampleBuffer::Int16(vec![7])));
    assert!(!writer.append(&SampleBuffer::Int8(vec![7])));
    let bytes = writer.finalize();
    assert_eq!(bytes.len(), 44 + 2);
    assert_eq!(&bytes[44..], &[7, 0]);
}
