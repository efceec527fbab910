//! End-to-end checks of the recorder: sample conversion, the WAV
//! container, and the start/stop lifecycle.  Finished files are read
//! back with hound's independent WAV reader.

use audio_recorder::convert::{convert_f32_bits, convert_i16, SampleFormat};
use audio_recorder::recorder::{AudioDeviceConfig, AudioRecorder, RecorderError};
use audio_recorder::wav::{WavEncoder, WavSpec};

fn int16_config() -> AudioDeviceConfig {
    AudioDeviceConfig { channels: 1, sample_rate_hz: 44100, format: SampleFormat::Int16 }
}

fn float32_config() -> AudioDeviceConfig {
    AudioDeviceConfig { channels: 1, sample_rate_hz: 48000, format: SampleFormat::Float32 }
}

fn read_back(bytes: Vec<u8>) -> (hound::WavSpec, Vec<i16>) {
    let mut reader = hound::WavReader::new(std::io::Cursor::new(bytes)).expect("readable WAV");
    let spec = reader.spec();
    let samples: Vec<i16> = reader.samples::<i16>().map(|s| s.expect("sample")).collect();
    (spec, samples)
}

#[test]
fn convert_i16_is_identity() {
    for v in [0i16, 1, -1, 42, -32768, 32767] {
        assert_eq!(convert_i16(v), v);
    }
}

#[test]
fn convert_is_deterministic() {
    for v in [0.0f32, 0.3, -0.7, 1.0, -1.0] {
        let bits = v.to_bits();
        assert_eq!(convert_f32_bits(bits), convert_f32_bits(bits));
    }
    assert_eq!(convert_i16(-12345), convert_i16(-12345));
}

#[test]
fn convert_f32_full_scale() {
    // Scaling is by 32767, so full-scale negative input maps to -32767.
    assert_eq!(convert_f32_bits(1.0f32.to_bits()), 32767);
    assert_eq!(convert_f32_bits((-1.0f32).to_bits()), -32767);
}

#[test]
fn convert_f32_interior_values() {
    assert_eq!(convert_f32_bits(0.0f32.to_bits()), 0);
    assert_eq!(convert_f32_bits((-0.0f32).to_bits()), 0);
    assert_eq!(convert_f32_bits(0.5f32.to_bits()), 16383); // trunc(0.5 * 32767)
    assert_eq!(convert_f32_bits((-0.5f32).to_bits()), -16383);
    assert_eq!(convert_f32_bits(0.25f32.to_bits()), 8191); // trunc(0.25 * 32767)
    // truncation is toward zero
    assert_eq!(convert_f32_bits((1.0f32 / 3.0).to_bits()), 10922);
}

#[test]
fn convert_f32_matches_float_arithmetic() {
    // Against the scaling computed in floating point, within 1 LSB
    // (the library truncates the exact product; the float product is
    // rounded before truncation).
    let mut v = -1.0f32;
    while v <= 1.0 {
        let exact = convert_f32_bits(v.to_bits()) as i64;
        let float = (v * 32767.0) as i16 as i64;
        assert!((exact - float).abs() <= 1, "value {} gave {} vs {}", v, exact, float);
        v += 0.0017;
    }
}

#[test]
fn convert_f32_out_of_range_saturates() {
    assert_eq!(convert_f32_bits(2.0f32.to_bits()), 32767);
    assert_eq!(convert_f32_bits((-2.0f32).to_bits()), -32768);
    assert_eq!(convert_f32_bits(f32::INFINITY.to_bits()), 32767);
    assert_eq!(convert_f32_bits(f32::NEG_INFINITY.to_bits()), -32768);
    assert_eq!(convert_f32_bits(1e30f32.to_bits()), 32767);
}

#[test]
fn convert_f32_malformed_is_zero() {
    assert_eq!(convert_f32_bits(f32::NAN.to_bits()), 0);
    // subnormals are far below one quantization step
    assert_eq!(convert_f32_bits(1e-40f32.to_bits()), 0);
    assert_eq!(convert_f32_bits((-1e-40f32).to_bits()), 0);
}

#[test]
fn encoder_renders_empty_file() {
    let spec = WavSpec { channels: 2, sample_rate: 22050 };
    assert!(spec.is_wf());
    let enc = WavEncoder::open(spec);
    assert_eq!(enc.sample_count(), 0);
    let bytes = enc.finalize();
    assert_eq!(bytes.len(), 44);
    let (hspec, samples) = read_back(bytes);
    assert_eq!(hspec.channels, 2);
    assert_eq!(hspec.sample_rate, 22050);
    assert_eq!(hspec.bits_per_sample, 16);
    assert_eq!(hspec.sample_format, hound::SampleFormat::Int);
    assert!(samples.is_empty());
}

#[test]
fn encoder_round_trips_samples() {
    let spec = WavSpec { channels: 2, sample_rate: 8000 };
    let mut enc = WavEncoder::open(spec);
    let fed: Vec<i16> = (0..100).map(|i| (i * 331 - 16000) as i16).collect();
    for &s in &fed {
        enc.append(s);
    }
    assert_eq!(enc.sample_count(), 100);
    let (hspec, samples) = read_back(enc.finalize());
    assert_eq!(hspec.channels, 2);
    assert_eq!(hspec.sample_rate, 8000);
    assert_eq!(samples, fed);
}

#[test]
fn encoder_header_matches_hound() {
    // hound writes the same canonical 44-byte container for 16-bit
    // integer PCM; the two encoders must agree byte for byte.
    let ours = {
        let mut enc = WavEncoder::open(WavSpec { channels: 1, sample_rate: 44100 });
        for s in [0i16, 32767, -32768, -1] {
            enc.append(s);
        }
        enc.finalize()
    };
    let theirs = {
        let spec = hound::WavSpec {
            channels: 1,
            sample_rate: 44100,
            bits_per_sample: 16,
            sample_format: hound::SampleFormat::Int,
        };
        let mut cursor = std::io::Cursor::new(Vec::new());
        let mut writer = hound::WavWriter::new(&mut cursor, spec).expect("writer");
        for s in [0i16, 32767, -32768, -1] {
            writer.write_sample(s).expect("write");
        }
        writer.finalize().expect("finalize");
        cursor.into_inner()
    };
    assert_eq!(ours, theirs);
}

#[test]
fn recording_round_trip() {
    let mut rec = AudioRecorder::new();
    assert!(rec.start_recording(Some(int16_config()), true).is_ok());
    assert!(rec.is_recording());
    let fed: Vec<i16> = (0..200).map(|i| ((i * 7919) % 30000 - 15000) as i16).collect();
    assert!(rec.feed_int16(&fed).is_ok());
    let bytes = rec.stop_recording().expect("a finished file");
    assert!(!rec.is_recording());
    let (hspec, samples) = read_back(bytes);
    assert_eq!(hspec.channels, 1);
    assert_eq!(hspec.sample_rate, 44100);
    assert_eq!(hspec.bits_per_sample, 16);
    assert_eq!(samples, fed);
}

#[test]
fn stop_twice_finalizes_once() {
    let mut rec = AudioRecorder::new();
    assert!(rec.start_recording(Some(int16_config()), true).is_ok());
    assert!(rec.feed_int16(&vec![5, -5, 7]).is_ok());
    let first = rec.stop_recording();
    let second = rec.stop_recording();
    assert!(first.is_some());
    assert!(second.is_none());
    assert!(!rec.is_recording());
    let (_, samples) = read_back(first.unwrap());
    assert_eq!(samples, vec![5, -5, 7]);
}

#[test]
fn stop_when_idle_is_a_no_op() {
    let mut rec = AudioRecorder::new();
    assert!(rec.stop_recording().is_none());
    assert!(!rec.is_recording());
}

#[test]
fn start_while_recording_is_rejected() {
    let mut rec = AudioRecorder::new();
    assert!(rec.start_recording(Some(int16_config()), true).is_ok());
    assert!(rec.feed_int16(&vec![1, 2, 3]).is_ok());
    // the second start must not disturb the running session
    assert_eq!(
        rec.start_recording(Some(float32_config()), true),
        Err(RecorderError::AlreadyRecording)
    );
    assert!(rec.is_recording());
    assert!(rec.feed_int16(&vec![4]).is_ok());
    let (hspec, samples) = read_back(rec.stop_recording().expect("file"));
    assert_eq!(hspec.sample_rate, 44100);
    assert_eq!(samples, vec![1, 2, 3, 4]);
}

#[test]
fn one_second_square_wave() {
    // One second of a full-scale square wave, mono Int16 at 44100 Hz.
    let mut rec = AudioRecorder::new();
    assert!(rec.start_recording(Some(int16_config()), true).is_ok());
    let fed: Vec<i16> = (0..44100).map(|i| if (i / 50) % 2 == 0 { 32767 } else { -32767 }).collect();
    assert!(rec.feed_int16(&fed).is_ok());
    let bytes = rec.stop_recording().expect("file");
    assert_eq!(bytes.len(), 44 + 44100 * 2);
    // data chunk size field, last header word, little endian
    let data_len = u32::from_le_bytes([bytes[40], bytes[41], bytes[42], bytes[43]]);
    assert_eq!(data_len, 44100 * 2);
    let (hspec, samples) = read_back(bytes);
    assert_eq!(hspec.sample_rate, 44100);
    assert_eq!(hspec.channels, 1);
    assert_eq!(hspec.bits_per_sample, 16);
    assert_eq!(samples.len(), 44100);
    assert_eq!(samples, fed);
}

#[test]
fn float32_session_converts_full_scale() {
    let mut rec = AudioRecorder::new();
    assert!(rec.start_recording(Some(float32_config()), true).is_ok());
    let buffer: Vec<u32> = vec![1.0f32.to_bits(), (-1.0f32).to_bits()];
    assert!(rec.feed_float32_bits(&buffer).is_ok());
    let (hspec, samples) = read_back(rec.stop_recording().expect("file"));
    assert_eq!(hspec.sample_rate, 48000);
    // scaling by 32767 without rounding up: the documented saturation
    // policy maps full-scale negative input to -32767
    assert_eq!(samples, vec![32767, -32767]);
}

#[test]
fn stream_fault_stops_and_finalizes() {
    let mut rec = AudioRecorder::new();
    assert!(rec.start_recording(Some(int16_config()), true).is_ok());
    assert!(rec.feed_int16(&vec![11, -11]).is_ok());
    let (bytes, err) = rec.report_stream_fault().expect("a live session to stop");
    assert_eq!(err, RecorderError::StreamFault);
    assert!(!rec.is_recording());
    let (_, samples) = read_back(bytes);
    assert_eq!(samples, vec![11, -11]);
    // nothing left to report or finalize
    assert!(rec.report_stream_fault().is_none());
    assert!(rec.stop_recording().is_none());
}

#[test]
fn start_without_device_fails() {
    let mut rec = AudioRecorder::new();
    assert_eq!(rec.start_recording(None, true), Err(RecorderError::DeviceUnavailable));
    assert!(!rec.is_recording());
}

#[test]
fn start_with_unsupported_format_fails() {
    let mut rec = AudioRecorder::new();
    let cfg = AudioDeviceConfig { channels: 1, sample_rate_hz: 44100, format: SampleFormat::Other };
    assert_eq!(rec.start_recording(Some(cfg), true), Err(RecorderError::UnsupportedFormat));
    assert!(!rec.is_recording());
}

#[test]
fn start_without_output_fails_then_retry_succeeds() {
    let mut rec = AudioRecorder::new();
    // the output directory could not be created: no stream is opened
    assert_eq!(rec.start_recording(Some(int16_config()), false), Err(RecorderError::IoError));
    assert!(!rec.is_recording());
    assert!(rec.stop_recording().is_none());
    // once the path is writable the same call succeeds
    assert!(rec.start_recording(Some(int16_config()), true).is_ok());
    assert!(rec.is_recording());
}

#[test]
fn feed_when_idle_is_dropped() {
    let mut rec = AudioRecorder::new();
    assert!(rec.feed_int16(&vec![1, 2, 3]).is_ok());
    assert!(rec.feed_float32_bits(&vec![0.5f32.to_bits()]).is_ok());
    assert!(rec.stop_recording().is_none());
}

#[test]
fn feed_with_wrong_format_is_refused() {
    let mut rec = AudioRecorder::new();
    assert!(rec.start_recording(Some(int16_config()), true).is_ok());
    assert_eq!(
        rec.feed_float32_bits(&vec![1.0f32.to_bits()]),
        Err(RecorderError::UnsupportedFormat)
    );
    assert!(rec.feed_int16(&vec![9]).is_ok());
    let (_, samples) = read_back(rec.stop_recording().expect("file"));
    assert_eq!(samples, vec![9]);
}

#[test]
fn config_well_formedness() {
    assert!(int16_config().is_wf());
    assert!(float32_config().is_wf());
    let no_channels = AudioDeviceConfig { channels: 0, sample_rate_hz: 44100, format: SampleFormat::Int16 };
    assert!(!no_channels.is_wf());
    let zero_rate = AudioDeviceConfig { channels: 1, sample_rate_hz: 0, format: SampleFormat::Int16 };
    assert!(!zero_rate.is_wf());
    let huge = AudioDeviceConfig { channels: 0x7FFF, sample_rate_hz: u32::MAX, format: SampleFormat::Int16 };
    assert!(!huge.is_wf());
}

#[test]
fn format_support() {
    assert!(SampleFormat::Int16.is_supported());
    assert!(SampleFormat::Float32.is_supported());
    assert!(!SampleFormat::Other.is_supported());
}
