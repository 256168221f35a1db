//! Tests for the PCM codec, the base64 audio decoding and the WAV
//! data-chunk locator.

use voicemark_sidecar::pcm::{decode_audio, decode_pcm_bytes, encode_pcm_bytes, AudioError};
use voicemark_sidecar::wav::{find_data_chunk, wav_samples_from_bytes};

#[test]
fn test_find_data_chunk() {
    // Minimal WAV-like data with "data" marker
    let fake_wav = b"RIFFxxxxWAVEfmt ................data\x08\x00\x00\x00\x00\x00\x00\x00\x00\x00";
    let result = find_data_chunk(fake_wav);
    assert!(result.is_ok());
}

#[test]
fn test_find_data_chunk_position() {
    let fake_wav = b"RIFFxxxxWAVEfmt ................data\x08\x00\x00\x00\x00\x00\x00\x00\x00\x00";
    // the marker starts at byte 32; the sample region starts 8 bytes later
    assert_eq!(find_data_chunk(fake_wav).unwrap(), 40);
}

#[test]
fn test_find_data_chunk_missing() {
    let bytes = [0u8; 64];
    assert_eq!(find_data_chunk(&bytes).unwrap_err(), AudioError::NoDataChunk);
}

#[test]
fn test_decode_audio() {
    // Test with known values: two 16-bit samples
    // Sample 1: 0x0000 (0) -> 0.0
    // Sample 2: 0x7FFF (32767) -> ~1.0
    let data = base64::Engine::encode(
        &base64::engine::general_purpose::STANDARD,
        &[0x00, 0x00, 0xFF, 0x7F],
    );
    let samples = decode_audio(&data).unwrap();
    assert_eq!(samples.len(), 2);
    let s0 = samples[0] as f32 / 32768.0;
    let s1 = samples[1] as f32 / 32768.0;
    assert!((s0 - 0.0).abs() < 0.001);
    assert!((s1 - 0.99997).abs() < 0.001);
}

#[test]
fn test_decode_audio_exact_values() {
    // Two consecutive samples 0x0000 and 0x7FFF, base64-encoded, decode to
    // floats 0.0 and ~0.99997 in that order.
    let samples = decode_audio("AAD/fw==").unwrap();
    assert_eq!(samples, vec![0i16, 0x7FFF]);
    assert_eq!(samples[0] as f32 / 32768.0, 0.0);
    assert!((samples[1] as f32 / 32768.0 - 0.99997).abs() < 0.0001);
}

#[test]
fn test_decode_audio_rejects_bad_base64() {
    assert_eq!(decode_audio("!!!").unwrap_err(), AudioError::InvalidBase64);
}

#[test]
fn test_decode_audio_rejects_odd_length() {
    // "AAAA" decodes to three zero bytes: not a whole number of samples
    assert_eq!(decode_audio("AAAA").unwrap_err(), AudioError::OddLength);
}

#[test]
fn test_pcm_round_trip() {
    // decoding then re-encoding recovers the original bytes exactly
    let bytes = [0x01u8, 0x02, 0xFF, 0x7F, 0x00, 0x80, 0x34, 0x12];
    let samples = decode_pcm_bytes(&bytes).unwrap();
    assert_eq!(samples, vec![0x0201i16, 0x7FFF, -32768, 0x1234]);
    let back = encode_pcm_bytes(&samples);
    assert_eq!(back, bytes.to_vec());
}

#[test]
fn test_pcm_rejects_odd_length() {
    let bytes = [0x01u8, 0x02, 0x03];
    assert_eq!(decode_pcm_bytes(&bytes).unwrap_err(), AudioError::OddLength);
}

#[test]
fn test_normalize_round_trip_within_rounding() {
    // quantizing the normalized float back recovers each sample
    let bytes = [0x00u8, 0x00, 0xFF, 0x7F, 0x01, 0x80, 0x39, 0x05];
    let samples = decode_pcm_bytes(&bytes).unwrap();
    for &s in samples.iter() {
        let f = s as f32 / 32768.0;
        assert!((-1.0..1.0).contains(&f));
        let back = (f * 32768.0).round() as i16;
        assert_eq!(back, s);
    }
}

#[test]
fn test_wav_samples_from_bytes() {
    let mut wav: Vec<u8> = Vec::new();
    wav.extend_from_slice(b"RIFFxxxxWAVEfmt ................");
    wav.extend_from_slice(b"data\x04\x00\x00\x00");
    wav.extend_from_slice(&[0x01, 0x00, 0xFE, 0xFF]);
    let samples = wav_samples_from_bytes(&wav).unwrap();
    assert_eq!(samples, vec![1i16, -2]);
}

#[test]
fn test_wav_too_small() {
    let bytes = [0u8; 43];
    assert_eq!(wav_samples_from_bytes(&bytes).unwrap_err(), AudioError::TooSmall);
}

#[test]
fn test_wav_no_data_chunk() {
    let bytes = [0u8; 64];
    assert_eq!(wav_samples_from_bytes(&bytes).unwrap_err(), AudioError::NoDataChunk);
}

#[test]
fn test_wav_rejects_odd_sample_region() {
    let mut wav: Vec<u8> = Vec::new();
    wav.extend_from_slice(b"RIFFxxxxWAVEfmt ................");
    wav.extend_from_slice(b"data\x05\x00\x00\x00");
    wav.extend_from_slice(&[0x01, 0x00, 0xFE, 0xFF, 0x42]);
    assert_eq!(wav_samples_from_bytes(&wav).unwrap_err(), AudioError::OddLength);
}
