//! Tests for the streaming session state machine and the transport-loop
//! decision functions.

use voicemark_sidecar::gateway::TranscribeResult;
use voicemark_sidecar::protocol::ServerMessage;
use voicemark_sidecar::session::{StreamingSession, CHUNK_SAMPLES, MIN_MEANINGFUL_SAMPLES};
use voicemark_sidecar::transport::{
    finish_end_transcription, finish_transcription, handle_audio, handle_audio_frame, handle_end,
    handle_reset, AudioOutcome, EndOutcome,
};

fn b64(bytes: &[u8]) -> String {
    base64::Engine::encode(&base64::engine::general_purpose::STANDARD, bytes)
}

#[test]
fn test_streaming_session_chunk_ready() {
    let mut session = StreamingSession::new();

    // Add samples less than chunk size - should return false
    let small_samples = vec![16384i16; CHUNK_SAMPLES / 2];
    assert!(!session.add_samples(&small_samples));

    // Add more to exceed chunk size - should return true
    let more_samples = vec![16384i16; CHUNK_SAMPLES];
    assert!(session.add_samples(&more_samples));
}

#[test]
fn test_streaming_session_clear_chunk() {
    let mut session = StreamingSession::new();
    session.add_samples(&vec![16384i16; 1000]);
    assert!(!session.current_chunk.is_empty());

    session.clear_chunk();
    assert!(session.current_chunk.is_empty());
}

#[test]
fn test_reset_matches_fresh_session() {
    let mut session = StreamingSession::new();
    session.add_samples(&vec![5i16; 100]);
    session.transcription_pending = true;
    session.last_transcribe_time = Some(123);
    session.reset();

    let fresh = StreamingSession::new();
    assert_eq!(session.current_chunk, fresh.current_chunk);
    assert_eq!(session.last_transcribe_time, fresh.last_transcribe_time);
    assert_eq!(session.transcription_pending, fresh.transcription_pending);
    for now in [0u64, 1, 500, 10_000] {
        assert_eq!(session.should_transcribe(now), fresh.should_transcribe(now));
    }
}

#[test]
fn test_should_transcribe_throttle() {
    let mut session = StreamingSession::new();
    assert!(session.should_transcribe(0));
    session.last_transcribe_time = Some(1000);
    assert!(!session.should_transcribe(1400));
    assert!(session.should_transcribe(1500));
    session.transcription_pending = true;
    assert!(!session.should_transcribe(1500));
}

#[test]
fn test_has_meaningful_audio() {
    let mut session = StreamingSession::new();
    session.add_samples(&vec![1i16; MIN_MEANINGFUL_SAMPLES - 1]);
    assert!(!session.has_meaningful_audio());
    session.add_samples(&[1i16]);
    assert!(session.has_meaningful_audio());
}

#[test]
fn test_handle_audio_wrong_sample_rate() {
    let mut session = StreamingSession::new();
    session.add_samples(&[7i16, 8, 9]);
    let data = b64(&[0x01, 0x00]);
    let outcome = handle_audio(&mut session, &data, 44100, 0);
    match outcome {
        AudioOutcome::Reply(ServerMessage::Error { message }) => {
            assert_eq!(message, "Expected sample rate 16000, got 44100");
        }
        _ => panic!("expected an error reply"),
    }
    // the session buffer is left unchanged
    assert_eq!(session.current_chunk, vec![7i16, 8, 9]);
    assert!(!session.transcription_pending);
}

#[test]
fn test_handle_audio_bad_payload_leaves_session() {
    let mut session = StreamingSession::new();
    session.add_samples(&[1i16]);
    let outcome = handle_audio(&mut session, "not base64!", 16000, 0);
    assert!(matches!(outcome, AudioOutcome::Reply(ServerMessage::Error { .. })));
    assert_eq!(session.current_chunk, vec![1i16]);
}

#[test]
fn test_handle_audio_buffers_small_chunk() {
    let mut session = StreamingSession::new();
    let data = b64(&[0x00, 0x00, 0xFF, 0x7F]);
    let outcome = handle_audio(&mut session, &data, 16000, 0);
    assert!(matches!(outcome, AudioOutcome::Buffered));
    assert_eq!(session.current_chunk, vec![0i16, 0x7FFF]);
    assert!(!session.transcription_pending);
}

#[test]
fn test_handle_audio_partial_when_meaningful() {
    let mut session = StreamingSession::new();
    let pcm = vec![0x01u8; 2 * MIN_MEANINGFUL_SAMPLES];
    let outcome = handle_audio(&mut session, &b64(&pcm), 16000, 0);
    match outcome {
        AudioOutcome::Transcribe { samples, is_final } => {
            assert!(!is_final);
            assert_eq!(samples.len(), MIN_MEANINGFUL_SAMPLES);
        }
        _ => panic!("expected a partial transcription to start"),
    }
    // the buffer is kept for the next cycle; the call is marked in flight
    assert_eq!(session.current_chunk.len(), MIN_MEANINGFUL_SAMPLES);
    assert!(session.transcription_pending);
}

#[test]
fn test_handle_audio_commits_full_chunk() {
    let mut session = StreamingSession::new();
    let pcm = vec![0x01u8; 2 * CHUNK_SAMPLES];
    let outcome = handle_audio(&mut session, &b64(&pcm), 16000, 0);
    match outcome {
        AudioOutcome::Transcribe { samples, is_final } => {
            assert!(is_final);
            assert_eq!(samples.len(), CHUNK_SAMPLES);
        }
        _ => panic!("expected a committed chunk"),
    }
    // the buffer starts a new chunk; the call is marked in flight
    assert!(session.current_chunk.is_empty());
    assert!(session.transcription_pending);
}

#[test]
fn test_no_overlapping_transcriptions() {
    // a first triggering message starts a call; a second triggering
    // message while it is in flight is queued, never a second call
    let mut session = StreamingSession::new();
    let pcm = vec![0x01u8; 2 * MIN_MEANINGFUL_SAMPLES];
    let first = handle_audio(&mut session, &b64(&pcm), 16000, 0);
    assert!(matches!(first, AudioOutcome::Transcribe { .. }));
    assert!(session.transcription_pending);

    let second = handle_audio(&mut session, &b64(&pcm), 16000, 10_000);
    assert!(matches!(second, AudioOutcome::Buffered));
    // the audio was accepted and queued for the next cycle
    assert_eq!(session.current_chunk.len(), 2 * MIN_MEANINGFUL_SAMPLES);

    // even a full chunk does not start a second call while one is in flight
    let full = vec![0x01u8; 2 * CHUNK_SAMPLES];
    let third = handle_audio(&mut session, &b64(&full), 16000, 20_000);
    assert!(matches!(third, AudioOutcome::Buffered));
}

#[test]
fn test_handle_audio_frame_buffers_samples() {
    let mut session = StreamingSession::new();
    let outcome = handle_audio_frame(&mut session, &[0x00, 0x00, 0xFF, 0x7F], 0);
    assert!(matches!(outcome, AudioOutcome::Buffered));
    assert_eq!(session.current_chunk, vec![0i16, 0x7FFF]);
}

#[test]
fn test_handle_audio_frame_rejects_odd_length() {
    let mut session = StreamingSession::new();
    session.add_samples(&[3i16]);
    let outcome = handle_audio_frame(&mut session, &[0x01, 0x02, 0x03], 0);
    match outcome {
        AudioOutcome::Reply(ServerMessage::Error { message }) => {
            assert_eq!(message, "Invalid audio data length: must be multiple of 2");
        }
        _ => panic!("expected an error reply"),
    }
    // the session is left unchanged
    assert_eq!(session.current_chunk, vec![3i16]);
    assert!(!session.transcription_pending);
}

#[test]
fn test_throttled_audio_produces_no_response() {
    let mut session = StreamingSession::new();
    session.last_transcribe_time = Some(1000);
    let pcm = vec![0x01u8; 2 * MIN_MEANINGFUL_SAMPLES];
    let outcome = handle_audio(&mut session, &b64(&pcm), 16000, 1200);
    assert!(matches!(outcome, AudioOutcome::Buffered));
}

#[test]
fn test_end_on_empty_session() {
    // `end` on a session that never received audio yields a final message
    // with empty text and starts no transcription at all
    let mut session = StreamingSession::new();
    let outcome = handle_end(&mut session, 777);
    match outcome {
        EndOutcome::Reply(ServerMessage::Final { text, timestamp }) => {
            assert_eq!(text, "");
            assert_eq!(timestamp, 777);
        }
        _ => panic!("expected an immediate final reply"),
    }
    assert!(session.current_chunk.is_empty());
    assert!(!session.transcription_pending);
}

#[test]
fn test_end_transcribes_buffered_audio() {
    let mut session = StreamingSession::new();
    session.add_samples(&[4i16, 5, 6]);
    let outcome = handle_end(&mut session, 0);
    match outcome {
        EndOutcome::Transcribe { samples } => assert_eq!(samples, vec![4i16, 5, 6]),
        _ => panic!("expected a final transcription to start"),
    }
    assert!(session.current_chunk.is_empty());
    assert!(session.transcription_pending);
}

#[test]
fn test_handle_reset() {
    let mut session = StreamingSession::new();
    session.add_samples(&[1i16; 10]);
    session.last_transcribe_time = Some(5);
    let reply = handle_reset(&mut session);
    match reply {
        ServerMessage::Ready { message } => assert_eq!(message, "Session reset"),
        _ => panic!("expected a ready reply"),
    }
    assert!(session.current_chunk.is_empty());
    assert_eq!(session.last_transcribe_time, None);
}

#[test]
fn test_finish_transcription_partial_and_final() {
    let mut session = StreamingSession::new();
    session.transcription_pending = true;
    let res = TranscribeResult { text: "hello".to_string(), segments: 1 };
    let msg = finish_transcription(&mut session, Ok(res), false, 42);
    match msg {
        ServerMessage::Partial { text, timestamp } => {
            assert_eq!(text, "hello");
            assert_eq!(timestamp, 42);
        }
        _ => panic!("expected a partial message"),
    }
    assert!(!session.transcription_pending);
    assert_eq!(session.last_transcribe_time, Some(42));

    session.transcription_pending = true;
    let res = TranscribeResult { text: "world".to_string(), segments: 2 };
    let msg = finish_transcription(&mut session, Ok(res), true, 43);
    assert!(matches!(msg, ServerMessage::Final { .. }));
}

#[test]
fn test_finish_transcription_failure_advances_session() {
    let mut session = StreamingSession::new();
    session.transcription_pending = true;
    let msg = finish_transcription(&mut session, Err("boom".to_string()), false, 9);
    match msg {
        ServerMessage::Error { message } => assert_eq!(message, "Transcription failed: boom"),
        _ => panic!("expected an error message"),
    }
    // a failed call cannot wedge the session
    assert!(!session.transcription_pending);
    assert_eq!(session.last_transcribe_time, Some(9));
}

#[test]
fn test_finish_end_transcription_resets() {
    let mut session = StreamingSession::new();
    session.transcription_pending = true;
    let res = TranscribeResult { text: "done".to_string(), segments: 1 };
    let msg = finish_end_transcription(&mut session, Ok(res), 11);
    match msg {
        ServerMessage::Final { text, timestamp } => {
            assert_eq!(text, "done");
            assert_eq!(timestamp, 11);
        }
        _ => panic!("expected a final message"),
    }
    assert!(session.current_chunk.is_empty());
    assert!(!session.transcription_pending);
    assert_eq!(session.last_transcribe_time, None);
}
