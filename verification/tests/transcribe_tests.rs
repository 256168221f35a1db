//! Tests for the transcription gateway bookkeeping and transcript assembly.

use voicemark_sidecar::gateway::{
    assemble_transcript, is_model_loaded, GatewayError, TranscribeOptions, TranscriptionGateway,
};

#[test]
fn test_model_not_loaded_initially() {
    // In a fresh gateway, the model is not loaded
    let gateway = TranscriptionGateway::new();
    assert!(!is_model_loaded(&gateway));
}

#[test]
fn test_default_transcribe_options() {
    let opts = TranscribeOptions::default();
    assert!(opts.language.is_none());
    assert!(!opts.translate);
}

#[test]
fn test_model_loads_exactly_once() {
    let mut gateway = TranscriptionGateway::new();
    assert_eq!(gateway.check_ready().unwrap_err(), GatewayError::NotInitialized);
    assert!(gateway.mark_model_loaded().is_ok());
    assert!(is_model_loaded(&gateway));
    assert!(gateway.check_ready().is_ok());
    assert_eq!(gateway.mark_model_loaded().unwrap_err(), GatewayError::AlreadyInitialized);
    assert!(is_model_loaded(&gateway));
}

#[test]
fn test_assemble_transcript() {
    let segments = vec![" Hello".to_string(), " world".to_string(), "  ".to_string()];
    let result = assemble_transcript(segments);
    assert_eq!(result.text, "Hello world");
    assert_eq!(result.segments, 3);
}

#[test]
fn test_assemble_transcript_empty() {
    let result = assemble_transcript(Vec::new());
    assert_eq!(result.text, "");
    assert_eq!(result.segments, 0);
}

#[test]
fn test_gateway_error_messages() {
    assert_eq!(
        GatewayError::NotInitialized.message(),
        "Whisper model not initialized. Call init_model() first."
    );
    assert_eq!(GatewayError::AlreadyInitialized.message(), "Whisper context already initialized");
}
