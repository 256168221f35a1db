//! Tests for the wire-protocol parser and serializer.

use voicemark_sidecar::parse::parse_client_message;
use voicemark_sidecar::protocol::{
    default_sample_rate, serialize_error_body, serialize_server_message,
    serialize_transcription_body, u64_to_string, ClientMessage, ProtocolError, ServerMessage,
};

#[test]
fn test_client_message_parsing() {
    let json = r#"{"type":"audio","data":"AAAA","sample_rate":16000}"#;
    let msg: ClientMessage = parse_client_message(json).unwrap();
    match msg {
        ClientMessage::Audio { data, sample_rate } => {
            assert_eq!(data, "AAAA");
            assert_eq!(sample_rate, 16000);
        }
        _ => panic!("Expected Audio message"),
    }

    let json = r#"{"type":"end"}"#;
    let msg: ClientMessage = parse_client_message(json).unwrap();
    assert!(matches!(msg, ClientMessage::End));

    let json = r#"{"type":"reset"}"#;
    let msg: ClientMessage = parse_client_message(json).unwrap();
    assert!(matches!(msg, ClientMessage::Reset));
}

#[test]
fn test_server_message_serialization() {
    let msg = ServerMessage::Partial {
        text: "hello".to_string(),
        timestamp: 12345,
    };
    let json = serialize_server_message(&msg);
    assert!(json.contains("\"type\":\"partial\""));
    assert!(json.contains("\"text\":\"hello\""));
    assert!(json.contains("\"ts\":12345"));
}

#[test]
fn test_serialization_exact() {
    let msg = ServerMessage::Partial { text: "hello".to_string(), timestamp: 12345 };
    assert_eq!(
        serialize_server_message(&msg),
        r#"{"type":"partial","text":"hello","ts":12345}"#
    );
    let msg = ServerMessage::Final { text: "".to_string(), timestamp: 0 };
    assert_eq!(serialize_server_message(&msg), r#"{"type":"final","text":"","ts":0}"#);
    let msg = ServerMessage::Error { message: "bad".to_string() };
    assert_eq!(serialize_server_message(&msg), r#"{"type":"error","message":"bad"}"#);
    let msg = ServerMessage::Ready { message: "ok".to_string() };
    assert_eq!(serialize_server_message(&msg), r#"{"type":"ready","message":"ok"}"#);
}

#[test]
fn test_serialization_escapes() {
    let msg = ServerMessage::Error { message: "a\"b\\c\nd\te\rf\u{1}g".to_string() };
    assert_eq!(
        serialize_server_message(&msg),
        "{\"type\":\"error\",\"message\":\"a\\\"b\\\\c\\nd\\te\\rf\\u0001g\"}"
    );
}

#[test]
fn test_parsing_field_order_and_defaults() {
    let msg = parse_client_message(r#" { "data" : "AQ==" , "type" : "audio" } "#).unwrap();
    match msg {
        ClientMessage::Audio { data, sample_rate } => {
            assert_eq!(data, "AQ==");
            assert_eq!(sample_rate, 16000);
        }
        _ => panic!("Expected Audio message"),
    }
}

#[test]
fn test_parsing_string_escapes() {
    let msg = parse_client_message(r#"{"type":"audio","data":"a\/b\"c\\d\n"}"#).unwrap();
    match msg {
        ClientMessage::Audio { data, .. } => assert_eq!(data, "a/b\"c\\d\n"),
        _ => panic!("Expected Audio message"),
    }
}

#[test]
fn test_parsing_errors() {
    let e = |s: &str| parse_client_message(s).unwrap_err();
    assert_eq!(e(""), ProtocolError::Syntax);
    assert_eq!(e("["), ProtocolError::Syntax);
    assert_eq!(e("{\"type\":\"end\""), ProtocolError::Syntax);
    assert_eq!(e("{\"type\":\"end\"} x"), ProtocolError::Syntax);
    assert_eq!(e("{}"), ProtocolError::MissingTag);
    assert_eq!(e("{\"data\":\"AA==\"}"), ProtocolError::MissingTag);
    assert_eq!(e("{\"type\":\"audio\"}"), ProtocolError::MissingData);
    assert_eq!(e("{\"type\":\"nope\"}"), ProtocolError::UnknownTag);
    assert_eq!(e("{\"bogus\":1}"), ProtocolError::UnknownKey);
    assert_eq!(e("{\"type\":\"end\",\"type\":\"end\"}"), ProtocolError::DuplicateKey);
    assert_eq!(e("{\"type\":1}"), ProtocolError::WrongValueType);
    assert_eq!(e("{\"sample_rate\":\"x\",\"type\":\"audio\"}"), ProtocolError::WrongValueType);
    assert_eq!(e("{\"sample_rate\":99999999999,\"type\":\"audio\"}"), ProtocolError::WrongValueType);
    assert_eq!(e("{\"type\":\"end\",\"data\":\"AA==\"}"), ProtocolError::StrayField);
    assert_eq!(e("{\"type\":\"reset\",\"sample_rate\":16000}"), ProtocolError::StrayField);
    assert_eq!(e("{\"type\":\"end\\u0065\"}"), ProtocolError::Syntax);
    assert_eq!(e("{\"sample_rate\":016000,\"type\":\"audio\"}"), ProtocolError::Syntax);
}

#[test]
fn test_error_messages_nonempty() {
    assert!(ProtocolError::Syntax.message().starts_with("Invalid message format"));
    assert!(ProtocolError::MissingTag.message().starts_with("Invalid message format"));
}

#[test]
fn test_one_shot_bodies() {
    assert_eq!(
        serialize_transcription_body("hello world", 3),
        r#"{"text":"hello world","segments":3}"#
    );
    assert_eq!(
        serialize_transcription_body("say \"hi\"\n", 0),
        "{\"text\":\"say \\\"hi\\\"\\n\",\"segments\":0}"
    );
    assert_eq!(serialize_error_body("bad \\ input"), "{\"error\":\"bad \\\\ input\"}");
}

#[test]
fn test_default_sample_rate_value() {
    assert_eq!(default_sample_rate(), 16000);
}

#[test]
fn test_u64_rendering() {
    assert_eq!(u64_to_string(0), "0");
    assert_eq!(u64_to_string(7), "7");
    assert_eq!(u64_to_string(16000), "16000");
    assert_eq!(u64_to_string(18446744073709551615), "18446744073709551615");
}
