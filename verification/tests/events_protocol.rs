use base64::Engine;
use watcher_core::events::{decode_client_content, parse_server_event, ServerEvent};
use watcher_core::json::{json_to_string, parse_json_str, JsonValue};
use watcher_core::protocol::{
    text_turn, Blob, ClientContent, ClientMessage, Content, ErrorResponse, GeminiError,
    GenerationConfig, Part, Setup,
};

fn decoded(text: &str) -> JsonValue {
    parse_json_str(text).expect("test document must parse")
}

#[test]
fn classifies_each_known_kind() {
    match parse_server_event(&decoded("{\"setupComplete\":{}}")) {
        Ok(ServerEvent::SetupComplete { usage_metadata }) => assert!(usage_metadata.is_none()),
        other => panic!("unexpected: {:?}", other),
    }
    match parse_server_event(&decoded(
        "{\"serverContent\":{\"turnComplete\":true,\"modelTurn\":{\"role\":\"model\",\"parts\":[{\"text\":\"hi\"}]}}}",
    )) {
        Ok(ServerEvent::ServerContent { content, .. }) => {
            assert_eq!(content.turn_complete, Some(true));
            let turn = content.model_turn.unwrap();
            assert_eq!(turn.role.as_deref(), Some("model"));
            assert_eq!(turn.parts, vec![Part::Text { text: "hi".to_string() }]);
        }
        other => panic!("unexpected: {:?}", other),
    }
    match parse_server_event(&decoded(
        "{\"toolCall\":{\"functionCalls\":[{\"id\":\"1\",\"name\":\"f\",\"args\":{\"x\":1}}]}}",
    )) {
        Ok(ServerEvent::ToolCall { tool_call, .. }) => {
            assert_eq!(tool_call.function_calls.len(), 1);
            assert_eq!(tool_call.function_calls[0].name, "f");
        }
        other => panic!("unexpected: {:?}", other),
    }
    match parse_server_event(&decoded("{\"toolCallCancellation\":{\"ids\":[\"a\",\"b\"]}}")) {
        Ok(ServerEvent::ToolCallCancellation { cancellation, .. }) => {
            assert_eq!(cancellation.ids, vec!["a".to_string(), "b".to_string()]);
        }
        other => panic!("unexpected: {:?}", other),
    }
    match parse_server_event(&decoded("{\"goAway\":{\"timeLeft\":\"10s\"}}")) {
        Ok(ServerEvent::GoAway { go_away, .. }) => {
            assert_eq!(go_away.time_left, Some(JsonValue::Str("10s".to_string())));
        }
        other => panic!("unexpected: {:?}", other),
    }
    match parse_server_event(&decoded(
        "{\"sessionResumptionUpdate\":{\"newHandle\":\"h\",\"resumable\":true}}",
    )) {
        Ok(ServerEvent::SessionResumptionUpdate { update, .. }) => {
            assert_eq!(update.new_handle.as_deref(), Some("h"));
            assert_eq!(update.resumable, Some(true));
        }
        other => panic!("unexpected: {:?}", other),
    }
}

#[test]
fn two_event_kinds_are_a_protocol_error_naming_both() {
    let message = decoded("{\"serverContent\":{},\"toolCall\":{}}");
    match parse_server_event(&message) {
        Err(GeminiError::MultipleServerMessageTypes(names)) => {
            assert_eq!(
                names,
                vec!["serverContent".to_string(), "toolCall".to_string()]
            );
        }
        other => panic!("unexpected: {:?}", other),
    }
}

#[test]
fn error_key_wins_over_server_content() {
    let message = decoded(
        "{\"error\":{\"code\":7,\"message\":\"denied\",\"status\":\"PERMISSION_DENIED\"},\"serverContent\":{\"turnComplete\":true}}",
    );
    match parse_server_event(&message) {
        Ok(ServerEvent::Error { error, .. }) => {
            assert_eq!(error.code, Some(7));
            assert_eq!(error.message.as_deref(), Some("denied"));
            assert_eq!(error.status.as_deref(), Some("PERMISSION_DENIED"));
        }
        other => panic!("unexpected: {:?}", other),
    }
}

#[test]
fn zero_matches_classify_as_unknown_without_usage() {
    let message = decoded("{\"usageMetadata\":{\"totalTokenCount\":5},\"mystery\":1}");
    match parse_server_event(&message) {
        Ok(ServerEvent::Unknown { usage_metadata, raw }) => {
            assert_eq!(usage_metadata.unwrap().total_token_count, Some(5));
            assert_eq!(raw, decoded("{\"mystery\":1}"));
        }
        other => panic!("unexpected: {:?}", other),
    }
}

#[test]
fn malformed_payloads_name_the_offending_key() {
    match parse_server_event(&decoded("{\"serverContent\":{\"turnComplete\":3}}")) {
        Err(GeminiError::Decode(key)) => assert_eq!(key, "serverContent"),
        other => panic!("unexpected: {:?}", other),
    }
    match parse_server_event(&decoded("{\"usageMetadata\":{\"totalTokenCount\":4294967296}}")) {
        Err(GeminiError::Decode(key)) => assert_eq!(key, "usageMetadata"),
        other => panic!("unexpected: {:?}", other),
    }
    match parse_server_event(&decoded("{\"toolCall\":{\"functionCalls\":[{\"name\":\"f\"}]}}")) {
        Err(GeminiError::Decode(key)) => assert_eq!(key, "toolCall"),
        other => panic!("unexpected: {:?}", other),
    }
}

#[test]
fn non_object_messages_are_unexpected() {
    match parse_server_event(&decoded("[1,2]")) {
        Err(GeminiError::UnexpectedServerMessage(raw)) => assert_eq!(raw, decoded("[1,2]")),
        other => panic!("unexpected: {:?}", other),
    }
}

#[test]
fn client_content_round_trips_through_the_wire_structure() {
    let content = text_turn("user".to_string(), "hello".to_string(), true);
    let wire = content.to_json();
    let back = decode_client_content(&wire).expect("decodes");
    assert_eq!(back.turns, content.turns);
    assert_eq!(back.turn_complete, Some(true));
    assert_eq!(back, content);
}

#[test]
fn client_content_round_trips_through_wire_text() {
    let content = ClientContent {
        turns: vec![Content {
            role: Some("user".to_string()),
            parts: vec![
                Part::Text { text: "first".to_string() },
                Part::Json(JsonValue::Int(9)),
            ],
        }],
        turn_complete: Some(true),
    };
    let text = json_to_string(&content.to_json());
    let back = decode_client_content(&parse_json_str(&text).unwrap()).unwrap();
    assert_eq!(back, content);
}

#[test]
fn client_message_envelope_has_exactly_one_top_level_key() {
    let message = ClientMessage::ClientContent(text_turn(
        "user".to_string(),
        "hi".to_string(),
        true,
    ));
    let text = json_to_string(&message.to_json());
    assert_eq!(
        text,
        "{\"clientContent\":{\"turns\":[{\"role\":\"user\",\"parts\":[{\"text\":\"hi\"}]}],\"turnComplete\":true}}"
    );
    let v: serde_json::Value = serde_json::from_str(&text).unwrap();
    assert_eq!(v.as_object().unwrap().len(), 1);
}

#[test]
fn setup_envelope_carries_model_and_options() {
    let mut setup = Setup::new("models/live".to_string());
    setup.system_instruction = Some(Content::system("be brief".to_string()));
    setup.generation_config = Some(GenerationConfig {
        response_modalities: vec!["TEXT".to_string()],
        ..GenerationConfig::default()
    });
    let text = json_to_string(&setup.to_envelope_json());
    assert_eq!(
        text,
        "{\"setup\":{\"model\":\"models/live\",\"generationConfig\":{\"responseModalities\":[\"TEXT\"]},\"systemInstruction\":{\"role\":\"system\",\"parts\":[{\"text\":\"be brief\"}]}}}"
    );
}

#[test]
fn blob_base64_uses_the_standard_alphabet() {
    let blob = Blob::from_bytes(b"Man");
    assert_eq!(blob.data, "TWFu");
    assert!(blob.mime_type.is_none());
    let blob = Blob::from_bytes(b"M").with_mime_type("image/jpeg".to_string());
    assert_eq!(blob.data, "TQ==");
    assert_eq!(blob.mime_type.as_deref(), Some("image/jpeg"));
    assert_eq!(Blob::from_bytes(b"Ma").data, "TWE=");
    assert_eq!(Blob::from_bytes(b"").data, "");
    // Cross-check a longer value against the base64 crate itself.
    let bytes: Vec<u8> = (0u8..=255).collect();
    assert_eq!(
        Blob::from_bytes(&bytes).data,
        base64::engine::general_purpose::STANDARD.encode(&bytes)
    );
}

#[test]
fn error_response_renders_each_shape() {
    let full = ErrorResponse {
        code: Some(3),
        message: Some("boom".to_string()),
        status: Some("INTERNAL".to_string()),
        details: vec![],
    };
    assert_eq!(full.render(), "boom (code 3, status INTERNAL)");
    let code_only = ErrorResponse { code: Some(-2), ..ErrorResponse::default() };
    assert_eq!(code_only.render(), "code -2");
    let message_status = ErrorResponse {
        message: Some("oops".to_string()),
        status: Some("ABORTED".to_string()),
        ..ErrorResponse::default()
    };
    assert_eq!(message_status.render(), "oops (status ABORTED)");
    assert_eq!(ErrorResponse::default().render(), "unknown error");
    assert_eq!(
        ErrorResponse { status: Some("X".to_string()), ..ErrorResponse::default() }.render(),
        "status X"
    );
}
