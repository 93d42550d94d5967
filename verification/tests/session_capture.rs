use base64::Engine;
use watcher_core::bridge::frame_message_from_jpeg;
use watcher_core::capture::{FrameCache, FrameData};
use watcher_core::events::ServerEvent;
use watcher_core::jpeg::{encode_bgra_to_jpeg_bytes, JpegError};
use watcher_core::json::{parse_json_str, JsonValue};
use watcher_core::permissions::PermissionError;
use watcher_core::protocol::{text_turn, ClientMessage, GeminiError, Part};
use watcher_core::response::{sink_step, CliResponsePrinter, SinkStep};
use watcher_core::session::{
    CloseInfo, ConnectionOptions, FrameStep, RecvPoll, SessionCore, SetupStep, WireFrame,
    DEFAULT_LIVE_ENDPOINT,
};

fn event_from(text: &str) -> ServerEvent {
    match SessionCore::new().handle_frame(WireFrame::Text(text.to_string())) {
        FrameStep::Event(e) => e,
        other => panic!("expected an event, got {:?}", other),
    }
}

#[test]
fn latest_frame_wins_in_the_cache() {
    let mut cache = FrameCache::new();
    assert!(cache.take().is_none());
    cache.publish(FrameData { width: 1, height: 1, data: vec![1, 2, 3, 4] });
    cache.publish(FrameData { width: 2, height: 1, data: vec![5, 6, 7, 8] });
    let got = cache.take().expect("a frame is cached");
    assert_eq!(got.width, 2);
    assert_eq!(got.data, vec![5, 6, 7, 8]);
    // The successful take cleared the slot.
    assert!(cache.take().is_none());
}

#[test]
fn recv_after_stream_end_always_yields_nothing() {
    let mut s = SessionCore::new();
    s.note_stream_end();
    for _ in 0..3 {
        assert_eq!(s.recv_poll(), RecvPoll::Finished);
    }
    assert!(s.is_closed());
}

#[test]
fn events_before_setup_ack_are_delivered_first_and_in_order() {
    let mut s = SessionCore::new();
    let event_a = event_from("{\"serverContent\":{\"turnComplete\":true}}");
    let ack = event_from("{\"setupComplete\":{}}");
    let event_b = event_from("{\"goAway\":{}}");

    // The wire yields [EventA, SetupComplete]; EventA is buffered.
    assert_eq!(s.expect_setup_step(event_a.clone()), SetupStep::Buffered);
    assert_eq!(s.expect_setup_step(ack), SetupStep::Ready);

    // After activation, EventA drains before the wire is read again.
    match s.recv_poll() {
        RecvPoll::Deliver(e) => assert_eq!(e, event_a),
        other => panic!("expected the buffered event, got {:?}", other),
    }
    assert_eq!(s.recv_poll(), RecvPoll::NeedFrame);

    // Only then comes EventB, read live.
    match s.handle_frame(WireFrame::Text("{\"goAway\":{}}".to_string())) {
        FrameStep::Event(e) => assert_eq!(e, event_b),
        other => panic!("expected an event, got {:?}", other),
    }
}

#[test]
fn setup_rejection_is_reported_not_buffered() {
    let mut s = SessionCore::new();
    let err_event = event_from("{\"error\":{\"code\":13,\"message\":\"no\"}}");
    match s.expect_setup_step(err_event) {
        SetupStep::Rejected(e) => {
            assert_eq!(e.code, Some(13));
            assert_eq!(e.message.as_deref(), Some("no"));
        }
        other => panic!("unexpected: {:?}", other),
    }
    assert_eq!(s.pending_len(), 0);
}

#[test]
fn close_twice_sends_one_close_frame_and_never_errors() {
    let mut s = SessionCore::new();
    assert!(s.close_step());
    assert!(!s.close_step());
    assert!(!s.close_step());
    assert!(s.is_closed());
}

#[test]
fn send_after_close_fails_without_touching_the_transport() {
    let mut s = SessionCore::new();
    let message = ClientMessage::ClientContent(text_turn(
        "user".to_string(),
        "late".to_string(),
        true,
    ));
    assert!(s.prepare_send(&message).is_ok());
    s.close_step();
    assert_eq!(s.prepare_send(&message), Err(GeminiError::ConnectionClosed));
    assert_eq!(
        s.prepare_setup(&watcher_core::protocol::Setup::new("m".to_string())),
        Err(GeminiError::ConnectionClosed)
    );
}

#[test]
fn every_prepared_send_is_one_complete_json_object() {
    let s = SessionCore::new();
    let messages = vec![
        ClientMessage::ClientContent(text_turn("user".to_string(), "a".to_string(), true)),
        ClientMessage::RealtimeInput(watcher_core::protocol::realtime_text("b".to_string())),
        ClientMessage::ToolResponse(watcher_core::protocol::ToolResponse::default()),
    ];
    for m in messages {
        let text = s.prepare_send(&m).unwrap();
        let parsed: serde_json::Value = serde_json::from_str(&text).unwrap();
        assert_eq!(parsed.as_object().unwrap().len(), 1);
    }
}

#[test]
fn wire_frames_drive_the_session() {
    let mut s = SessionCore::new();
    // A ping is answered with a pong carrying the same payload.
    assert_eq!(
        s.handle_frame(WireFrame::Ping(vec![1, 2])),
        FrameStep::Pong(vec![1, 2])
    );
    // A pong is ignored.
    assert_eq!(s.handle_frame(WireFrame::Pong(vec![])), FrameStep::Continue);
    // A binary payload decodes like text.
    match s.handle_frame(WireFrame::Binary(b"{\"setupComplete\":{}}".to_vec())) {
        FrameStep::Event(ServerEvent::SetupComplete { .. }) => {}
        other => panic!("unexpected: {:?}", other),
    }
    // Invalid UTF-8 is a decode failure.
    match s.handle_frame(WireFrame::Binary(vec![0xff, 0xfe])) {
        FrameStep::Fail(GeminiError::Decode(k)) => assert_eq!(k, "frame"),
        other => panic!("unexpected: {:?}", other),
    }
    // Malformed text is a decode failure too.
    match s.handle_frame(WireFrame::Text("{not json".to_string())) {
        FrameStep::Fail(GeminiError::Decode(k)) => assert_eq!(k, "frame"),
        other => panic!("unexpected: {:?}", other),
    }
    assert!(!s.is_closed());
    // A clean close ends the stream and closes the session.
    assert_eq!(s.handle_frame(WireFrame::Close(None)), FrameStep::End);
    assert!(s.is_closed());
    // An abnormal close is a distinguishable server-closed error.
    let mut s2 = SessionCore::new();
    match s2.handle_frame(WireFrame::Close(Some(CloseInfo {
        code: "1011".to_string(),
        reason: "overloaded".to_string(),
    }))) {
        FrameStep::Fail(GeminiError::ServerClosed { code, reason }) => {
            assert_eq!(code, "1011");
            assert_eq!(reason, "overloaded");
        }
        other => panic!("unexpected: {:?}", other),
    }
    assert!(s2.is_closed());
}

#[test]
fn connection_options_carry_credentials() {
    let options = ConnectionOptions::builder()
        .api_key("SECRET-REDACTED".to_string())
        .access_token("tok".to_string())
        .build();
    assert_eq!(options.endpoint(), DEFAULT_LIVE_ENDPOINT);
    assert_eq!(
        options.query_pairs(),
        vec![
            ("key".to_string(), "SECRET-REDACTED".to_string()),
            ("access_token".to_string(), "tok".to_string()),
        ]
    );
    assert_eq!(
        options.header_pairs(),
        vec![
            ("X-Goog-Api-Key".to_string(), "SECRET-REDACTED".to_string()),
            ("Authorization".to_string(), "Bearer tok".to_string()),
        ]
    );
    let bare = ConnectionOptions::new();
    assert!(bare.query_pairs().is_empty());
    assert!(bare.header_pairs().is_empty());
}

#[test]
fn jpeg_rejects_mismatched_dimensions() {
    assert_eq!(
        encode_bgra_to_jpeg_bytes(&[0u8; 5], 1, 1, 90),
        Err(JpegError::InvalidDimensions)
    );
}

#[test]
fn jpeg_success_is_owed_exactly_within_the_size_limit() {
    // One row at the encoder's widest supported dimension succeeds...
    let widest = vec![0u8; 65535 * 4];
    let jpeg = encode_bgra_to_jpeg_bytes(&widest, 65535, 1, 90).expect("in range");
    assert_eq!(&jpeg[0..2], &[0xFF, 0xD8]);
    // ...one pixel more is the encoder's own failure, not a mismatch...
    let too_wide = vec![0u8; 65536 * 4];
    match encode_bgra_to_jpeg_bytes(&too_wide, 65536, 1, 90) {
        Err(JpegError::ImageError(_)) => {}
        other => panic!("unexpected: {:?}", other),
    }
    // ...and so is an empty image, whose buffer matches trivially.
    match encode_bgra_to_jpeg_bytes(&[], 0, 0, 90) {
        Err(JpegError::ImageError(_)) => {}
        other => panic!("unexpected: {:?}", other),
    }
}

#[test]
fn jpeg_encodes_a_small_frame() {
    // A 2x2 BGRA frame: the encoder must produce a decodable JPEG of
    // the same dimensions, not the raw buffer.
    let bgra = vec![
        255, 0, 0, 255, 0, 255, 0, 255, //
        0, 0, 255, 255, 128, 128, 128, 255,
    ];
    let jpeg = encode_bgra_to_jpeg_bytes(&bgra, 2, 2, 90).expect("encodes");
    assert_ne!(jpeg, bgra);
    assert_eq!(&jpeg[0..2], &[0xFF, 0xD8]);
    let img = image::load_from_memory(&jpeg).expect("valid image");
    assert_eq!(img.width(), 2);
    assert_eq!(img.height(), 2);
}

#[test]
fn frame_messages_carry_the_inline_image() {
    let jpeg = vec![0xFF, 0xD8, 0xFF, 0xD9];
    let message = frame_message_from_jpeg(&jpeg, "what is this?".to_string());
    assert_eq!(message.turn_complete, Some(true));
    assert_eq!(message.turns.len(), 1);
    let turn = &message.turns[0];
    assert_eq!(turn.role.as_deref(), Some("user"));
    assert_eq!(turn.parts.len(), 2);
    match &turn.parts[0] {
        Part::Json(v) => {
            let text = watcher_core::json::json_to_string(v);
            let expected_data = base64::engine::general_purpose::STANDARD.encode(&jpeg);
            assert_eq!(
                parse_json_str(&text).unwrap(),
                parse_json_str(&format!(
                    "{{\"inline_data\":{{\"mime_type\":\"image/jpeg\",\"data\":\"{}\"}}}}",
                    expected_data
                ))
                .unwrap()
            );
        }
        other => panic!("unexpected: {:?}", other),
    }
    assert_eq!(
        turn.parts[1],
        Part::Text { text: "what is this?".to_string() }
    );
}

#[test]
fn sink_dispatch_covers_each_event() {
    match sink_step(event_from(
        "{\"serverContent\":{\"generationComplete\":true,\"modelTurn\":{\"parts\":[{\"text\":\"x\"}]}}}",
    )) {
        SinkStep::Respond { turn, generation_complete } => {
            assert!(generation_complete);
            assert_eq!(
                turn.unwrap().parts,
                vec![Part::Text { text: "x".to_string() }]
            );
        }
        other => panic!("unexpected: {:?}", other),
    }
    assert_eq!(
        sink_step(event_from("{\"setupComplete\":{}}")),
        SinkStep::Ready
    );
    match sink_step(event_from("{\"error\":{\"code\":1}}")) {
        SinkStep::Report(e) => assert_eq!(e.code, Some(1)),
        other => panic!("unexpected: {:?}", other),
    }
    assert_eq!(
        sink_step(event_from("{\"goAway\":{}}")),
        SinkStep::Ignore
    );
}

#[test]
fn stream_end_before_ack_is_setup_not_acknowledged() {
    assert_eq!(
        watcher_core::session::setup_stream_end(),
        GeminiError::SetupNotAcknowledged
    );
}

#[test]
fn printer_renders_one_line_per_part() {
    let printer = CliResponsePrinter::new();
    let content = watcher_core::protocol::Content {
        role: Some("model".to_string()),
        parts: vec![
            Part::Text { text: "hello".to_string() },
            Part::Json(JsonValue::Int(7)),
        ],
    };
    assert_eq!(
        printer.render_response(&content),
        vec!["Gemini: hello".to_string(), "Gemini (json): 7".to_string()]
    );
}

#[test]
fn permission_errors_render() {
    assert_eq!(
        PermissionError::PlatformNotSupported.render(),
        "Platform not supported"
    );
    assert_eq!(
        PermissionError::PermissionDenied.render(),
        "Permission not granted"
    );
}
