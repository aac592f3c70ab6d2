//! Decoding server-sent-event sessions.
use async_llm::http::stream::{decode_all, decode_step, DecodeStep, SseEvent};
use async_llm::Error;

fn msg(s: &str) -> SseEvent {
    SseEvent::Message(s.to_string())
}

#[test]
fn three_items_then_sentinel() {
    let events = vec![
        SseEvent::Open,
        msg("{\"n\":1}"),
        msg("{\"n\":2}"),
        msg("{\"n\":3}"),
        msg("[DONE]"),
    ];
    let entries = decode_all(&events, "[DONE]");
    assert_eq!(entries.len(), 3);
    assert_eq!(entries[0], Ok("{\"n\":1}".to_string()));
    assert_eq!(entries[1], Ok("{\"n\":2}".to_string()));
    assert_eq!(entries[2], Ok("{\"n\":3}".to_string()));
}

#[test]
fn sentinel_ends_the_session_silently() {
    let events = vec![msg("{\"a\":true}"), msg("[DONE]"), msg("{\"after\":1}")];
    let entries = decode_all(&events, "[DONE]");
    assert_eq!(entries, vec![Ok("{\"a\":true}".to_string())]);
}

#[test]
fn disconnection_yields_one_stream_error_and_nothing_after() {
    let events = vec![
        msg("{\"a\":1}"),
        SseEvent::Failed("connection reset".to_string()),
        msg("{\"b\":2}"),
    ];
    let entries = decode_all(&events, "[DONE]");
    assert_eq!(entries.len(), 2);
    assert_eq!(entries[0], Ok("{\"a\":1}".to_string()));
    assert_eq!(entries[1], Err(Error::Stream("connection reset".to_string())));
}

#[test]
fn malformed_item_is_isolated() {
    let events = vec![msg("{\"ok\":1}"), msg("{oops"), msg("{\"ok\":2}"), msg("[DONE]")];
    let entries = decode_all(&events, "[DONE]");
    assert_eq!(entries.len(), 3);
    assert_eq!(entries[0], Ok("{\"ok\":1}".to_string()));
    match &entries[1] {
        Err(Error::Json(_)) => {}
        other => panic!("expected a Json error item, got {other:?}"),
    }
    assert_eq!(entries[2], Ok("{\"ok\":2}".to_string()));
}

#[test]
fn open_notifications_are_skipped() {
    let events = vec![SseEvent::Open, SseEvent::Open, msg("{}"), SseEvent::Open, msg("[DONE]")];
    let entries = decode_all(&events, "[DONE]");
    assert_eq!(entries, vec![Ok("{}".to_string())]);
}

#[test]
fn decode_step_cases() {
    assert_eq!(decode_step(&SseEvent::Open, "[DONE]"), DecodeStep::Skip);
    assert_eq!(decode_step(&msg("[DONE]"), "[DONE]"), DecodeStep::Stop);
    assert_eq!(
        decode_step(&msg("{\"x\":1}"), "[DONE]"),
        DecodeStep::Emit(Ok("{\"x\":1}".to_string()))
    );
    match decode_step(&SseEvent::Failed("gone".to_string()), "[DONE]") {
        DecodeStep::EmitStop(Err(Error::Stream(m))) => assert_eq!(m, "gone".to_string()),
        other => panic!("expected EmitStop with a Stream error, got {other:?}"),
    }
    match decode_step(&msg("{broken"), "[DONE]") {
        DecodeStep::Emit(Err(Error::Json(_))) => {}
        other => panic!("expected Emit with a Json error, got {other:?}"),
    }
}

#[test]
fn a_custom_sentinel_is_honoured() {
    let events = vec![msg("{\"n\":1}"), msg("END"), msg("{\"n\":2}")];
    let entries = decode_all(&events, "END");
    assert_eq!(entries, vec![Ok("{\"n\":1}".to_string())]);
    // The default sentinel text is not special for this session.
    let entries2 = decode_all(&vec![msg("[DONE]")], "END");
    assert_eq!(entries2.len(), 1);
    match &entries2[0] {
        Err(Error::Json(_)) => {}
        other => panic!("expected a Json error for the non-sentinel payload, got {other:?}"),
    }
}
