use faxmon_sdk::Error;
use faxmon_sdk::EventStatus;
use faxmon_sdk::client::interpret_response;
use faxmon_sdk::wire::decode_state;
use faxmon_sdk::wire::error_response_from_body;

fn well_formed_body() -> String {
    "{\"id\":\"ev-1\",\"name\":\"fax line\",\"type\":\"probe\",\"designation\":\"line 1\",\"status\":\"warning\",\"acknowledged\":true,\"last_updated\":\"2024-05-01T12:30:00Z\",\"message\":\"paper low\"}".to_string()
}

#[test]
fn ok_response_decodes_every_field_exactly() {
    let state = interpret_response(200, Some(well_formed_body())).unwrap();
    assert_eq!(state.id, "ev-1");
    assert_eq!(state.name, "fax line");
    assert_eq!(state.event_type, "probe");
    assert_eq!(state.designation, "line 1");
    assert_eq!(state.status, EventStatus::Warning);
    assert!(state.acknowledged);
    assert_eq!(state.message, "paper low");
    // An absent notification_listener_id maps to unset, not an error.
    assert_eq!(state.notification_listener_id, None);

    let expected_secs = chrono::DateTime::parse_from_rfc3339("2024-05-01T12:30:00Z")
        .unwrap()
        .timestamp();
    assert_eq!(state.last_updated.secs, expected_secs);
    assert_eq!(state.last_updated.nanos, 0);
}

#[test]
fn ok_response_keeps_present_notification_listener_id() {
    let body = well_formed_body().replace(
        ",\"message\"",
        ",\"notification_listener_id\":\"listener-9\",\"message\"",
    );
    let state = interpret_response(299, Some(body)).unwrap();
    assert_eq!(state.notification_listener_id.as_deref(), Some("listener-9"));
}

#[test]
fn ok_response_with_null_listener_id_is_unset() {
    let body = well_formed_body().replace(
        ",\"message\"",
        ",\"notification_listener_id\":null,\"message\"",
    );
    let state = interpret_response(200, Some(body)).unwrap();
    assert_eq!(state.notification_listener_id, None);
}

#[test]
fn ok_response_with_non_string_listener_id_is_unexpected_response() {
    let body = well_formed_body().replace(
        ",\"message\"",
        ",\"notification_listener_id\":7,\"message\"",
    );
    let err = interpret_response(200, Some(body)).unwrap_err();
    assert!(matches!(err, Error::UnexpectedResponse(_)));
}

#[test]
fn ok_response_missing_required_field_is_unexpected_response() {
    let body = well_formed_body().replace("\"id\":\"ev-1\",", "");
    let err = interpret_response(200, Some(body)).unwrap_err();
    assert!(matches!(err, Error::UnexpectedResponse(_)));
}

#[test]
fn ok_response_with_bad_status_token_is_unexpected_response() {
    let body = well_formed_body().replace("warning", "WARNING");
    let err = interpret_response(200, Some(body)).unwrap_err();
    assert!(matches!(err, Error::UnexpectedResponse(_)));
}

#[test]
fn ok_response_with_malformed_json_is_unexpected_response() {
    let err = interpret_response(200, Some("not json at all".to_string())).unwrap_err();
    assert!(matches!(err, Error::UnexpectedResponse(_)));
}

#[test]
fn ok_response_with_unreadable_body_is_unexpected_response() {
    let err = interpret_response(200, None).unwrap_err();
    assert!(matches!(err, Error::UnexpectedResponse(_)));
}

#[test]
fn error_422_with_json_body_extracts_the_message() {
    let err = interpret_response(422, Some("{\"error\":\"event not found\"}".to_string()))
        .unwrap_err();
    match err {
        Error::Api { status, message } => {
            assert_eq!(status, 422);
            assert_eq!(message, "event not found");
        },
        other => panic!("expected an Api error, got {:?}", other),
    }
}

#[test]
fn error_500_with_plain_text_body_falls_back_to_raw_text() {
    let err = interpret_response(500, Some("internal error".to_string())).unwrap_err();
    match err {
        Error::Api { status, message } => {
            assert_eq!(status, 500);
            assert_eq!(message, "internal error");
        },
        other => panic!("expected an Api error, got {:?}", other),
    }
}

#[test]
fn error_with_json_body_without_error_key_falls_back_to_raw_text() {
    let err = interpret_response(404, Some("{\"detail\":\"gone\"}".to_string())).unwrap_err();
    match err {
        Error::Api { status, message } => {
            assert_eq!(status, 404);
            assert_eq!(message, "{\"detail\":\"gone\"}");
        },
        other => panic!("expected an Api error, got {:?}", other),
    }
}

#[test]
fn error_with_unreadable_body_uses_the_placeholder() {
    let err = interpret_response(503, None).unwrap_err();
    match err {
        Error::Api { status, message } => {
            assert_eq!(status, 503);
            assert_eq!(message, "Unknown error");
        },
        other => panic!("expected an Api error, got {:?}", other),
    }
}

#[test]
fn decode_state_never_returns_a_partial_state() {
    // Every required field missing in turn fails the whole decode.
    for key in [
        "\"id\":\"ev-1\",",
        "\"name\":\"fax line\",",
        "\"type\":\"probe\",",
        "\"designation\":\"line 1\",",
        "\"status\":\"warning\",",
        "\"acknowledged\":true,",
        "\"last_updated\":\"2024-05-01T12:30:00Z\",",
        "\"message\":\"paper low\"",
    ] {
        let body = well_formed_body().replace(key, "");
        let result = decode_state(&body);
        assert!(result.is_err(), "decode accepted a body without {}", key);
    }
}

#[test]
fn error_response_parses_only_a_string_error_field() {
    let er = error_response_from_body("{\"error\":\"nope\"}").unwrap();
    assert_eq!(er.error, "nope");
    assert!(error_response_from_body("{\"error\":7}").is_none());
    assert!(error_response_from_body("plain text").is_none());
    assert!(error_response_from_body("{}").is_none());
}
