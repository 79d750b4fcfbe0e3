use faxmon_sdk::Error;
use faxmon_sdk::EventStatus;
use faxmon_sdk::EventStatusUpdatePayload;
use faxmon_sdk::ProbeClient;

#[test]
fn test_client_new() {
    let client = ProbeClient::new("https://faxmon.example.com", "token".to_string());
    assert!(client.is_ok());

    let client = ProbeClient::new("invalid-url", "token".to_string());
    assert!(client.is_err());
}

#[test]
fn new_rejects_relative_url_with_url_parse() {
    let err = ProbeClient::new("invalid-url", "token".to_string()).unwrap_err();
    assert!(matches!(err, Error::UrlParse(_)));
    let err = ProbeClient::new("/only/a/path", "token".to_string()).unwrap_err();
    assert!(matches!(err, Error::UrlParse(_)));
}

#[test]
fn new_stores_token_verbatim() {
    let client = ProbeClient::new("https://faxmon.example.com", "  raw token  ".to_string())
        .unwrap();
    assert_eq!(client.probe_token, "  raw token  ");
    assert_eq!(client.base_url.as_str(), "https://faxmon.example.com/");
}

#[test]
fn with_http_client_takes_supplied_transport() {
    let transport = reqwest::Client::new();
    let client = ProbeClient::with_http_client(
        "https://faxmon.example.com",
        "token".to_string(),
        transport,
    );
    assert!(client.is_ok());

    let transport = reqwest::Client::new();
    let err = ProbeClient::with_http_client("not a url", "token".to_string(), transport)
        .unwrap_err();
    assert!(matches!(err, Error::UrlParse(_)));
}

#[test]
fn prepare_composes_url_headers_and_body() {
    let client = ProbeClient::new("https://faxmon.example.com/api/", "my-token".to_string())
        .unwrap();
    let payload = EventStatusUpdatePayload::new(EventStatus::Okay);
    let prepared = client.prepare_update_request("event-7", &payload).unwrap();
    assert_eq!(
        prepared.url.as_str(),
        "https://faxmon.example.com/api/events/event-7/update"
    );
    assert_eq!(prepared.auth_header, "Bearer my-token");
    assert_eq!(prepared.content_type, "application/json");
    assert_eq!(prepared.body, "{\"status\":\"ok\"}");
}

#[test]
fn prepare_resolves_against_base_without_trailing_slash() {
    let client = ProbeClient::new("https://faxmon.example.com/api", "t".to_string()).unwrap();
    let payload = EventStatusUpdatePayload::new(EventStatus::Warning);
    let prepared = client.prepare_update_request("e", &payload).unwrap();
    // Standard relative-URL resolution drops the last path segment of
    // a base that does not end in a slash.
    assert_eq!(prepared.url.as_str(), "https://faxmon.example.com/events/e/update");
}

#[test]
fn prepare_rejects_token_illegal_in_header() {
    let client = ProbeClient::new("https://faxmon.example.com", "bad\ntoken".to_string())
        .unwrap();
    let payload = EventStatusUpdatePayload::new(EventStatus::Critical);
    let err = client.prepare_update_request("e", &payload).unwrap_err();
    assert!(matches!(err, Error::Validation(_)));

    // The same token is also refused by the http crate itself, whose
    // rule the library's check mirrors.
    assert!(reqwest::header::HeaderValue::from_str("Bearer bad\ntoken").is_err());
}

#[test]
fn prepare_accepts_every_header_legal_token() {
    let client = ProbeClient::new(
        "https://faxmon.example.com",
        "spaces and\ttabs ~ \u{e9}".to_string(),
    )
    .unwrap();
    let payload = EventStatusUpdatePayload::new(EventStatus::Unknown);
    let prepared = client.prepare_update_request("e", &payload).unwrap();
    assert_eq!(prepared.auth_header, "Bearer spaces and\ttabs ~ \u{e9}");
}
