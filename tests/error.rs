use onedrive_error::error::Error;
use onedrive_error::resource::ErrorObject;
use onedrive_error::transport::TransportError;

fn status_failure(code: u16) -> (TransportError, String) {
    let response = http::Response::builder().status(code).body("").unwrap();
    let response = reqwest::Response::from(response);
    let url = response.url().as_str().to_string();
    let source = response.error_for_status().unwrap_err();
    (TransportError::new(source), url)
}

fn bad_url_failure() -> TransportError {
    let source = reqwest::Client::new().get("not a url").build().unwrap_err();
    TransportError::new(source)
}

fn form_failure() -> TransportError {
    let source = reqwest::Client::new()
        .post("http://localhost/items")
        .form(&[("a", [1, 2])])
        .build()
        .unwrap_err();
    TransportError::new(source)
}

#[test]
fn server_error_is_retried() {
    let (transport, _) = status_failure(503);
    assert!(!transport.is_client_error());
    let e = Error::from_response(transport, None);
    assert!(e.should_retry());
    assert_eq!(e.status_code(), Some(503));
}

#[test]
fn client_error_is_not_retried() {
    let (transport, _) = status_failure(404);
    assert!(transport.is_client_error());
    let e = Error::from_response(transport, None);
    assert!(!e.should_retry());
    assert_eq!(e.status_code(), Some(404));
}

#[test]
fn unexpected_response_message_and_advice() {
    let e = Error::unexpected_response("missing field `id`");
    let text = e.message();
    assert!(text.contains("Deserialize error"));
    assert!(text.contains("missing field `id`"));
    assert_eq!(text, "Deserialize error: missing field `id`");
    assert!(!e.should_retry());
}

#[test]
fn unexpected_response_has_no_details() {
    for reason in ["", "unexpected status with empty body", "missing required field"] {
        let e = Error::unexpected_response(reason);
        assert!(!e.should_retry());
        assert_eq!(e.url(), None);
        assert_eq!(e.status_code(), None);
        assert!(e.error_response().is_none());
    }
}

#[test]
fn error_object_is_returned_and_shown() {
    let (transport, _) = status_failure(404);
    let object = ErrorObject::new(
        "itemNotFound".to_string(),
        "The resource could not be found.".to_string(),
    );
    let e = Error::from_response(transport, Some(object.clone()));
    let got = e.error_response().unwrap();
    assert_eq!(got.code, object.code);
    assert_eq!(got.message, object.message);
    let text = e.message();
    assert!(text.starts_with("Request error: "));
    assert!(text.contains("itemNotFound"));
    assert!(text.ends_with(
        " (response: Some(ErrorObject { code: \"itemNotFound\", message: \"The resource could not be found.\" }))"
    ));
    assert!(text.ends_with(&format!(" (response: {:?})", Some(object))));
}

#[test]
fn missing_error_object_is_shown_as_none() {
    let (transport, _) = status_failure(500);
    let e = Error::from_response(transport, None);
    assert!(e.error_response().is_none());
    assert!(e.message().ends_with(" (response: None)"));
}

#[test]
fn transport_facts_pass_through() {
    let (transport, url) = status_failure(502);
    assert_eq!(transport.url(), Some(url.as_str()));
    assert_eq!(transport.status(), Some(502));
    let e = Error::from_response(transport, None);
    assert_eq!(e.url(), Some(url.as_str()));
    assert_eq!(e.status_code(), Some(502));
}

#[test]
fn description_comes_from_transport() {
    let (transport, _) = status_failure(503);
    let text = transport.description().to_string();
    assert!(!text.is_empty());
    assert!(text.contains("503"));
    let e = Error::from_response(transport, None);
    assert_eq!(e.message(), format!("Request error: {} (response: None)", text));
}

#[test]
fn failure_without_status_is_retried() {
    let transport = bad_url_failure();
    assert_eq!(transport.status(), None);
    assert!(!transport.is_client_error());
    assert!(!transport.is_serialization());
    let e = Error::from_response(transport, None);
    assert!(e.should_retry());
    assert_eq!(e.status_code(), None);
    assert_eq!(e.url(), None);
}

#[test]
fn serialization_failure_is_not_retried() {
    let transport = form_failure();
    assert!(transport.is_serialization());
    assert!(!transport.is_client_error());
    let e = Error::from_response(transport, None);
    assert!(!e.should_retry());
}

#[test]
fn conversion_matches_constructor_without_payload() {
    for code in [404u16, 503] {
        let (a, _) = status_failure(code);
        let (b, _) = status_failure(code);
        let converted = Error::from(a);
        let built = Error::from_response(b, None);
        assert_eq!(converted.should_retry(), built.should_retry());
        assert_eq!(converted.url(), built.url());
        assert_eq!(converted.status_code(), built.status_code());
        assert!(converted.error_response().is_none());
        assert!(built.error_response().is_none());
    }
}

#[test]
fn error_object_keeps_its_fields() {
    let object = ErrorObject::new("accessDenied".to_string(), "No access.".to_string());
    assert_eq!(object.code, "accessDenied");
    assert_eq!(object.message, "No access.");
}

#[test]
fn error_object_text_is_escaped() {
    let (transport, _) = status_failure(400);
    let object = ErrorObject::new("bad\"Code".to_string(), "line\nbreak".to_string());
    let e = Error::from_response(transport, Some(object));
    assert!(e.message().ends_with(
        " (response: Some(ErrorObject { code: \"bad\\\"Code\", message: \"line\\nbreak\" }))"
    ));
}
