use rustwester::error::WesterError;
use rustwester::negotiation::{NegotiationInput, ServerConfig};
use rustwester::routes::echo;

#[test]
fn each_error_has_its_label() {
    assert_eq!(WesterError::Io("disk full".to_string()).message(), "I/O error: disk full");
    assert_eq!(
        WesterError::SerdeJson("expected value".to_string()).message(),
        "Serde Json Error: expected value"
    );
    assert_eq!(
        WesterError::ActixUrl("bad url".to_string()).message(),
        "Actix Web Error: bad url"
    );
    assert_eq!(
        WesterError::SetLoggerError("already set".to_string()).message(),
        "Set Logger Error: already set"
    );
    assert_eq!(WesterError::Io(String::new()).message(), "I/O error: ");
}

#[test]
fn only_a_json_error_is_the_callers_fault() {
    assert_eq!(WesterError::SerdeJson("x".to_string()).status(), 400);
    assert_eq!(WesterError::Io("x".to_string()).status(), 500);
    assert_eq!(WesterError::ActixUrl("x".to_string()).status(), 500);
    assert_eq!(WesterError::SetLoggerError("x".to_string()).status(), 500);
}

#[test]
fn error_reply_carries_status_and_message() {
    let reply = WesterError::SerdeJson("expected value".to_string()).error_response();
    assert_eq!(reply.status, 400);
    assert_eq!(reply.content_type, None);
    assert_eq!(reply.body, "Serde Json Error: expected value");
    let reply = WesterError::Io("disk full".to_string()).error_response();
    assert_eq!(reply.status, 500);
    assert_eq!(reply.content_type, None);
    assert_eq!(reply.body, "I/O error: disk full");
}

#[test]
fn echo_refuses_a_body_that_is_no_json() {
    let input =
        NegotiationInput { query_json_flag_present: false, accept_header_value: None };
    for allow_json in [false, true] {
        let config = ServerConfig { allow_json };
        let outcome = echo(&config, &input, None, "h", b"not-json");
        let error = outcome.unwrap_err();
        assert_eq!(
            error,
            WesterError::SerdeJson("expected ident at line 1 column 2".to_string())
        );
        let reply = error.error_response();
        assert_eq!(reply.status, 400);
        assert!((400..500).contains(&reply.status));
        assert_eq!(reply.body, "Serde Json Error: expected ident at line 1 column 2");
        assert!(!reply.body.contains("<h1>"));
        assert!(!reply.body.contains("hostname"));
    }
}

#[test]
fn echo_refuses_an_empty_body() {
    let config = ServerConfig { allow_json: true };
    let input = NegotiationInput { query_json_flag_present: true, accept_header_value: None };
    let error = echo(&config, &input, Some("ua"), "h", b"").unwrap_err();
    assert!(matches!(error, WesterError::SerdeJson(_)));
    assert_eq!(error.status(), 400);
}
