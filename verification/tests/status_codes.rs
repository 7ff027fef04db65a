use async_php::http::types::StatusCodes;

#[test]
fn classes() {
    assert!(StatusCodes::is_success(200));
    assert!(StatusCodes::is_success(299));
    assert!(!StatusCodes::is_success(300));
    assert!(StatusCodes::is_redirect(301));
    assert!(StatusCodes::is_client_error(404));
    assert!(StatusCodes::is_server_error(503));
    assert!(StatusCodes::is_error(400));
    assert!(StatusCodes::is_error(599));
    assert!(!StatusCodes::is_error(399));
    assert!(StatusCodes::is_error(600));
}

#[test]
fn reason_phrases() {
    assert_eq!(StatusCodes::get_default_reason_phrase(200), "OK");
    assert_eq!(StatusCodes::get_default_reason_phrase(404), "Not Found");
    assert_eq!(StatusCodes::get_default_reason_phrase(429), "Too Many Requests");
    assert_eq!(StatusCodes::get_default_reason_phrase(504), "Gateway Timeout");
    assert_eq!(StatusCodes::get_default_reason_phrase(799), "Unknown");
}

#[test]
fn constants() {
    assert_eq!(StatusCodes::OK, 200);
    assert_eq!(StatusCodes::CONTINUE, 100);
}

#[test]
fn multiple_choices_has_its_phrase() {
    assert_eq!(
        StatusCodes::get_default_reason_phrase(StatusCodes::MULTIPLE_CHOICES),
        "Multiple Choices"
    );
}

#[test]
fn every_declared_code_has_a_phrase() {
    let codes = [
        StatusCodes::CONTINUE, StatusCodes::SWITCHING_PROTOCOLS, StatusCodes::OK,
        StatusCodes::CREATED, StatusCodes::ACCEPTED, StatusCodes::NO_CONTENT,
        StatusCodes::MULTIPLE_CHOICES, StatusCodes::MOVED_PERMANENTLY, StatusCodes::FOUND,
        StatusCodes::SEE_OTHER, StatusCodes::NOT_MODIFIED, StatusCodes::TEMPORARY_REDIRECT,
        StatusCodes::PERMANENT_REDIRECT, StatusCodes::BAD_REQUEST, StatusCodes::UNAUTHORIZED,
        StatusCodes::FORBIDDEN, StatusCodes::NOT_FOUND, StatusCodes::METHOD_NOT_ALLOWED,
        StatusCodes::NOT_ACCEPTABLE, StatusCodes::REQUEST_TIMEOUT, StatusCodes::CONFLICT,
        StatusCodes::GONE, StatusCodes::LENGTH_REQUIRED, StatusCodes::PAYLOAD_TOO_LARGE,
        StatusCodes::URI_TOO_LONG, StatusCodes::UNSUPPORTED_MEDIA_TYPE,
        StatusCodes::RANGE_NOT_SATISFIABLE, StatusCodes::UNPROCESSABLE_ENTITY,
        StatusCodes::TOO_MANY_REQUESTS, StatusCodes::INTERNAL_SERVER_ERROR,
        StatusCodes::NOT_IMPLEMENTED, StatusCodes::BAD_GATEWAY,
        StatusCodes::SERVICE_UNAVAILABLE, StatusCodes::GATEWAY_TIMEOUT,
    ];
    for code in codes {
        assert_ne!(StatusCodes::get_default_reason_phrase(code), "Unknown", "code {}", code);
    }
}
