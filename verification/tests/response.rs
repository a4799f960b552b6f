use binance_account::{settle, Error, ErrorEnvelope, Reply};

#[test]
fn nothing_to_cancel_is_an_api_error_with_status_400() {
    let reply = Reply::Answer {
        status: 400,
        envelope: Some(ErrorEnvelope { code: -2011, msg: "Unknown order sent.".to_string() }),
    };
    let outcome = settle(reply);
    assert!(matches!(outcome, Err(Error::ApiError { code: 400, .. })));
    assert_ne!(outcome, Err(Error::TransportError));
    assert_eq!(
        outcome,
        Err(Error::ApiError { code: 400, reason: -2011, message: "Unknown order sent.".to_string() })
    );
}

#[test]
fn success_statuses_are_accepted() {
    assert_eq!(settle(Reply::Answer { status: 200, envelope: None }), Ok(()));
    assert_eq!(settle(Reply::Answer { status: 204, envelope: None }), Ok(()));
    assert_eq!(settle(Reply::Answer { status: 299, envelope: None }), Ok(()));
    let stray = ErrorEnvelope { code: 1, msg: "ignored".to_string() };
    assert_eq!(settle(Reply::Answer { status: 200, envelope: Some(stray) }), Ok(()));
}

#[test]
fn statuses_next_to_the_success_range_are_rejections() {
    assert_eq!(settle(Reply::Answer { status: 199, envelope: None }), Err(Error::DecodeError));
    assert_eq!(settle(Reply::Answer { status: 300, envelope: None }), Err(Error::DecodeError));
    let e = ErrorEnvelope { code: -1003, msg: "Too many requests.".to_string() };
    assert_eq!(
        settle(Reply::Answer { status: 429, envelope: Some(e) }),
        Err(Error::ApiError { code: 429, reason: -1003, message: "Too many requests.".to_string() })
    );
}

#[test]
fn rejection_without_envelope_is_a_decode_error() {
    assert_eq!(settle(Reply::Answer { status: 500, envelope: None }), Err(Error::DecodeError));
}

#[test]
fn lost_request_is_a_transport_error() {
    assert_eq!(settle(Reply::Lost), Err(Error::TransportError));
}

#[test]
fn errors_have_names() {
    assert_eq!(Error::UrlParseError.name(), "UrlParseError");
    assert_eq!(Error::ParameterOutOfRange.name(), "ParameterOutOfRange");
    assert_eq!(Error::ConflictingParameters.name(), "ConflictingParameters");
    assert_eq!(Error::InvalidStateTransition.name(), "InvalidStateTransition");
    assert_eq!(Error::TransportError.name(), "TransportError");
    assert_eq!(Error::DecodeError.name(), "DecodeError");
    let api = Error::ApiError { code: 400, reason: -1, message: String::new() };
    assert_eq!(api.name(), "ApiError");
}
