use rulip::{classify_status, Error, ErrorKind, StatusClass, ZulipError, ZulipErrorCode};

fn body(message: &str, code: Option<&str>, var_name: Option<&str>, retry_after_ms: Option<u64>) -> ZulipError {
    ZulipError::decode(
        message.to_owned(),
        code.map(|c| c.to_owned()),
        var_name.map(|v| v.to_owned()),
        retry_after_ms,
    )
}

fn rate_limit() -> ZulipError {
    body("API usage exceeded rate limit", Some("RATE_LIMIT_HIT"), None, Some(28707))
}

fn bad_request() -> ZulipError {
    body("Bad request", Some("BAD_REQUEST"), None, None)
}

fn request_var_missing() -> ZulipError {
    body("Var is missing", Some("REQUEST_VARIABLE_MISSING"), Some("Foo"), None)
}

fn user_deactivated() -> ZulipError {
    body("User deactivated", Some("USER_DEACTIVATED"), None, None)
}

fn realm_deactivated() -> ZulipError {
    body("User deactivated", Some("REALM_DEACTIVATED"), None, None)
}

fn auth_failed() -> ZulipError {
    body("Your username or password is incorrect", Some("AUTHENTICATION_FAILED"), None, None)
}

#[test]
fn zulip_error_code() {
    let mut res = rate_limit();
    assert!(res.is_rate_limit_hit());
    res = bad_request();
    assert!(res.is_bad_request());
    res = request_var_missing();
    assert!(res.is_variable_missing());
    res = realm_deactivated();
    assert!(res.is_realm_deactivated());
    res = user_deactivated();
    assert!(res.is_user_deactivated());
    res = auth_failed();
    assert!(res.is_auth_failed());
    res = body("Some description", None, None, None);
    assert_eq!(res.code(), None);
}

#[test]
fn decode_carries_code_fields() {
    assert_eq!(
        request_var_missing().code(),
        Some(&ZulipErrorCode::RequestVariableMissing { var_name: "Foo".to_owned() })
    );
    assert_eq!(
        rate_limit().code(),
        Some(&ZulipErrorCode::RateLimitHit { retry_after_ms: 28707 })
    );
    assert_eq!(bad_request().message(), "Bad request");
}

#[test]
fn unknown_or_incomplete_code_keeps_message() {
    let unknown = body("x", Some("SOMETHING_NEW"), None, None);
    assert_eq!(unknown.code(), None);
    assert_eq!(unknown.message(), "x");
    // A tagged code without the field it carries is no code at all.
    assert_eq!(body("x", Some("REQUEST_VARIABLE_MISSING"), None, None).code(), None);
    assert_eq!(body("x", Some("RATE_LIMIT_HIT"), None, None).code(), None);
    // Tags are compared exactly.
    assert_eq!(body("x", Some("bad_request"), None, None).code(), None);
}

#[test]
fn only_one_predicate_holds() {
    let e = bad_request();
    assert!(!e.is_rate_limit_hit());
    assert!(!e.is_variable_missing());
    assert!(!e.is_user_deactivated());
    assert!(!e.is_realm_deactivated());
    assert!(!e.is_auth_failed());
}

#[test]
fn zulip_error_text_per_code() {
    assert_eq!(bad_request().describe(), "bad request: Bad request");
    assert_eq!(rate_limit().describe(), "rate limit hit, retry after 28.707s");
    assert_eq!(
        body("m", Some("RATE_LIMIT_HIT"), None, Some(2000)).describe(),
        "rate limit hit, retry after 2s"
    );
    assert_eq!(
        body("m", Some("RATE_LIMIT_HIT"), None, Some(2500)).describe(),
        "rate limit hit, retry after 2.5s"
    );
    assert_eq!(
        body("m", Some("RATE_LIMIT_HIT"), None, Some(1050)).describe(),
        "rate limit hit, retry after 1.05s"
    );
    assert_eq!(realm_deactivated().describe(), "realm deactivated: User deactivated");
    assert_eq!(user_deactivated().describe(), "account deativated: User deactivated");
    assert_eq!(request_var_missing().describe(), "missing 'Foo' argument");
    assert_eq!(
        auth_failed().describe(),
        "authentication failed: Your username or password is incorrect"
    );
    assert_eq!(body("Some description", None, None, None).describe(), "Some description");
}

#[test]
fn classification_of_statuses() {
    assert_eq!(classify_status(400), StatusClass::ClientError);
    assert_eq!(classify_status(401), StatusClass::ClientError);
    assert_eq!(classify_status(499), StatusClass::ClientError);
    assert_eq!(classify_status(500), StatusClass::ServerError);
    assert_eq!(classify_status(503), StatusClass::ServerError);
    assert_eq!(classify_status(200), StatusClass::Success);
    assert_eq!(classify_status(204), StatusClass::Success);
}

#[test]
fn classification_of_error_bodies() {
    // A 400 body with a known code.
    assert_eq!(classify_status(400), StatusClass::ClientError);
    let e = Error::new_zulip(body("Bad request", Some("BAD_REQUEST"), None, None));
    assert!(e.is_zulip());
    match e.kind() {
        ErrorKind::Zulip(z) => assert_eq!(z.code(), Some(&ZulipErrorCode::BadRequest)),
        _ => unreachable!(),
    }
    // A 400 body without a code.
    let e = Error::new_zulip(body("x", None, None, None));
    match e.kind() {
        ErrorKind::Zulip(z) => {
            assert_eq!(z.code(), None);
            assert_eq!(z.message(), "x");
        }
        _ => unreachable!(),
    }
    // A 401 body that reports failed authentication.
    assert_eq!(classify_status(401), StatusClass::ClientError);
    let e = Error::new_zulip(auth_failed());
    match e.kind() {
        ErrorKind::Zulip(z) => assert!(z.is_auth_failed()),
        _ => unreachable!(),
    }
    assert_eq!(e.describe(), "zulip error: Your username or password is incorrect");
}

#[test]
fn builder_failure_is_build() {
    let failure = reqwest::Client::new().get("no address").build().unwrap_err();
    let e = Error::from_http(failure);
    assert!(e.is_build());
    assert!(e.source().is_some());
    assert!(!e.is_http());
    assert!(!e.is_zulip());
    assert!(e.describe().starts_with("builder error: "));
}

#[test]
fn transport_failure_is_http() {
    let failure = reqwest::Client::new().get("no address").build().unwrap_err();
    let e = Error::from_transport(failure, true);
    assert!(e.is_http());
    assert!(e.source().is_none());
    assert!(e.describe().starts_with("http client error: "));
}

fn client_failure() -> reqwest::Error {
    reqwest::Client::new().get("no address").build().unwrap_err()
}

#[test]
fn server_error_is_transport_whatever_the_body() {
    let e = rulip::settle::<u8>(rulip::Reply::ServerError(client_failure())).unwrap_err();
    assert!(e.is_http());
    assert!(!e.is_zulip());
    assert!(!e.is_build());
}

#[test]
fn unreadable_client_error_body_is_transport() {
    let e = rulip::settle::<u8>(rulip::Reply::ClientError(Err(client_failure()))).unwrap_err();
    assert!(e.is_http());
    assert!(!e.is_zulip());
}

#[test]
fn client_error_body_is_reported() {
    let e = rulip::settle::<u8>(rulip::Reply::ClientError(Ok(bad_request()))).unwrap_err();
    match e.kind() {
        ErrorKind::Zulip(z) => assert!(z.is_bad_request()),
        _ => unreachable!(),
    }
}

#[test]
fn success_gives_answer_or_transport_error() {
    assert_eq!(rulip::settle::<u8>(rulip::Reply::Success(Ok(7))).unwrap(), 7);
    let e = rulip::settle::<u8>(rulip::Reply::Success(Err(client_failure()))).unwrap_err();
    assert!(e.is_http());
}
