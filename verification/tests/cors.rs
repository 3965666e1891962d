use tide_cors::Cors;
use tide_cors::Decision;
use tide_cors::Error;
use tide_cors::HeaderValue;
use tide_cors::Headers;
use tide_cors::Response;
use tide_cors::append_allow_origin;

/// Drives one request through the middleware the way a host pipeline would:
/// on `Forward`, the downstream handler answers 404 (nothing is routed) and
/// the echo value is appended; on `Reject`, the rejection response is final.
/// The second component reports whether the downstream handler ran.
fn request(cors: &Cors, headers: Headers) -> (Response, bool) {
    match cors.handle(&headers) {
        Decision::Forward(echo) => {
            let mut res = Response::new(404);
            append_allow_origin(&mut res, echo);
            (res, true)
        }
        Decision::Reject(res) => (res, false),
    }
}

fn req_origin(origin: &str) -> Headers {
    let mut headers = Headers::new();
    headers.append("origin", HeaderValue::from_text(origin));
    headers
}

#[test]
fn validates_origin() {
    let origin = "foo";
    let app = Cors::default().allow_origin(origin);

    let missing = Headers::new();
    assert_eq!(403, request(&app, missing).0.status);

    let not_allowed = req_origin("bar");
    assert_eq!(403, request(&app, not_allowed).0.status);

    let allowed = req_origin(origin);
    assert_eq!(404, request(&app, allowed).0.status);
}

#[test]
fn wildcard_validates_every_request() {
    let cors = Cors::default();

    let no_headers = Headers::new();
    let echo = cors.validate_origin(&no_headers).unwrap();
    assert_eq!(echo.as_bytes(), b"*");

    let with_origin = req_origin("anywhere");
    let echo = cors.validate_origin(&with_origin).unwrap();
    assert_eq!(echo.as_bytes(), b"*");
}

#[test]
fn registered_origin_is_echoed_exactly() {
    let cors = Cors::default().allow_origin("foo ");
    let echo = cors.validate_origin(&req_origin("foo ")).unwrap();
    assert_eq!(echo.as_bytes(), b"foo ");
}

#[test]
fn missing_origin_is_rejected() {
    let cors = Cors::default().allow_origin("foo");
    let err = cors.validate_origin(&Headers::new()).unwrap_err();
    assert_eq!(err, Error::MissingOrigin);
}

#[test]
fn unreadable_origin_is_rejected_as_missing() {
    let cors = Cors::default().allow_origin("foo");
    let mut headers = Headers::new();
    headers.append("origin", HeaderValue::from_bytes(vec![0xFFu8, 0x00u8]));
    let err = cors.validate_origin(&headers).unwrap_err();
    assert_eq!(err, Error::MissingOrigin);
}

#[test]
fn unregistered_origin_is_rejected() {
    let cors = Cors::default().allow_origin("foo");
    let err = cors.validate_origin(&req_origin("bar")).unwrap_err();
    assert_eq!(err, Error::OriginNotAllowed);
}

#[test]
fn matching_is_case_sensitive() {
    let cors = Cors::default().allow_origin("foo");
    let err = cors.validate_origin(&req_origin("FOO")).unwrap_err();
    assert_eq!(err, Error::OriginNotAllowed);
}

#[test]
fn registering_twice_changes_nothing() {
    let once = Cors::default().allow_origin("foo");
    let twice = Cors::default().allow_origin("foo").allow_origin("foo");

    for headers in [Headers::new(), req_origin("foo"), req_origin("bar")] {
        let a = once.validate_origin(&headers);
        let b = twice.validate_origin(&headers);
        match (a, b) {
            (Ok(x), Ok(y)) => assert_eq!(x.as_bytes(), y.as_bytes()),
            (Err(x), Err(y)) => assert_eq!(x, y),
            _ => panic!("the two policies disagree"),
        }
    }
}

#[test]
fn wildcard_end_to_end() {
    let cors = Cors::default();
    let (res, ran) = request(&cors, Headers::new());
    assert!(ran);
    assert_eq!(res.status, 404);
    let echoed = res.header("access-control-allow-origin").unwrap();
    assert_eq!(echoed.as_bytes(), b"*");
}

#[test]
fn missing_origin_end_to_end() {
    let cors = Cors::default().allow_origin("foo");
    let (res, ran) = request(&cors, Headers::new());
    assert!(!ran);
    assert_eq!(res.status, 403);
    assert!(res.header("access-control-allow-origin").is_none());
    assert!(res.body.is_empty());
}

#[test]
fn unregistered_origin_end_to_end() {
    let cors = Cors::default().allow_origin("foo");
    let (res, ran) = request(&cors, req_origin("bar"));
    assert!(!ran);
    assert_eq!(res.status, 403);
    assert!(res.header("access-control-allow-origin").is_none());
}

#[test]
fn registered_origin_end_to_end() {
    let cors = Cors::default().allow_origin("foo");
    let (res, ran) = request(&cors, req_origin("foo"));
    assert!(ran);
    assert_eq!(res.status, 404);
    let echoed = res.header("access-control-allow-origin").unwrap();
    assert_eq!(echoed.as_bytes(), b"foo");
}

#[test]
fn append_keeps_earlier_header_occurrences() {
    let mut res = Response::new(200);
    res.headers
        .append("access-control-allow-origin", HeaderValue::from_text("first"));
    append_allow_origin(&mut res, HeaderValue::from_text("second"));
    assert_eq!(res.headers.len(), 2);
    let first = res.header("access-control-allow-origin").unwrap();
    assert_eq!(first.as_bytes(), b"first");
    assert_eq!(res.status, 200);
}

#[test]
fn error_messages() {
    assert_eq!(
        Error::MissingOrigin.message(),
        "The HTTP request header `Origin` is required but was not provided"
    );
    assert_eq!(
        Error::OriginNotAllowed.message(),
        "`Origin` is not allowed to make this request"
    );
}

#[test]
fn header_lookup_finds_first_occurrence() {
    let mut headers = Headers::new();
    headers.append("origin", HeaderValue::from_text("foo"));
    headers.append("origin", HeaderValue::from_text("bar"));
    let value = headers.get("origin").unwrap();
    assert_eq!(value.as_bytes(), b"foo");
    assert!(headers.get("host").is_none());
}
