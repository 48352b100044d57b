use strois::error::{Error, InternalError, S3Error, S3ErrorCode};
use strois::request::{classify, Response};
use strois::text::{same_text, same_text_ignoring_case, sanitize_path, trim_char};

fn body(inner: &str) -> Vec<u8> {
    format!("<?xml version=\"1.0\" encoding=\"UTF-8\"?><Error>{inner}</Error>").into_bytes()
}

#[test]
fn sanitize_path_trims_leading_slashes() {
    let mut p = String::from("///a/b/");
    sanitize_path(&mut p);
    assert_eq!(p, "a/b/");
    let mut p = String::from("a//b");
    sanitize_path(&mut p);
    assert_eq!(p, "a//b");
    let mut p = String::from("//");
    sanitize_path(&mut p);
    assert_eq!(p, "");
}

#[test]
fn trim_char_both_ends() {
    assert_eq!(trim_char("\"abc\"", '"'), "abc");
    assert_eq!(trim_char("\"\"a\"b\"\"", '"'), "a\"b");
    assert_eq!(trim_char("\"\"\"", '"'), "");
    assert_eq!(trim_char("plain", '"'), "plain");
    assert_eq!(trim_char("", '"'), "");
}

#[test]
fn text_comparisons() {
    assert!(same_text("ETag", "ETag"));
    assert!(!same_text("ETag", "etag"));
    assert!(same_text_ignoring_case("ETag", "etag"));
    assert!(same_text_ignoring_case("Content-Length", "content-LENGTH"));
    assert!(!same_text_ignoring_case("etag", "etags"));
    assert!(!same_text_ignoring_case("é", "É"));
}

#[test]
fn codes_read_from_text() {
    assert_eq!(S3ErrorCode::from_code("NoSuchKey"), S3ErrorCode::NoSuchKey);
    assert!(matches!(S3ErrorCode::from_code("NoSuchKey"), S3ErrorCode::NoSuchKey));
    assert!(matches!(S3ErrorCode::from_code("InvalidSOAPRequest"), S3ErrorCode::InvalidSOAPRequest));
    assert!(matches!(S3ErrorCode::from_code("UserKeyMustBeSpecified"), S3ErrorCode::UserKeyMustBeSpecified));
    match S3ErrorCode::from_code("BrandNewCode") {
        S3ErrorCode::Unrecognized(t) => assert_eq!(t, "BrandNewCode"),
        other => panic!("{other:?}"),
    }
    assert!(matches!(S3ErrorCode::from_code("nosuchkey"), S3ErrorCode::Unrecognized(_)));
    assert_eq!(S3ErrorCode::SlowDown.as_str(), "SlowDown");
    assert_eq!(S3ErrorCode::Unrecognized("X".into()).as_str(), "X");
    assert_ne!(S3ErrorCode::SlowDown, S3ErrorCode::NoSuchKey);
}

#[test]
fn refusal_with_documented_code() {
    let e = Error::from_status(
        404,
        &body("<Code>NoSuchBucket</Code><Message>The specified bucket does not exist</Message><BucketName>b</BucketName><Resource>/b</Resource><RequestId>r1</RequestId><HostId>h1</HostId>"),
    );
    match e {
        Error::S3Error(e) => {
            assert_eq!(e.status_code, 404);
            assert_eq!(e.code, S3ErrorCode::NoSuchBucket);
            assert_eq!(e.message, "The specified bucket does not exist");
            assert_eq!(e.bucket_name.as_deref(), Some("b"));
            assert_eq!(e.resource, "/b");
            assert_eq!(e.request_id, "r1");
            assert_eq!(e.host_id, "h1");
            assert_eq!(e.to_string(), "NoSuchBucket: The specified bucket does not exist on Some(\"b\")");
        }
        other => panic!("{other:?}"),
    }
}

#[test]
fn refusal_with_undocumented_code_keeps_text() {
    let e = Error::from_status(503, &body("<Code>XMinioServerNotInitialized</Code><Message>wait</Message><Resource>/</Resource><RequestId>1</RequestId><HostId>2</HostId>"));
    match e {
        Error::S3Error(e) => {
            assert!(matches!(&e.code, S3ErrorCode::Unrecognized(t) if t == "XMinioServerNotInitialized"));
            assert_eq!(e.bucket_name, None);
            assert_eq!(e.to_string(), "XMinioServerNotInitialized: wait on None");
        }
        other => panic!("{other:?}"),
    }
}

#[test]
fn refusal_without_code() {
    let e = Error::from_status(500, &body("<Message>odd</Message>"));
    match e {
        Error::S3Error(e) => {
            assert!(matches!(&e.code, S3ErrorCode::Unrecognized(t) if t.is_empty()));
            assert_eq!(e.message, "odd");
            assert_eq!(e.resource, "");
        }
        other => panic!("{other:?}"),
    }
}

#[test]
fn refusal_with_unreadable_body() {
    let e = Error::from_status(502, b"<html><body>Bad gateway");
    assert!(matches!(e, Error::InternalError(InternalError::BadS3Payload(_))));
    let e = Error::from_status(500, b"");
    assert!(matches!(e, Error::InternalError(InternalError::BadS3Payload(_))));
}

#[test]
fn classify_passes_success_and_transport_failure() {
    let ok = Response { status: 204, headers: vec![], body: b"<Error><Code>X</Code></Error>".to_vec() };
    assert_eq!(classify(Ok(ok)).unwrap().status, 204);
    let err = classify(Err(Error::HttpError("timed out".into()))).unwrap_err();
    assert!(matches!(err, Error::HttpError(m) if m == "timed out"));
    let redirect = Response { status: 301, headers: vec![], body: body("<Code>PermanentRedirect</Code>") };
    match classify(Ok(redirect)).unwrap_err() {
        Error::S3Error(e) => assert_eq!(e.code, S3ErrorCode::PermanentRedirect),
        other => panic!("{other:?}"),
    }
}

#[test]
fn header_lookup_ignores_case() {
    let r = Response {
        status: 200,
        headers: vec![("X".into(), "1".into()), ("ETag".into(), "\"a\"".into()), ("etag".into(), "\"b\"".into())],
        body: vec![],
    };
    assert_eq!(r.header("etag").map(|s| s.as_str()), Some("\"a\""));
    assert_eq!(r.header("x").map(|s| s.as_str()), Some("1"));
    assert!(r.header("y").is_none());
}

#[test]
fn s3_error_from_fields() {
    let fields = vec![
        ("Code".to_string(), "SlowDown".to_string()),
        ("Code".to_string(), "Ignored".to_string()),
        ("HostId".to_string(), "h".to_string()),
    ];
    let e = S3Error::from_fields(503, &fields);
    assert_eq!(e.code, S3ErrorCode::SlowDown);
    assert_eq!(e.host_id, "h");
    assert_eq!(e.message, "");
    assert_eq!(e.status_code, 503);
}
