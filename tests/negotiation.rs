use axum::http::header::{ACCEPT, CONTENT_TYPE};
use axum::http::{HeaderMap, HeaderValue};
use json_or_protobuf::{
    encoding_for_content_type, headers_encoding, request_encoding, str_equal, BadRequest,
    ContentTypeError, Encoding, HeaderField, JsonOrProtobuf, CONTENT_TYPE_JSON,
    CONTENT_TYPE_PROTOBUF,
};

fn is_protobuf<T>(p: &JsonOrProtobuf<T>) -> bool {
    matches!(p, JsonOrProtobuf::Protobuf(_))
}

fn is_json<T>(p: &JsonOrProtobuf<T>) -> bool {
    matches!(p, JsonOrProtobuf::Json(_))
}

#[test]
fn content_type_constants() {
    assert_eq!(CONTENT_TYPE_PROTOBUF, "application/octet-stream");
    assert_eq!(CONTENT_TYPE_JSON, "application/json");
    assert_eq!(Encoding::Protobuf.content_type(), "application/octet-stream");
    assert_eq!(Encoding::Json.content_type(), "application/json");
}

#[test]
fn new_then_decompose_protobuf() {
    let p = JsonOrProtobuf::new(41u32, "application/octet-stream").ok().unwrap();
    assert!(is_protobuf(&p));
    assert_eq!(p.decompose(), (41u32, "application/octet-stream".to_string()));
}

#[test]
fn new_then_decompose_json() {
    let p = JsonOrProtobuf::new(vec![1u8, 2, 3], "application/json").ok().unwrap();
    assert!(is_json(&p));
    assert_eq!(p.decompose(), (vec![1u8, 2, 3], "application/json".to_string()));
}

#[test]
fn new_rejects_text_plain() {
    let r: Result<JsonOrProtobuf<u8>, ContentTypeError> = JsonOrProtobuf::new(7, "text/plain");
    let e = match r {
        Err(e) => e,
        Ok(_) => panic!("text/plain was accepted"),
    };
    assert_eq!(e.content_type(), "text/plain");
    assert_eq!(e.message(), "Invalid Content-Type text/plain");
}

#[test]
fn new_is_exact_match() {
    for ct in [
        "Application/JSON",
        "application/json; charset=utf-8",
        " application/json",
        "application/octet-stream ",
        "",
    ] {
        let r = JsonOrProtobuf::new(0u8, ct);
        match r {
            Err(e) => assert_eq!(e.content_type(), ct),
            Ok(_) => panic!("{ct} was accepted"),
        }
    }
}

#[test]
fn try_from_and_into_pair() {
    let p = JsonOrProtobuf::try_from((5i64, "application/octet-stream".to_string())).ok().unwrap();
    let pair: (i64, String) = p.into();
    assert_eq!(pair, (5i64, "application/octet-stream".to_string()));
    let r = JsonOrProtobuf::try_from((5i64, "text/xml".to_string()));
    match r {
        Err(e) => assert_eq!(e.content_type(), "text/xml"),
        Ok(_) => panic!("text/xml was accepted"),
    }
}

#[test]
fn preference_defaults_to_json() {
    assert!(is_json(&JsonOrProtobuf::from_accept(1u8, None)));
    assert!(is_json(&JsonOrProtobuf::from_accept(1u8, Some("application/json"))));
    assert!(is_protobuf(&JsonOrProtobuf::from_accept(1u8, Some("application/octet-stream"))));
    assert!(is_json(&JsonOrProtobuf::from_accept(1u8, Some("text/html"))));
    assert!(is_json(&JsonOrProtobuf::from_accept(1u8, Some("*/*"))));
    assert_eq!(JsonOrProtobuf::from_accept(9u8, Some("x")).decompose().0, 9u8);
}

#[test]
fn accept_header_selects_form() {
    let mut headers = HeaderMap::new();
    assert!(is_json(&JsonOrProtobuf::from_accept_header(1u8, &headers)));
    headers.insert(ACCEPT, HeaderValue::from_static("application/octet-stream"));
    let p = JsonOrProtobuf::from_accept_header(2u8, &headers);
    assert!(is_protobuf(&p));
    assert_eq!(p.decompose().0, 2u8);
    headers.insert(ACCEPT, HeaderValue::from_static("application/json"));
    assert!(is_json(&JsonOrProtobuf::from_accept_header(3u8, &headers)));
    headers.insert(ACCEPT, HeaderValue::from_bytes(b"\xffbinary").unwrap());
    assert!(is_json(&JsonOrProtobuf::from_accept_header(4u8, &headers)));
}

#[test]
fn content_type_dispatch() {
    assert_eq!(encoding_for_content_type("application/octet-stream"), Some(Encoding::Protobuf));
    assert_eq!(encoding_for_content_type("application/json"), Some(Encoding::Json));
    assert_eq!(encoding_for_content_type("text/xml"), None);
    assert_eq!(request_encoding(None), Err(BadRequest));
    assert_eq!(request_encoding(Some("text/xml")), Err(BadRequest));
    assert_eq!(request_encoding(Some("application/json")), Ok(Encoding::Json));
    assert_eq!(request_encoding(Some("application/octet-stream")), Ok(Encoding::Protobuf));
}

#[test]
fn headers_dispatch() {
    let mut headers = HeaderMap::new();
    assert_eq!(headers_encoding(&headers), Err(BadRequest));
    headers.insert(CONTENT_TYPE, HeaderValue::from_static("text/xml"));
    assert_eq!(headers_encoding(&headers), Err(BadRequest));
    headers.insert(CONTENT_TYPE, HeaderValue::from_static("application/octet-stream"));
    assert_eq!(headers_encoding(&headers), Ok(Encoding::Protobuf));
    headers.insert(CONTENT_TYPE, HeaderValue::from_static("application/json"));
    assert_eq!(headers_encoding(&headers), Ok(Encoding::Json));
    headers.insert(ACCEPT, HeaderValue::from_static("application/octet-stream"));
    assert_eq!(headers_encoding(&headers), Ok(Encoding::Json));
}

#[test]
fn header_text_lookup() {
    let mut headers = HeaderMap::new();
    assert_eq!(json_or_protobuf::header_str(&headers, HeaderField::Accept), None);
    headers.insert(ACCEPT, HeaderValue::from_static("application/json"));
    assert_eq!(
        json_or_protobuf::header_str(&headers, HeaderField::Accept),
        Some("application/json")
    );
    assert_eq!(json_or_protobuf::header_str(&headers, HeaderField::ContentType), None);
}

#[test]
fn decoded_body_is_wrapped() {
    let ok: Result<u32, String> = Ok(12);
    let p = JsonOrProtobuf::from_decoded(Encoding::Protobuf, ok).ok().unwrap();
    assert_eq!(p.decompose(), (12u32, "application/octet-stream".to_string()));
    let ok: Result<u32, ()> = Ok(13);
    let p = JsonOrProtobuf::from_decoded(Encoding::Json, ok).ok().unwrap();
    assert_eq!(p.decompose(), (13u32, "application/json".to_string()));
}

#[test]
fn codec_failure_is_bad_request() {
    let bad: Result<u32, String> = Err("truncated".to_string());
    assert!(matches!(JsonOrProtobuf::from_decoded(Encoding::Protobuf, bad), Err(BadRequest)));
    let bad: Result<u32, String> = Err("expected value".to_string());
    assert!(matches!(JsonOrProtobuf::from_decoded(Encoding::Json, bad), Err(BadRequest)));
}

#[test]
fn encoding_of_payload() {
    assert_eq!(JsonOrProtobuf::Protobuf(1u8).encoding(), Encoding::Protobuf);
    assert_eq!(JsonOrProtobuf::Json(1u8).encoding(), Encoding::Json);
    assert_eq!(JsonOrProtobuf::with_encoding(Encoding::Json, 2u8).decompose().1, "application/json");
}

#[test]
fn string_equality() {
    assert!(str_equal("", ""));
    assert!(str_equal("abc", "abc"));
    assert!(!str_equal("abc", "abd"));
    assert!(!str_equal("abc", "ab"));
    assert!(str_equal("é", "é"));
}

#[test]
fn first_accept_value_decides() {
    let mut headers = HeaderMap::new();
    headers.append(ACCEPT, HeaderValue::from_static("application/octet-stream"));
    headers.append(ACCEPT, HeaderValue::from_static("application/json"));
    assert_eq!(
        json_or_protobuf::header_str(&headers, HeaderField::Accept),
        Some("application/octet-stream")
    );
    assert!(is_protobuf(&JsonOrProtobuf::from_accept_header(1u8, &headers)));
}
