use actix_web::http::header::{HeaderMap, HeaderName, HeaderValue};
use actix_web::test::TestRequest;
use actix_web::HttpRequest;
use base64::Engine;
use x_userinfo::error::BAD_REQUEST;
use x_userinfo::extract::{
    bind_document, decode_base64, decode_json, extract_from_headers, header_payload, header_text,
    try_from_request,
};
use x_userinfo::{ErrorKind, XUserInfo, XUserInfoError, X_USER_INFO_HEADER};

fn encode(text: &str) -> String {
    base64::engine::general_purpose::STANDARD.encode(text.as_bytes())
}

fn claim_json() -> String {
    let mut m = serde_json::Map::new();
    m.insert("sub".to_string(), serde_json::Value::from("test sub"));
    m.insert("name".to_string(), serde_json::Value::from("test name"));
    m.insert("iat".to_string(), serde_json::Value::from(1516239022u64));
    serde_json::Value::Object(m).to_string()
}

fn request_with(value: &str) -> HttpRequest {
    TestRequest::default()
        .append_header((X_USER_INFO_HEADER, value))
        .to_http_request()
}

fn headers_with(value: HeaderValue) -> HeaderMap {
    let mut headers = HeaderMap::new();
    headers.insert(HeaderName::from_static("x-userinfo"), value);
    headers
}

fn kind_of<T>(r: &Result<T, XUserInfoError>) -> Option<ErrorKind> {
    match r {
        Ok(_) => None,
        Err(e) => Some(e.kind()),
    }
}

#[test]
fn test_x_user_info() {
    let req = request_with(&encode(&claim_json()));
    let x_user_info: XUserInfo<serde_json::Value> = try_from_request(&req).unwrap();

    assert_eq!(x_user_info.0["sub"], "test sub");
    assert_eq!(x_user_info.0["name"], "test name");
    assert_eq!(x_user_info.0["iat"], 1516239022u64);
}

#[test]
fn reads_through_the_wrapper() {
    let req = request_with(&encode(&claim_json()));
    let x_user_info = try_from_request(&req).unwrap();
    assert_eq!(x_user_info.get("sub").and_then(|v| v.as_str()), Some("test sub"));
    assert_eq!(x_user_info.inner()["iat"].as_u64(), Some(1516239022));
    let inner = x_user_info.into_inner();
    assert_eq!(inner["name"], "test name");
}

#[test]
fn typed_binding_of_the_document() {
    let req = request_with(&encode(&claim_json()));
    let doc = try_from_request(&req).unwrap().into_inner();
    let typed = bind_document(serde_json::from_value::<std::collections::BTreeMap<String, serde_json::Value>>(doc))
        .unwrap();
    assert_eq!(typed.0.len(), 3);
    assert_eq!(typed.0["sub"], "test sub");
}

#[test]
fn schema_mismatch_is_json_error() {
    let req = request_with(&encode(&claim_json()));
    let doc = try_from_request(&req).unwrap().into_inner();
    let typed = bind_document(serde_json::from_value::<std::collections::BTreeMap<String, String>>(doc));
    assert_eq!(kind_of(&typed), Some(ErrorKind::JsonDecode));
    let message = typed.unwrap_err().message();
    assert!(message.starts_with("invalid x-userinfo, json decode error: "));
}

#[test]
fn missing_field_is_json_error() {
    let mut m = serde_json::Map::new();
    m.insert("sub".to_string(), serde_json::Value::from("test sub"));
    let doc = serde_json::Value::Object(m);
    let typed = bind_document(serde_json::from_value::<(String, String, u64)>(doc));
    assert_eq!(kind_of(&typed), Some(ErrorKind::JsonDecode));
}

#[test]
fn missing_header() {
    let req = TestRequest::default().to_http_request();
    let r = try_from_request(&req);
    assert_eq!(kind_of(&r), Some(ErrorKind::MissingHeader));
    let e = r.unwrap_err();
    assert_eq!(e.message(), "x-userinfo header is missing");
    assert_eq!(e.status_code(), 400);
    assert_eq!(BAD_REQUEST, 400);
}

#[test]
fn header_name_is_case_insensitive() {
    let req = TestRequest::default()
        .append_header(("X-UserInfo", encode(&claim_json())))
        .to_http_request();
    let x_user_info = try_from_request(&req).unwrap();
    assert_eq!(x_user_info.0["iat"], 1516239022u64);
}

#[test]
fn header_that_is_not_text() {
    let headers = headers_with(HeaderValue::from_bytes(b"e30=\xff").unwrap());
    let r = extract_from_headers(&headers);
    assert_eq!(kind_of(&r), Some(ErrorKind::HeaderText));
    let e = r.unwrap_err();
    assert!(matches!(e, XUserInfoError::ToStringError(_)));
    assert_eq!(e.message(), "invalid x-userinfo header: failed to convert header to a str");
    assert_eq!(e.status_code(), 400);
}

#[test]
fn invalid_base64() {
    let req = request_with("not base64!");
    let r = try_from_request(&req);
    assert_eq!(kind_of(&r), Some(ErrorKind::Base64Decode));
    let e = r.unwrap_err();
    assert!(e.message().starts_with("invalid x-userinfo, base64 decode error: "));
    assert_eq!(e.status_code(), 400);
}

#[test]
fn url_safe_base64_is_refused() {
    // "?>?" encodes to "Pz4/" in the standard alphabet and "Pz4_" in the URL-safe one.
    assert_eq!(decode_base64("Pz4/").unwrap(), b"?>?".to_vec());
    assert_eq!(kind_of(&decode_base64("Pz4_")), Some(ErrorKind::Base64Decode));
}

#[test]
fn unpadded_base64_is_refused() {
    assert_eq!(decode_base64("dGVzdA==").unwrap(), b"test".to_vec());
    assert_eq!(kind_of(&decode_base64("dGVzdA")), Some(ErrorKind::Base64Decode));
}

#[test]
fn empty_base64_is_no_bytes() {
    assert_eq!(decode_base64("").unwrap(), Vec::<u8>::new());
}

#[test]
fn base64_of_text_that_is_not_json() {
    let req = request_with(&encode("not json"));
    let r = try_from_request(&req);
    assert_eq!(kind_of(&r), Some(ErrorKind::JsonDecode));
    let e = r.unwrap_err();
    assert!(e.message().starts_with("invalid x-userinfo, json decode error: "));
    assert_eq!(e.status_code(), 400);
}

#[test]
fn base64_of_truncated_json() {
    let req = request_with(&encode("{\"sub\":\"test sub\""));
    assert_eq!(kind_of(&try_from_request(&req)), Some(ErrorKind::JsonDecode));
}

#[test]
fn empty_header_value_is_json_error() {
    let req = request_with("");
    assert_eq!(kind_of(&try_from_request(&req)), Some(ErrorKind::JsonDecode));
}

#[test]
fn decode_json_documents() {
    assert!(decode_json(b"{}").unwrap().is_object());
    assert_eq!(decode_json(b"[1,2]").unwrap()[1], 2);
    assert_eq!(kind_of(&decode_json(b"")), Some(ErrorKind::JsonDecode));
    assert_eq!(kind_of(&decode_json(b"{")), Some(ErrorKind::JsonDecode));
}

#[test]
fn header_text_and_payload() {
    let headers = headers_with(HeaderValue::from_static("dGVzdA=="));
    assert_eq!(header_text(&headers).unwrap(), "dGVzdA==");
    assert_eq!(header_payload(&headers).unwrap(), b"test".to_vec());
    let empty = HeaderMap::new();
    assert_eq!(kind_of(&header_text(&empty)), Some(ErrorKind::MissingHeader));
    assert_eq!(kind_of(&header_payload(&empty)), Some(ErrorKind::MissingHeader));
}

#[test]
fn extraction_is_repeatable() {
    let req = request_with(&encode(&claim_json()));
    let first = try_from_request(&req).unwrap();
    let second = try_from_request(&req).unwrap();
    assert_eq!(first.0, second.0);

    let bad = request_with("%%%%");
    let e1 = try_from_request(&bad).unwrap_err();
    let e2 = try_from_request(&bad).unwrap_err();
    assert_eq!(e1.kind(), e2.kind());
    assert_eq!(e1.message(), e2.message());
}

#[test]
fn round_trip_of_a_document() {
    let mut m = serde_json::Map::new();
    m.insert("sub".to_string(), serde_json::Value::from("a"));
    m.insert("roles".to_string(), serde_json::Value::from(vec!["x", "y"]));
    let v = serde_json::Value::Object(m);
    let req = request_with(&encode(&v.to_string()));
    assert_eq!(try_from_request(&req).unwrap().into_inner(), v);
}

#[test]
fn base64_error_message_shows_the_underlying_error() {
    let req = request_with("!!!!");
    match try_from_request(&req).unwrap_err() {
        XUserInfoError::Base64DecodeError(d) => {
            let e = XUserInfoError::Base64DecodeError(d.clone());
            assert_eq!(e.message(), format!("invalid x-userinfo, base64 decode error: {}", d));
            assert_eq!(e.status_code(), 400);
        }
        other => panic!("unexpected {:?}", other),
    }
}

#[test]
fn json_error_message_shows_the_underlying_error() {
    let req = request_with("bm90IGpzb24=");
    let e = try_from_request(&req).unwrap_err();
    let shown = match &e {
        XUserInfoError::JsonDecodeError(d) => d.to_string(),
        other => panic!("unexpected {:?}", other),
    };
    assert_eq!(e.message(), format!("invalid x-userinfo, json decode error: {}", shown));
    assert_eq!(e.status_code(), 400);
}

#[test]
fn bind_document_keeps_the_serde_error() {
    let r = bind_document(serde_json::from_slice::<u64>(b"\"x\""));
    let e = r.unwrap_err();
    assert_eq!(e.kind(), ErrorKind::JsonDecode);
    assert!(e.message().starts_with("invalid x-userinfo, json decode error: invalid type"));
    let ok = bind_document(serde_json::from_slice::<u64>(b"7")).unwrap();
    assert_eq!(*ok, 7);
}

#[test]
fn errors_convert_from_the_underlying_errors() {
    let to_str = HeaderValue::from_bytes(b"\xff").unwrap().to_str().unwrap_err();
    assert_eq!(XUserInfoError::from(to_str).kind(), ErrorKind::HeaderText);
    let b64 = base64::engine::general_purpose::STANDARD.decode("!!!!").unwrap_err();
    let e = XUserInfoError::from(b64.clone());
    assert_eq!(e.kind(), ErrorKind::Base64Decode);
    assert_eq!(e.message(), format!("invalid x-userinfo, base64 decode error: {}", b64));
    let json = serde_json::from_slice::<serde_json::Value>(b"{").unwrap_err();
    let shown = json.to_string();
    let e = XUserInfoError::from(json);
    assert_eq!(e.kind(), ErrorKind::JsonDecode);
    assert_eq!(e.message(), format!("invalid x-userinfo, json decode error: {}", shown));
}
