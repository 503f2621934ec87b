//! What this library takes from actix-web, base64 and serde_json, with the
//! contracts that it relies on.

use actix_web::http::header::{HeaderMap, HeaderValue, ToStrError};
use actix_web::HttpRequest;
use base64::Engine;
use vstd::prelude::*;

verus! {

#[verifier::external_type_specification]
#[verifier::external_body]
pub struct ExHttpRequest(HttpRequest);

#[verifier::external_type_specification]
#[verifier::external_body]
pub struct ExHeaderMap(HeaderMap);

#[verifier::external_type_specification]
#[verifier::external_body]
pub struct ExHeaderValue(HeaderValue);

#[verifier::external_type_specification]
#[verifier::external_body]
pub struct ExToStrError(ToStrError);

#[verifier::external_type_specification]
#[verifier::external_body]
pub struct ExDecodeError(base64::DecodeError);

#[verifier::external_type_specification]
#[verifier::external_body]
pub struct ExJsonError(serde_json::Error);

#[verifier::external_type_specification]
#[verifier::external_body]
pub struct ExJsonValue(serde_json::Value);

/// The headers of a request, as `header_entries` reads its header map.
pub uninterp spec fn request_header_entries(req: HttpRequest) -> Map<Seq<char>, Seq<u8>>;

/// The headers of a map: each (lower-case) name that is present, with the
/// bytes of the value that `HeaderMap::get` hands out for it.
pub uninterp spec fn header_entries(m: HeaderMap) -> Map<Seq<char>, Seq<u8>>;

/// The bytes that a header value holds.
pub uninterp spec fn header_value_bytes(v: HeaderValue) -> Seq<u8>;

/// What base64's standard, padded engine makes of text: the bytes it stands
/// for, or the error that says why it is not such base64.
pub uninterp spec fn base64_standard_decode(s: Seq<char>) -> Result<Seq<u8>, base64::DecodeError>;

/// What serde_json reads from bytes as a JSON value: the value, or the error
/// (malformed or truncated text, trailing characters, nesting deeper than
/// serde_json allows).
pub uninterp spec fn json_parse(b: Seq<u8>) -> Result<serde_json::Value, serde_json::Error>;

/// The text that a base64 decode error displays.
pub uninterp spec fn decode_error_display(e: base64::DecodeError) -> Seq<char>;

/// The text that a serde_json error displays; it is fixed by the error only
/// where the error is not of the io kind.
pub uninterp spec fn json_error_display(e: serde_json::Error) -> Seq<char>;

/// Whether a serde_json error is of the io kind, one that passes on an
/// `std::io::Error` from a reader, whose text is that error's own.
pub uninterp spec fn json_error_is_io(e: serde_json::Error) -> bool;

/// Bytes that serde_json reads as a JSON value.
pub open spec fn json_document(b: Seq<u8>) -> bool {
    json_parse(b) is Ok
}

/// A byte that a header value may hold and still read as text: visible
/// ASCII, or a tab.
pub open spec fn is_visible_ascii(b: u8) -> bool {
    (32 <= b && b < 127) || b == 9
}

pub open spec fn all_visible_ascii(bs: Seq<u8>) -> bool {
    forall|i: int| 0 <= i < bs.len() ==> is_visible_ascii(#[trigger] bs[i])
}

/// ASCII bytes read as characters.
pub open spec fn ascii_text(bs: Seq<u8>) -> Seq<char> {
    bs.map_values(|b: u8| b as char)
}

pub open spec fn no_ascii_uppercase(s: Seq<char>) -> bool {
    forall|i: int| 0 <= i < s.len() ==> !('A' <= #[trigger] s[i] && s[i] <= 'Z')
}

/// A character of the standard base64 alphabet, or the padding `=`.
pub open spec fn is_base64_symbol(c: char) -> bool {
    ('A' <= c && c <= 'Z') || ('a' <= c && c <= 'z') || ('0' <= c && c <= '9') || c == '+'
        || c == '/' || c == '='
}

/// Relies on `HttpRequest::headers`: the header map of the request.
#[verifier::external_body]
pub(crate) fn request_headers<'a>(req: &'a HttpRequest) -> (r: &'a HeaderMap)
    ensures
        header_entries(*r) == request_header_entries(*req),
{
    req.headers()
}

/// Relies on actix-http's `HeaderMap::get`: for a name without upper-case
/// letters, the value stored under that name, if there is one.
#[verifier::external_body]
pub(crate) fn header_get<'a>(m: &'a HeaderMap, name: &str) -> (r: Option<&'a HeaderValue>)
    requires
        no_ascii_uppercase(name@),
    ensures
        r is Some <==> header_entries(*m).contains_key(name@),
        match r {
            Some(v) => header_value_bytes(*v) == header_entries(*m)[name@],
            None => true,
        },
{
    m.get(name)
}

/// Relies on http's `HeaderValue::to_str`: it succeeds exactly when every
/// byte is visible ASCII or a tab, and then reads the bytes as characters.
#[verifier::external_body]
pub(crate) fn header_value_to_str<'a>(v: &'a HeaderValue) -> (r: Result<&'a str, ToStrError>)
    ensures
        r is Ok <==> all_visible_ascii(header_value_bytes(*v)),
        match r {
            Ok(s) => s@ == ascii_text(header_value_bytes(*v)),
            Err(_) => true,
        },
{
    v.to_str()
}

/// Relies on base64's `STANDARD` engine and its `decode`: the bytes that the
/// text stands for; a character outside the alphabet and `=` is an error,
/// and empty text is no bytes.
#[verifier::external_body]
pub(crate) fn base64_decode(s: &str) -> (r: Result<Vec<u8>, base64::DecodeError>)
    ensures
        match r {
            Ok(b) => base64_standard_decode(s@) == Ok::<Seq<u8>, base64::DecodeError>(b@),
            Err(e) => base64_standard_decode(s@) == Err::<Seq<u8>, base64::DecodeError>(e),
        },
        (exists|i: int| 0 <= i < s@.len() && !is_base64_symbol(#[trigger] s@[i])) ==> r is Err,
        s@.len() == 0 ==> r is Ok,
{
    base64::engine::general_purpose::STANDARD.decode(s)
}

/// Relies on `serde_json::from_slice` into a `serde_json::Value`: its result
/// depends on the bytes alone, empty input is an error, and reading a slice
/// never fails with an error of the io kind.
#[verifier::external_body]
pub(crate) fn json_from_slice(b: &[u8]) -> (r: Result<serde_json::Value, serde_json::Error>)
    ensures
        r == json_parse(b@),
        match r {
            Ok(_) => true,
            Err(e) => !json_error_is_io(e),
        },
        b@.len() == 0 ==> r is Err,
{
    serde_json::from_slice(b)
}

/// Relies on the `Display` of http's `ToStrError`: one fixed sentence.
#[verifier::external_body]
pub(crate) fn to_str_error_text(e: &ToStrError) -> (r: String)
    ensures
        r@ == "failed to convert header to a str"@,
{
    e.to_string()
}

/// Relies on the `Display` of `base64::DecodeError`: a sentence on what was wrong.
#[verifier::external_body]
pub(crate) fn decode_error_text(e: &base64::DecodeError) -> (r: String)
    ensures
        r@ == decode_error_display(*e),
{
    e.to_string()
}

/// Relies on the `Display` of `serde_json::Error`: a sentence on what was
/// wrong, fixed by the error where it is not of the io kind (an io error shows
/// the text of the `std::io::Error` inside it).
#[verifier::external_body]
pub(crate) fn json_error_text(e: &serde_json::Error) -> (r: String)
    ensures
        !json_error_is_io(*e) ==> r@ == json_error_display(*e),
{
    e.to_string()
}

} // verus!
