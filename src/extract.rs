//! The extraction pipeline: locate the header, read it as text, decode the
//! base64, parse the JSON. The first stage that fails decides the error.

use crate::error::{ErrorKind, XUserInfoError};
use crate::outside::{
    all_visible_ascii, ascii_text, base64_decode, base64_standard_decode, header_entries, header_get,
    header_value_to_str, is_base64_symbol, json_document, json_from_slice, json_error_is_io, json_parse,
    no_ascii_uppercase, request_header_entries, request_headers,
};
use crate::X_USER_INFO_HEADER;
use actix_web::http::header::HeaderMap;
use actix_web::HttpRequest;
use vstd::prelude::*;

verus! {

/// An extracted identity claim. It reads as the value it holds.
#[derive(Debug)]
pub struct XUserInfo<T>(pub T);

impl<T> XUserInfo<T> {
    /// The claim itself.
    pub fn inner(&self) -> (r: &T)
        ensures
            *r == self.0,
    {
        &self.0
    }

    /// The claim itself, taken out of its wrapper.
    pub fn into_inner(self) -> (r: T)
        ensures
            r == self.0,
    {
        self.0
    }
}

impl<T> core::ops::Deref for XUserInfo<T> {
    type Target = T;

    fn deref(&self) -> (r: &T)
        ensures
            *r == self.0,
    {
        &self.0
    }
}

/// The header's name, as characters.
pub open spec fn header_name() -> Seq<char> {
    X_USER_INFO_HEADER@
}

/// The header's value read as text, where it is present.
pub open spec fn header_text_of(entries: Map<Seq<char>, Seq<u8>>) -> Seq<char> {
    ascii_text(entries[header_name()])
}

/// What the first three stages make of a request whose headers are
/// `entries`: the decoded payload, or the stage that failed.
pub open spec fn payload_outcome(entries: Map<Seq<char>, Seq<u8>>) -> Result<Seq<u8>, ErrorKind> {
    if !entries.contains_key(header_name()) {
        Err(ErrorKind::MissingHeader)
    } else if !all_visible_ascii(entries[header_name()]) {
        Err(ErrorKind::HeaderText)
    } else {
        match base64_standard_decode(header_text_of(entries)) {
            Ok(p) => Ok(p),
            Err(_) => Err(ErrorKind::Base64Decode),
        }
    }
}

/// What extraction makes of a request whose headers are `entries`: the JSON
/// payload that the header carries, or the stage that failed.
pub open spec fn extraction_outcome(entries: Map<Seq<char>, Seq<u8>>) -> Result<Seq<u8>, ErrorKind> {
    match payload_outcome(entries) {
        Ok(p) => if json_document(p) {
            Ok(p)
        } else {
            Err(ErrorKind::JsonDecode)
        },
        Err(k) => Err(k),
    }
}

/// `r` is what the first three stages give on headers `entries`: the
/// decoded payload, or the error of the first stage that fails, carrying
/// what base64 reported.
pub open spec fn payload_matches(r: Result<Vec<u8>, XUserInfoError>, entries: Map<Seq<char>, Seq<u8>>) -> bool {
    match r {
        Ok(b) => payload_outcome(entries) == Ok::<Seq<u8>, ErrorKind>(b@),
        Err(XUserInfoError::MissingHeader) => !entries.contains_key(header_name()),
        Err(XUserInfoError::ToStringError(_)) => entries.contains_key(header_name())
            && !all_visible_ascii(entries[header_name()]),
        Err(XUserInfoError::Base64DecodeError(d)) => entries.contains_key(header_name())
            && all_visible_ascii(entries[header_name()])
            && base64_standard_decode(header_text_of(entries)) == Err::<Seq<u8>, base64::DecodeError>(d),
        Err(XUserInfoError::JsonDecodeError(_)) => false,
    }
}

/// `r` is what extraction gives on headers `entries`: the JSON value that
/// serde_json reads from the decoded payload, or the error of the first stage
/// that fails, carrying what base64 or serde_json reported.
pub open spec fn extraction_matches(
    r: Result<XUserInfo<serde_json::Value>, XUserInfoError>,
    entries: Map<Seq<char>, Seq<u8>>,
) -> bool {
    match r {
        Ok(x) => match payload_outcome(entries) {
            Ok(p) => json_parse(p) == Ok::<serde_json::Value, serde_json::Error>(x.0),
            Err(_) => false,
        },
        Err(XUserInfoError::JsonDecodeError(d)) => match payload_outcome(entries) {
            Ok(p) => json_parse(p) == Err::<serde_json::Value, serde_json::Error>(d)
                && !json_error_is_io(d),
            Err(_) => false,
        },
        Err(XUserInfoError::MissingHeader) => !entries.contains_key(header_name()),
        Err(XUserInfoError::ToStringError(_)) => entries.contains_key(header_name())
            && !all_visible_ascii(entries[header_name()]),
        Err(XUserInfoError::Base64DecodeError(d)) => entries.contains_key(header_name())
            && all_visible_ascii(entries[header_name()])
            && base64_standard_decode(header_text_of(entries)) == Err::<Seq<u8>, base64::DecodeError>(d),
    }
}

/// The stage at which a result failed, if it did.
pub open spec fn failed_stage<T>(r: Result<T, XUserInfoError>) -> Option<ErrorKind> {
    match r {
        Ok(_) => None,
        Err(e) => Some(e.spec_kind()),
    }
}

/// The stage at which an outcome failed, if it did.
pub open spec fn outcome_stage(o: Result<Seq<u8>, ErrorKind>) -> Option<ErrorKind> {
    match o {
        Ok(_) => None,
        Err(k) => Some(k),
    }
}

/// A result of the first three stages, seen as an outcome.
pub open spec fn payload_of(r: Result<Vec<u8>, XUserInfoError>) -> Result<Seq<u8>, ErrorKind> {
    match r {
        Ok(p) => Ok(p@),
        Err(e) => Err(e.spec_kind()),
    }
}

/// Some character of `s` is neither of the base64 alphabet nor `=`.
pub open spec fn has_non_base64_symbol(s: Seq<char>) -> bool {
    exists|i: int| 0 <= i < s.len() && !is_base64_symbol(#[trigger] s[i])
}

/// The header is present and reads as text, and that text holds a character
/// that standard base64 never uses.
pub open spec fn carries_non_base64_text(entries: Map<Seq<char>, Seq<u8>>) -> bool {
    entries.contains_key(header_name()) && all_visible_ascii(entries[header_name()])
        && has_non_base64_symbol(header_text_of(entries))
}

/// Locates the header among `headers` and reads its value as text.
pub fn header_text(headers: &HeaderMap) -> (r: Result<&str, XUserInfoError>)
    ensures
        match r {
            Ok(s) => header_entries(*headers).contains_key(header_name())
                && all_visible_ascii(header_entries(*headers)[header_name()])
                && s@ == header_text_of(header_entries(*headers)),
            Err(XUserInfoError::MissingHeader) => !header_entries(*headers).contains_key(header_name()),
            Err(XUserInfoError::ToStringError(_)) => header_entries(*headers).contains_key(header_name())
                && !all_visible_ascii(header_entries(*headers)[header_name()]),
            Err(_) => false,
        },
{
    proof {
        reveal_strlit("x-userinfo");
    }
    assert(no_ascii_uppercase(X_USER_INFO_HEADER@));
    match header_get(headers, X_USER_INFO_HEADER) {
        None => Err(XUserInfoError::MissingHeader),
        Some(v) => match header_value_to_str(v) {
            Ok(s) => Ok(s),
            Err(e) => Err(XUserInfoError::ToStringError(e)),
        },
    }
}

/// Decodes standard, padded base64 text.
pub fn decode_base64(text: &str) -> (r: Result<Vec<u8>, XUserInfoError>)
    ensures
        match r {
            Ok(b) => base64_standard_decode(text@) == Ok::<Seq<u8>, base64::DecodeError>(b@),
            Err(XUserInfoError::Base64DecodeError(d)) => base64_standard_decode(text@) == Err::<
                Seq<u8>,
                base64::DecodeError,
            >(d),
            Err(_) => false,
        },
        has_non_base64_symbol(text@) ==> r is Err,
        text@.len() == 0 ==> r is Ok,
{
    match base64_decode(text) {
        Ok(b) => Ok(b),
        Err(e) => Err(XUserInfoError::Base64DecodeError(e)),
    }
}

/// Parses bytes as one JSON value.
pub fn decode_json(bytes: &[u8]) -> (r: Result<serde_json::Value, XUserInfoError>)
    ensures
        match r {
            Ok(v) => json_parse(bytes@) == Ok::<serde_json::Value, serde_json::Error>(v),
            Err(XUserInfoError::JsonDecodeError(d)) => json_parse(bytes@) == Err::<
                serde_json::Value,
                serde_json::Error,
            >(d) && !json_error_is_io(d),
            Err(_) => false,
        },
        bytes@.len() == 0 ==> r is Err,
{
    match json_from_slice(bytes) {
        Ok(v) => Ok(v),
        Err(e) => Err(XUserInfoError::JsonDecodeError(e)),
    }
}

/// The payload that the header carries: located, read as text and base64-decoded.
pub fn header_payload(headers: &HeaderMap) -> (r: Result<Vec<u8>, XUserInfoError>)
    ensures
        payload_matches(r, header_entries(*headers)),
        payload_of(r) == payload_outcome(header_entries(*headers)),
        carries_non_base64_text(header_entries(*headers)) ==> failed_stage(r) == Some(
            ErrorKind::Base64Decode,
        ),
{
    let text = match header_text(headers) {
        Ok(s) => s,
        Err(e) => return Err(e),
    };
    decode_base64(text)
}

/// Extracts the JSON value that the header carries.
pub fn extract_from_headers(headers: &HeaderMap) -> (r: Result<XUserInfo<serde_json::Value>, XUserInfoError>)
    ensures
        extraction_matches(r, header_entries(*headers)),
        failed_stage(r) == outcome_stage(extraction_outcome(header_entries(*headers))),
        carries_non_base64_text(header_entries(*headers)) ==> failed_stage(r) == Some(
            ErrorKind::Base64Decode,
        ),
{
    let payload = match header_payload(headers) {
        Ok(p) => p,
        Err(e) => return Err(e),
    };
    match decode_json(payload.as_slice()) {
        Ok(v) => Ok(XUserInfo(v)),
        Err(e) => Err(e),
    }
}

/// Extracts the JSON value that the request's header carries: the result
/// is that of `extract_from_headers` on the request's header map.
pub fn try_from_request(req: &HttpRequest) -> (r: Result<XUserInfo<serde_json::Value>, XUserInfoError>)
    ensures
        extraction_matches(r, request_header_entries(*req)),
        failed_stage(r) == outcome_stage(extraction_outcome(request_header_entries(*req))),
        carries_non_base64_text(request_header_entries(*req)) ==> failed_stage(r) == Some(
            ErrorKind::Base64Decode,
        ),
{
    extract_from_headers(request_headers(req))
}

/// Wraps the result of reading a JSON document into the caller's own type.
pub fn bind_document<T>(decoded: Result<T, serde_json::Error>) -> (r: Result<XUserInfo<T>, XUserInfoError>)
    ensures
        match decoded {
            Ok(v) => r == Ok::<XUserInfo<T>, XUserInfoError>(XUserInfo(v)),
            Err(d) => r == Err::<XUserInfo<T>, XUserInfoError>(XUserInfoError::JsonDecodeError(d)),
        },
{
    match decoded {
        Ok(v) => Ok(XUserInfo(v)),
        Err(e) => Err(XUserInfoError::JsonDecodeError(e)),
    }
}

} // verus!
