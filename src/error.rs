//! The four ways in which extraction fails, and how each is shown to a client.

use crate::outside::{
    decode_error_display, decode_error_text, json_error_display, json_error_is_io, json_error_text,
    to_str_error_text,
};
use actix_web::http::header::ToStrError;
use vstd::prelude::*;

verus! {

/// The HTTP status of the response to every extraction error: bad request.
pub const BAD_REQUEST: u16 = 400;

/// `s` starts with `p`.
pub open spec fn begins_with(s: Seq<char>, p: Seq<char>) -> bool {
    p.len() <= s.len() && s.subrange(0, p.len() as int) == p
}

/// `prefix` followed by `detail`.
fn prefixed(prefix: &str, detail: String) -> (r: String)
    ensures
        r@ == prefix@ + detail@,
        begins_with(r@, prefix@),
{
    let mut r = String::from_str(prefix);
    r.append(detail.as_str());
    assert((prefix@ + detail@).subrange(0, prefix@.len() as int) =~= prefix@);
    r
}

/// The stage at which extraction stopped.
#[derive(Clone, Copy, Debug, PartialEq, Eq, Structural)]
pub enum ErrorKind {
    MissingHeader,
    HeaderText,
    Base64Decode,
    JsonDecode,
}

/// Why a request carries no usable identity claim.
#[derive(Debug)]
pub enum XUserInfoError {
    /// The header is absent.
    MissingHeader,
    /// The header's value is not visible ASCII text.
    ToStringError(ToStrError),
    /// The header's text is not standard, padded base64.
    Base64DecodeError(base64::DecodeError),
    /// The decoded bytes are not a JSON document of the expected shape.
    JsonDecodeError(serde_json::Error),
}

impl XUserInfoError {
    pub open spec fn spec_kind(&self) -> ErrorKind {
        match self {
            XUserInfoError::MissingHeader => ErrorKind::MissingHeader,
            XUserInfoError::ToStringError(_) => ErrorKind::HeaderText,
            XUserInfoError::Base64DecodeError(_) => ErrorKind::Base64Decode,
            XUserInfoError::JsonDecodeError(_) => ErrorKind::JsonDecode,
        }
    }

    /// The stage at which extraction stopped.
    pub fn kind(&self) -> (r: ErrorKind)
        ensures
            r == self.spec_kind(),
    {
        match self {
            XUserInfoError::MissingHeader => ErrorKind::MissingHeader,
            XUserInfoError::ToStringError(_) => ErrorKind::HeaderText,
            XUserInfoError::Base64DecodeError(_) => ErrorKind::Base64Decode,
            XUserInfoError::JsonDecodeError(_) => ErrorKind::JsonDecode,
        }
    }

    /// The status of the response that shows this error: always bad request.
    pub fn status_code(&self) -> (r: u16)
        ensures
            r == BAD_REQUEST,
    {
        BAD_REQUEST
    }

    /// The text of the response that shows this error: a fixed sentence, or a
    /// fixed lead followed by what the underlying error displays.
    pub open spec fn message_text(&self) -> Seq<char> {
        match self {
            XUserInfoError::MissingHeader => "x-userinfo header is missing"@,
            XUserInfoError::ToStringError(_) => "invalid x-userinfo header: "@
                + "failed to convert header to a str"@,
            XUserInfoError::Base64DecodeError(d) => "invalid x-userinfo, base64 decode error: "@
                + decode_error_display(*d),
            XUserInfoError::JsonDecodeError(d) => "invalid x-userinfo, json decode error: "@
                + json_error_display(*d),
        }
    }

    /// The error's text is fixed by the error: all but a serde_json error of
    /// the io kind, which shows the text of the `std::io::Error` inside it.
    pub open spec fn message_is_fixed(&self) -> bool {
        match self {
            XUserInfoError::JsonDecodeError(d) => !json_error_is_io(*d),
            _ => true,
        }
    }

    /// The text of the response that shows this error.
    pub fn message(&self) -> (r: String)
        ensures
            self.message_is_fixed() ==> r@ == self.message_text(),
            self is JsonDecodeError ==> begins_with(r@, "invalid x-userinfo, json decode error: "@),
    {
        match self {
            XUserInfoError::MissingHeader => String::from_str("x-userinfo header is missing"),
            XUserInfoError::ToStringError(e) => prefixed("invalid x-userinfo header: ", to_str_error_text(e)),
            XUserInfoError::Base64DecodeError(e) => prefixed(
                "invalid x-userinfo, base64 decode error: ",
                decode_error_text(e),
            ),
            XUserInfoError::JsonDecodeError(e) => prefixed(
                "invalid x-userinfo, json decode error: ",
                json_error_text(e),
            ),
        }
    }
}

impl From<ToStrError> for XUserInfoError {
    fn from(e: ToStrError) -> (r: Self) {
        XUserInfoError::ToStringError(e)
    }
}

impl vstd::std_specs::convert::FromSpecImpl<ToStrError> for XUserInfoError {
    open spec fn obeys_from_spec() -> bool {
        true
    }

    open spec fn from_spec(e: ToStrError) -> Self {
        XUserInfoError::ToStringError(e)
    }
}

impl From<base64::DecodeError> for XUserInfoError {
    fn from(e: base64::DecodeError) -> (r: Self) {
        XUserInfoError::Base64DecodeError(e)
    }
}

impl vstd::std_specs::convert::FromSpecImpl<base64::DecodeError> for XUserInfoError {
    open spec fn obeys_from_spec() -> bool {
        true
    }

    open spec fn from_spec(e: base64::DecodeError) -> Self {
        XUserInfoError::Base64DecodeError(e)
    }
}

impl From<serde_json::Error> for XUserInfoError {
    fn from(e: serde_json::Error) -> (r: Self) {
        XUserInfoError::JsonDecodeError(e)
    }
}

impl vstd::std_specs::convert::FromSpecImpl<serde_json::Error> for XUserInfoError {
    open spec fn obeys_from_spec() -> bool {
        true
    }

    open spec fn from_spec(e: serde_json::Error) -> Self {
        XUserInfoError::JsonDecodeError(e)
    }
}

} // verus!
