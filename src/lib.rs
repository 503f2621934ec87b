//! Extraction of a typed identity claim from the `x-userinfo` request header.
//!
//! The header carries standard, padded base64 of a JSON document. Extraction
//! locates the header, checks that its value is text, decodes the base64 and
//! parses the JSON, stopping at the first stage that fails.

pub mod error;
pub mod extract;
pub mod laws;
pub mod outside;

pub use error::{ErrorKind, XUserInfoError};
pub use extract::XUserInfo;

use vstd::prelude::*;

verus! {

/// The name of the header that carries the identity claim.
pub const X_USER_INFO_HEADER: &'static str = "x-userinfo";

} // verus!
