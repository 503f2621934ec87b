//! What holds of extraction on every request.

use crate::error::{ErrorKind, XUserInfoError};
use crate::extract::{
    extraction_matches, extraction_outcome, header_name, header_text_of, payload_matches,
    payload_outcome, XUserInfo,
};
use crate::outside::{base64_standard_decode, is_base64_symbol, json_document, json_parse};
use vstd::prelude::*;

verus! {

/// Two results end alike: both succeed with equal values, or both fail at
/// the same stage with the same message.
pub open spec fn same_result<T>(r1: Result<T, XUserInfoError>, r2: Result<T, XUserInfoError>) -> bool {
    match (r1, r2) {
        (Ok(a), Ok(b)) => a == b,
        (Err(a), Err(b)) => a.spec_kind() == b.spec_kind() && a.message_text() == b.message_text(),
        _ => false,
    }
}

/// A header whose text is standard base64 of a JSON document yields exactly
/// the value that serde_json reads from that document.
pub proof fn lemma_encoded_document_extracts(
    entries: Map<Seq<char>, Seq<u8>>,
    doc: Seq<u8>,
    r: Result<XUserInfo<serde_json::Value>, XUserInfoError>,
)
    requires
        entries.contains_key(header_name()),
        forall|i: int|
            0 <= i < entries[header_name()].len() ==> is_base64_symbol(
                #[trigger] entries[header_name()][i] as char,
            ),
        base64_standard_decode(header_text_of(entries)) == Ok::<Seq<u8>, base64::DecodeError>(doc),
        json_document(doc),
        extraction_matches(r, entries),
    ensures
        extraction_outcome(entries) == Ok::<Seq<u8>, ErrorKind>(doc),
        r is Ok,
        json_parse(doc) == Ok::<serde_json::Value, serde_json::Error>(r->Ok_0.0),
{
    let v = entries[header_name()];
    assert forall|i: int| 0 <= i < v.len() implies 32 <= #[trigger] v[i] && v[i] < 127 by {
        assert(is_base64_symbol(v[i] as char));
    }
}

/// A request without the header fails at the first stage.
pub proof fn lemma_missing_header_fails_first(
    entries: Map<Seq<char>, Seq<u8>>,
    r: Result<XUserInfo<serde_json::Value>, XUserInfoError>,
)
    requires
        !entries.contains_key(header_name()),
        extraction_matches(r, entries),
    ensures
        extraction_outcome(entries) == Err::<Seq<u8>, ErrorKind>(ErrorKind::MissingHeader),
        r is Err,
        r->Err_0.message_text() == "x-userinfo header is missing"@,
{
}

/// A header that decodes from base64 to bytes that are not JSON fails at
/// the JSON stage.
pub proof fn lemma_non_json_payload_fails(
    entries: Map<Seq<char>, Seq<u8>>,
    payload: Seq<u8>,
    r: Result<XUserInfo<serde_json::Value>, XUserInfoError>,
)
    requires
        payload_outcome(entries) == Ok::<Seq<u8>, ErrorKind>(payload),
        !json_document(payload),
        extraction_matches(r, entries),
    ensures
        extraction_outcome(entries) == Err::<Seq<u8>, ErrorKind>(ErrorKind::JsonDecode),
        r is Err,
        r->Err_0.spec_kind() == ErrorKind::JsonDecode,
{
}

/// Two extractions on the same headers end alike: the same value, or the
/// same stage and message, a message that the error fixes.
pub proof fn lemma_extraction_repeatable(
    entries: Map<Seq<char>, Seq<u8>>,
    r1: Result<XUserInfo<serde_json::Value>, XUserInfoError>,
    r2: Result<XUserInfo<serde_json::Value>, XUserInfoError>,
)
    requires
        extraction_matches(r1, entries),
        extraction_matches(r2, entries),
    ensures
        same_result(r1, r2),
        r1 is Err ==> r1->Err_0.message_is_fixed(),
        r2 is Err ==> r2->Err_0.message_is_fixed(),
{
}

/// Two decodings of the payload of the same headers end alike: the same
/// bytes, or the same stage and message.
pub proof fn lemma_payload_repeatable(
    entries: Map<Seq<char>, Seq<u8>>,
    r1: Result<Vec<u8>, XUserInfoError>,
    r2: Result<Vec<u8>, XUserInfoError>,
)
    requires
        payload_matches(r1, entries),
        payload_matches(r2, entries),
    ensures
        match (r1, r2) {
            (Ok(a), Ok(b)) => a@ == b@,
            (Err(a), Err(b)) => a.spec_kind() == b.spec_kind() && a.message_text() == b.message_text(),
            _ => false,
        },
{
}

} // verus!
