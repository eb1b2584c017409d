//! Interpretation of the blob store's add response. The store answers an
//! upload with a JSON object whose `Hash` member is the content id; the
//! parsing itself is serde_json's and is taken on trust, while the decision
//! of what each parse outcome means is verified here. What the parse
//! extracts is a function of the response text alone, so it carries a name
//! that the interpretation's own contract is exact over.

use vstd::prelude::*;
use serde_json::Error as SerdeJsonError;
use crate::errors::{Error, ErrorV};

verus! {

#[verifier::external_type_specification]
#[verifier::external_body]
pub struct ExJsonValue(serde_json::Value);

#[verifier::external_type_specification]
#[verifier::external_body]
pub struct ExJsonError(SerdeJsonError);

/// The non-empty `Hash` string member of `s` read as a JSON object, when
/// `s` parses and holds one; what serde_json extracts from a given text,
/// named rather than restated.
pub uninterp spec fn spec_ipfs_hash_of(s: Seq<char>) -> Option<Seq<char>>;

/// Relies on serde_json::from_str::<Value>, Value::get and Value::as_str:
/// together they read the body as JSON and extract its `Hash` member when
/// that member is a string; the outcome depends on the body text alone, and
/// is what `spec_ipfs_hash_of` names.
#[verifier::external_body]
fn json_hash_member(body: &str) -> (r: Option<String>)
    ensures
        r is Some <==> spec_ipfs_hash_of(body@) is Some,
        r matches Some(h) ==> (spec_ipfs_hash_of(body@) matches Some(v) && h@ == v),
{
    serde_json::from_str::<serde_json::Value>(body)
        .ok()
        .as_ref()
        .and_then(|v| v.get("Hash"))
        .and_then(|h| h.as_str())
        .map(|s| s.to_string())
}

/// Relies on serde_json::from_str::<Value>: parses text as a JSON document.
/// Only the split between unparsable text and a parsed value is used here,
/// to choose between the two failure messages.
#[verifier::external_body]
fn json_parse(s: &str) -> Result<serde_json::Value, SerdeJsonError> {
    serde_json::from_str::<serde_json::Value>(s)
}

/// Relies on serde_json::Error's Display rendering for the parse error's
/// text; nothing is claimed of it.
#[verifier::external_body]
fn json_error_text(e: &SerdeJsonError) -> String {
    e.to_string()
}

/// Decides what a store response to an upload means. A non-success status
/// fails with the response body in the message; a body without a non-empty
/// `Hash` string member fails; otherwise the member is the content id,
/// exactly as extracted.
pub fn interpret_add_response(status_ok: bool, body: &str) -> (r: Result<String, Error>)
    ensures
        !status_ok ==> (r matches Err(e) && e@ matches ErrorV::UploadFailed { message }
            && message =~= "Failed to upload to IPFS: "@ + body@),
        r is Ok <==> (status_ok && (spec_ipfs_hash_of(body@) matches Some(h) && h.len() > 0)),
        r matches Ok(c) ==> (spec_ipfs_hash_of(body@) matches Some(h) && c@ == h),
        r is Err ==> r->Err_0 is UploadFailed,
{
    if !status_ok {
        let mut text = "Failed to upload to IPFS: ".to_owned();
        text.append(body);
        return Err(Error::UploadFailed { message: text });
    }
    match json_hash_member(body) {
        Some(hash) => {
            if hash.as_str().unicode_len() > 0 {
                Ok(hash)
            } else {
                Err(Error::UploadFailed {
                    message: "Invalid response from IPFS: no hash returned".to_owned(),
                })
            }
        },
        None => match json_parse(body) {
            Ok(_) => Err(Error::UploadFailed {
                message: "Invalid response from IPFS: no hash returned".to_owned(),
            }),
            Err(e) => {
                let mut text = "Failed to parse IPFS response: ".to_owned();
                let detail = json_error_text(&e);
                text.append(detail.as_str());
                Err(Error::UploadFailed { message: text })
            },
        },
    }
}

} // verus!
