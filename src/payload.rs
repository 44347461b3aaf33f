//! Decoding of the body of a successful sync response. Of its schema only the
//! continuation token is read here; the rest is carried as parsed JSON.

use vstd::prelude::*;
use vstd::string::*;
use crate::sync::opt_view;

verus! {

#[verifier::external_type_specification]
#[verifier::external_body]
pub struct ExJsonValue(serde_json::Value);

/// Whether serde_json parses the bytes into a JSON value.
pub uninterp spec fn json_accepts(bytes: Seq<u8>) -> bool;

/// The `next_batch` member of the parsed bytes, when it is a JSON string.
pub uninterp spec fn json_next_batch(bytes: Seq<u8>) -> Option<Seq<char>>;

/// serde_json's description of why the bytes do not parse.
pub uninterp spec fn json_error_text(bytes: Seq<u8>) -> Seq<char>;

/// Relies on serde_json::from_slice to parse the bytes, on Value::get for the
/// `next_batch` member of the result, and on the Display impl of
/// serde_json::Error for the reason of a failure. Each depends on the bytes
/// alone.
#[verifier::external_body]
fn parse_sync_body(data: &[u8]) -> (r: Result<(serde_json::Value, Option<String>), String>)
    ensures
        r is Ok <==> json_accepts(data@),
        r is Ok ==> opt_view(r->Ok_0.1) == json_next_batch(data@),
        r is Err ==> r->Err_0@ == json_error_text(data@),
{
    match serde_json::from_slice::<serde_json::Value>(data) {
        Ok(v) => {
            let next_batch = match v.get("next_batch") {
                Some(serde_json::Value::String(s)) => Some(s.clone()),
                _ => None,
            };
            Ok((v, next_batch))
        },
        Err(e) => Err(e.to_string()),
    }
}

/// Reason given for a JSON body without a string `next_batch` member.
pub const MISSING_NEXT_BATCH: &'static str = "missing string field `next_batch`";

/// One decoded sync response: the continuation token for the next cycle and
/// the whole parsed body, whose events belong to the consumer.
pub struct SyncPayload {
    pub next_batch: String,
    pub body: serde_json::Value,
}

impl SyncPayload {
    pub fn next_batch(&self) -> (r: &str)
        ensures
            r@ == self.next_batch@,
    {
        self.next_batch.as_str()
    }

    pub fn body(&self) -> (r: &serde_json::Value)
        ensures
            r == &self.body,
    {
        &self.body
    }
}

/// Parses a response body. It succeeds exactly when the body is JSON with a
/// string `next_batch` member, whose text becomes the payload's token; else
/// the reason is serde_json's, or that the member is missing.
pub fn decode_sync_payload(data: &[u8]) -> (r: Result<SyncPayload, String>)
    ensures
        r is Ok <==> json_accepts(data@) && json_next_batch(data@) is Some,
        r is Ok ==> r->Ok_0.next_batch@ == json_next_batch(data@)->Some_0,
        !json_accepts(data@) ==> r is Err && r->Err_0@ == json_error_text(data@),
        json_accepts(data@) && json_next_batch(data@) is None ==> r is Err && r->Err_0@
            == MISSING_NEXT_BATCH@,
{
    match parse_sync_body(data) {
        Ok((body, Some(next_batch))) => Ok(SyncPayload { next_batch, body }),
        Ok((_, None)) => Err(String::from_str(MISSING_NEXT_BATCH)),
        Err(reason) => Err(reason),
    }
}

} // verus!
