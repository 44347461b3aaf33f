//! The request target of one sync cycle: the fixed sync path and a query
//! string rebuilt from the session's current state alone.

use vstd::prelude::*;
use vstd::string::*;

verus! {

/// Path of the Matrix client sync endpoint.
pub const SYNC_PATH: &'static str = "/_matrix/client/r0/sync";

/// Event filter sent with every cycle: presence events are left out.
pub const PRESENCE_FILTER: &'static str = "{\"presence\":{\"not_types\":[\"m.presence\"]}}";

/// What `application/x-www-form-urlencoded` serialisation makes of a string.
pub uninterp spec fn form_encoded(s: Seq<char>) -> Seq<char>;

/// Characters that the serialisation writes as they are.
pub open spec fn is_unreserved(c: char) -> bool {
    ('0' <= c && c <= '9') || ('A' <= c && c <= 'Z') || ('a' <= c && c <= 'z') || c == '*' || c
        == '-' || c == '.' || c == '_'
}

/// Relies on url::form_urlencoded::byte_serialize: the serialisation of the
/// UTF-8 bytes of `s`, which depends on `s` alone; unreserved ASCII
/// characters are kept as they are.
#[verifier::external_body]
fn form_encode(s: &str) -> (r: String)
    ensures
        r@ == form_encoded(s@),
        (forall|i: int| 0 <= i < s@.len() ==> is_unreserved(#[trigger] s@[i])) ==> r@ == s@,
{
    url::form_urlencoded::byte_serialize(s.as_bytes()).collect()
}

/// The query string of a cycle: credential, filter and long-poll timeout,
/// then `since` exactly when a continuation token is known.
pub open spec fn sync_query(access_token: Seq<char>, since: Option<Seq<char>>) -> Seq<char> {
    let fixed = "access_token="@ + form_encoded(access_token) + "&filter="@ + form_encoded(
        PRESENCE_FILTER@,
    ) + "&timeout=30000"@;
    match since {
        Some(token) => fixed + "&since="@ + form_encoded(token),
        None => fixed,
    }
}

/// Path and query of the request that a cycle sends.
pub open spec fn sync_target(access_token: Seq<char>, since: Option<Seq<char>>) -> Seq<char> {
    SYNC_PATH@ + "?"@ + sync_query(access_token, since)
}

/// Builds the request target from the credential and the continuation token.
pub fn build_sync_target(access_token: &str, since: Option<&str>) -> (r: String)
    ensures
        r@ == sync_target(access_token@, match since {
            Some(t) => Some(t@),
            None => None,
        }),
        since is Some && (forall|i: int|
            0 <= i < since->Some_0@.len() ==> is_unreserved(#[trigger] since->Some_0@[i])) ==> r@
            == sync_target(access_token@, None) + "&since="@ + since->Some_0@,
{
    let mut r = String::from_str(SYNC_PATH);
    r.append("?");
    r.append("access_token=");
    let token = form_encode(access_token);
    r.append(token.as_str());
    r.append("&filter=");
    let filter = form_encode(PRESENCE_FILTER);
    r.append(filter.as_str());
    r.append("&timeout=30000");
    match since {
        Some(t) => {
            r.append("&since=");
            let enc = form_encode(t);
            r.append(enc.as_str());
            assert(r@ =~= sync_target(access_token@, None) + "&since="@ + enc@);
        },
        None => {},
    }
    assert(r@ =~= sync_target(access_token@, match since {
        Some(t) => Some(t@),
        None => None,
    }));
    r
}

} // verus!
