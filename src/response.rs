//! Reading the archive's identifiers out of the platform's replies.
use serde_json::Value;
use vstd::prelude::*;

verus! {

#[verifier::external_type_specification]
#[verifier::external_body]
pub struct ExValue(Value);

/// What `Value::get` finds under `key`: the member of an object, or `None`
/// for a missing key or a value that is not an object.
pub uninterp spec fn json_member(v: Value, key: Seq<char>) -> Option<Value>;

/// What `Value::as_i64` gives: the number where `v` is an integer that fits.
pub uninterp spec fn json_as_i64(v: Value) -> Option<i64>;

/// What `Value::as_str` gives: the text where `v` is a string.
pub uninterp spec fn json_as_str(v: Value) -> Option<Seq<char>>;

/// Relies on `Value::get` with a `&str` key: the member of an object under that key.
#[verifier::external_body]
fn member<'a>(v: &'a Value, key: &str) -> (r: Option<&'a Value>)
    ensures
        r is Some <==> json_member(*v, key@) is Some,
        r is Some ==> *r->Some_0 == json_member(*v, key@)->Some_0,
{
    v.get(key)
}

/// Relies on `Value::as_i64`.
#[verifier::external_body]
fn as_i64(v: &Value) -> (r: Option<i64>)
    ensures
        r == json_as_i64(*v),
{
    v.as_i64()
}

/// Relies on `Value::as_str`; the text is copied out.
#[verifier::external_body]
fn as_text(v: &Value) -> (r: Option<String>)
    ensures
        r is Some <==> json_as_str(*v) is Some,
        r is Some ==> r->Some_0@ == json_as_str(*v)->Some_0,
{
    v.as_str().map(|s| s.to_string())
}

/// The platform's reply to a new archive: a code, the payload and a message.
pub struct ResponseData {
    pub code: i32,
    pub data: Option<Value>,
    pub message: String,
}

/// The platform's two ids for an archive: the numeric one and the short one.
pub struct SubmitResponse {
    pub aid: i64,
    pub bvid: String,
}

pub open spec fn member_i64(v: Value, key: Seq<char>) -> Option<i64> {
    match json_member(v, key) {
        Some(m) => json_as_i64(m),
        None => None,
    }
}

pub open spec fn member_str(v: Value, key: Seq<char>) -> Option<Seq<char>> {
    match json_member(v, key) {
        Some(m) => json_as_str(m),
        None => None,
    }
}

/// `r` holds exactly the ids given, or is `None` where either is missing.
pub open spec fn ids_match(r: Option<SubmitResponse>, aid: Option<i64>, bvid: Option<Seq<char>>) -> bool {
    match r {
        Some(s) => aid == Some(s.aid) && bvid == Some(s.bvid@),
        None => aid is None || bvid is None,
    }
}

/// `r` holds the integer under `aid` and the string under `bvid` of `data`.
pub open spec fn ids_of(r: Option<SubmitResponse>, data: Value) -> bool {
    ids_match(r, member_i64(data, "aid"@), member_str(data, "bvid"@))
}

impl SubmitResponse {
    /// The two ids, where both were found.
    pub fn from_fields(aid: Option<i64>, bvid: Option<String>) -> (r: Option<SubmitResponse>)
        ensures
            ids_match(
                r,
                aid,
                match bvid {
                    Some(b) => Some(b@),
                    None => None,
                },
            ),
    {
        match (aid, bvid) {
            (Some(aid), Some(bvid)) => Some(SubmitResponse { aid, bvid }),
            _ => None,
        }
    }
}

/// The ids in a reply's payload: the integer `aid` and the string `bvid`;
/// `None` where either is missing or of another kind.
pub fn ids_in(data: &Value) -> (r: Option<SubmitResponse>)
    ensures
        ids_of(r, *data),
{
    let aid = match member(data, "aid") {
        Some(m) => as_i64(m),
        None => None,
    };
    let bvid = match member(data, "bvid") {
        Some(m) => as_text(m),
        None => None,
    };
    SubmitResponse::from_fields(aid, bvid)
}

/// The ids of a newly created archive, read from the reply's payload;
/// `None` where there is no payload or it lacks either id.
pub fn parse_submit_response(res: ResponseData) -> (r: Option<SubmitResponse>)
    ensures
        match res.data {
            Some(d) => ids_of(r, d),
            None => r is None,
        },
{
    match &res.data {
        Some(d) => ids_in(d),
        None => None,
    }
}

/// The ids of an edited archive, read from the `data` member of the reply;
/// `None` where that member is missing or lacks either id.
pub fn parse_edit_response(res: Value) -> (r: Option<SubmitResponse>)
    ensures
        match json_member(res, "data"@) {
            Some(d) => ids_of(r, d),
            None => r is None,
        },
{
    match member(&res, "data") {
        Some(d) => ids_in(d),
        None => None,
    }
}

} // verus!
