//! Permissive reading of a provider's response body.
//!
//! A body is accepted when it matches the provider's expected schema and
//! carries no error member. Anything else is classified into a known
//! degenerate shape (an HTML page, an authentication rejection, a JSON object
//! with an error member) before it is reported as an unparseable body.
use vstd::prelude::*;
use crate::dispatch::SubmitError;
use vstd::string::{StrSliceExecFns, StringSliceAdditionalSpecFns};

verus! {

/// What a JSON text holds under one key of its top-level object.
#[derive(Debug, Clone, Copy, PartialEq, Eq)]
pub enum MemberShape {
    /// The text is not JSON.
    NotJson,
    /// The text is JSON, but not an object.
    NotObject,
    /// The object has no member under the key.
    Absent,
    /// The member is `null`.
    Null,
    /// The member holds any other value.
    Other,
}

/// What the JSON text `s` holds under `key`.
pub uninterp spec fn member_shape_of(s: Seq<char>, key: Seq<char>) -> MemberShape;

/// Relies on `serde_json::from_str` into a `Value`, and on the object's
/// `get`: reports what the parse found under `key`, one arm per case.
#[verifier::external_body]
fn member_shape(s: &str, key: &str) -> (r: MemberShape)
    ensures
        r == member_shape_of(s@, key@),
{
    match serde_json::from_str::<serde_json::Value>(s) {
        Err(_) => MemberShape::NotJson,
        Ok(serde_json::Value::Object(m)) => match m.get(key) {
            None => MemberShape::Absent,
            Some(serde_json::Value::Null) => MemberShape::Null,
            Some(_) => MemberShape::Other,
        },
        Ok(_) => MemberShape::NotObject,
    }
}

/// Whether a body has an error member: a JSON object whose `error` member
/// is present and not null.
pub open spec fn has_error_member(s: Seq<char>) -> bool {
    member_shape_of(s, "error"@) == MemberShape::Other
}

/// ASCII white space.
pub open spec fn is_space(b: u8) -> bool {
    b == 0x20 || b == 0x09 || b == 0x0a || b == 0x0d
}

/// Whether the first byte after leading white space opens a markup tag.
pub open spec fn looks_like_html(b: Seq<u8>) -> bool {
    exists|i: int|
        0 <= i < b.len() && b[i] == 0x3c && forall|j: int| 0 <= j < i ==> is_space(#[trigger] b[j])
}

/// Whether `needle` occurs in `hay` at position `i`.
pub open spec fn occurs_at(hay: Seq<u8>, needle: Seq<u8>, i: int) -> bool {
    0 <= i && i + needle.len() <= hay.len() && hay.subrange(i, i + needle.len()) == needle
}

/// Whether `needle` occurs in `hay`.
pub open spec fn occurs(hay: Seq<u8>, needle: Seq<u8>) -> bool {
    exists|i: int| occurs_at(hay, needle, i)
}

/// The bytes of `UNAUTHORIZED`.
pub open spec fn upper_unauthorized() -> Seq<u8> {
    seq![0x55u8, 0x4e, 0x41, 0x55, 0x54, 0x48, 0x4f, 0x52, 0x49, 0x5a, 0x45, 0x44]
}

/// The bytes of `Unauthorized`.
pub open spec fn title_unauthorized() -> Seq<u8> {
    seq![0x55u8, 0x6e, 0x61, 0x75, 0x74, 0x68, 0x6f, 0x72, 0x69, 0x7a, 0x65, 0x64]
}

/// The bytes of `not authorised`.
pub open spec fn not_authorised() -> Seq<u8> {
    seq![0x6eu8, 0x6f, 0x74, 0x20, 0x61, 0x75, 0x74, 0x68, 0x6f, 0x72, 0x69, 0x73, 0x65, 0x64]
}

/// Whether the body carries one of the known authentication rejections.
pub open spec fn auth_rejected(b: Seq<u8>) -> bool {
    occurs(b, upper_unauthorized()) || occurs(b, title_unauthorized()) || occurs(b, not_authorised())
}

/// The kinds of reading of a response body.
#[derive(Debug, Clone, Copy, PartialEq, Eq)]
pub enum ResponseKind {
    Accepted,
    HtmlPage,
    AuthRejected,
    ErrorObject,
    Unparseable,
}

/// The kind of a body with bytes `b`, given whether it matched the
/// provider's schema and whether it has an error member.
pub open spec fn reading(b: Seq<u8>, schema_ok: bool, error_member: bool) -> ResponseKind {
    if schema_ok && !error_member {
        ResponseKind::Accepted
    } else if looks_like_html(b) {
        ResponseKind::HtmlPage
    } else if auth_rejected(b) {
        ResponseKind::AuthRejected
    } else if error_member {
        ResponseKind::ErrorObject
    } else {
        ResponseKind::Unparseable
    }
}

/// Whether `r` is a reading of kind `kind` whose kept text, if any, is
/// `text`.
pub open spec fn is_reading(r: Result<(), SubmitError>, kind: ResponseKind, text: Seq<char>) -> bool {
    match kind {
        ResponseKind::Accepted => r is Ok,
        ResponseKind::HtmlPage => r == Err::<(), SubmitError>(SubmitError::HtmlPage),
        ResponseKind::AuthRejected => r matches Err(SubmitError::AuthRejected(a)) && a@ == text,
        ResponseKind::ErrorObject => r matches Err(SubmitError::ErrorObject(a)) && a@ == text,
        ResponseKind::Unparseable => r matches Err(SubmitError::Unparseable(a)) && a@ == text,
    }
}

fn is_space_byte(b: u8) -> (r: bool)
    ensures
        r == is_space(b),
{
    b == 0x20 || b == 0x09 || b == 0x0a || b == 0x0d
}

/// Whether the body opens with a markup tag after leading white space.
pub fn is_html_body(b: &Vec<u8>) -> (r: bool)
    ensures
        r == looks_like_html(b@),
{
    let mut i: usize = 0;
    while i < b.len() && is_space_byte(b[i])
        invariant
            i <= b@.len(),
            forall|j: int| 0 <= j < i ==> is_space(#[trigger] b@[j]),
        decreases b@.len() - i,
    {
        i = i + 1;
    }
    if i < b.len() && b[i] == 0x3c {
        true
    } else {
        proof {
            if looks_like_html(b@) {
                let k = choose|k: int|
                    0 <= k < b@.len() && b@[k] == 0x3c && forall|j: int|
                        0 <= j < k ==> is_space(#[trigger] b@[j]);
                if k < i {
                    assert(is_space(b@[k]));
                } else if k > i {
                    assert(is_space(b@[i as int]));
                }
            }
        }
        false
    }
}

/// Whether `needle` occurs in `hay`.
pub fn contains_bytes(hay: &Vec<u8>, needle: &Vec<u8>) -> (r: bool)
    ensures
        r == occurs(hay@, needle@),
{
    if needle.len() > hay.len() {
        proof {
            assert forall|i: int| !occurs_at(hay@, needle@, i) by {}
        }
        return false;
    }
    let n = hay.len();
    let last = n - needle.len();
    let mut i: usize = 0;
    while i <= last
        invariant
            n == hay@.len(),
            needle@.len() <= hay@.len(),
            last == hay@.len() - needle@.len(),
            forall|k: int| 0 <= k < i ==> !occurs_at(hay@, needle@, k),
        decreases last + 1 - i,
    {
        let mut j: usize = 0;
        while j < needle.len() && hay[i + j] == needle[j]
            invariant
                n == hay@.len(),
                i <= last,
                needle@.len() <= hay@.len(),
                last == hay@.len() - needle@.len(),
                j <= needle@.len(),
                forall|m: int| 0 <= m < j ==> hay@[i + m] == needle@[m],
            decreases needle@.len() - j,
        {
            j = j + 1;
        }
        if j == needle.len() {
            assert(hay@.subrange(i as int, i + needle@.len()) =~= needle@);
            assert(occurs_at(hay@, needle@, i as int));
            return true;
        }
        assert(hay@.subrange(i as int, i + needle@.len())[j as int] != needle@[j as int]);
        if i == last {
            proof {
                assert forall|k: int| !occurs_at(hay@, needle@, k) by {
                    if k == i {
                        assert(hay@.subrange(k, k + needle@.len())[j as int] != needle@[j as int]);
                    }
                }
            }
            return false;
        }
        i = i + 1;
    }
    false
}

fn upper_unauthorized_bytes() -> (r: Vec<u8>)
    ensures
        r@ == upper_unauthorized(),
{
    let r = vec![0x55u8, 0x4e, 0x41, 0x55, 0x54, 0x48, 0x4f, 0x52, 0x49, 0x5a, 0x45, 0x44];
    assert(r@ =~= upper_unauthorized());
    r
}

fn title_unauthorized_bytes() -> (r: Vec<u8>)
    ensures
        r@ == title_unauthorized(),
{
    let r = vec![0x55u8, 0x6e, 0x61, 0x75, 0x74, 0x68, 0x6f, 0x72, 0x69, 0x7a, 0x65, 0x64];
    assert(r@ =~= title_unauthorized());
    r
}

fn not_authorised_bytes() -> (r: Vec<u8>)
    ensures
        r@ == not_authorised(),
{
    let r = vec![0x6eu8, 0x6f, 0x74, 0x20, 0x61, 0x75, 0x74, 0x68, 0x6f, 0x72, 0x69, 0x73, 0x65, 0x64];
    assert(r@ =~= not_authorised());
    r
}

/// Whether the body carries a known authentication rejection.
pub fn is_auth_rejection(b: &Vec<u8>) -> (r: bool)
    ensures
        r == auth_rejected(b@),
{
    contains_bytes(b, &upper_unauthorized_bytes()) || contains_bytes(b, &title_unauthorized_bytes())
        || contains_bytes(b, &not_authorised_bytes())
}

/// Reads a body once its schema check and its error member are known:
/// accepted when it matched the provider's schema and has no error member;
/// otherwise an HTML page, an authentication rejection, an error object or
/// an unparseable body, in that order of precedence. The kinds that keep
/// text keep the whole body.
pub fn classify_body(body: &str, schema_ok: bool, error_member: bool) -> (r: Result<(), SubmitError>)
    ensures
        is_reading(r, reading(body.spec_bytes(), schema_ok, error_member), body@),
{
    if schema_ok && !error_member {
        return Ok(());
    }
    let bytes = body.as_bytes_vec();
    if is_html_body(&bytes) {
        Err(SubmitError::HtmlPage)
    } else if is_auth_rejection(&bytes) {
        Err(SubmitError::AuthRejected(body.to_owned()))
    } else if error_member {
        Err(SubmitError::ErrorObject(body.to_owned()))
    } else {
        Err(SubmitError::Unparseable(body.to_owned()))
    }
}

/// Reads a provider's response body, given whether it matched the
/// provider's expected schema. Whether it has an error member is decided by
/// parsing it as JSON.
pub fn classify_response(body: &str, schema_ok: bool) -> (r: Result<(), SubmitError>)
    ensures
        is_reading(r, reading(body.spec_bytes(), schema_ok, has_error_member(body@)), body@),
{
    let error_member = match member_shape(body, "error") {
        MemberShape::Other => true,
        _ => false,
    };
    classify_body(body, schema_ok, error_member)
}

} // verus!
