//! Telling a request that was turned away for the moment from one that
//! failed for good.
//!
//! The remote reports a failure as a JSON object. Its member `__type` names
//! the kind of failure, and one name stands for a rate limit. A failure of
//! any other shape is final.

use crate::errors::{DescribeVpcsError, LookupEventsError};
use crate::text::opt_text;
use vstd::prelude::*;

verus! {

#[verifier::external_type_specification]
#[verifier::external_body]
pub struct ExJsonValue(serde_json::Value);

/// The JSON document that the bytes `body` hold, if they hold one.
pub uninterp spec fn json_document(body: Seq<u8>) -> Option<serde_json::Value>;

/// The member `key` of `value`, if `value` is an object that has it.
pub uninterp spec fn json_member(value: serde_json::Value, key: Seq<char>) -> Option<
    serde_json::Value,
>;

/// The text of `value`, if `value` is a string.
pub uninterp spec fn json_string(value: serde_json::Value) -> Option<Seq<char>>;

/// Reads `body` as one JSON document.
///
/// Trusted: calls `serde_json::from_slice`, whose result depends on the bytes
/// alone. Bytes that are no JSON document give `None`.
#[verifier::external_body]
fn parse_json(body: &[u8]) -> (r: Option<serde_json::Value>)
    ensures
        r == json_document(body@),
{
    serde_json::from_slice::<serde_json::Value>(body).ok()
}

/// Looks up the member `key` of `value`.
///
/// Trusted: calls `serde_json::Value::get` with a string index, which finds
/// a member only in an object.
#[verifier::external_body]
fn member<'a>(value: &'a serde_json::Value, key: &str) -> (r: Option<&'a serde_json::Value>)
    ensures
        match r {
            Some(found) => json_member(*value, key@) == Some(*found),
            None => json_member(*value, key@) is None,
        },
{
    value.get(key)
}

/// Reads `value` as a string.
///
/// Trusted: calls `serde_json::Value::as_str`, which hands out the text of a
/// string and nothing for any other value.
#[verifier::external_body]
fn string_of<'a>(value: &'a serde_json::Value) -> (r: Option<&'a str>)
    ensures
        match r {
            Some(text) => json_string(*value) == Some(text@),
            None => json_string(*value) is None,
        },
{
    value.as_str()
}

/// The kind of failure that the remote names in `body`: the text of the
/// member `__type`, where `body` is a JSON object with such a member that is
/// a string.
pub open spec fn spec_error_type(body: Seq<u8>) -> Option<Seq<char>> {
    match json_document(body) {
        Some(document) => match json_member(document, "__type"@) {
            Some(kind) => json_string(kind),
            None => None,
        },
        None => None,
    }
}

/// The kind of failure that the remote names in `body`, if it names one.
pub fn error_type(body: &[u8]) -> (r: Option<String>)
    ensures
        match r {
            Some(kind) => spec_error_type(body@) == Some(kind@),
            None => spec_error_type(body@) is None,
        },
{
    match parse_json(body) {
        Some(document) => match member(&document, "__type") {
            Some(kind) => match string_of(kind) {
                Some(text) => Some(text.to_owned()),
                None => None,
            },
            None => None,
        },
        None => None,
    }
}

/// Whether a failure of the kind `kind` is a rate limit. A failure that
/// names no kind is none.
pub open spec fn spec_is_throttling_type(kind: Option<Seq<char>>) -> bool {
    kind == Some("ThrottlingException"@)
}

/// Whether a failure of the kind `kind` is a rate limit.
pub fn is_throttling_type(kind: &Option<String>) -> (r: bool)
    ensures
        r == spec_is_throttling_type(opt_text(*kind)),
{
    match kind {
        Some(text) => {
            let throttling = "ThrottlingException".to_owned();
            *text == throttling
        },
        None => false,
    }
}

/// Whether the body of a failed request reports a rate limit.
pub open spec fn spec_body_is_throttle(body: Seq<u8>) -> bool {
    spec_is_throttling_type(spec_error_type(body))
}

/// Whether the body of a failed request reports a rate limit.
pub fn body_is_throttle(body: &[u8]) -> (r: bool)
    ensures
        r == spec_body_is_throttle(body@),
{
    let kind = error_type(body);
    is_throttling_type(&kind)
}

/// A failure that may be a rate limit: the request is then to be repeated
/// after a delay, and is no failure of the sequence.
pub trait IsThrottle {
    spec fn spec_is_throttle(&self) -> bool;

    fn is_throttle(&self) -> (r: bool)
        ensures
            r == self.spec_is_throttle(),
    ;
}

impl IsThrottle for LookupEventsError {
    /// Only an answer of the remote can report a rate limit.
    open spec fn spec_is_throttle(&self) -> bool {
        match *self {
            LookupEventsError::Unknown(failure) => spec_body_is_throttle(failure.body@),
            LookupEventsError::Other(_) => false,
        }
    }

    fn is_throttle(&self) -> (r: bool) {
        match self {
            LookupEventsError::Unknown(failure) => body_is_throttle(failure.body.as_slice()),
            LookupEventsError::Other(_) => false,
        }
    }
}

impl IsThrottle for DescribeVpcsError {
    /// Only an answer of the remote can report a rate limit.
    open spec fn spec_is_throttle(&self) -> bool {
        match *self {
            DescribeVpcsError::Unknown(failure) => spec_body_is_throttle(failure.body@),
            DescribeVpcsError::Other(_) => false,
        }
    }

    fn is_throttle(&self) -> (r: bool) {
        match self {
            DescribeVpcsError::Unknown(failure) => body_is_throttle(failure.body.as_slice()),
            DescribeVpcsError::Other(_) => false,
        }
    }
}

} // verus!
