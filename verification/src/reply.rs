use vstd::prelude::*;
use std::collections::HashMap;
use crate::consul_error::ConsulError;
use crate::text::{contains_seq, lowercase, str_contains, to_lowercase};

verus! {

/// The status code of a successful reply, `200 OK`.
pub const STATUS_OK: u16 = 200;

/// The result of sending a request or reading its reply: `None` stands for a
/// transport that failed, which is an `HTTPFailure`.
pub fn http_result<T>(outcome: Option<T>) -> (r: Result<T, ConsulError>)
    ensures
        r == match outcome {
            Some(v) => Ok(v),
            None => Err::<T, ConsulError>(ConsulError::HTTPFailure),
        },
{
    match outcome {
        Some(v) => Ok(v),
        None => Err(ConsulError::HTTPFailure),
    }
}

/// The result of encoding or decoding a JSON body: `None` stands for a body
/// that could not be encoded or decoded, which is a `BadJSON`.
pub fn json_result<T>(outcome: Option<T>) -> (r: Result<T, ConsulError>)
    ensures
        r == match outcome {
            Some(v) => Ok(v),
            None => Err::<T, ConsulError>(ConsulError::BadJSON),
        },
{
    match outcome {
        Some(v) => Ok(v),
        None => Err(ConsulError::BadJSON),
    }
}

/// What a call that only checks the reply's status comes to: success for
/// `200 OK`, a `RemoteFailure` for any other status.
pub fn status_result(status: u16) -> (r: Result<(), ConsulError>)
    ensures
        r == if status == STATUS_OK {
            Ok(())
        } else {
            Err::<(), ConsulError>(ConsulError::RemoteFailure)
        },
{
    if status == STATUS_OK {
        Ok(())
    } else {
        Err(ConsulError::RemoteFailure)
    }
}

/// Whether a body, already in lowercase, acknowledges a write: it holds the
/// word `true`.
pub fn acknowledged(lowered: &str) -> (r: bool)
    ensures
        r == contains_seq(lowered@, "true"@),
{
    str_contains(lowered, "true")
}

/// What a key-value write comes to, from the body of its reply (`None` where
/// it could not be read) and its status: a body that could not be read is an
/// `HTTPFailure`; else a status other than `200 OK` is a `RemoteFailure`; else
/// the write was applied exactly when the body, in lowercase, holds `true`.
pub fn set_result(body: Option<String>, status: u16) -> (r: Result<bool, ConsulError>)
    ensures
        r == match body {
            None => Err::<bool, ConsulError>(ConsulError::HTTPFailure),
            Some(b) => if status == STATUS_OK {
                Ok(contains_seq(lowercase(b@), "true"@))
            } else {
                Err::<bool, ConsulError>(ConsulError::RemoteFailure)
            },
        },
{
    match body {
        None => Err(ConsulError::HTTPFailure),
        Some(b) => {
            if status == STATUS_OK {
                let lowered = to_lowercase(b.as_str());
                Ok(acknowledged(lowered.as_str()))
            } else {
                Err(ConsulError::RemoteFailure)
            }
        },
    }
}

/// Names what `rustc_serialize::json::decode` gives for `body` read as a map
/// from strings to lists of strings (a JSON object whose members are arrays of
/// strings): the map, or `None` where decoding fails.
pub uninterp spec fn decoded_string_lists(body: Seq<char>) -> Option<
    Map<Seq<char>, Seq<Seq<char>>>,
>;

/// Calls `rustc_serialize::json::decode` into `HashMap<String, Vec<String>>`.
/// Claimed: it succeeds exactly where [`decoded_string_lists`] is `Some`, and
/// then the map's contents are what that name holds.
#[verifier::external_body]
pub(crate) fn decode_string_lists(body: &str) -> (r: Option<HashMap<String, Vec<String>>>)
    ensures
        match r {
            Some(m) => decoded_string_lists(body@) == Some(m.deep_view()),
            None => decoded_string_lists(body@) is None,
        },
{
    rustc_serialize::json::decode(body).ok()
}

/// What a call whose reply is a map from names to lists of strings comes to
/// (the catalog's and the store's service lists), from the body of the reply
/// (`None` where it could not be read): an `HTTPFailure` where it could not
/// be read, a `BadJSON` where it does not decode, else the decoded map.
pub fn string_lists_result(body: Option<String>) -> (r: Result<
    HashMap<String, Vec<String>>,
    ConsulError,
>)
    ensures
        match body {
            None => r == Err::<HashMap<String, Vec<String>>, ConsulError>(ConsulError::HTTPFailure),
            Some(b) => match decoded_string_lists(b@) {
                Some(m) => r matches Ok(v) && v.deep_view() == m,
                None => r == Err::<HashMap<String, Vec<String>>, ConsulError>(ConsulError::BadJSON),
            },
        },
{
    match body {
        None => Err(ConsulError::HTTPFailure),
        Some(b) => match decode_string_lists(b.as_str()) {
            Some(m) => Ok(m),
            None => Err(ConsulError::BadJSON),
        },
    }
}

} // verus!
