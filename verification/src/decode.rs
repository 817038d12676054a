//! From a status and a body to a document, a typed value, or a failure.

use crate::error::{DecodeFault, Failure, ZuoraError};
use crate::json::{json_model, json_parse, parse_json, Json};
use serde_json::Value;
use vstd::prelude::*;

verus! {

/// Whether a status lies in the success range.
pub open spec fn is_success(status: u16) -> bool {
    200 <= status < 300
}

/// What an answer of the service amounts to: the document in its body where
/// the status reports success and the body is JSON, a failure otherwise. No
/// status outside the success range ever yields a document.
pub open spec fn decoded(status: u16, body: Seq<char>) -> Result<Json, Failure> {
    if !is_success(status) {
        Err(Failure::Api { status, body })
    } else {
        match json_parse(body) {
            Some(doc) => Ok(doc),
            None => Err(Failure::Decode(DecodeFault::Malformed)),
        }
    }
}

/// A type whose values can be read from a JSON document.
pub trait FromJson: View + Sized {
    /// The value that a document describes, if it has the shape of one.
    spec fn described(doc: Json) -> Option<Self::V>;

    /// Reads a value from a document: `Some` exactly for the documents that
    /// describe one.
    fn from_json(v: &Value) -> (r: Option<Self>)
        ensures
            match r {
                Some(t) => Self::described(json_model(*v)) == Some(t@),
                None => Self::described(json_model(*v)) is None,
            },
    ;
}

/// What an answer of the service amounts to when a value of type `T` is
/// expected.
pub open spec fn decoded_as<T: FromJson>(status: u16, body: Seq<char>) -> Result<T::V, Failure> {
    match decoded(status, body) {
        Ok(doc) => match T::described(doc) {
            Some(t) => Ok(t),
            None => Err(Failure::Decode(DecodeFault::Mismatch)),
        },
        Err(failure) => Err(failure),
    }
}

/// A document comes only of a status in the success range.
pub proof fn document_needs_success(status: u16, body: Seq<char>)
    requires
        decoded(status, body) is Ok,
    ensures
        is_success(status),
        json_parse(body) == Some(decoded(status, body)->Ok_0),
{
}

/// A successful status with a body that is not JSON is a decoding failure:
/// never a value, whatever type is expected.
pub proof fn malformed_body_is_refused<T: FromJson>(status: u16, body: Seq<char>)
    requires
        is_success(status),
        json_parse(body) is None,
    ensures
        decoded(status, body) == Err::<Json, Failure>(Failure::Decode(DecodeFault::Malformed)),
        decoded_as::<T>(status, body) == Err::<T::V, Failure>(
            Failure::Decode(DecodeFault::Malformed),
        ),
{
}

pub fn status_is_success(status: u16) -> (r: bool)
    ensures
        r == is_success(status),
{
    200 <= status && status < 300
}

/// Decodes an answer into a document. A status outside the success range
/// fails with the status and the raw body; a body that is not JSON fails as
/// malformed.
pub fn decode(status: u16, body: &str) -> (r: Result<Value, ZuoraError>)
    ensures
        match r {
            Ok(v) => decoded(status, body@) == Ok::<Json, Failure>(json_model(v)),
            Err(e) => decoded(status, body@) == Err::<Json, Failure>(e@),
        },
{
    if !status_is_success(status) {
        return Err(ZuoraError::Api { status, body: body.to_owned() });
    }
    match parse_json(body) {
        Ok(v) => Ok(v),
        Err(_) => Err(ZuoraError::Decode(DecodeFault::Malformed)),
    }
}

/// Reads a value of type `T` from a document, failing with a mismatch where
/// the document has another shape.
pub fn read<T: FromJson>(v: &Value) -> (r: Result<T, ZuoraError>)
    ensures
        match r {
            Ok(t) => T::described(json_model(*v)) == Some(t@),
            Err(e) => T::described(json_model(*v)) is None && e@ == Failure::Decode(
                DecodeFault::Mismatch,
            ),
        },
{
    match T::from_json(v) {
        Some(t) => Ok(t),
        None => Err(ZuoraError::Decode(DecodeFault::Mismatch)),
    }
}

/// Decodes an answer into a value of type `T`.
pub fn decode_as<T: FromJson>(status: u16, body: &str) -> (r: Result<T, ZuoraError>)
    ensures
        match r {
            Ok(t) => decoded_as::<T>(status, body@) == Ok::<T::V, Failure>(t@),
            Err(e) => decoded_as::<T>(status, body@) == Err::<T::V, Failure>(e@),
        },
{
    match decode(status, body) {
        Ok(v) => read::<T>(&v),
        Err(e) => Err(e),
    }
}

} // verus!
