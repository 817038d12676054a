//! Header maps.
//!
//! Headers are kept in the `HeaderMap` of the `http` crate, as `reqwest`
//! hands it on. What a map holds is described by [`header_fields`]; the
//! functions marked `external_body` are believed, not proved.

use reqwest::header::{HeaderMap, HeaderName, HeaderValue, InvalidHeaderValue};
use vstd::prelude::*;

verus! {

#[verifier::external_type_specification]
#[verifier::external_body]
#[verifier::reject_recursive_types(T)]
pub struct ExHeaderMap<T>(reqwest::header::HeaderMap<T>);

#[verifier::external_type_specification]
#[verifier::external_body]
pub struct ExHeaderValue(reqwest::header::HeaderValue);

#[verifier::external_type_specification]
#[verifier::external_body]
pub struct ExHeaderName(reqwest::header::HeaderName);

#[verifier::external_type_specification]
#[verifier::external_body]
pub struct ExInvalidHeaderValue(reqwest::header::InvalidHeaderValue);

/// Headers as a mathematical map, from names to the bytes of values.
pub type HeaderFields = Map<Seq<char>, Seq<u8>>;

/// The headers of a map: for each name that occurs, the bytes of the first
/// value stored under it.
pub uninterp spec fn header_fields(map: HeaderMap) -> HeaderFields;

/// The bytes of a header value.
pub uninterp spec fn header_value_bytes(value: HeaderValue) -> Seq<u8>;

/// The text of a header name, in lower case.
pub uninterp spec fn header_name_text(name: HeaderName) -> Seq<char>;

/// The largest number of names in a map to which this library adds one.
pub const HEADER_ROOM: usize = 1024;

/// A byte that a header value may hold: a horizontal tab, or anything from
/// the space upwards but the delete character.
pub open spec fn is_header_byte(b: u8) -> bool {
    (b >= 32 && b != 127) || b == 9
}

/// Whether a sequence of bytes can be a header value.
pub open spec fn is_header_text(bytes: Seq<u8>) -> bool {
    forall|i: int| 0 <= i < bytes.len() ==> is_header_byte(#[trigger] bytes[i])
}

/// Calls `HeaderMap::new`: a map without headers.
#[verifier::external_body]
pub(crate) fn new_header_map() -> (r: HeaderMap)
    ensures
        header_fields(r) == HeaderFields::empty(),
{
    HeaderMap::new()
}

/// Calls `HeaderValue::from_str`: the value made of the bytes of the text,
/// or an error where one of them is not a byte that a header value may hold.
#[verifier::external_body]
pub(crate) fn header_value(text: &str) -> (r: Result<HeaderValue, InvalidHeaderValue>)
    ensures
        r is Ok <==> is_header_text(vstd::utf8::encode_utf8(text@)),
        r is Ok ==> header_value_bytes(r->Ok_0) == vstd::utf8::encode_utf8(text@),
{
    HeaderValue::from_str(text)
}

/// Calls `HeaderMap::insert`: the value replaces whatever the map held under
/// the name, and the first value held before is returned. The call is made
/// only on a map that is far from the size at which `insert` gives up.
#[verifier::external_body]
pub(crate) fn insert_header(map: &mut HeaderMap, name: HeaderName, value: HeaderValue) -> (r:
    Option<HeaderValue>)
    requires
        header_fields(*old(map)).dom().finite(),
        header_fields(*old(map)).dom().len() < HEADER_ROOM,
    ensures
        header_fields(*final(map)) == header_fields(*old(map)).insert(
            header_name_text(name),
            header_value_bytes(value),
        ),
        r is Some <==> header_fields(*old(map)).contains_key(header_name_text(name)),
        r is Some ==> header_value_bytes(r->Some_0) == header_fields(*old(map))[header_name_text(
            name,
        )],
{
    map.insert(name, value)
}

/// The constant `AUTHORIZATION`: the name `authorization`.
#[verifier::external_body]
pub(crate) fn authorization() -> (r: HeaderName)
    ensures
        header_name_text(r) == "authorization"@,
{
    reqwest::header::AUTHORIZATION
}

/// The constant `CONTENT_TYPE`: the name `content-type`.
#[verifier::external_body]
pub(crate) fn content_type() -> (r: HeaderName)
    ensures
        header_name_text(r) == "content-type"@,
{
    reqwest::header::CONTENT_TYPE
}

/// A text of printable ASCII characters can be a header value, and its
/// bytes are as many as its characters.
pub proof fn printable_text_is_header_text(text: Seq<char>)
    requires
        forall|i: int| 0 <= i < text.len() ==> ' ' <= #[trigger] text[i] <= '~',
    ensures
        is_header_text(vstd::utf8::encode_utf8(text)),
        vstd::utf8::encode_utf8(text).len() == text.len(),
{
    assert(vstd::utf8::is_ascii_chars(text));
    vstd::utf8::is_ascii_chars_encode_utf8(text);
    let bytes = vstd::utf8::encode_utf8(text);
    assert forall|i: int| 0 <= i < bytes.len() implies is_header_byte(#[trigger] bytes[i]) by {
        assert(' ' <= text[i] <= '~');
        assert(bytes[i] == text[i] as u8);
    }
}

} // verus!
