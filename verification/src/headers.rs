//! Reading the request's header map.

use crate::ascii::{
    bytes_eq_ignore_ascii_case, contains_bytes, contains_subslice, eq_ignoring_case, lowered,
    lowered_chars, to_ascii_lowercase,
};
use axum::http::header::{HeaderMap, HeaderValue};
use vstd::prelude::*;
use vstd::string::*;

verus! {

/// `http::HeaderValue`: the bytes of one header value.
#[verifier::external_type_specification]
#[verifier::external_body]
pub struct ExHeaderValue(HeaderValue);

/// `http::HeaderMap`: the multimap from header names to header values.
#[verifier::external_type_specification]
#[verifier::external_body]
#[verifier::reject_recursive_types(T)]
pub struct ExHeaderMap<T>(HeaderMap<T>);

/// What a header map holds: for each header name that occurs, in lower case,
/// the bytes of its values, the value that came first in front.
pub uninterp spec fn header_fields(headers: HeaderMap<HeaderValue>) -> Map<Seq<char>, Seq<Seq<u8>>>;

/// The first value that `fields` holds under `name`. Header names do not
/// distinguish the case of ASCII letters.
pub open spec fn first_value(fields: Map<Seq<char>, Seq<Seq<u8>>>, name: Seq<char>) -> Option<
    Seq<u8>,
> {
    let key = lowered_chars(name);
    if fields.dom().contains(key) {
        Some(fields[key].first())
    } else {
        None
    }
}

/// Whether the first value under `name` equals `value` up to the case of
/// ASCII letters.
pub open spec fn field_equals(
    fields: Map<Seq<char>, Seq<Seq<u8>>>,
    name: Seq<char>,
    value: Seq<u8>,
) -> bool {
    match first_value(fields, name) {
        Some(found) => eq_ignoring_case(found, value),
        None => false,
    }
}

/// Whether the first value under `name`, in lower case, has `value` as a
/// contiguous part.
pub open spec fn field_contains(
    fields: Map<Seq<char>, Seq<Seq<u8>>>,
    name: Seq<char>,
    value: Seq<u8>,
) -> bool {
    match first_value(fields, name) {
        Some(found) => contains_bytes(lowered(found), value),
        None => false,
    }
}

/// `HeaderMap::get` with a string key, followed by `HeaderValue::as_bytes`.
///
/// Trusted: the result is the first value stored under the name, which the
/// map looks up without regard to the case of ASCII letters, and `None` where
/// the map holds no value under it (a string that is no header name is the
/// name of no value).
#[verifier::external_body]
pub(crate) fn header_get<'a>(headers: &'a HeaderMap<HeaderValue>, name: &str) -> (value: Option<
    &'a [u8],
>)
    ensures
        match value {
            Some(bytes) => first_value(header_fields(*headers), name@) == Some(bytes@),
            None => first_value(header_fields(*headers), name@) is None,
        },
{
    match headers.get(name) {
        Some(value) => Some(value.as_bytes()),
        None => None,
    }
}

/// Whether the header `key` is present and its first value equals `value`
/// without regard to the case of ASCII letters.
pub fn header_eq(headers: &HeaderMap<HeaderValue>, key: &str, value: &str) -> (r: bool)
    ensures
        r == field_equals(header_fields(*headers), key@, value.spec_bytes()),
{
    if let Some(header) = header_get(headers, key) {
        bytes_eq_ignore_ascii_case(header, value.as_bytes())
    } else {
        false
    }
}

/// Whether the header `key` is present and its first value, in lower case,
/// contains `value`.
pub fn header_contains(headers: &HeaderMap<HeaderValue>, key: &str, value: &str) -> (r: bool)
    ensures
        r == field_contains(header_fields(*headers), key@, value.spec_bytes()),
{
    let header = if let Some(header) = header_get(headers, key) {
        header
    } else {
        return false;
    };
    let lower = to_ascii_lowercase(header);
    contains_subslice(lower.as_slice(), value.as_bytes())
}

} // verus!
