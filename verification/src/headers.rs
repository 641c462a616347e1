//! HTTP headers, as the `http` crate holds them.

use axum::http::{header, HeaderMap, HeaderValue};
use vstd::prelude::*;
use vstd::string::*;

verus! {

/// The headers of a request or a response.
#[verifier::external_type_specification]
#[verifier::external_body]
#[verifier::reject_recursive_types(T)]
pub struct ExHeaderMap<T>(axum::http::HeaderMap<T>);

/// The value of one header field.
#[verifier::external_type_specification]
#[verifier::external_body]
pub struct ExHeaderValue(axum::http::HeaderValue);

/// The values of the fields of a header map, by the field's lower-case name,
/// each in the order in which they were added.
pub uninterp spec fn fields_of(headers: HeaderMap<HeaderValue>) -> Map<Seq<char>, Seq<Seq<u8>>>;

/// What `HeaderValue::as_bytes` returns.
pub uninterp spec fn value_bytes(value: HeaderValue) -> Seq<u8>;

/// The values of the field with the given name; none when there is no such
/// field.
pub open spec fn values_of(headers: HeaderMap<HeaderValue>, name: Seq<char>) -> Seq<Seq<u8>> {
    if fields_of(headers).dom().contains(name) {
        fields_of(headers)[name]
    } else {
        Seq::empty()
    }
}

/// A byte that a header value may hold and still be text: printable ASCII or a
/// tab.
pub open spec fn is_visible(b: u8) -> bool {
    32 <= b < 127 || b == 9
}

/// Whether a header value is text.
pub open spec fn is_text(bytes: Seq<u8>) -> bool {
    forall|i: int| 0 <= i < bytes.len() ==> is_visible(#[trigger] bytes[i])
}

/// The text that ASCII bytes spell.
pub open spec fn text_of(bytes: Seq<u8>) -> Seq<char> {
    Seq::new(bytes.len(), |i: int| bytes[i] as char)
}

/// A byte that a header value may hold: no control character but the tab.
pub open spec fn is_permitted(b: u8) -> bool {
    32 <= b && b != 127 || b == 9
}

/// Whether a text can stand as a header value.
pub open spec fn is_header_text(text: Seq<char>) -> bool {
    forall|i: int|
        0 <= i < vstd::utf8::encode_utf8(text).len() ==> is_permitted(
            #[trigger] vstd::utf8::encode_utf8(text)[i],
        )
}

/// How many different fields a header map may have for one more to be added
/// for certain: below this, a fifth of the largest table, the map never has to
/// outgrow that table.
pub const FIELDS_LIMIT: usize = 6554;

/// Whether there is room in a header map for one more field.
pub open spec fn has_room(headers: HeaderMap<HeaderValue>) -> bool {
    &&& fields_of(headers).dom().finite()
    &&& fields_of(headers).dom().len() < FIELDS_LIMIT
}

/// `HeaderMap::get_all`, for the `Cookie` field: its values, in order.
#[verifier::external_body]
pub(crate) fn cookie_values(headers: &HeaderMap<HeaderValue>) -> (values: Vec<&HeaderValue>)
    ensures
        values@.map_values(|v: &HeaderValue| value_bytes(*v)) == values_of(*headers, "cookie"@),
{
    headers.get_all(header::COOKIE).iter().collect()
}

/// `HeaderMap::get`, for the `Authorization` field: its first value.
#[verifier::external_body]
pub(crate) fn authorization_value(headers: &HeaderMap<HeaderValue>) -> (value: Option<&HeaderValue>)
    ensures
        match value {
            Some(v) => {
                &&& values_of(*headers, "authorization"@).len() > 0
                &&& value_bytes(*v) == values_of(*headers, "authorization"@)[0]
            },
            None => values_of(*headers, "authorization"@).len() == 0,
        },
{
    headers.get(header::AUTHORIZATION)
}

/// `HeaderMap::try_append`, for the `Set-Cookie` field: adds a value after those
/// that the field has, and leaves the other fields as they are; or changes nothing,
/// when the map would outgrow its largest table, which no map with fewer than
/// `FIELDS_LIMIT` different fields does.
#[verifier::external_body]
pub(crate) fn append_set_cookie(headers: &mut HeaderMap<HeaderValue>, value: HeaderValue) -> (added:
    bool)
    ensures
        added ==> fields_of(*final(headers)) == fields_of(*old(headers)).insert("set-cookie"@, values_of(*old(headers), "set-cookie"@).push(value_bytes(value))),
        !added ==> fields_of(*final(headers)) == fields_of(*old(headers)),
        has_room(*old(headers)) ==> added,
{
    headers.try_append(header::SET_COOKIE, value).is_ok()
}

/// `HeaderValue::to_str`: the value as text, if all of its bytes are visible.
#[verifier::external_body]
pub(crate) fn visible_text(value: &HeaderValue) -> (text: Option<&str>)
    ensures
        match text {
            Some(t) => is_text(value_bytes(*value)) && t@ == text_of(value_bytes(*value)),
            None => !is_text(value_bytes(*value)),
        },
{
    value.to_str().ok()
}

/// `HeaderValue::from_str`: the value with the bytes of a text, if each of them
/// is permitted.
#[verifier::external_body]
pub(crate) fn header_value(text: &str) -> (value: Option<HeaderValue>)
    ensures
        match value {
            Some(v) => is_header_text(text@) && value_bytes(v) == vstd::utf8::encode_utf8(text@),
            None => !is_header_text(text@),
        },
{
    HeaderValue::from_str(text).ok()
}

} // verus!
