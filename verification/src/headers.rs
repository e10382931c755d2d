//! What is read from HTTP headers.

use vstd::prelude::*;

use crate::text::owned_text_of;

verus! {

/// `http::HeaderMap`, the header fields of a message.
#[verifier::external_type_specification]
#[verifier::external_body]
#[verifier::reject_recursive_types(T)]
pub struct ExHeaderMap<T>(http::HeaderMap<T>);

/// `http::HeaderValue`, the value of one header field.
#[verifier::external_type_specification]
#[verifier::external_body]
pub struct ExHeaderValue(http::HeaderValue);

/// The fields that a header map holds: for each name, in lower case, the bytes
/// of its values in the order in which they were added.
pub uninterp spec fn header_fields(headers: http::HeaderMap<http::HeaderValue>) -> Map<
    Seq<char>,
    Seq<Seq<u8>>,
>;

/// `c` in lower case where it is an ASCII letter.
pub open spec fn lower(c: char) -> char {
    if 'A' <= c && c <= 'Z' {
        ((c as u8) + 32) as char
    } else {
        c
    }
}

/// `name` with its ASCII letters in lower case.
pub open spec fn lowercase(name: Seq<char>) -> Seq<char> {
    Seq::new(name.len(), |i: int| lower(name[i]))
}

/// Whether `name` is a short header name of ASCII letters and hyphens.
pub open spec fn plain_name(name: Seq<char>) -> bool {
    &&& 0 < name.len() <= 64
    &&& forall|i: int|
        0 <= i < name.len() ==> {
            let c = #[trigger] name[i];
            ('a' <= c && c <= 'z') || ('A' <= c && c <= 'Z') || c == '-'
        }
}

/// The first value of the field called `name`, in any case.
pub open spec fn first_value(fields: Map<Seq<char>, Seq<Seq<u8>>>, name: Seq<char>) -> Option<
    Seq<u8>,
> {
    if fields.contains_key(lowercase(name)) {
        Some(fields[lowercase(name)][0])
    } else {
        None
    }
}

/// Whether `b` may stand in a header value that is read as text: a visible
/// ASCII character, a space or a tab.
pub open spec fn visible(b: u8) -> bool {
    32 <= b < 127 || b == 9
}

/// A header value as text, where all its bytes are visible.
pub open spec fn header_text(value: Seq<u8>) -> Option<Seq<char>> {
    if forall|i: int| 0 <= i < value.len() ==> visible(#[trigger] value[i]) {
        Some(Seq::new(value.len(), |i: int| value[i] as char))
    } else {
        None
    }
}

/// The bytes of a value that may be missing.
pub open spec fn bytes_of(value: Option<Vec<u8>>) -> Option<Seq<u8>> {
    match value {
        Some(v) => Some(v@),
        None => None,
    }
}

/// `http::HeaderMap::get`: the first value of the field called `name`, which is
/// looked up without regard to case.
#[verifier::external_body]
pub(crate) fn get_header(
    headers: &http::HeaderMap<http::HeaderValue>,
    name: &str,
) -> (value: Option<Vec<u8>>)
    requires
        plain_name(name@),
    ensures
        bytes_of(value) == first_value(header_fields(*headers), name@),
{
    headers.get(name).map(|value| value.as_bytes().to_vec())
}

/// `http::HeaderValue::to_str` on the value that `http::HeaderValue::from_bytes`
/// makes of `value`: the text where every byte is visible ASCII, a space or a
/// tab, and nothing otherwise.
#[verifier::external_body]
pub(crate) fn header_value_text(value: &Vec<u8>) -> (text: Option<String>)
    ensures
        owned_text_of(text) == header_text(value@),
{
    let value = http::HeaderValue::from_bytes(value).ok()?;
    value.to_str().ok().map(|text| text.to_string())
}

} // verus!
