//! HTTP headers, held in the HTTP client's own header map.
use reqwest::header::{HeaderMap, HeaderName, HeaderValue};
use vstd::prelude::*;

use crate::text::is_visible;

verus! {

/// The HTTP client's header map.
#[verifier::external_type_specification]
#[verifier::external_body]
#[verifier::reject_recursive_types(T)]
pub struct ExHeaderMap<T>(reqwest::header::HeaderMap<T>);

/// The HTTP client's header value.
#[verifier::external_type_specification]
#[verifier::external_body]
pub struct ExHeaderValue(reqwest::header::HeaderValue);

/// What a header map holds: under each header name, in lower case, the bytes of the first value.
pub uninterp spec fn header_contents(headers: HeaderMap<HeaderValue>) -> Map<Seq<char>, Seq<u8>>;

/// The contents of a header map that holds nothing.
pub open spec fn no_contents() -> Map<Seq<char>, Seq<u8>> {
    Map::empty()
}

/// A header name in lower case, of letters, digits and hyphens.
pub open spec fn is_header_name(name: Seq<char>) -> bool {
    &&& 0 < name.len() <= 64
    &&& forall|i: int|
        0 <= i < name.len() ==> ('a' <= #[trigger] name[i] <= 'z' || '0' <= name[i] <= '9'
            || name[i] == '-')
}

/// A header value of visible ASCII characters.
pub open spec fn is_header_text(value: Seq<char>) -> bool {
    forall|i: int|
        0 <= i < value.len() ==> (#[trigger] value[i] as u32) < 128 && is_visible(value[i] as u8)
}

/// `HeaderMap::new` makes a map that holds nothing.
#[verifier::external_body]
pub(crate) fn no_headers() -> (r: HeaderMap<HeaderValue>)
    ensures
        header_contents(r) == no_contents(),
{
    HeaderMap::new()
}

/// `HeaderMap::insert` on an empty map leaves the one value under the one name. (A map at its
/// size limit would panic; an empty one is far from it.) `HeaderName::from_static` and
/// `HeaderValue::from_static` take the two texts as they are, and panic on none that the two
/// conditions admit.
#[verifier::external_body]
pub(crate) fn insert_first_header(
    headers: &mut HeaderMap<HeaderValue>,
    name: &'static str,
    value: &'static str,
)
    requires
        header_contents(*old(headers)) == no_contents(),
        is_header_name(name@),
        is_header_text(value@),
    ensures
        header_contents(*final(headers)) == no_contents().insert(
            name@,
            value@.map_values(|c: char| c as u8),
        ),
{
    headers.insert(HeaderName::from_static(name), HeaderValue::from_static(value));
}

/// `HeaderMap::get` returns the first value under a name, or nothing where there is none;
/// `HeaderValue::as_bytes` gives the value's bytes.
#[verifier::external_body]
pub(crate) fn header_value<'a>(headers: &'a HeaderMap<HeaderValue>, name: &str) -> (r: Option<
    &'a [u8],
>)
    requires
        is_header_name(name@),
    ensures
        r is Some == header_contents(*headers).contains_key(name@),
        r matches Some(bytes) ==> bytes@ == header_contents(*headers)[name@],
{
    headers.get(name).map(|v| v.as_bytes())
}

} // verus!
