//! The header map and header values of the `http` crate, as far as the
//! router reads them. Nothing in this file is proved: the contracts restate
//! what `http` documents.

use vstd::prelude::*;

verus! {

#[verifier::external_type_specification]
#[verifier::external_body]
#[verifier::reject_recursive_types(T)]
pub struct ExHeaderMap<T>(http::HeaderMap<T>);

#[verifier::external_type_specification]
#[verifier::external_body]
pub struct ExHeaderValue(http::HeaderValue);

/// The bytes that a header value holds.
pub uninterp spec fn value_bytes(value: http::HeaderValue) -> Seq<u8>;

/// What a header map holds, as far as a lookup shows it: under each header
/// name that is present, in the lower-case form in which the map keeps
/// names, the bytes of the first value stored for it.
pub uninterp spec fn first_values(headers: http::HeaderMap<http::HeaderValue>) -> Map<
    Seq<char>,
    Seq<u8>,
>;

/// No character of `name` is an upper-case ASCII letter, so a lookup by
/// `name` is a lookup by the name as the map keeps it.
pub open spec fn is_lower_case(name: Seq<char>) -> bool {
    forall|i: int| 0 <= i < name.len() ==> !('A' <= #[trigger] name[i] <= 'Z')
}

/// `HeaderMap::get` with a string key. The map finds the entry whose name
/// equals the key without regard to case and hands out the first value
/// stored under it; a key that is no valid header name finds nothing. The
/// contract speaks of lower-case keys only.
#[verifier::external_body]
pub(crate) fn first_value<'a>(
    headers: &'a http::HeaderMap<http::HeaderValue>,
    name: &str,
) -> (found: Option<&'a http::HeaderValue>)
    ensures
        is_lower_case(name@) ==> match found {
            Some(value) => first_values(*headers).contains_key(name@) && value_bytes(*value)
                == first_values(*headers)[name@],
            None => !first_values(*headers).contains_key(name@),
        },
{
    headers.get(name)
}

/// `HeaderValue::as_bytes`: the value's bytes, borrowed.
#[verifier::external_body]
pub(crate) fn bytes_of<'a>(value: &'a http::HeaderValue) -> (bytes: &'a [u8])
    ensures
        bytes@ == value_bytes(*value),
{
    value.as_bytes()
}

} // verus!
