//! The content sniffer: a request is a gRPC request when the raw bytes of
//! its content type begin with the gRPC media type. The bytes need not be
//! text.

use crate::bytes::starts_with;
use crate::headers::{bytes_of, first_value, first_values};
use crate::readiness::Backend;
use vstd::prelude::*;
use vstd::string::{is_ascii_spec_bytes, StringSliceAdditionalSpecFns};
use vstd::utf8::is_ascii_chars;

verus! {

/// The bytes with which the content type of every gRPC request begins.
pub open spec fn grpc_media_type() -> Seq<u8> {
    "application/grpc".spec_bytes()
}

/// The name under which a request declares its content type.
pub open spec fn content_type_name() -> Seq<char> {
    "content-type"@
}

/// Whether a declared content type, if there is one, marks a gRPC request.
/// The match is on bytes and exact in case; what follows the prefix is free.
pub open spec fn is_grpc_content_type(content_type: Option<Seq<u8>>) -> bool {
    match content_type {
        Some(value) => grpc_media_type().is_prefix_of(value),
        None => false,
    }
}

/// The backend that takes a request with this content type.
pub open spec fn route(content_type: Option<Seq<u8>>) -> Backend {
    if is_grpc_content_type(content_type) {
        Backend::Grpc
    } else {
        Backend::Rest
    }
}

/// A borrowed content type as the sequence of its bytes.
pub open spec fn declared(content_type: Option<&[u8]>) -> Option<Seq<u8>> {
    match content_type {
        Some(value) => Some(value@),
        None => None,
    }
}

/// Classifies a content type given as raw bytes, or its absence.
pub fn classify(content_type: Option<&[u8]>) -> (target: Backend)
    ensures
        target == route(declared(content_type)),
        content_type is None ==> target == Backend::Rest,
{
    match content_type {
        Some(value) => {
            if starts_with(value, "application/grpc".as_bytes()) {
                Backend::Grpc
            } else {
                Backend::Rest
            }
        },
        None => Backend::Rest,
    }
}

/// Looks up the content type among a request's headers.
pub fn content_type<'a>(headers: &'a http::HeaderMap<http::HeaderValue>) -> (found: Option<
    &'a [u8],
>)
    ensures
        declared(found) == first_values(*headers).get(content_type_name()),
{
    proof {
        reveal_strlit("content-type");
    }
    match first_value(headers, "content-type") {
        Some(value) => Some(bytes_of(value)),
        None => None,
    }
}

/// Whether the request with these headers is a gRPC request.
pub fn is_grpc_request(headers: &http::HeaderMap<http::HeaderValue>) -> (grpc: bool)
    ensures
        grpc == is_grpc_content_type(first_values(*headers).get(content_type_name())),
        !first_values(*headers).contains_key(content_type_name()) ==> !grpc,
{
    match classify(content_type(headers)) {
        Backend::Grpc => true,
        Backend::Rest => false,
    }
}

/// The gRPC media type is the text `application/grpc` in ASCII.
pub proof fn grpc_media_type_in_bytes()
    ensures
        grpc_media_type() == seq![
            97u8, 112u8, 112u8, 108u8, 105u8, 99u8, 97u8, 116u8, 105u8, 111u8, 110u8, 47u8, 103u8,
            114u8, 112u8, 99u8,
        ],
{
    reveal_strlit("application/grpc");
    let text = "application/grpc";
    assert(is_ascii_chars(text@));
    is_ascii_spec_bytes(text);
    assert(grpc_media_type() =~= seq![
        97u8, 112u8, 112u8, 108u8, 105u8, 99u8, 97u8, 116u8, 105u8, 111u8, 110u8, 47u8, 103u8,
        114u8, 112u8, 99u8,
    ]);
}

/// A request is sent to the gRPC backend exactly when it declares a content
/// type whose bytes begin with the gRPC media type, and to the plain
/// backend otherwise; one that declares none goes to the plain backend.
/// Whatever follows the media type, the request goes to the gRPC backend.
pub proof fn law_route_by_prefix(content_type: Option<Seq<u8>>)
    ensures
        route(content_type) == Backend::Grpc <==> content_type is Some
            && grpc_media_type().is_prefix_of(content_type->0),
        route(content_type) == Backend::Rest <==> !(content_type is Some
            && grpc_media_type().is_prefix_of(content_type->0)),
        content_type is None ==> route(content_type) == Backend::Rest,
        forall|rest: Seq<u8>| route(Some(#[trigger] (grpc_media_type() + rest))) == Backend::Grpc,
{
    assert forall|rest: Seq<u8>| route(Some(#[trigger] (grpc_media_type() + rest)))
        == Backend::Grpc by {
        let whole = grpc_media_type() + rest;
        assert(whole.subrange(0, grpc_media_type().len() as int) =~= grpc_media_type());
    }
}

} // verus!
