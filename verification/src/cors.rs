//! The cross-origin policy that wraps both backends: which origins are let
//! in, which request headers are advertised, and which methods each backend
//! accepts.

use crate::bytes::{ends_with, starts_with};
use crate::headers::{bytes_of, value_bytes};
use vstd::prelude::*;
use vstd::string::{is_ascii_spec_bytes, StringSliceAdditionalSpecFns};
use vstd::utf8::is_ascii_chars;

verus! {

/// An HTTP method that the policy can permit.
#[derive(Clone, Copy, Debug, PartialEq, Eq, Structural)]
pub enum Verb {
    Get,
    Post,
    Put,
    Delete,
    Options,
}

/// The domain suffix of the trusted origins.
pub open spec fn trusted_suffix() -> Seq<u8> {
    "xambit.io".spec_bytes()
}

/// The prefix of the origins used in local development.
pub open spec fn local_prefix() -> Seq<u8> {
    "http://localhost".spec_bytes()
}

/// An origin is let in when it is empty, ends with the trusted domain, or
/// begins with the local-development prefix.
pub open spec fn is_allowed_origin(origin: Seq<u8>) -> bool {
    origin.len() == 0 || trusted_suffix().is_suffix_of(origin) || local_prefix().is_prefix_of(
        origin,
    )
}

/// A character of a header name as this policy writes them: a lower-case
/// letter, a digit or a hyphen.
pub open spec fn is_name_char(c: char) -> bool {
    ('a' <= c && c <= 'z') || ('0' <= c && c <= '9') || c == '-'
}

/// A header name made of such characters, neither empty nor longer than 64.
pub open spec fn is_plain_name(name: Seq<char>) -> bool {
    0 < name.len() <= 64 && forall|i: int| 0 <= i < name.len() ==> is_name_char(#[trigger] name[i])
}

/// The request headers that both backends advertise, in order.
pub open spec fn header_names() -> Seq<Seq<char>> {
    seq![
        "accept"@,
        "host"@,
        "content-type"@,
        "x-c"@,
        "x-u"@,
        "x-a"@,
        "x-o"@,
        "x-rsa"@,
        "x-auth"@,
        "x-ua"@,
        "x-host"@,
        "x-key"@,
        "x-app"@,
        "x-rqid"@,
        "x-provider"@,
        "x-grpc-web"@,
        "x-user-agent"@,
    ]
}

/// The methods that the plain backend accepts, in order.
pub open spec fn rest_method_list() -> Seq<Verb> {
    seq![Verb::Post, Verb::Put, Verb::Delete, Verb::Get, Verb::Options]
}

/// The methods that the gRPC backend accepts.
pub open spec fn grpc_method_list() -> Seq<Verb> {
    seq![Verb::Post]
}

/// Decides whether a request from `origin`, given as raw bytes, is let in.
pub fn origin_allowed(origin: &[u8]) -> (allowed: bool)
    ensures
        allowed == is_allowed_origin(origin@),
{
    origin.len() == 0 || ends_with(origin, "xambit.io".as_bytes()) || starts_with(
        origin,
        "http://localhost".as_bytes(),
    )
}

/// Decides whether a request whose origin header holds `origin` is let in.
pub fn origin_accepted(origin: &http::HeaderValue) -> (allowed: bool)
    ensures
        allowed == is_allowed_origin(value_bytes(*origin)),
{
    origin_allowed(bytes_of(origin))
}

/// The advertised header names. Each is a plain name.
pub fn allowed_headers() -> (names: Vec<&'static str>)
    ensures
        names@.len() == header_names().len(),
        forall|i: int| 0 <= i < names@.len() ==> (#[trigger] names@[i])@ == header_names()[i],
        forall|i: int| 0 <= i < names@.len() ==> is_plain_name((#[trigger] names@[i])@),
{
    proof {
        reveal_strlit("accept");
        reveal_strlit("host");
        reveal_strlit("content-type");
        reveal_strlit("x-c");
        reveal_strlit("x-u");
        reveal_strlit("x-a");
        reveal_strlit("x-o");
        reveal_strlit("x-rsa");
        reveal_strlit("x-auth");
        reveal_strlit("x-ua");
        reveal_strlit("x-host");
        reveal_strlit("x-key");
        reveal_strlit("x-app");
        reveal_strlit("x-rqid");
        reveal_strlit("x-provider");
        reveal_strlit("x-grpc-web");
        reveal_strlit("x-user-agent");
    }
    vec![
        "accept",
        "host",
        "content-type",
        "x-c",
        "x-u",
        "x-a",
        "x-o",
        "x-rsa",
        "x-auth",
        "x-ua",
        "x-host",
        "x-key",
        "x-app",
        "x-rqid",
        "x-provider",
        "x-grpc-web",
        "x-user-agent",
    ]
}

/// The methods that the plain backend accepts.
pub fn rest_methods() -> (methods: Vec<Verb>)
    ensures
        methods@ == rest_method_list(),
{
    let methods = vec![Verb::Post, Verb::Put, Verb::Delete, Verb::Get, Verb::Options];
    assert(methods@ =~= rest_method_list());
    methods
}

/// The methods that the gRPC backend accepts.
pub fn grpc_methods() -> (methods: Vec<Verb>)
    ensures
        methods@ == grpc_method_list(),
{
    let methods = vec![Verb::Post];
    assert(methods@ =~= grpc_method_list());
    methods
}

/// The trusted suffix is the text `xambit.io` in ASCII, and the local
/// prefix the text `http://localhost`.
pub proof fn origin_marks_in_bytes()
    ensures
        trusted_suffix() == seq![120u8, 97u8, 109u8, 98u8, 105u8, 116u8, 46u8, 105u8, 111u8],
        local_prefix() == seq![
            104u8, 116u8, 116u8, 112u8, 58u8, 47u8, 47u8, 108u8, 111u8, 99u8, 97u8, 108u8, 104u8,
            111u8, 115u8, 116u8,
        ],
{
    reveal_strlit("xambit.io");
    reveal_strlit("http://localhost");
    let suffix = "xambit.io";
    let prefix = "http://localhost";
    assert(is_ascii_chars(suffix@));
    assert(is_ascii_chars(prefix@));
    is_ascii_spec_bytes(suffix);
    is_ascii_spec_bytes(prefix);
    assert(trusted_suffix() =~= seq![
        120u8, 97u8, 109u8, 98u8, 105u8, 116u8, 46u8, 105u8, 111u8,
    ]);
    assert(local_prefix() =~= seq![
        104u8, 116u8, 116u8, 112u8, 58u8, 47u8, 47u8, 108u8, 111u8, 99u8, 97u8, 108u8, 104u8,
        111u8, 115u8, 116u8,
    ]);
}

/// The empty origin is let in, and so is every origin made of the local
/// prefix and anything behind it, or of anything and the trusted suffix
/// behind it. An origin that is not empty is let in on no other ground.
pub proof fn law_origins_let_in(origin: Seq<u8>, other: Seq<u8>)
    ensures
        is_allowed_origin(Seq::<u8>::empty()),
        is_allowed_origin(local_prefix() + other),
        is_allowed_origin(other + trusted_suffix()),
        is_allowed_origin(origin) && origin.len() > 0 ==> (exists|head: Seq<u8>|
            origin == head + trusted_suffix()) || (exists|tail: Seq<u8>|
            origin == local_prefix() + tail),
{
    let local = local_prefix() + other;
    assert(local.subrange(0, local_prefix().len() as int) =~= local_prefix());
    let trusted = other + trusted_suffix();
    assert(trusted.subrange(trusted.len() - trusted_suffix().len(), trusted.len() as int)
        =~= trusted_suffix());
    if is_allowed_origin(origin) && origin.len() > 0 {
        if trusted_suffix().is_suffix_of(origin) {
            let head = origin.subrange(0, origin.len() - trusted_suffix().len());
            assert(origin =~= head + trusted_suffix());
        } else {
            let tail = origin.subrange(local_prefix().len() as int, origin.len() as int);
            assert(origin =~= local_prefix() + tail);
        }
    }
}

} // verus!
