//! The middleware stacks that wrap the two backends, built with `tower`,
//! `tower-http` and `tonic` from the policy that the `cors` module states.
//! The layers themselves are opaque here. What they hold is named after
//! what they send, and the contracts of the outside calls restate, without
//! proof, what the sources of those crates show.

use crate::cors::{
    allowed_headers, grpc_method_list, grpc_methods, header_names, is_allowed_origin,
    is_plain_name, origin_accepted, rest_method_list, rest_methods, Verb,
};
use crate::headers::value_bytes;
use vstd::prelude::*;

verus! {

#[verifier::external_type_specification]
#[verifier::external_body]
pub struct ExCorsLayer(tower_http::cors::CorsLayer);

#[verifier::external_type_specification]
#[verifier::external_body]
pub struct ExIdentity(tower::layer::util::Identity);

#[verifier::external_type_specification]
#[verifier::external_body]
#[verifier::reject_recursive_types(Inner)]
#[verifier::reject_recursive_types(Outer)]
pub struct ExStack<Inner, Outer>(tower::layer::util::Stack<Inner, Outer>);

#[verifier::external_type_specification]
#[verifier::external_body]
#[verifier::reject_recursive_types(F)]
pub struct ExInterceptorLayer<F>(tonic::service::interceptor::InterceptorLayer<F>);

#[verifier::external_type_specification]
#[verifier::external_body]
#[verifier::reject_recursive_types(T)]
pub struct ExRpcRequest<T>(tonic::Request<T>);

#[verifier::external_type_specification]
#[verifier::external_body]
pub struct ExStatus(tonic::Status);

#[verifier::external_type_specification]
#[verifier::external_body]
pub struct ExHeaderName(http::HeaderName);

#[verifier::external_type_specification]
#[verifier::external_body]
pub struct ExHttpMethod(http::Method);

#[verifier::external_type_specification]
#[verifier::external_body]
pub struct ExAllowOrigin(tower_http::cors::AllowOrigin);

/// What a cross-origin layer has been told, as far as this library sets it.
pub struct CorsRules {
    /// The header names that the layer lists in `Access-Control-Allow-Headers`
    /// when it answers a preflight, in order; empty when it sends none.
    pub headers: Seq<Seq<char>>,
    /// The methods that it lists in `Access-Control-Allow-Methods`, likewise.
    pub methods: Seq<Seq<char>>,
    /// The bytes of the origin header values that it lets in, that is, hands
    /// back in `Access-Control-Allow-Origin`.
    pub origins: Set<Seq<u8>>,
}

/// The text of a header name, as `HeaderName::as_str` gives it.
pub uninterp spec fn name_text(name: http::HeaderName) -> Seq<char>;

/// The text of a method, as `Method::as_str` gives it.
pub uninterp spec fn method_name(method: http::Method) -> Seq<char>;

/// The rules that a cross-origin layer holds.
pub uninterp spec fn cors_rules(layer: tower_http::cors::CorsLayer) -> CorsRules;

/// The bytes of the origin header values that an origin rule lets in.
pub uninterp spec fn admitted_origins(rule: tower_http::cors::AllowOrigin) -> Set<Seq<u8>>;

/// The rules of the cross-origin layer that a stack puts around a service.
pub uninterp spec fn stack_rules(
    stack: tower::layer::util::Stack<tower_http::cors::CorsLayer, tower::layer::util::Identity>,
) -> CorsRules;

/// The text of a method of the policy.
pub open spec fn verb_name(verb: Verb) -> Seq<char> {
    match verb {
        Verb::Get => "GET"@,
        Verb::Post => "POST"@,
        Verb::Put => "PUT"@,
        Verb::Delete => "DELETE"@,
        Verb::Options => "OPTIONS"@,
    }
}

/// The texts of a list of methods of the policy, in order.
pub open spec fn verb_names(verbs: Seq<Verb>) -> Seq<Seq<char>> {
    Seq::new(verbs.len(), |i: int| verb_name(verbs[i]))
}

/// The texts of a list of methods, in order.
pub open spec fn method_names(methods: Seq<http::Method>) -> Seq<Seq<char>> {
    Seq::new(methods.len(), |i: int| method_name(methods[i]))
}

/// The texts of a list of header names, in order.
pub open spec fn name_texts(names: Seq<http::HeaderName>) -> Seq<Seq<char>> {
    Seq::new(names.len(), |i: int| name_text(names[i]))
}

/// The origin rule of this library: every origin header value is let in
/// exactly when the policy allows its bytes.
pub open spec fn admits_allowed_origins(origins: Set<Seq<u8>>) -> bool {
    forall|origin: http::HeaderValue| #[trigger]
        origins.contains(value_bytes(origin)) == is_allowed_origin(value_bytes(origin))
}

/// `HeaderName::from_static`, which panics on an empty or over-long name and
/// on any character outside its table of lower-case name characters. Plain
/// names are within that table. The name it makes reads as the text given.
#[verifier::external_body]
fn header_name(name: &'static str) -> (made: http::HeaderName)
    requires
        is_plain_name(name@),
    ensures
        name_text(made) == name@,
{
    http::HeaderName::from_static(name)
}

/// The constant of `http::Method` for each method of the policy: the one
/// that reads as the method's text.
#[verifier::external_body]
fn http_method(verb: Verb) -> (method: http::Method)
    ensures
        method_name(method) == verb_name(verb),
{
    match verb {
        Verb::Get => http::Method::GET,
        Verb::Post => http::Method::POST,
        Verb::Put => http::Method::PUT,
        Verb::Delete => http::Method::DELETE,
        Verb::Options => http::Method::OPTIONS,
    }
}

/// `CorsLayer::new`: a layer that lists no header and no method and lets in
/// no origin.
#[verifier::external_body]
fn empty_cors() -> (layer: tower_http::cors::CorsLayer)
    ensures
        cors_rules(layer) == (CorsRules {
            headers: Seq::empty(),
            methods: Seq::empty(),
            origins: Set::empty(),
        }),
{
    tower_http::cors::CorsLayer::new()
}

/// `CorsLayer::allow_headers` with a list of names: the layer lists these
/// names, joined by commas, and keeps its other rules.
#[verifier::external_body]
fn allow_headers(layer: tower_http::cors::CorsLayer, names: Vec<http::HeaderName>) -> (set:
    tower_http::cors::CorsLayer)
    ensures
        cors_rules(set) == (CorsRules { headers: name_texts(names@), ..cors_rules(layer) }),
{
    layer.allow_headers(names)
}

/// `CorsLayer::allow_methods` with a list of methods: the layer lists these
/// methods, joined by commas, and keeps its other rules.
#[verifier::external_body]
fn allow_methods(layer: tower_http::cors::CorsLayer, methods: Vec<http::Method>) -> (set:
    tower_http::cors::CorsLayer)
    ensures
        cors_rules(set) == (CorsRules { methods: method_names(methods@), ..cors_rules(layer) }),
{
    layer.allow_methods(methods)
}

/// `AllowOrigin::predicate` with a predicate that asks `origin_accepted`
/// about the origin header of each request and looks at nothing else: the
/// rule lets in what `origin_accepted` accepts.
#[verifier::external_body]
fn accepted_origins() -> (rule: tower_http::cors::AllowOrigin)
    ensures
        admits_allowed_origins(admitted_origins(rule)),
{
    tower_http::cors::AllowOrigin::predicate(
        |origin: &http::HeaderValue, _: &http::request::Parts| origin_accepted(origin),
    )
}

/// `CorsLayer::allow_origin`: the layer lets in what the rule lets in, and
/// keeps its other rules.
#[verifier::external_body]
fn allow_origin(
    layer: tower_http::cors::CorsLayer,
    rule: tower_http::cors::AllowOrigin,
) -> (set: tower_http::cors::CorsLayer)
    ensures
        cors_rules(set) == (CorsRules { origins: admitted_origins(rule), ..cors_rules(layer) }),
{
    layer.allow_origin(rule)
}

/// `ServiceBuilder::layer` on a fresh builder, taken out again with
/// `into_inner`: the layer stacked on the identity, which puts this layer
/// and nothing else around a service.
#[verifier::external_body]
fn stacked(layer: tower_http::cors::CorsLayer) -> (stack: tower::layer::util::Stack<
    tower_http::cors::CorsLayer,
    tower::layer::util::Identity,
>)
    ensures
        stack_rules(stack) == cors_rules(layer),
{
    tower::ServiceBuilder::new().layer(layer).into_inner()
}

/// `Stack::new`: `layer` stacked on `under`, as a builder stacks each layer
/// that it is given on those it holds.
#[verifier::external_body]
fn stack_on<T, L>(layer: T, under: L) -> tower::layer::util::Stack<T, L> {
    tower::layer::util::Stack::new(layer, under)
}

/// `tonic::service::interceptor`: a layer that runs `extractor` on each
/// request before it reaches the service.
#[verifier::external_body]
fn interceptor_layer<F>(extractor: F) -> tonic::service::interceptor::InterceptorLayer<F> where
    F: FnMut(tonic::Request<()>) -> Result<tonic::Request<()>, tonic::Status>,
{
    tonic::service::interceptor(extractor)
}

/// The `http` methods for a list of the policy's methods, in order.
fn converted_methods(methods: Vec<Verb>) -> (converted: Vec<http::Method>)
    ensures
        method_names(converted@) == verb_names(methods@),
{
    let mut converted: Vec<http::Method> = Vec::new();
    let mut i: usize = 0;
    while i < methods.len()
        invariant
            i <= methods.len(),
            converted@.len() == i,
            forall|k: int| 0 <= k < i ==> method_name(converted@[k]) == verb_name(methods@[k]),
        decreases methods.len() - i,
    {
        converted.push(http_method(methods[i]));
        i += 1;
    }
    assert(method_names(converted@) =~= verb_names(methods@));
    converted
}

/// A layer that advertises the allowed request headers and holds no other
/// rule yet.
fn cors_layer_allow_header() -> (layer: tower_http::cors::CorsLayer)
    ensures
        cors_rules(layer) == (CorsRules {
            headers: header_names(),
            methods: Seq::empty(),
            origins: Set::empty(),
        }),
{
    let names = allowed_headers();
    let mut converted: Vec<http::HeaderName> = Vec::new();
    let mut i: usize = 0;
    while i < names.len()
        invariant
            i <= names.len(),
            converted@.len() == i,
            names@.len() == header_names().len(),
            forall|k: int| 0 <= k < names@.len() ==> is_plain_name((#[trigger] names@[k])@),
            forall|k: int| 0 <= k < names@.len() ==> (#[trigger] names@[k])@ == header_names()[k],
            forall|k: int| 0 <= k < i ==> name_text(converted@[k]) == header_names()[k],
        decreases names.len() - i,
    {
        converted.push(header_name(names[i]));
        i += 1;
    }
    assert(name_texts(converted@) =~= header_names());
    allow_headers(empty_cors(), converted)
}

/// The cross-origin layer of a backend that accepts `methods`: it advertises
/// the allowed request headers, lists `methods`, and lets in the origins
/// that the policy allows.
fn cors_layer(methods: Vec<Verb>) -> (layer: tower_http::cors::CorsLayer)
    ensures
        cors_rules(layer).headers == header_names(),
        cors_rules(layer).methods == verb_names(methods@),
        admits_allowed_origins(cors_rules(layer).origins),
{
    let layer = allow_origin(cors_layer_allow_header(), accepted_origins());
    allow_methods(layer, converted_methods(methods))
}

/// The middleware of the plain backend: the cross-origin policy with the
/// plain backend's methods.
pub fn xai_rest_layer() -> (stack: tower::layer::util::Stack<
    tower_http::cors::CorsLayer,
    tower::layer::util::Identity,
>)
    ensures
        stack_rules(stack).headers == header_names(),
        stack_rules(stack).methods == verb_names(rest_method_list()),
        admits_allowed_origins(stack_rules(stack).origins),
{
    stacked(cors_layer(rest_methods()))
}

/// The cross-origin part of the gRPC backend's middleware: the policy with
/// the gRPC backend's methods.
fn grpc_cors_stack() -> (stack: tower::layer::util::Stack<
    tower_http::cors::CorsLayer,
    tower::layer::util::Identity,
>)
    ensures
        stack_rules(stack).headers == header_names(),
        stack_rules(stack).methods == verb_names(grpc_method_list()),
        admits_allowed_origins(stack_rules(stack).origins),
{
    stacked(cors_layer(grpc_methods()))
}

/// The middleware of the gRPC backend: the cross-origin policy with the gRPC
/// backend's methods, and over it an interceptor that runs `extractor` on
/// each request.
pub fn xai_grpc_layer<F>(extractor: F) -> tower::layer::util::Stack<
    tonic::service::interceptor::InterceptorLayer<F>,
    tower::layer::util::Stack<tower_http::cors::CorsLayer, tower::layer::util::Identity>,
> where F: FnMut(tonic::Request<()>) -> Result<tonic::Request<()>, tonic::Status> {
    stack_on(interceptor_layer(extractor), grpc_cors_stack())
}

} // verus!
