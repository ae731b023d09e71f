//! The dispatcher: it owns one handle of each backend and the readiness
//! flags, decides which readiness check is due, and selects the backend for
//! each request.

use crate::headers::first_values;
use crate::readiness::{Backend, Outcome, Progress, Readiness};
use crate::sniff::{classify, content_type, content_type_name, declared, route};
use vstd::prelude::*;

verus! {

/// Two backends behind one entry point, with their readiness flags.
pub struct MultiplexService<A, B> {
    rest: A,
    grpc: B,
    ready: Readiness,
}

/// A dispatch was asked for while the flag of `backend` was not set.
#[derive(Clone, Copy, Debug, PartialEq, Eq, Structural)]
pub struct NotReady {
    pub backend: Backend,
}

impl NotReady {
    /// The words in which the violation is reported.
    pub open spec fn text(self) -> Seq<char> {
        match self.backend {
            Backend::Grpc => "grpc service not ready. Did you forget to call `poll_ready`?"@,
            Backend::Rest => "rest service not ready. Did you forget to call `poll_ready`?"@,
        }
    }

    /// The message with which the caller aborts.
    pub fn message(&self) -> (words: &'static str)
        ensures
            words@ == self.text(),
    {
        match self.backend {
            Backend::Grpc => "grpc service not ready. Did you forget to call `poll_ready`?",
            Backend::Rest => "rest service not ready. Did you forget to call `poll_ready`?",
        }
    }
}

impl<A, B> View for MultiplexService<A, B> {
    type V = Readiness;

    /// The readiness flags.
    closed spec fn view(&self) -> Readiness {
        self.ready
    }
}

impl<A, B> MultiplexService<A, B> {
    /// The handle of the plain backend.
    pub closed spec fn rest_backend(&self) -> A {
        self.rest
    }

    /// The handle of the gRPC backend.
    pub closed spec fn grpc_backend(&self) -> B {
        self.grpc
    }

    /// A dispatcher over the two backends. Neither has been checked yet.
    pub fn new(rest: A, grpc: B) -> (service: Self)
        ensures
            service.rest_backend() == rest,
            service.grpc_backend() == grpc,
            service@ == (Readiness { rest: false, grpc: false }),
    {
        Self { rest, grpc, ready: Readiness::new() }
    }

    /// The readiness flags as they stand.
    pub fn readiness(&self) -> (flags: Readiness)
        ensures
            flags == self@,
    {
        self.ready
    }

    /// Whether a request may be dispatched: both backends are confirmed.
    pub fn is_ready(&self) -> (open: bool)
        ensures
            open == self@.is_open(),
    {
        self.ready.both_ready()
    }

    /// The backend whose readiness the caller checks next; none when both
    /// are confirmed and the caller may dispatch.
    pub fn pending_check(&self) -> (next: Option<Backend>)
        ensures
            next == self@.next_check(),
            next is None <==> self@.is_open(),
    {
        self.ready.pending_check()
    }

    /// Takes in what a readiness check of `backend` reported. A successful
    /// check sets the backend's flag; any other outcome leaves the flags as
    /// they were. The plain backend's checks cannot fail.
    pub fn record(&mut self, backend: Backend, outcome: Outcome) -> (progress: Progress)
        requires
            !(backend == Backend::Rest && outcome == Outcome::Failed),
        ensures
            final(self)@ == old(self)@.after_check(backend, outcome),
            progress == Readiness::progress_on(outcome),
            final(self).rest_backend() == old(self).rest_backend(),
            final(self).grpc_backend() == old(self).grpc_backend(),
    {
        self.ready.record(backend, outcome)
    }

    /// Selects the backend for a request with this content type and uses up
    /// that backend's confirmation. A backend is selected only while its
    /// flag is set.
    pub fn select(&mut self, content_type: Option<&[u8]>) -> (target: Backend)
        requires
            old(self)@.is_open(),
        ensures
            target == route(declared(content_type)),
            old(self)@.flag(target),
            final(self)@ == old(self)@.consumed(target),
            final(self).rest_backend() == old(self).rest_backend(),
            final(self).grpc_backend() == old(self).grpc_backend(),
    {
        let target = classify(content_type);
        self.ready.consume(target);
        target
    }

    /// Selects the backend for a request with these headers and uses up that
    /// backend's confirmation. Both backends must have been confirmed since
    /// the last dispatch.
    pub fn dispatch(&mut self, headers: &http::HeaderMap<http::HeaderValue>) -> (target: Backend)
        requires
            old(self)@.is_open(),
        ensures
            target == route(first_values(*headers).get(content_type_name())),
            !first_values(*headers).contains_key(content_type_name()) ==> target == Backend::Rest,
            old(self)@.flag(target),
            final(self)@ == old(self)@.consumed(target),
            final(self).rest_backend() == old(self).rest_backend(),
            final(self).grpc_backend() == old(self).grpc_backend(),
    {
        self.select(content_type(headers))
    }

    /// As `dispatch`, for a caller that cannot show that both backends are
    /// confirmed: where a flag is missing nothing changes and the first
    /// missing flag is reported, whatever the request.
    pub fn try_dispatch(&mut self, headers: &http::HeaderMap<http::HeaderValue>) -> (outcome:
        Result<Backend, NotReady>)
        ensures
            final(self).rest_backend() == old(self).rest_backend(),
            final(self).grpc_backend() == old(self).grpc_backend(),
            match outcome {
                Ok(target) => {
                    &&& old(self)@.is_open()
                    &&& target == route(first_values(*headers).get(content_type_name()))
                    &&& final(self)@ == old(self)@.consumed(target)
                },
                Err(violation) => {
                    &&& !old(self)@.is_open()
                    &&& old(self)@.missing() == Some(violation.backend)
                    &&& final(self)@ == old(self)@
                },
            },
    {
        match self.ready.first_missing() {
            Some(backend) => Err(NotReady { backend }),
            None => Ok(self.dispatch(headers)),
        }
    }

    /// The plain backend's handle, to check its readiness or to call it.
    pub fn rest_mut(&mut self) -> (rest: &mut A)
        ensures
            *rest == old(self).rest_backend(),
            final(self).rest_backend() == *final(rest),
            final(self).grpc_backend() == old(self).grpc_backend(),
            final(self)@ == old(self)@,
    {
        &mut self.rest
    }

    /// The gRPC backend's handle, to check its readiness or to call it.
    pub fn grpc_mut(&mut self) -> (grpc: &mut B)
        ensures
            *grpc == old(self).grpc_backend(),
            final(self).grpc_backend() == *final(grpc),
            final(self).rest_backend() == old(self).rest_backend(),
            final(self)@ == old(self)@,
    {
        &mut self.grpc
    }
}

impl<A: Clone, B: Clone> Clone for MultiplexService<A, B> {
    /// A duplicate shares no readiness with its origin: it holds clones of
    /// the two handles and has checked nothing yet.
    fn clone(&self) -> (duplicate: Self)
        ensures
            cloned(self.rest_backend(), duplicate.rest_backend()),
            cloned(self.grpc_backend(), duplicate.grpc_backend()),
            duplicate@ == (Readiness { rest: false, grpc: false }),
    {
        Self { rest: self.rest.clone(), grpc: self.grpc.clone(), ready: Readiness::new() }
    }
}

} // verus!
