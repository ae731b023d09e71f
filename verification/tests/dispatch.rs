use http::header::{HeaderValue, CONTENT_TYPE};
use http::HeaderMap;
use multiplex::{Backend, MultiplexService, NotReady, Outcome, Progress, Readiness};

fn headers_with(value: &'static str) -> HeaderMap<HeaderValue> {
    let mut headers = HeaderMap::new();
    headers.insert(CONTENT_TYPE, HeaderValue::from_static(value));
    headers
}

fn grpc_request() -> HeaderMap<HeaderValue> {
    headers_with("application/grpc")
}

fn plain_request() -> HeaderMap<HeaderValue> {
    headers_with("application/json")
}

/// Runs the readiness protocol with backends that are ready at once, and
/// returns the backends in the order in which they were checked.
fn prepare(service: &mut MultiplexService<&'static str, &'static str>) -> Vec<Backend> {
    let mut checked = Vec::new();
    while let Some(backend) = service.pending_check() {
        checked.push(backend);
        assert_eq!(service.record(backend, Outcome::Ready), Progress::Continue);
    }
    checked
}

fn flags(rest: bool, grpc: bool) -> Readiness {
    Readiness { rest, grpc }
}

#[test]
fn a_new_service_has_checked_nothing() {
    let service = MultiplexService::new("rest", "grpc");
    assert_eq!(service.readiness(), flags(false, false));
    assert!(!service.is_ready());
    assert_eq!(service.pending_check(), Some(Backend::Rest));
}

#[test]
fn a_new_service_holds_the_backends_it_was_given() {
    let mut service = MultiplexService::new(String::from("rest"), 7u32);
    assert_eq!(service.rest_mut().as_str(), "rest");
    assert_eq!(*service.grpc_mut(), 7);
    service.rest_mut().push('!');
    *service.grpc_mut() += 1;
    assert_eq!(service.rest_mut().as_str(), "rest!");
    assert_eq!(*service.grpc_mut(), 8);
    assert_eq!(service.readiness(), flags(false, false));
}

#[test]
fn the_plain_backend_is_checked_before_the_grpc_backend() {
    let mut service = MultiplexService::new("rest", "grpc");
    assert_eq!(prepare(&mut service), vec![Backend::Rest, Backend::Grpc]);
    assert!(service.is_ready());
    assert_eq!(service.pending_check(), None);
    assert_eq!(service.readiness(), flags(true, true));
}

#[test]
fn a_pending_check_suspends_and_sets_nothing() {
    let mut service = MultiplexService::new("rest", "grpc");
    assert_eq!(service.record(Backend::Rest, Outcome::Pending), Progress::Suspend);
    assert_eq!(service.readiness(), flags(false, false));
    assert_eq!(service.pending_check(), Some(Backend::Rest));

    assert_eq!(service.record(Backend::Rest, Outcome::Ready), Progress::Continue);
    assert_eq!(service.pending_check(), Some(Backend::Grpc));
    assert_eq!(service.record(Backend::Grpc, Outcome::Pending), Progress::Suspend);
    assert_eq!(service.readiness(), flags(true, false));
    assert_eq!(service.pending_check(), Some(Backend::Grpc));
}

#[test]
fn a_failed_grpc_check_is_handed_on_and_sets_nothing() {
    let mut service = MultiplexService::new("rest", "grpc");
    assert_eq!(service.record(Backend::Rest, Outcome::Ready), Progress::Continue);
    assert_eq!(service.record(Backend::Grpc, Outcome::Failed), Progress::Fail);
    assert_eq!(service.readiness(), flags(true, false));
    assert!(!service.is_ready());
    assert_eq!(service.record(Backend::Grpc, Outcome::Ready), Progress::Continue);
    assert!(service.is_ready());
}

#[test]
fn the_tracker_alone_follows_the_same_protocol() {
    let mut tracker = Readiness::new();
    assert_eq!(tracker, flags(false, false));
    assert!(!tracker.both_ready());
    assert_eq!(tracker.pending_check(), Some(Backend::Rest));
    assert_eq!(tracker.first_missing(), Some(Backend::Grpc));
    assert_eq!(tracker.record(Backend::Grpc, Outcome::Ready), Progress::Continue);
    assert!(tracker.is_ready(Backend::Grpc));
    assert!(!tracker.is_ready(Backend::Rest));
    assert_eq!(tracker.pending_check(), Some(Backend::Rest));
    assert_eq!(tracker.first_missing(), Some(Backend::Rest));
    assert_eq!(tracker.record(Backend::Rest, Outcome::Ready), Progress::Continue);
    assert!(tracker.both_ready());
    assert_eq!(tracker.pending_check(), None);
    assert_eq!(tracker.first_missing(), None);
    tracker.consume(Backend::Grpc);
    assert_eq!(tracker, flags(true, false));
    assert_eq!(tracker.pending_check(), Some(Backend::Grpc));
}

#[test]
fn dispatch_before_prepare_is_a_violation_for_a_grpc_request() {
    let mut service = MultiplexService::new("rest", "grpc");
    let outcome = service.try_dispatch(&grpc_request());
    assert_eq!(outcome, Err(NotReady { backend: Backend::Grpc }));
    assert_eq!(service.readiness(), flags(false, false));
}

#[test]
fn dispatch_before_prepare_is_a_violation_for_a_plain_request() {
    let mut service = MultiplexService::new("rest", "grpc");
    let outcome = service.try_dispatch(&plain_request());
    assert_eq!(outcome, Err(NotReady { backend: Backend::Grpc }));
    let outcome = service.try_dispatch(&HeaderMap::new());
    assert_eq!(outcome, Err(NotReady { backend: Backend::Grpc }));
    assert_eq!(service.readiness(), flags(false, false));
}

#[test]
fn dispatch_with_one_backend_confirmed_is_a_violation() {
    let mut service = MultiplexService::new("rest", "grpc");
    service.record(Backend::Rest, Outcome::Ready);
    assert_eq!(
        service.try_dispatch(&plain_request()),
        Err(NotReady { backend: Backend::Grpc })
    );
    assert_eq!(service.readiness(), flags(true, false));

    let mut service = MultiplexService::new("rest", "grpc");
    service.record(Backend::Grpc, Outcome::Ready);
    assert_eq!(
        service.try_dispatch(&grpc_request()),
        Err(NotReady { backend: Backend::Rest })
    );
    assert_eq!(service.readiness(), flags(false, true));
}

#[test]
fn the_violation_is_reported_in_words() {
    assert_eq!(
        NotReady { backend: Backend::Grpc }.message(),
        "grpc service not ready. Did you forget to call `poll_ready`?"
    );
    assert_eq!(
        NotReady { backend: Backend::Rest }.message(),
        "rest service not ready. Did you forget to call `poll_ready`?"
    );
}

#[test]
fn a_grpc_request_goes_to_the_grpc_backend_and_clears_its_flag() {
    let mut service = MultiplexService::new("rest", "grpc");
    prepare(&mut service);
    assert_eq!(service.dispatch(&grpc_request()), Backend::Grpc);
    assert_eq!(service.readiness(), flags(true, false));
    assert!(!service.is_ready());
    assert_eq!(
        service.try_dispatch(&grpc_request()),
        Err(NotReady { backend: Backend::Grpc })
    );
    assert_eq!(
        service.try_dispatch(&plain_request()),
        Err(NotReady { backend: Backend::Grpc })
    );
    assert_eq!(service.readiness(), flags(true, false));
}

#[test]
fn a_plain_request_goes_to_the_plain_backend_and_clears_its_flag() {
    let mut service = MultiplexService::new("rest", "grpc");
    prepare(&mut service);
    assert_eq!(service.dispatch(&plain_request()), Backend::Rest);
    assert_eq!(service.readiness(), flags(false, true));
    assert_eq!(
        service.try_dispatch(&plain_request()),
        Err(NotReady { backend: Backend::Rest })
    );
    assert_eq!(
        service.try_dispatch(&grpc_request()),
        Err(NotReady { backend: Backend::Rest })
    );
    assert_eq!(service.readiness(), flags(false, true));
}

#[test]
fn a_request_without_content_type_goes_to_the_plain_backend() {
    let mut service = MultiplexService::new("rest", "grpc");
    prepare(&mut service);
    assert_eq!(service.try_dispatch(&HeaderMap::new()), Ok(Backend::Rest));
    assert_eq!(service.readiness(), flags(false, true));
}

#[test]
fn select_routes_by_the_bytes_it_is_given() {
    let mut service = MultiplexService::new("rest", "grpc");
    prepare(&mut service);
    assert_eq!(service.select(Some(b"application/grpc-web+proto")), Backend::Grpc);
    assert_eq!(service.readiness(), flags(true, false));
    prepare(&mut service);
    assert_eq!(service.select(Some(b"application/json\xff")), Backend::Rest);
    assert_eq!(service.readiness(), flags(false, true));
    prepare(&mut service);
    assert_eq!(service.select(None), Backend::Rest);
    assert_eq!(service.readiness(), flags(false, true));
}

#[test]
fn only_the_used_backend_is_checked_again() {
    let mut service = MultiplexService::new("rest", "grpc");
    prepare(&mut service);
    assert_eq!(service.try_dispatch(&grpc_request()), Ok(Backend::Grpc));
    assert_eq!(prepare(&mut service), vec![Backend::Grpc]);
    assert_eq!(service.try_dispatch(&plain_request()), Ok(Backend::Rest));
    assert_eq!(prepare(&mut service), vec![Backend::Rest]);
    assert_eq!(service.try_dispatch(&plain_request()), Ok(Backend::Rest));
    assert_eq!(service.readiness(), flags(false, true));
}

#[test]
fn a_duplicate_needs_its_own_prepare() {
    let mut service = MultiplexService::new(String::from("rest"), String::from("grpc"));
    service.record(Backend::Rest, Outcome::Ready);
    service.record(Backend::Grpc, Outcome::Ready);
    assert!(service.is_ready());

    let mut duplicate = service.clone();
    assert_eq!(duplicate.readiness(), flags(false, false));
    assert_eq!(duplicate.pending_check(), Some(Backend::Rest));
    assert_eq!(
        duplicate.try_dispatch(&grpc_request()),
        Err(NotReady { backend: Backend::Grpc })
    );
    assert_eq!(duplicate.rest_mut().as_str(), "rest");
    assert_eq!(duplicate.grpc_mut().as_str(), "grpc");

    assert_eq!(service.readiness(), flags(true, true));
    assert_eq!(service.try_dispatch(&grpc_request()), Ok(Backend::Grpc));
}

#[test]
fn a_duplicate_shares_no_readiness_with_its_origin() {
    let mut service = MultiplexService::new(1u8, 2u8);
    let mut duplicate = service.clone();
    duplicate.record(Backend::Rest, Outcome::Ready);
    duplicate.record(Backend::Grpc, Outcome::Ready);
    assert!(duplicate.is_ready());
    assert_eq!(service.readiness(), flags(false, false));
    service.record(Backend::Rest, Outcome::Ready);
    assert_eq!(duplicate.dispatch(&plain_request()), Backend::Rest);
    assert_eq!(service.readiness(), flags(true, false));
    assert_eq!(duplicate.readiness(), flags(false, true));
}
