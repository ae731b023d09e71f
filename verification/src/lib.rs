//! A single-port request router: every incoming request is classified by its
//! declared content type and handed to one of two backends, a plain HTTP one
//! and a gRPC one. Each backend must confirm its readiness before every call
//! it receives.

pub mod bytes;
pub mod cors;
pub mod headers;
pub mod layers;
pub mod readiness;
pub mod service;
pub mod sniff;

pub use layers::{xai_grpc_layer, xai_rest_layer};
pub use readiness::{Backend, Outcome, Progress, Readiness};
pub use service::{MultiplexService, NotReady};
