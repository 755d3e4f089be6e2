//! Decision core of the `srvcs-exponent` arithmetic service.
//!
//! The service raises a `base` to an `exp` by delegating the arithmetic to
//! `srvcs-floatpower`. This crate holds what the service decides: its
//! identity, the call it makes to its dependency, how it answers for each
//! outcome of that call, and the OpenAPI document that lists its routes.
//! Reading sockets and writing HTTP responses is left to the binary around it.
//!
//! Numbers of the API are binary64 values; the crate carries them by their
//! bit patterns (`u64`) and never computes with them.

pub mod apidoc;
pub mod evaluate;
pub mod http;
pub mod identity;
pub mod json;
pub mod laws;
pub mod openapi;
pub mod reply;

pub use apidoc::ApiDoc;
pub use evaluate::{
    ask, conclude, evaluate, floatpower_call, next_step, DepCall, DepError, Deps, EvalRequest, Event,
    Step,
};
pub use identity::{index, Info, CONCERN, FLOATPOWER, SERVICE};
pub use reply::{degraded, forward, malformed, ok, Body, ExponentResponse, Response};
