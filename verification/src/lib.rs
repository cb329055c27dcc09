//! Keeps a sozu proxy's live routing configuration synchronized with a
//! declarative description of applications, routes, certificates and
//! backends.
//!
//! The crate translates a declarative document into an ordered sequence of
//! proxy orders folded into a configuration state, dispatches orders over a
//! correlated request/response protocol, and drives a watch/reconcile loop
//! that keeps a local mirror of the proxy's state trustworthy across
//! failures.

pub mod authority;
pub mod config;
pub mod dispatch;
pub mod errors;
pub mod laws;
pub mod orders;
pub mod proxy;
pub mod reconcile;
pub mod translate;
