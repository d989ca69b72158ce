//! Verified core of a provider-agnostic virtual-machine power controller.
//!
//! The library covers the control-plane client's logic: the codec between an
//! opaque `"group/name"` identifier and the cloud's composite resource path,
//! derivation of a normalized power state from remote status codes, request
//! planning for the list/get/start/stop operations, paginated enumeration,
//! auth-token caching, and the client-credentials request. Network transport
//! and JSON decoding live outside the library and hand it plain values.

pub mod auth;
pub mod client_credentials;
pub mod ids;
pub mod model;
pub mod provider;
pub mod split;
pub mod token_manager;
