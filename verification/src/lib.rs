//! A verified client for `BottlerocketShadow` objects.
//!
//! A `BottlerocketShadow` is the Kubernetes custom resource that shadows one
//! Bottlerocket node. This crate decides what each operation on a shadow, or on the
//! node behind it, asks of the Kubernetes API, and what the API's reply means to the
//! caller. It performs no I/O: [`client::BottlerocketShadowClient`] prepares a request,
//! the caller sends it, and the prepared call turns the reply into a result.

pub mod call_laws;
pub mod client;
pub mod client_error;
pub mod json;
pub mod laws;
pub mod merge;
pub mod patch;
pub mod selector;
pub mod shadow;
