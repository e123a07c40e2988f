//! An HTTP gateway for Git's Smart HTTP protocol: PKT-LINE framing, Basic
//! authentication, repository location, and the decisions that turn a
//! request into a run of the version-control helper and its result into a
//! reply.
pub mod api;
pub mod auth;
pub mod bytes;
pub mod gateway;
pub mod locator;
pub mod pktline;
pub mod pull_request;
pub mod reply;
pub mod service;
