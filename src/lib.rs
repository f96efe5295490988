//! An HTTPS client over OpenSSL that fetches the first chunk of a resource's
//! body, with a configurable connect timeout and an optional bypass of peer
//! certificate checks (for endpoints reached by IP address).
//!
//! The decisions of a fetch are a verified state machine (`fetch`); the
//! asynchronous transport that drives it lives outside this crate.
pub mod connection;
pub mod fetch;
