//! Error-boundary and request-envelope layer of a networked API service.
//!
//! The crate defines a closed taxonomy of failure conditions ([`error::Error`]),
//! adapters that absorb subsystem failures (token validation, storage,
//! cryptographic verification, encoding) into that taxonomy, a boundary
//! renderer that maps each kind to a transport status and a minimal client
//! payload without leaking internal detail, and a typed request envelope with
//! nonce correlation and method dispatch for the login operation.

pub mod api;
pub mod crypto;
pub mod error;
pub mod ws_init;
