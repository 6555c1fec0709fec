//! Authentication and authorization layer of a package-registry service.
//!
//! The crate decides, per request, whether a caller may read registry
//! metadata and whether it may write to a specific package scope. All
//! decision logic is verified; network calls and request plumbing stay
//! outside and hand in plain values.

pub mod access;
pub mod error;
pub mod keys;
pub mod laws;
pub mod modes;
pub mod oauth;
pub mod ownership;
pub mod token;
