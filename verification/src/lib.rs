//! A password newtype: a value that can only be built from a string that its
//! policy accepts, and that keeps a fingerprint of that string, never the
//! string itself.

pub mod error;
pub mod fingerprint;
pub mod laws;
pub mod password;
pub mod policy;
