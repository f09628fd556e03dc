//! Error classification and translation for a host/guest execution boundary.
//!
//! Failures from heterogeneous sources (encoding, environment lookups,
//! serialization, the call protocol, the host itself) are normalized into one
//! opaque [`errors::Error`] handle, and translated on demand into a structured
//! error-code value ([`codes::ErrorCode`]) that can cross a serialization
//! boundary.

pub mod codes;
pub mod errors;
pub mod foreign;
