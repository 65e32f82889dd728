//! Issues single-use gift-card claim codes from a remote incentive-issuance
//! service. The core is a request-signing engine: a canonical request string
//! is reduced to a hash, a per-request signing key is derived through a
//! four-step keyed-hash chain, and an authorization header is assembled that
//! authenticates the caller without transmitting the shared secret.

pub mod codec;
pub mod errors;
pub mod hashing;
pub mod laws;
pub mod request;
pub mod response;
pub mod service;
