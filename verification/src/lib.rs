//! Verified core of a JWKS (JSON Web Key Set) service.
//!
//! The library generates asymmetric key pairs for a closed set of signing
//! algorithms, encodes them as JWK records (with a self-signed certificate
//! and thumbprint for the RSA family), and governs each record's
//! time-bounded visibility: listing, fetch-by-id, and one-way soft deletion.
//! Key generation, digests and base64url encoding are performed by outside
//! crates behind narrow trusted wrappers; everything around them is verified.

pub mod algs;
pub mod crypto;
pub mod encode;
pub mod errors;
pub mod lifecycle;
pub mod models;
pub mod service;
pub mod store;
