//! The error taxonomy of the key service.

use vstd::prelude::*;

verus! {

/// Everything that can go wrong in the key service, as callers see it.
#[derive(Debug, Clone, Copy, PartialEq, Eq, Structural)]
pub enum JwkError {
    /// The requested algorithm identifier is outside the supported set.
    UnsupportedAlgorithm,
    /// The key-generation engine failed for this request; never retried.
    GenerationError,
    /// Key material could not be encoded: an internal invariant was broken.
    EncodingError,
    /// The record is absent, soft-deleted, or past its public expiry.
    NotFound,
    /// The record is still publicly listed, but its private key has expired.
    PrivateKeyGone,
    /// The record store failed to persist a change.
    StoreError,
}

impl JwkError {
    /// A short label for the error, for callers that render responses.
    pub fn message(&self) -> (r: &'static str)
        ensures
            r@ == self.spec_message(),
    {
        match self {
            JwkError::UnsupportedAlgorithm => "Unsupported algorithm",
            JwkError::GenerationError => "Key generation failed",
            JwkError::EncodingError => "Key material could not be encoded",
            JwkError::NotFound => "Key not found",
            JwkError::PrivateKeyGone => "Private key expired",
            JwkError::StoreError => "Failed to update key store",
        }
    }

    /// The label that `message` returns.
    pub open spec fn spec_message(self) -> Seq<char> {
        match self {
            JwkError::UnsupportedAlgorithm => "Unsupported algorithm"@,
            JwkError::GenerationError => "Key generation failed"@,
            JwkError::EncodingError => "Key material could not be encoded"@,
            JwkError::NotFound => "Key not found"@,
            JwkError::PrivateKeyGone => "Private key expired"@,
            JwkError::StoreError => "Failed to update key store"@,
        }
    }
}

} // verus!
