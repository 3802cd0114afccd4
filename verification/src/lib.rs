//! A single-use, proof-gated issuance registry.
//!
//! A party holding a valid cryptographic membership proof against a published
//! commitment (a Merkle root) may claim exactly one unique issued token, and
//! may not claim twice even if the proof or its derived nullifier is
//! resubmitted. The registry is a state machine over two kinds of durable
//! records: a singleton configuration record (authority, root, metadata,
//! counter) and one nullifier record per distinct nullifier hash, tracking
//! its lifecycle `Unseen -> Verified -> Claimed`.
//!
//! Cryptographic proof verification is delegated to an external service: the
//! registry builds the payload to submit ([`Registry::verification_payload`])
//! and the host hands the service's verdict back
//! ([`Registry::verify_proof`]). Likewise, issuing the token itself is the
//! host's job: a successful claim returns the [`TokenIssue`] order to carry
//! out. Every decision and every state transition in between is verified.

pub mod bytes;
pub mod keys;
pub mod laws;
pub mod registry;
pub mod steps;
pub mod types;

pub use registry::Registry;
pub use types::{
    ClaimNft, ErrorCode, Initialize, MintghostAccount, Nullifier, NullifierStatus, RegistryView,
    TokenIssue, UpdateRoot, VerifyProof,
};
