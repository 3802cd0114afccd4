//! The abstract state machine: one total transition function per
//! operation, each mapping a pre-state and the operation's inputs to the
//! post-state and the outcome. The executable operations in
//! [`crate::registry`] are proved to implement exactly these transitions,
//! and the laws in [`crate::laws`] are proved about them.

use vstd::prelude::*;

use crate::keys::spec_nullifier_key;
use crate::types::{ErrorCode, NullifierStatus, RegistryView};

verus! {

/// Minimum length of a well-formed witness: twelve reserved bytes
/// followed by the 32-byte embedded root.
pub open spec fn witness_min_len() -> int {
    44
}

/// The root a witness claims to have been proved against: its bytes at
/// positions 12..44.
pub open spec fn embedded_root(witness: Seq<u8>) -> Seq<u8> {
    witness.subrange(12, 44)
}

/// Creating the singleton configuration record. Rejected outright if the
/// registry already exists; otherwise the caller becomes the authority
/// and the verification counter starts at zero. The nullifier ledger is
/// untouched either way.
pub open spec fn initialize_step(
    s: RegistryView,
    authority: Seq<u8>,
    merkle_root: Seq<u8>,
    name: Seq<char>,
    symbol: Seq<char>,
    uri: Seq<char>,
) -> (RegistryView, Result<(), ErrorCode>) {
    if s.initialized {
        (s, Err(ErrorCode::AlreadyExists))
    } else {
        (
            RegistryView {
                initialized: true,
                authority,
                merkle_root,
                name,
                symbol,
                uri,
                mint_count: 0,
                nullifiers: s.nullifiers,
            },
            Ok(()),
        )
    }
}

/// Rotating the published root. Only the stored authority may do so; the
/// new root overwrites the old one unconditionally, with no history and
/// no transition validation against the old root.
pub open spec fn update_root_step(
    s: RegistryView,
    caller: Seq<u8>,
    new_root: Seq<u8>,
) -> (RegistryView, Result<(), ErrorCode>) {
    if caller == s.authority {
        (RegistryView { merkle_root: new_root, ..s }, Ok(()))
    } else {
        (s, Err(ErrorCode::Unauthorized))
    }
}

/// Recording the outcome of one proof verification. The checks run in
/// this order: witness layout, embedded root against the published root,
/// the external verifier's verdict, then the nullifier's lifecycle state.
/// Only when all four pass does the state change: the nullifier becomes
/// `Verified` and the counter advances by one. Every rejection leaves the
/// state exactly as it was.
pub open spec fn verify_proof_step(
    s: RegistryView,
    witness: Seq<u8>,
    h: Seq<u8>,
    accepted: bool,
) -> (RegistryView, Result<(), ErrorCode>) {
    if witness.len() < witness_min_len() {
        (s, Err(ErrorCode::InvalidWitness))
    } else if embedded_root(witness) != s.merkle_root {
        (s, Err(ErrorCode::RootMismatch))
    } else if !accepted {
        (s, Err(ErrorCode::ProofInvalid))
    } else if s.status_of(h) != NullifierStatus::Unseen {
        (s, Err(ErrorCode::AlreadyMinted))
    } else {
        (
            RegistryView {
                mint_count: s.mint_count + 1,
                nullifiers: s.nullifiers.insert(
                    spec_nullifier_key(h),
                    NullifierStatus::Verified,
                ),
                ..s
            },
            Ok(()),
        )
    }
}

/// Issuing the single claim a verified nullifier is owed. Succeeds
/// exactly when the record is `Verified`, and then moves it to `Claimed`,
/// so a repeated claim fails its own precondition.
pub open spec fn claim_step(s: RegistryView, h: Seq<u8>) -> (RegistryView, Result<
    (),
    ErrorCode,
>) {
    if s.status_of(h) == NullifierStatus::Verified {
        (
            RegistryView {
                nullifiers: s.nullifiers.insert(spec_nullifier_key(h), NullifierStatus::Claimed),
                ..s
            },
            Ok(()),
        )
    } else {
        (s, Err(ErrorCode::NotVerified))
    }
}

} // verus!
