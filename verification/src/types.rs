//! Data model of the registry: records, lifecycle states, error kinds,
//! operation inputs, and the abstract view that all contracts speak of.

use vstd::prelude::*;

use crate::keys::spec_nullifier_key;

verus! {

/// Why an operation was rejected. Every precondition failure maps to
/// exactly one of these kinds, and a rejected operation leaves the
/// registry exactly as it was.
#[derive(Clone, Copy, Debug, PartialEq, Eq, Structural)]
pub enum ErrorCode {
    /// The witness is shorter than the fixed minimum layout.
    InvalidWitness,
    /// The root embedded in the witness differs from the published root.
    RootMismatch,
    /// The external verification service rejected the payload.
    ProofInvalid,
    /// The nullifier was already past `Unseen` when verification was attempted.
    AlreadyMinted,
    /// A claim was attempted on a nullifier not in the `Verified` state.
    NotVerified,
    /// A root update was attempted by a caller other than the authority.
    Unauthorized,
    /// Initialization was attempted when the registry already exists.
    AlreadyExists,
}

/// Lifecycle state of a nullifier record. Transitions are monotonic:
/// only `Unseen -> Verified` (a successful verification) and
/// `Verified -> Claimed` (a successful claim) are legal; `Claimed` is
/// terminal.
#[derive(Clone, Copy, Debug, PartialEq, Eq, Structural)]
pub enum NullifierStatus {
    /// The hash has never been part of a successful verification.
    Unseen,
    /// A proof carrying this hash passed verification; one claim is owed.
    Verified,
    /// The single claim for this hash has been issued.
    Claimed,
}

/// One nullifier record: the lifecycle state of a single nullifier hash.
pub struct Nullifier {
    /// Current lifecycle state.
    pub status: NullifierStatus,
}

/// The singleton configuration record of the registry.
pub struct MintghostAccount {
    /// Identity of the controlling party; set once at creation and checked
    /// on every root rotation.
    pub authority: Vec<u8>,
    /// The 32-byte published commitment: the single source of truth for
    /// what counts as valid membership.
    pub merkle_root: Vec<u8>,
    /// Descriptive name, at most 32 characters.
    pub name: String,
    /// Descriptive symbol, at most 10 characters.
    pub symbol: String,
    /// Descriptive metadata locator, at most 200 characters.
    pub uri: String,
    /// Number of successful verifications so far; informational.
    pub mint_count: u64,
}

/// Inputs of the `initialize` operation: the caller becomes the authority.
pub struct Initialize {
    /// The caller; recorded as the registry's authority.
    pub authority: Vec<u8>,
    /// The initial 32-byte published root.
    pub merkle_root: Vec<u8>,
    /// Descriptive name, at most 32 characters.
    pub name: String,
    /// Descriptive symbol, at most 10 characters.
    pub symbol: String,
    /// Descriptive metadata locator, at most 200 characters.
    pub uri: String,
}

/// Inputs of the `update_root` operation.
pub struct UpdateRoot {
    /// The caller; must equal the stored authority.
    pub authority: Vec<u8>,
    /// The replacement 32-byte root.
    pub merkle_root: Vec<u8>,
}

/// Inputs of the `verify_proof` operation.
///
/// The submitting `user` funds the record slot in the surrounding host;
/// the outcome of verification does not depend on who submits.
pub struct VerifyProof {
    /// The submitting caller.
    pub user: Vec<u8>,
    /// The opaque proof bytes, forwarded to the external verifier.
    pub proof_bytes: Vec<u8>,
    /// The public input bundle; bytes 12..44 carry the root the proof was
    /// built against, bytes 0..12 are reserved.
    pub witness: Vec<u8>,
    /// The 32-byte nullifier hash derived from the proof's secret material.
    pub nullifier_hash: Vec<u8>,
}

/// Inputs of the `claim_nft` operation.
pub struct ClaimNft {
    /// The caller; receives the issued token.
    pub user: Vec<u8>,
    /// The 32-byte nullifier hash whose verified record backs the claim.
    pub nullifier_hash: Vec<u8>,
}

/// The issuance order returned by a successful claim: the host's token
/// collaborator must mint exactly `amount` units of a fresh unique token
/// to `recipient`. The registry is the sole source of these orders.
pub struct TokenIssue {
    /// Who receives the token.
    pub recipient: Vec<u8>,
    /// How many units to issue; always 1.
    pub amount: u64,
}

/// The abstract state of the registry: what every contract in this crate
/// speaks of. The nullifier ledger is a map from derived record keys to
/// lifecycle states; a hash without a record is `Unseen`.
#[verifier::ext_equal]
pub ghost struct RegistryView {
    /// Whether the singleton configuration record exists.
    pub initialized: bool,
    /// The controlling party, once initialized.
    pub authority: Seq<u8>,
    /// The published 32-byte commitment, once initialized.
    pub merkle_root: Seq<u8>,
    /// Descriptive name.
    pub name: Seq<char>,
    /// Descriptive symbol.
    pub symbol: Seq<char>,
    /// Descriptive metadata locator.
    pub uri: Seq<char>,
    /// Number of successful verifications so far.
    pub mint_count: nat,
    /// The nullifier ledger, keyed by derived record key.
    pub nullifiers: Map<Seq<u8>, NullifierStatus>,
}

impl RegistryView {
    /// The state recorded under ledger key `k`; `Unseen` if absent.
    pub open spec fn key_status(self, k: Seq<u8>) -> NullifierStatus {
        if self.nullifiers.dom().contains(k) {
            self.nullifiers[k]
        } else {
            NullifierStatus::Unseen
        }
    }

    /// The lifecycle state of nullifier hash `h`.
    pub open spec fn status_of(self, h: Seq<u8>) -> NullifierStatus {
        self.key_status(spec_nullifier_key(h))
    }

    /// The view of a registry that was never initialized.
    pub open spec fn empty() -> RegistryView {
        RegistryView {
            initialized: false,
            authority: Seq::empty(),
            merkle_root: Seq::empty(),
            name: Seq::empty(),
            symbol: Seq::empty(),
            uri: Seq::empty(),
            mint_count: 0,
            nullifiers: Map::empty(),
        }
    }
}

} // verus!
