//! Laws of the registry, proved once and for all over the abstract
//! transitions of [`crate::steps`]. Together they pin down the guarantees
//! the registry exists for: a nullifier is verified at most once, claimed
//! at most once, stale roots and malformed witnesses are rejected without
//! effect, and only the authority can rotate the root.

use vstd::prelude::*;

use crate::keys::{lemma_nullifier_key_injective, spec_nullifier_key};
use crate::steps::{
    claim_step, embedded_root, initialize_step, update_root_step, verify_proof_step,
    witness_min_len,
};
use crate::types::{ErrorCode, NullifierStatus, RegistryView};

verus! {

/// The lifecycle order `Unseen <= Verified <= Claimed`.
pub open spec fn status_le(a: NullifierStatus, b: NullifierStatus) -> bool {
    match (a, b) {
        (NullifierStatus::Unseen, _) => true,
        (NullifierStatus::Verified, NullifierStatus::Unseen) => false,
        (NullifierStatus::Verified, _) => true,
        (NullifierStatus::Claimed, NullifierStatus::Claimed) => true,
        (NullifierStatus::Claimed, _) => false,
    }
}

/// At most one verification ever succeeds for a given nullifier hash:
/// once a verification of `h` has succeeded, no later verification of `h`
/// can succeed, whatever witness the resubmission carries and whatever
/// the external verifier then says; and a resubmission that passes the
/// witness and root checks with an accepting verdict fails precisely with
/// `AlreadyMinted`.
pub proof fn lemma_verify_single_use(
    s: RegistryView,
    w1: Seq<u8>,
    w2: Seq<u8>,
    h: Seq<u8>,
    acc2: bool,
)
    requires
        verify_proof_step(s, w1, h, true).1 is Ok,
    ensures
        !(verify_proof_step(verify_proof_step(s, w1, h, true).0, w2, h, acc2).1 is Ok),
        w2.len() >= witness_min_len() && embedded_root(w2) == s.merkle_root && acc2
            ==> verify_proof_step(verify_proof_step(s, w1, h, true).0, w2, h, acc2).1 == Err::<
            (),
            ErrorCode,
        >(ErrorCode::AlreadyMinted),
{
    let s1 = verify_proof_step(s, w1, h, true).0;
    assert(s1.status_of(h) == NullifierStatus::Verified);
    assert(s1.merkle_root == s.merkle_root);
}

/// A claim succeeds exactly when the record is `Verified`; and right
/// after a successful claim, claiming the same hash again fails with
/// `NotVerified`: success then rejection, never success twice.
pub proof fn lemma_claim_iff_verified(s: RegistryView, h: Seq<u8>)
    ensures
        claim_step(s, h).1 is Ok <==> s.status_of(h) == NullifierStatus::Verified,
        s.status_of(h) == NullifierStatus::Verified ==> claim_step(s, h).1 == Ok::<(), ErrorCode>(
            (),
        ) && claim_step(claim_step(s, h).0, h).1 == Err::<(), ErrorCode>(ErrorCode::NotVerified),
{
    if s.status_of(h) == NullifierStatus::Verified {
        let s1 = claim_step(s, h).0;
        assert(s1.status_of(h) == NullifierStatus::Claimed);
    }
}

/// A witness whose embedded root differs from the currently published
/// root is always rejected with `RootMismatch` and changes nothing. The
/// proof payload is not even an input of the transition, and the
/// external verifier's verdict makes no difference.
pub proof fn lemma_stale_root_rejected(s: RegistryView, w: Seq<u8>, h: Seq<u8>, accepted: bool)
    requires
        w.len() >= witness_min_len(),
        embedded_root(w) != s.merkle_root,
    ensures
        verify_proof_step(s, w, h, accepted).0 == s,
        verify_proof_step(s, w, h, accepted).1 == Err::<(), ErrorCode>(ErrorCode::RootMismatch),
{
}

/// A root update by anyone but the stored authority never changes the
/// registry — in particular the published root — and always fails with
/// `Unauthorized`.
pub proof fn lemma_update_root_unauthorized(s: RegistryView, caller: Seq<u8>, new_root: Seq<u8>)
    requires
        caller != s.authority,
    ensures
        update_root_step(s, caller, new_root).0 == s,
        update_root_step(s, caller, new_root).0.merkle_root == s.merkle_root,
        update_root_step(s, caller, new_root).1 == Err::<(), ErrorCode>(ErrorCode::Unauthorized),
{
}

/// Two verifications racing on the same nullifier hash, both carrying a
/// well-formed witness with the current root: once the first has
/// succeeded, the second — even with an accepting verdict of its own —
/// observes `AlreadyMinted`, changes nothing, and the counter has
/// advanced by exactly one, not two.
pub proof fn lemma_verify_race_single_increment(
    s: RegistryView,
    w1: Seq<u8>,
    w2: Seq<u8>,
    h: Seq<u8>,
)
    requires
        verify_proof_step(s, w1, h, true).1 is Ok,
        w2.len() >= witness_min_len(),
        embedded_root(w2) == s.merkle_root,
    ensures
        verify_proof_step(s, w1, h, true).0.status_of(h) == NullifierStatus::Verified,
        verify_proof_step(s, w1, h, true).0.mint_count == s.mint_count + 1,
        verify_proof_step(verify_proof_step(s, w1, h, true).0, w2, h, true).1 == Err::<
            (),
            ErrorCode,
        >(ErrorCode::AlreadyMinted),
        verify_proof_step(verify_proof_step(s, w1, h, true).0, w2, h, true).0
            == verify_proof_step(s, w1, h, true).0,
{
    let s1 = verify_proof_step(s, w1, h, true).0;
    assert(s1.status_of(h) == NullifierStatus::Verified);
    assert(s1.merkle_root == s.merkle_root);
}

/// A witness shorter than the minimum layout is always rejected with
/// `InvalidWitness` and changes nothing, whatever verdict is supplied:
/// the outcome does not depend on the external verifier, and
/// [`crate::registry::Registry::verification_payload`] refuses such a
/// witness before anything could be submitted to the verifier at all.
pub proof fn lemma_short_witness_rejected(s: RegistryView, w: Seq<u8>, h: Seq<u8>, accepted: bool)
    requires
        w.len() < witness_min_len(),
    ensures
        verify_proof_step(s, w, h, accepted).0 == s,
        verify_proof_step(s, w, h, accepted).1 == Err::<(), ErrorCode>(ErrorCode::InvalidWitness),
{
}

/// Verification moves a nullifier's state only forward, and only at the
/// submitted hash: any other hash keeps its state exactly, and the
/// submitted hash moves only along the legal edge `Unseen -> Verified`,
/// and only when the operation succeeds.
pub proof fn lemma_verify_status_transition(
    s: RegistryView,
    w: Seq<u8>,
    ht: Seq<u8>,
    accepted: bool,
    h: Seq<u8>,
)
    requires
        h.len() == 32,
        ht.len() == 32,
    ensures
        status_le(s.status_of(h), verify_proof_step(s, w, ht, accepted).0.status_of(h)),
        verify_proof_step(s, w, ht, accepted).0.status_of(h) != s.status_of(h) ==> h == ht
            && s.status_of(h) == NullifierStatus::Unseen && verify_proof_step(
            s,
            w,
            ht,
            accepted,
        ).0.status_of(h) == NullifierStatus::Verified && verify_proof_step(s, w, ht, accepted).1
            is Ok,
{
    if verify_proof_step(s, w, ht, accepted).1 is Ok {
        if spec_nullifier_key(h) == spec_nullifier_key(ht) {
            lemma_nullifier_key_injective(h, ht);
        }
    }
}

/// Claiming moves a nullifier's state only forward, and only at the
/// claimed hash: any other hash keeps its state exactly, and the claimed
/// hash moves only along the legal edge `Verified -> Claimed`, and only
/// when the operation succeeds.
pub proof fn lemma_claim_status_transition(s: RegistryView, ht: Seq<u8>, h: Seq<u8>)
    requires
        h.len() == 32,
        ht.len() == 32,
    ensures
        status_le(s.status_of(h), claim_step(s, ht).0.status_of(h)),
        claim_step(s, ht).0.status_of(h) != s.status_of(h) ==> h == ht && s.status_of(h)
            == NullifierStatus::Verified && claim_step(s, ht).0.status_of(h)
            == NullifierStatus::Claimed && claim_step(s, ht).1 is Ok,
{
    if claim_step(s, ht).1 is Ok {
        if spec_nullifier_key(h) == spec_nullifier_key(ht) {
            lemma_nullifier_key_injective(h, ht);
        }
    }
}

/// The administrative operations never touch the nullifier ledger: no
/// lifecycle state changes through initialization or a root rotation.
pub proof fn lemma_admin_steps_preserve_nullifiers(
    s: RegistryView,
    authority: Seq<u8>,
    merkle_root: Seq<u8>,
    name: Seq<char>,
    symbol: Seq<char>,
    uri: Seq<char>,
    caller: Seq<u8>,
    new_root: Seq<u8>,
)
    ensures
        initialize_step(s, authority, merkle_root, name, symbol, uri).0.nullifiers
            == s.nullifiers,
        update_root_step(s, caller, new_root).0.nullifiers == s.nullifiers,
{
}

} // verus!
