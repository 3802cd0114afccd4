//! Deterministic derived addressing for nullifier records.
//!
//! Every nullifier record lives in the ledger under a key computed
//! reproducibly from a fixed seed concatenated with the 32-byte nullifier
//! hash. Two submissions of the same hash therefore resolve to the same
//! record and contend, rather than each getting a private record; this is
//! what makes "at most one record per nullifier hash" hold by construction
//! (see [`lemma_nullifier_key_injective`]).

use vstd::prelude::*;

verus! {

/// The fixed seed prefixed to every nullifier-record key.
pub open spec fn nullifier_seed() -> Seq<u8> {
    seq![110u8, 117u8, 108u8, 108u8, 105u8, 102u8, 105u8, 101u8, 114u8, 95u8, 118u8, 55u8]
}

/// The ledger key of the nullifier record for hash `h`.
pub open spec fn spec_nullifier_key(h: Seq<u8>) -> Seq<u8> {
    nullifier_seed() + h
}

/// Computes the ledger key of the nullifier record for `nullifier_hash`.
pub fn derive_nullifier_key(nullifier_hash: &Vec<u8>) -> (key: Vec<u8>)
    ensures
        key@ == spec_nullifier_key(nullifier_hash@),
{
    let mut key: Vec<u8> = Vec::new();
    key.push(110u8);
    key.push(117u8);
    key.push(108u8);
    key.push(108u8);
    key.push(105u8);
    key.push(102u8);
    key.push(105u8);
    key.push(101u8);
    key.push(114u8);
    key.push(95u8);
    key.push(118u8);
    key.push(55u8);
    proof {
        assert(key@ =~= nullifier_seed());
    }
    let mut i: usize = 0;
    while i < nullifier_hash.len()
        invariant
            i <= nullifier_hash@.len(),
            key@ == nullifier_seed() + nullifier_hash@.subrange(0, i as int),
        decreases nullifier_hash@.len() - i,
    {
        key.push(nullifier_hash[i]);
        proof {
            assert(key@ =~= nullifier_seed() + nullifier_hash@.subrange(0, i as int + 1));
        }
        i = i + 1;
    }
    proof {
        assert(key@ =~= spec_nullifier_key(nullifier_hash@));
    }
    key
}

/// Distinct nullifier hashes of equal length always resolve to distinct
/// ledger keys: the derived-address scheme cannot alias two hashes.
pub proof fn lemma_nullifier_key_injective(h1: Seq<u8>, h2: Seq<u8>)
    requires
        h1.len() == h2.len(),
        spec_nullifier_key(h1) == spec_nullifier_key(h2),
    ensures
        h1 == h2,
{
    assert forall|i: int| 0 <= i < h1.len() implies h1[i] == h2[i] by {
        assert(spec_nullifier_key(h1)[12 + i] == h1[i]);
        assert(spec_nullifier_key(h2)[12 + i] == h2[i]);
    }
    assert(h1 =~= h2);
}

} // verus!
