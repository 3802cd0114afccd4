//! The registry itself: durable state plus the four operations, each
//! proved to implement its transition from [`crate::steps`] exactly.
//!
//! The nullifier ledger is kept as a vector of `(key, record)` entries
//! with pairwise distinct keys, each key derived by
//! [`crate::keys::derive_nullifier_key`]; its abstraction is the map
//! [`records_map`]. A record is only ever persisted by a successful
//! operation, so every rejected operation leaves the whole registry
//! untouched, as the contracts state.

use vstd::prelude::*;

use crate::bytes::{bytes_eq, concat_bytes, subrange_bytes};
use crate::keys::{derive_nullifier_key, spec_nullifier_key};
use crate::steps::{
    claim_step, embedded_root, initialize_step, update_root_step, verify_proof_step,
    witness_min_len,
};
use crate::types::{
    ClaimNft, ErrorCode, Initialize, MintghostAccount, Nullifier, NullifierStatus, RegistryView,
    TokenIssue, UpdateRoot, VerifyProof,
};

verus! {

/// The ledger key stored at entry `i`.
pub(crate) open spec fn key_at(rs: Seq<(Vec<u8>, Nullifier)>, i: int) -> Seq<u8> {
    rs[i].0@
}

/// Whether some entry stores the ledger key `k`.
pub(crate) open spec fn has_key(rs: Seq<(Vec<u8>, Nullifier)>, k: Seq<u8>) -> bool {
    exists|i: int| 0 <= i < rs.len() && key_at(rs, i) == k
}

/// The index of the entry storing `k`, when one exists.
pub(crate) open spec fn index_of(rs: Seq<(Vec<u8>, Nullifier)>, k: Seq<u8>) -> int {
    choose|i: int| 0 <= i < rs.len() && key_at(rs, i) == k
}

/// No two entries store the same ledger key.
pub(crate) open spec fn keys_unique(rs: Seq<(Vec<u8>, Nullifier)>) -> bool {
    forall|i: int, j: int|
        0 <= i < rs.len() && 0 <= j < rs.len() && i != j ==> key_at(rs, i) != key_at(rs, j)
}

/// The abstraction of the entry vector: a map from stored ledger key to
/// stored lifecycle state.
pub(crate) open spec fn records_map(rs: Seq<(Vec<u8>, Nullifier)>) -> Map<
    Seq<u8>,
    NullifierStatus,
> {
    Map::new(|k: Seq<u8>| has_key(rs, k), |k: Seq<u8>| rs[index_of(rs, k)].1.status)
}

/// Under distinct keys, entry `i` is the one `records_map` reads for its key.
proof fn lemma_map_at(rs: Seq<(Vec<u8>, Nullifier)>, i: int)
    requires
        keys_unique(rs),
        0 <= i < rs.len(),
    ensures
        records_map(rs).dom().contains(key_at(rs, i)),
        records_map(rs)[key_at(rs, i)] == rs[i].1.status,
{
    let k = key_at(rs, i);
    assert(has_key(rs, k));
    let j = index_of(rs, k);
    assert(0 <= j < rs.len() && key_at(rs, j) == k);
    assert(j == i);
}

/// A key stored by no entry is outside the abstraction's domain.
proof fn lemma_map_absent(rs: Seq<(Vec<u8>, Nullifier)>, k: Seq<u8>)
    requires
        forall|i: int| 0 <= i < rs.len() ==> key_at(rs, i) != k,
    ensures
        !records_map(rs).dom().contains(k),
{
}

/// Appending an entry under a fresh key inserts it into the abstraction.
proof fn lemma_map_push(rs: Seq<(Vec<u8>, Nullifier)>, p: (Vec<u8>, Nullifier))
    requires
        keys_unique(rs),
        forall|i: int| 0 <= i < rs.len() ==> key_at(rs, i) != p.0@,
    ensures
        keys_unique(rs.push(p)),
        records_map(rs.push(p)) =~= records_map(rs).insert(p.0@, p.1.status),
{
    let rs2 = rs.push(p);
    assert forall|i: int| 0 <= i < rs.len() implies key_at(rs2, i) == key_at(rs, i) by {
        assert(rs2[i] == rs[i]);
    }
    assert(key_at(rs2, rs.len() as int) == p.0@);
    assert forall|k: Seq<u8>| #[trigger] has_key(rs2, k) implies has_key(rs, k) || k == p.0@ by {
        let i = choose|i: int| 0 <= i < rs2.len() && key_at(rs2, i) == k;
        if i < rs.len() {
            assert(key_at(rs, i) == k);
        }
    }
    assert forall|k: Seq<u8>| #[trigger] has_key(rs, k) implies has_key(rs2, k) by {
        let i = choose|i: int| 0 <= i < rs.len() && key_at(rs, i) == k;
        assert(key_at(rs2, i) == k);
    }
    assert(has_key(rs2, p.0@));
    assert forall|k: Seq<u8>| #[trigger] has_key(rs2, k) implies records_map(rs2)[k]
        == records_map(rs).insert(p.0@, p.1.status)[k] by {
        let j = index_of(rs2, k);
        assert(0 <= j < rs2.len() && key_at(rs2, j) == k);
        if k == p.0@ {
            assert(j == rs.len() as int);
            assert(records_map(rs2)[k] == p.1.status);
        } else {
            assert(j < rs.len());
            assert(key_at(rs, j) == k);
            lemma_map_at(rs, j);
            lemma_map_at(rs2, j);
            assert(rs2[j] == rs[j]);
        }
    }
    assert(records_map(rs2) =~= records_map(rs).insert(p.0@, p.1.status));
}

/// Replacing entry `i` in place, key kept, updates it in the abstraction.
proof fn lemma_map_update(rs: Seq<(Vec<u8>, Nullifier)>, i: int, p: (Vec<u8>, Nullifier))
    requires
        keys_unique(rs),
        0 <= i < rs.len(),
        p.0@ == key_at(rs, i),
    ensures
        keys_unique(rs.update(i, p)),
        records_map(rs.update(i, p)) =~= records_map(rs).insert(p.0@, p.1.status),
{
    let rs2 = rs.update(i, p);
    assert forall|j: int| 0 <= j < rs.len() implies key_at(rs2, j) == key_at(rs, j) by {
        if j != i {
            assert(rs2[j] == rs[j]);
        }
    }
    assert forall|k: Seq<u8>| #[trigger] has_key(rs2, k) implies has_key(rs, k) by {
        let j = choose|j: int| 0 <= j < rs2.len() && key_at(rs2, j) == k;
        assert(key_at(rs, j) == k);
    }
    assert forall|k: Seq<u8>| #[trigger] has_key(rs, k) implies has_key(rs2, k) by {
        let j = choose|j: int| 0 <= j < rs.len() && key_at(rs, j) == k;
        assert(key_at(rs2, j) == k);
    }
    assert forall|k: Seq<u8>| #[trigger] has_key(rs2, k) implies records_map(rs2)[k]
        == records_map(rs).insert(p.0@, p.1.status)[k] by {
        let j = index_of(rs2, k);
        assert(0 <= j < rs2.len() && key_at(rs2, j) == k);
        if k == p.0@ {
            assert(j == i);
            assert(records_map(rs2)[k] == p.1.status);
        } else {
            assert(j != i);
            assert(key_at(rs, j) == k);
            lemma_map_at(rs, j);
            lemma_map_at(rs2, j);
            assert(rs2[j] == rs[j]);
        }
    }
    assert(records_map(rs2) =~= records_map(rs).insert(p.0@, p.1.status));
}

/// The registry: the singleton configuration record, if it was created,
/// and the nullifier ledger.
pub struct Registry {
    config: Option<MintghostAccount>,
    records: Vec<(Vec<u8>, Nullifier)>,
}

impl View for Registry {
    type V = RegistryView;

    closed spec fn view(&self) -> RegistryView {
        match self.config {
            Some(c) => RegistryView {
                initialized: true,
                authority: c.authority@,
                merkle_root: c.merkle_root@,
                name: c.name@,
                symbol: c.symbol@,
                uri: c.uri@,
                mint_count: c.mint_count as nat,
                nullifiers: records_map(self.records@),
            },
            None => RegistryView {
                initialized: false,
                authority: Seq::empty(),
                merkle_root: Seq::empty(),
                name: Seq::empty(),
                symbol: Seq::empty(),
                uri: Seq::empty(),
                mint_count: 0,
                nullifiers: records_map(self.records@),
            },
        }
    }
}

impl Registry {
    /// Well-formedness: ledger keys are pairwise distinct, and the
    /// configuration record, once created, keeps 32-byte authority and
    /// root and metadata within its documented bounds.
    pub closed spec fn wf(&self) -> bool {
        &&& keys_unique(self.records@)
        &&& match self.config {
            Some(c) => c.authority@.len() == 32 && c.merkle_root@.len() == 32 && c.name@.len()
                <= 32 && c.symbol@.len() <= 10 && c.uri@.len() <= 200,
            None => true,
        }
    }

    /// A fresh registry: not yet initialized, no nullifier records.
    pub fn new() -> (r: Registry)
        ensures
            r.wf(),
            r@ == RegistryView::empty(),
    {
        let r = Registry { config: None, records: Vec::new() };
        proof {
            assert forall|k: Seq<u8>| !records_map(r.records@).dom().contains(k) by {
                lemma_map_absent(r.records@, k);
            }
            assert(records_map(r.records@) =~= Map::<Seq<u8>, NullifierStatus>::empty());
            assert(r@ =~= RegistryView::empty());
        }
        r
    }

    /// The index of the ledger entry storing `key`, if any.
    fn find_record(&self, key: &Vec<u8>) -> (r: Option<usize>)
        ensures
            match r {
                Some(i) => i < self.records@.len() && key_at(self.records@, i as int) == key@,
                None => forall|i: int|
                    0 <= i < self.records@.len() ==> key_at(self.records@, i) != key@,
            },
    {
        let mut i: usize = 0;
        while i < self.records.len()
            invariant
                i <= self.records@.len(),
                forall|j: int| 0 <= j < i ==> key_at(self.records@, j) != key@,
            decreases self.records@.len() - i,
        {
            if bytes_eq(&self.records[i].0, key) {
                return Some(i);
            }
            i = i + 1;
        }
        None
    }

    /// Creates the singleton configuration record. Rejected with
    /// `AlreadyExists` if the registry was already initialized; otherwise
    /// the caller becomes the authority and the counter starts at zero.
    pub fn initialize(&mut self, op: Initialize) -> (r: Result<(), ErrorCode>)
        requires
            old(self).wf(),
            op.authority@.len() == 32,
            op.merkle_root@.len() == 32,
            op.name@.len() <= 32,
            op.symbol@.len() <= 10,
            op.uri@.len() <= 200,
        ensures
            final(self).wf(),
            final(self)@ == initialize_step(
                old(self)@,
                op.authority@,
                op.merkle_root@,
                op.name@,
                op.symbol@,
                op.uri@,
            ).0,
            r == initialize_step(
                old(self)@,
                op.authority@,
                op.merkle_root@,
                op.name@,
                op.symbol@,
                op.uri@,
            ).1,
    {
        if self.config.is_some() {
            return Err(ErrorCode::AlreadyExists);
        }
        self.config = Some(
            MintghostAccount {
                authority: op.authority,
                merkle_root: op.merkle_root,
                name: op.name,
                symbol: op.symbol,
                uri: op.uri,
                mint_count: 0,
            },
        );
        proof {
            assert(self@ =~= initialize_step(
                old(self)@,
                op.authority@,
                op.merkle_root@,
                op.name@,
                op.symbol@,
                op.uri@,
            ).0);
        }
        Ok(())
    }

    /// Rotates the published root. Only the stored authority may do so;
    /// any other caller is rejected with `Unauthorized` and changes
    /// nothing.
    pub fn update_root(&mut self, op: UpdateRoot) -> (r: Result<(), ErrorCode>)
        requires
            old(self).wf(),
            old(self)@.initialized,
            op.merkle_root@.len() == 32,
        ensures
            final(self).wf(),
            final(self)@ == update_root_step(old(self)@, op.authority@, op.merkle_root@).0,
            r == update_root_step(old(self)@, op.authority@, op.merkle_root@).1,
    {
        let authorized = match &self.config {
            Some(c) => bytes_eq(&op.authority, &c.authority),
            None => false,
        };
        if !authorized {
            return Err(ErrorCode::Unauthorized);
        }
        match &mut self.config {
            Some(c) => {
                c.merkle_root = op.merkle_root;
            },
            None => {},
        }
        proof {
            assert(self@ =~= update_root_step(old(self)@, op.authority@, op.merkle_root@).0);
        }
        Ok(())
    }

    /// Builds the payload to submit to the external verification service:
    /// the proof bytes followed by the witness bytes. A malformed witness
    /// or a stale embedded root is rejected here, before anything is
    /// submitted, so no verifier call is ever made for such inputs.
    pub fn verification_payload(&self, op: &VerifyProof) -> (r: Result<Vec<u8>, ErrorCode>)
        requires
            self@.initialized,
        ensures
            op.witness@.len() < witness_min_len() ==> r == Err::<Vec<u8>, ErrorCode>(
                ErrorCode::InvalidWitness,
            ),
            op.witness@.len() >= witness_min_len() && embedded_root(op.witness@)
                != self@.merkle_root ==> r == Err::<Vec<u8>, ErrorCode>(ErrorCode::RootMismatch),
            op.witness@.len() >= witness_min_len() && embedded_root(op.witness@)
                == self@.merkle_root ==> (r matches Ok(p) && p@ == op.proof_bytes@ + op.witness@),
    {
        if op.witness.len() < 44 {
            return Err(ErrorCode::InvalidWitness);
        }
        let embedded = subrange_bytes(&op.witness, 12, 44);
        let root_ok = match &self.config {
            Some(c) => bytes_eq(&embedded, &c.merkle_root),
            None => false,
        };
        if !root_ok {
            return Err(ErrorCode::RootMismatch);
        }
        Ok(concat_bytes(&op.proof_bytes, &op.witness))
    }

    /// Records the outcome of one proof verification, `accepted` being
    /// the external verifier's verdict on the payload built by
    /// [`Registry::verification_payload`]. Checks run in order: witness
    /// layout, embedded root against the published root, the verdict,
    /// then the nullifier's state. On success the nullifier becomes
    /// `Verified` and the counter advances by one; every rejection leaves
    /// the registry untouched.
    pub fn verify_proof(&mut self, op: &VerifyProof, accepted: bool) -> (r: Result<
        (),
        ErrorCode,
    >)
        requires
            old(self).wf(),
            old(self)@.initialized,
            op.nullifier_hash@.len() == 32,
            old(self)@.mint_count < u64::MAX,
        ensures
            final(self).wf(),
            final(self)@ == verify_proof_step(
                old(self)@,
                op.witness@,
                op.nullifier_hash@,
                accepted,
            ).0,
            r == verify_proof_step(old(self)@, op.witness@, op.nullifier_hash@, accepted).1,
    {
        if op.witness.len() < 44 {
            return Err(ErrorCode::InvalidWitness);
        }
        let embedded = subrange_bytes(&op.witness, 12, 44);
        let root_ok = match &self.config {
            Some(c) => bytes_eq(&embedded, &c.merkle_root),
            None => false,
        };
        if !root_ok {
            return Err(ErrorCode::RootMismatch);
        }
        if !accepted {
            return Err(ErrorCode::ProofInvalid);
        }
        let key = derive_nullifier_key(&op.nullifier_hash);
        let ghost kv = key@;
        let ghost rs0 = self.records@;
        match self.find_record(&key) {
            Some(i) => {
                proof {
                    lemma_map_at(rs0, i as int);
                }
                match self.records[i].1.status {
                    NullifierStatus::Unseen => {
                        self.records.set(i, (key, Nullifier { status: NullifierStatus::Verified }));
                        proof {
                            lemma_map_update(rs0, i as int, self.records@[i as int]);
                        }
                    },
                    _ => {
                        return Err(ErrorCode::AlreadyMinted);
                    },
                }
            },
            None => {
                proof {
                    lemma_map_absent(rs0, kv);
                }
                self.records.push((key, Nullifier { status: NullifierStatus::Verified }));
                proof {
                    lemma_map_push(rs0, self.records@[rs0.len() as int]);
                }
            },
        }
        match &mut self.config {
            Some(c) => {
                c.mint_count = c.mint_count + 1;
            },
            None => {},
        }
        proof {
            assert(self@ =~= verify_proof_step(
                old(self)@,
                op.witness@,
                op.nullifier_hash@,
                accepted,
            ).0);
        }
        Ok(())
    }

    /// Issues the single claim a verified nullifier is owed: moves the
    /// record to `Claimed` and returns the order to mint exactly one unit
    /// of a fresh unique token to the caller. A nullifier in any other
    /// state is rejected with `NotVerified` — in particular a repeated
    /// claim, whose record is already `Claimed`.
    pub fn claim_nft(&mut self, op: ClaimNft) -> (r: Result<TokenIssue, ErrorCode>)
        requires
            old(self).wf(),
            old(self)@.initialized,
            op.nullifier_hash@.len() == 32,
        ensures
            final(self).wf(),
            final(self)@ == claim_step(old(self)@, op.nullifier_hash@).0,
            r matches Ok(issue) ==> claim_step(old(self)@, op.nullifier_hash@).1 == Ok::<
                (),
                ErrorCode,
            >(()) && issue.recipient@ == op.user@ && issue.amount == 1,
            r matches Err(e) ==> claim_step(old(self)@, op.nullifier_hash@).1 == Err::<
                (),
                ErrorCode,
            >(e),
    {
        let key = derive_nullifier_key(&op.nullifier_hash);
        let ghost kv = key@;
        let ghost rs0 = self.records@;
        match self.find_record(&key) {
            Some(i) => {
                proof {
                    lemma_map_at(rs0, i as int);
                }
                match self.records[i].1.status {
                    NullifierStatus::Verified => {
                        self.records.set(i, (key, Nullifier { status: NullifierStatus::Claimed }));
                        proof {
                            lemma_map_update(rs0, i as int, self.records@[i as int]);
                            assert(self@ =~= claim_step(old(self)@, op.nullifier_hash@).0);
                        }
                        Ok(TokenIssue { recipient: op.user, amount: 1 })
                    },
                    _ => Err(ErrorCode::NotVerified),
                }
            },
            None => {
                proof {
                    lemma_map_absent(rs0, kv);
                }
                Err(ErrorCode::NotVerified)
            },
        }
    }

    /// Whether the singleton configuration record exists.
    pub fn is_initialized(&self) -> (r: bool)
        ensures
            r == self@.initialized,
    {
        self.config.is_some()
    }

    /// The number of successful verifications so far; zero before
    /// initialization.
    pub fn mint_count(&self) -> (r: u64)
        ensures
            r as nat == self@.mint_count,
    {
        match &self.config {
            Some(c) => c.mint_count,
            None => 0,
        }
    }

    /// The published root.
    pub fn merkle_root(&self) -> (r: &Vec<u8>)
        requires
            self@.initialized,
        ensures
            r@ == self@.merkle_root,
    {
        match &self.config {
            Some(c) => &c.merkle_root,
            None => vstd::pervasive::unreached(),
        }
    }

    /// The controlling party.
    pub fn authority(&self) -> (r: &Vec<u8>)
        requires
            self@.initialized,
        ensures
            r@ == self@.authority,
    {
        match &self.config {
            Some(c) => &c.authority,
            None => vstd::pervasive::unreached(),
        }
    }

    /// The lifecycle state of `nullifier_hash`: `Unseen` unless a
    /// successful verification, and then a successful claim, moved it on.
    pub fn nullifier_status(&self, nullifier_hash: &Vec<u8>) -> (r: NullifierStatus)
        requires
            self.wf(),
        ensures
            r == self@.status_of(nullifier_hash@),
    {
        let key = derive_nullifier_key(nullifier_hash);
        match self.find_record(&key) {
            Some(i) => {
                proof {
                    lemma_map_at(self.records@, i as int);
                }
                self.records[i].1.status
            },
            None => {
                proof {
                    lemma_map_absent(self.records@, key@);
                }
                NullifierStatus::Unseen
            },
        }
    }
}

} // verus!
