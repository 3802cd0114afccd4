use mintghost::keys::derive_nullifier_key;
use mintghost::{
    ClaimNft, ErrorCode, Initialize, NullifierStatus, Registry, TokenIssue, UpdateRoot,
    VerifyProof,
};

fn bytes32(b: u8) -> Vec<u8> {
    vec![b; 32]
}

fn witness_embedding(root: &[u8]) -> Vec<u8> {
    let mut w = vec![0u8; 12];
    w.extend_from_slice(root);
    w
}

fn init_op(authority_byte: u8, root_byte: u8) -> Initialize {
    Initialize {
        authority: bytes32(authority_byte),
        merkle_root: bytes32(root_byte),
        name: "Mintghost".to_string(),
        symbol: "MG".to_string(),
        uri: "https://example.invalid/meta.json".to_string(),
    }
}

fn setup(root_byte: u8) -> Registry {
    let mut reg = Registry::new();
    let r = reg.initialize(init_op(9, root_byte));
    assert_eq!(r, Ok(()));
    reg
}

fn verify_op(user_byte: u8, root_byte: u8, hash_byte: u8) -> VerifyProof {
    VerifyProof {
        user: bytes32(user_byte),
        proof_bytes: vec![0xAA, 0xBB, 0xCC],
        witness: witness_embedding(&bytes32(root_byte)),
        nullifier_hash: bytes32(hash_byte),
    }
}

#[test]
fn initialize_creates_registry() {
    let mut reg = Registry::new();
    assert!(!reg.is_initialized());
    assert_eq!(reg.mint_count(), 0);
    let r = reg.initialize(init_op(9, 7));
    assert_eq!(r, Ok(()));
    assert!(reg.is_initialized());
    assert_eq!(reg.mint_count(), 0);
    assert_eq!(reg.merkle_root(), &bytes32(7));
    assert_eq!(reg.authority(), &bytes32(9));
}

#[test]
fn initialize_twice_fails_already_exists() {
    let mut reg = setup(7);
    let r = reg.initialize(init_op(4, 8));
    assert_eq!(r, Err(ErrorCode::AlreadyExists));
    assert_eq!(reg.merkle_root(), &bytes32(7));
    assert_eq!(reg.authority(), &bytes32(9));
}

#[test]
fn initialize_accepts_metadata_at_bounds() {
    let mut reg = Registry::new();
    let op = Initialize {
        authority: bytes32(9),
        merkle_root: bytes32(7),
        name: "n".repeat(32),
        symbol: "s".repeat(10),
        uri: "u".repeat(200),
    };
    assert_eq!(reg.initialize(op), Ok(()));
}

#[test]
fn update_root_by_authority_overwrites() {
    let mut reg = setup(7);
    let r = reg.update_root(UpdateRoot { authority: bytes32(9), merkle_root: bytes32(8) });
    assert_eq!(r, Ok(()));
    assert_eq!(reg.merkle_root(), &bytes32(8));
}

#[test]
fn update_root_unauthorized_changes_nothing() {
    let mut reg = setup(7);
    let r = reg.update_root(UpdateRoot { authority: bytes32(1), merkle_root: bytes32(8) });
    assert_eq!(r, Err(ErrorCode::Unauthorized));
    assert_eq!(reg.merkle_root(), &bytes32(7));
}

#[test]
fn verify_then_claim_then_claim_again() {
    let mut reg = setup(7);
    let op = verify_op(3, 7, 5);
    let payload = reg.verification_payload(&op).unwrap();
    let accepted = true;
    assert_eq!(reg.verify_proof(&op, accepted), Ok(()));
    assert_eq!(reg.nullifier_status(&bytes32(5)), NullifierStatus::Verified);
    assert_eq!(reg.mint_count(), 1);
    assert!(!payload.is_empty());

    let c1 = reg.claim_nft(ClaimNft { user: bytes32(3), nullifier_hash: bytes32(5) });
    match c1 {
        Ok(TokenIssue { recipient, amount }) => {
            assert_eq!(recipient, bytes32(3));
            assert_eq!(amount, 1);
        },
        Err(e) => panic!("first claim rejected: {:?}", e),
    }
    assert_eq!(reg.nullifier_status(&bytes32(5)), NullifierStatus::Claimed);

    let c2 = reg.claim_nft(ClaimNft { user: bytes32(3), nullifier_hash: bytes32(5) });
    assert!(matches!(c2, Err(ErrorCode::NotVerified)));
    assert_eq!(reg.nullifier_status(&bytes32(5)), NullifierStatus::Claimed);
    assert_eq!(reg.mint_count(), 1);
}

#[test]
fn claim_without_verification_fails_not_verified() {
    let mut reg = setup(7);
    let c = reg.claim_nft(ClaimNft { user: bytes32(3), nullifier_hash: bytes32(5) });
    assert!(matches!(c, Err(ErrorCode::NotVerified)));
    assert_eq!(reg.nullifier_status(&bytes32(5)), NullifierStatus::Unseen);
}

#[test]
fn stale_root_rejected_after_rotation() {
    let mut reg = setup(7);
    let r = reg.update_root(UpdateRoot { authority: bytes32(9), merkle_root: bytes32(8) });
    assert_eq!(r, Ok(()));
    let stale = verify_op(3, 7, 5);
    assert_eq!(reg.verification_payload(&stale), Err(ErrorCode::RootMismatch));
    assert_eq!(reg.verify_proof(&stale, true), Err(ErrorCode::RootMismatch));
    assert_eq!(reg.mint_count(), 0);
    assert_eq!(reg.nullifier_status(&bytes32(5)), NullifierStatus::Unseen);
}

#[test]
fn rotated_root_verifies_fresh_witness() {
    let mut reg = setup(7);
    let r = reg.update_root(UpdateRoot { authority: bytes32(9), merkle_root: bytes32(8) });
    assert_eq!(r, Ok(()));
    let op = verify_op(3, 8, 5);
    assert_eq!(reg.verify_proof(&op, true), Ok(()));
    assert_eq!(reg.mint_count(), 1);
}

#[test]
fn racing_verifications_increment_once() {
    let mut reg = setup(7);
    let first = verify_op(3, 7, 6);
    let second = verify_op(4, 7, 6);
    assert!(reg.verification_payload(&first).is_ok());
    assert!(reg.verification_payload(&second).is_ok());
    assert_eq!(reg.verify_proof(&first, true), Ok(()));
    assert_eq!(reg.verify_proof(&second, true), Err(ErrorCode::AlreadyMinted));
    assert_eq!(reg.mint_count(), 1);
    assert_eq!(reg.nullifier_status(&bytes32(6)), NullifierStatus::Verified);
}

#[test]
fn verify_after_claim_fails_already_minted() {
    let mut reg = setup(7);
    let op = verify_op(3, 7, 5);
    assert_eq!(reg.verify_proof(&op, true), Ok(()));
    let c = reg.claim_nft(ClaimNft { user: bytes32(3), nullifier_hash: bytes32(5) });
    assert!(c.is_ok());
    assert_eq!(reg.verify_proof(&op, true), Err(ErrorCode::AlreadyMinted));
    assert_eq!(reg.mint_count(), 1);
    assert_eq!(reg.nullifier_status(&bytes32(5)), NullifierStatus::Claimed);
}

#[test]
fn short_witness_rejected_before_any_submission() {
    let mut reg = setup(7);
    let mut op = verify_op(3, 7, 5);
    op.witness.truncate(43);
    assert_eq!(reg.verification_payload(&op), Err(ErrorCode::InvalidWitness));
    assert_eq!(reg.verify_proof(&op, true), Err(ErrorCode::InvalidWitness));
    assert_eq!(reg.verify_proof(&op, false), Err(ErrorCode::InvalidWitness));
    assert_eq!(reg.mint_count(), 0);
    assert_eq!(reg.nullifier_status(&bytes32(5)), NullifierStatus::Unseen);
}

#[test]
fn witness_of_exactly_minimum_length_passes() {
    let mut reg = setup(7);
    let op = verify_op(3, 7, 5);
    assert_eq!(op.witness.len(), 44);
    assert_eq!(reg.verify_proof(&op, true), Ok(()));
}

#[test]
fn witness_longer_than_minimum_passes() {
    let mut reg = setup(7);
    let mut op = verify_op(3, 7, 5);
    op.witness.extend_from_slice(&[0xEE; 20]);
    assert_eq!(reg.verify_proof(&op, true), Ok(()));
}

#[test]
fn verifier_rejection_leaves_no_trace() {
    let mut reg = setup(7);
    let op = verify_op(3, 7, 5);
    assert_eq!(reg.verify_proof(&op, false), Err(ErrorCode::ProofInvalid));
    assert_eq!(reg.mint_count(), 0);
    assert_eq!(reg.nullifier_status(&bytes32(5)), NullifierStatus::Unseen);
    assert_eq!(reg.verify_proof(&op, true), Ok(()));
    assert_eq!(reg.mint_count(), 1);
}

#[test]
fn payload_is_proof_then_witness() {
    let reg = setup(7);
    let op = verify_op(3, 7, 5);
    let payload = reg.verification_payload(&op).unwrap();
    let mut expected = vec![0xAA, 0xBB, 0xCC];
    expected.extend_from_slice(&witness_embedding(&bytes32(7)));
    assert_eq!(payload, expected);
}

#[test]
fn distinct_nullifiers_are_independent() {
    let mut reg = setup(7);
    assert_eq!(reg.verify_proof(&verify_op(3, 7, 5), true), Ok(()));
    assert_eq!(reg.verify_proof(&verify_op(4, 7, 6), true), Ok(()));
    assert_eq!(reg.mint_count(), 2);
    let c = reg.claim_nft(ClaimNft { user: bytes32(3), nullifier_hash: bytes32(5) });
    assert!(c.is_ok());
    assert_eq!(reg.nullifier_status(&bytes32(5)), NullifierStatus::Claimed);
    assert_eq!(reg.nullifier_status(&bytes32(6)), NullifierStatus::Verified);
}

#[test]
fn derived_key_is_seed_then_hash() {
    let hash = bytes32(5);
    let key = derive_nullifier_key(&hash);
    let mut expected = b"nullifier_v7".to_vec();
    expected.extend_from_slice(&hash);
    assert_eq!(key, expected);
    let other = derive_nullifier_key(&bytes32(6));
    assert_ne!(key, other);
}

#[test]
fn fresh_registry_reports_all_unseen() {
    let reg = Registry::new();
    assert_eq!(reg.nullifier_status(&bytes32(0)), NullifierStatus::Unseen);
    assert_eq!(reg.nullifier_status(&bytes32(255)), NullifierStatus::Unseen);
    assert_eq!(reg.mint_count(), 0);
}
