use anchor_lang::solana_program::keccak::hashv;
use trinity_validator::merkle::{bytes_lt, calculate_merkle_root, sorted_pair};
use trinity_validator::records::{
    ConfirmSubmission, Initialize, OperationType, OperationVerified, ProofGenerated, SubmitProof,
    TrinityError, TrinityEvent, UpdateValidator, VerifyOperation,
};
use trinity_validator::relay::{
    confirm_ethereum_submission, initialize, record_consensus_proof, record_vault_verification,
    submit_consensus_proof, update_validator, verification_bytes, verify_vault_operation,
    ProgramState,
};

const AUTHORITY: [u8; 32] = [7u8; 32];
const OTHER: [u8; 32] = [9u8; 32];
const REGISTRY_KEY: [u8; 32] = [5u8; 32];

fn initialized() -> ProgramState {
    let mut s = ProgramState::new(REGISTRY_KEY, 254);
    let r = initialize(
        &mut s,
        &Initialize { authority: AUTHORITY },
        [0x11u8; 20],
        [0x22u8; 20],
        String::from("https://rpc.example"),
    );
    assert_eq!(r, Ok(()));
    s
}

fn submit_ctx(t: i64) -> SubmitProof {
    SubmitProof { authority: AUTHORITY, unix_timestamp: t }
}

fn submit(s: &mut ProgramState, id: [u8; 32], path: Vec<[u8; 32]>) -> Result<(), TrinityError> {
    submit_consensus_proof(s, &submit_ctx(1_700_000_000), id, path, [3u8; 32], [4u8; 64], 42)
}

#[test]
fn initialize_sets_registry() {
    let s = initialized();
    let v = s.validator().unwrap();
    assert_eq!(v.authority, AUTHORITY);
    assert_eq!(v.ethereum_bridge_address, [0x11u8; 20]);
    assert_eq!(v.validator_ethereum_address, [0x22u8; 20]);
    assert_eq!(v.arbitrum_rpc_url, "https://rpc.example");
    assert_eq!(v.total_proofs_submitted, 0);
    assert_eq!(v.last_processed_operation, 0);
    assert!(v.is_active);
    assert_eq!(v.bump, 254);
    assert!(s.events().is_empty());
}

#[test]
fn initialize_twice_is_refused() {
    let mut s = initialized();
    let r = initialize(&mut s, &Initialize { authority: OTHER }, [0u8; 20], [0u8; 20], String::new());
    assert_eq!(r, Err(TrinityError::AlreadyInitialized));
    assert_eq!(s.validator().unwrap().authority, AUTHORITY);
    assert_eq!(s.validator().unwrap().arbitrum_rpc_url, "https://rpc.example");
}

#[test]
fn end_to_end_submit_and_confirm() {
    let mut s = initialized();
    let id = [0x01u8; 32];
    assert_eq!(submit(&mut s, id, Vec::new()), Ok(()));
    {
        let rec = s.proof_record(&id).unwrap();
        assert_eq!(rec.merkle_root, id);
        assert!(!rec.submitted_to_ethereum);
        assert_eq!(rec.ethereum_tx_hash, [0u8; 32]);
        assert_eq!(rec.timestamp, 1_700_000_000);
        assert_eq!(rec.solana_block_number, 42);
        assert_eq!(rec.solana_block_hash, [3u8; 32]);
        assert_eq!(rec.solana_tx_signature, [4u8; 64]);
        assert_eq!(rec.validator, REGISTRY_KEY);
    }
    assert_eq!(s.validator().unwrap().total_proofs_submitted, 1);
    let confirm = ConfirmSubmission { authority: OTHER };
    assert_eq!(confirm_ethereum_submission(&mut s, &confirm, id, [0xAAu8; 32]), Ok(()));
    {
        let rec = s.proof_record(&id).unwrap();
        assert!(rec.submitted_to_ethereum);
        assert_eq!(rec.ethereum_tx_hash, [0xAAu8; 32]);
    }
    assert_eq!(
        confirm_ethereum_submission(&mut s, &confirm, id, [0xAAu8; 32]),
        Err(TrinityError::AlreadySubmitted)
    );
}

#[test]
fn deactivated_registry_refuses_proofs() {
    let mut s = initialized();
    let r = update_validator(&mut s, &UpdateValidator { authority: AUTHORITY }, None, None, Some(false));
    assert_eq!(r, Ok(()));
    assert!(!s.validator().unwrap().is_active);
    assert_eq!(submit(&mut s, [0x01u8; 32], Vec::new()), Err(TrinityError::ValidatorNotActive));
    assert!(s.proof_record(&[0x01u8; 32]).is_none());
    assert_eq!(s.validator().unwrap().total_proofs_submitted, 0);
}

#[test]
fn non_authority_cannot_deactivate() {
    let mut s = initialized();
    let r = update_validator(&mut s, &UpdateValidator { authority: OTHER }, None, None, Some(false));
    assert_eq!(r, Err(TrinityError::Unauthorized));
    assert!(s.validator().unwrap().is_active);
}

#[test]
fn inactive_registry_refuses_even_a_duplicate() {
    let mut s = initialized();
    let id = [0x0Fu8; 32];
    assert_eq!(submit(&mut s, id, Vec::new()), Ok(()));
    let r = update_validator(&mut s, &UpdateValidator { authority: AUTHORITY }, None, None, Some(false));
    assert_eq!(r, Ok(()));
    assert_eq!(submit(&mut s, id, vec![[1u8; 32]]), Err(TrinityError::ValidatorNotActive));
    assert_eq!(submit(&mut s, [0x10u8; 32], Vec::new()), Err(TrinityError::ValidatorNotActive));
}

#[test]
fn update_overwrites_only_given_fields() {
    let mut s = initialized();
    let ctx = UpdateValidator { authority: AUTHORITY };
    let r = update_validator(&mut s, &ctx, Some(String::from("https://other.example")), None, None);
    assert_eq!(r, Ok(()));
    {
        let v = s.validator().unwrap();
        assert_eq!(v.arbitrum_rpc_url, "https://other.example");
        assert_eq!(v.ethereum_bridge_address, [0x11u8; 20]);
        assert!(v.is_active);
    }
    let r = update_validator(&mut s, &ctx, None, Some([0x33u8; 20]), None);
    assert_eq!(r, Ok(()));
    let v = s.validator().unwrap();
    assert_eq!(v.arbitrum_rpc_url, "https://other.example");
    assert_eq!(v.ethereum_bridge_address, [0x33u8; 20]);
    assert_eq!(v.validator_ethereum_address, [0x22u8; 20]);
    assert!(v.is_active);
}

#[test]
fn update_before_initialize_is_refused() {
    let mut s = ProgramState::new(REGISTRY_KEY, 1);
    let r = update_validator(&mut s, &UpdateValidator { authority: AUTHORITY }, None, None, Some(true));
    assert_eq!(r, Err(TrinityError::NotInitialized));
    assert!(s.validator().is_none());
}

#[test]
fn submit_before_initialize_is_refused() {
    let mut s = ProgramState::new(REGISTRY_KEY, 1);
    assert_eq!(submit(&mut s, [1u8; 32], Vec::new()), Err(TrinityError::NotInitialized));
    assert!(s.events().is_empty());
}

#[test]
fn duplicate_submission_refused() {
    let mut s = initialized();
    let id = [0x42u8; 32];
    assert_eq!(submit(&mut s, id, vec![[1u8; 32]]), Ok(()));
    let root = s.proof_record(&id).unwrap().merkle_root;
    assert_eq!(submit(&mut s, id, Vec::new()), Err(TrinityError::DuplicateRecord));
    assert_eq!(s.proof_record(&id).unwrap().merkle_root, root);
    assert_eq!(s.proof_record(&id).unwrap().merkle_proof, vec![[1u8; 32]]);
    assert_eq!(s.validator().unwrap().total_proofs_submitted, 1);
    assert_eq!(s.events().len(), 1);
}

#[test]
fn confirm_unknown_operation_not_found() {
    let mut s = initialized();
    let r = confirm_ethereum_submission(&mut s, &ConfirmSubmission { authority: OTHER }, [8u8; 32], [1u8; 32]);
    assert_eq!(r, Err(TrinityError::OperationNotFound));
}

#[test]
fn confirmation_touches_only_its_record() {
    let mut s = initialized();
    let a = [0xA0u8; 32];
    let b = [0xB0u8; 32];
    assert_eq!(submit(&mut s, a, Vec::new()), Ok(()));
    assert_eq!(submit(&mut s, b, Vec::new()), Ok(()));
    assert_eq!(s.validator().unwrap().total_proofs_submitted, 2);
    let confirm = ConfirmSubmission { authority: OTHER };
    assert_eq!(confirm_ethereum_submission(&mut s, &confirm, b, [0xCCu8; 32]), Ok(()));
    assert!(!s.proof_record(&a).unwrap().submitted_to_ethereum);
    assert!(s.proof_record(&b).unwrap().submitted_to_ethereum);
    assert_eq!(confirm_ethereum_submission(&mut s, &confirm, a, [0xDDu8; 32]), Ok(()));
    assert_eq!(s.proof_record(&a).unwrap().ethereum_tx_hash, [0xDDu8; 32]);
    assert_eq!(s.proof_record(&b).unwrap().ethereum_tx_hash, [0xCCu8; 32]);
}

#[test]
fn proof_generated_event_is_emitted() {
    let mut s = initialized();
    let id = [0x01u8; 32];
    let sibling = [0x02u8; 32];
    assert_eq!(submit(&mut s, id, vec![sibling]), Ok(()));
    let root = s.proof_record(&id).unwrap().merkle_root;
    assert_eq!(
        s.events(),
        &[TrinityEvent::ProofGenerated(ProofGenerated {
            operation_id: id,
            merkle_root: root,
            solana_block_hash: [3u8; 32],
            solana_block_number: 42,
            timestamp: 1_700_000_000,
        })]
    );
}

#[test]
fn submitted_root_is_reconstructed_from_the_path() {
    let mut s = initialized();
    let id = [0x01u8; 32];
    let path = vec![[0x02u8; 32], [0x00u8; 32]];
    assert_eq!(submit(&mut s, id, path.clone()), Ok(()));
    let expected = calculate_merkle_root(&path, &id);
    assert_eq!(s.proof_record(&id).unwrap().merkle_root, expected);
    assert_ne!(expected, id);
}

#[test]
fn record_consensus_proof_stores_the_given_root() {
    let mut s = initialized();
    let id = [0x01u8; 32];
    let r = record_consensus_proof(&mut s, &submit_ctx(9), id, [0xEEu8; 32], vec![[2u8; 32]], [3u8; 32], [4u8; 64], 5);
    assert_eq!(r, Ok(()));
    let rec = s.proof_record(&id).unwrap();
    assert_eq!(rec.merkle_root, [0xEEu8; 32]);
    assert_eq!(rec.timestamp, 9);
    assert_eq!(rec.solana_block_number, 5);
}

#[test]
fn negative_clock_time_is_stored_as_its_bit_pattern() {
    let mut s = initialized();
    let id = [0x01u8; 32];
    let r = submit_consensus_proof(&mut s, &submit_ctx(-1), id, Vec::new(), [0u8; 32], [0u8; 64], 0);
    assert_eq!(r, Ok(()));
    assert_eq!(s.proof_record(&id).unwrap().timestamp, u64::MAX);
}

#[test]
fn empty_path_root_is_leaf() {
    let leaf = [0x5Au8; 32];
    assert_eq!(calculate_merkle_root(&[], &leaf), leaf);
}

#[test]
fn single_sibling_root_is_symmetric() {
    let leaf = [0x01u8; 32];
    let sibling = [0x02u8; 32];
    assert_eq!(calculate_merkle_root(&[sibling], &leaf), calculate_merkle_root(&[leaf], &sibling));
}

#[test]
fn single_sibling_root_hashes_smaller_first() {
    let mut small = [0u8; 32];
    small[31] = 1;
    let mut large = [0u8; 32];
    large[0] = 1;
    let expected = hashv(&[&small, &large]).0;
    assert_eq!(calculate_merkle_root(&[large], &small), expected);
    assert_eq!(calculate_merkle_root(&[small], &large), expected);
    assert_ne!(expected, hashv(&[&large, &small]).0);
}

#[test]
fn two_sibling_root_matches_step_by_step_hashing() {
    let leaf = [0x10u8; 32];
    let s1 = [0x20u8; 32];
    let s2 = [0x05u8; 32];
    let step1 = hashv(&[&leaf, &s1]).0;
    let step2 = if step1 < s2 { hashv(&[&step1, &s2]).0 } else { hashv(&[&s2, &step1]).0 };
    assert_eq!(calculate_merkle_root(&[s1, s2], &leaf), step2);
}

#[test]
fn equal_pair_root_hashes_value_twice() {
    let leaf = [0x33u8; 32];
    assert_eq!(calculate_merkle_root(&[leaf], &leaf), hashv(&[&leaf, &leaf]).0);
}

#[test]
fn byte_order_is_unsigned_lexicographic() {
    let mut a = [0u8; 32];
    let mut b = [0u8; 32];
    a[3] = 0x7F;
    b[3] = 0x80;
    assert!(bytes_lt(&a, &b));
    assert!(!bytes_lt(&b, &a));
    assert!(!bytes_lt(&a, &a));
    b[3] = 0x7F;
    b[31] = 1;
    assert!(bytes_lt(&a, &b));
}

#[test]
fn sorted_pair_puts_smaller_first() {
    let a = [1u8; 32];
    let b = [2u8; 32];
    let mut expected = Vec::new();
    expected.extend_from_slice(&a);
    expected.extend_from_slice(&b);
    assert_eq!(sorted_pair(&a, &b), expected);
    assert_eq!(sorted_pair(&b, &a), expected);
    assert_eq!(sorted_pair(&a, &b).len(), 64);
}

#[test]
fn verification_bytes_layout() {
    let user = [0x99u8; 32];
    let bytes = verification_bytes(0x0102, OperationType::EmergencyRecovery, 500, &user, -2);
    let mut expected = Vec::new();
    expected.extend_from_slice(&0x0102u64.to_le_bytes());
    expected.push(2);
    expected.extend_from_slice(&500u64.to_le_bytes());
    expected.extend_from_slice(&user);
    expected.extend_from_slice(&(-2i64).to_le_bytes());
    assert_eq!(bytes, expected);
    assert_eq!(bytes.len(), 57);
}

#[test]
fn operation_type_codes() {
    assert_eq!(OperationType::VaultWithdrawal.code(), 0);
    assert_eq!(OperationType::HTLCSwap.code(), 1);
    assert_eq!(OperationType::EmergencyRecovery.code(), 2);
    assert_eq!(OperationType::CrossChainTransfer.code(), 3);
}

#[test]
fn vault_verification_hash_and_event() {
    let mut s = initialized();
    let user = [0x44u8; 32];
    let ctx = VerifyOperation { authority: OTHER, unix_timestamp: 1_650_000_000 };
    let r = verify_vault_operation(&mut s, &ctx, 77, OperationType::HTLCSwap, 1_000, user);
    assert_eq!(r, Ok(()));
    let expected = hashv(&[
        &77u64.to_le_bytes(),
        &[1u8],
        &1_000u64.to_le_bytes(),
        &user,
        &1_650_000_000i64.to_le_bytes(),
    ])
    .0;
    let v = s.vault_verification(77).unwrap();
    assert_eq!(v.verification_hash, expected);
    assert_eq!(v.vault_id, 77);
    assert_eq!(v.operation_type, OperationType::HTLCSwap);
    assert_eq!(v.amount, 1_000);
    assert_eq!(v.user, user);
    assert_eq!(v.timestamp, 1_650_000_000);
    assert_eq!(v.validator, REGISTRY_KEY);
    assert_eq!(
        s.events(),
        &[TrinityEvent::OperationVerified(OperationVerified {
            vault_id: 77,
            operation_type: OperationType::HTLCSwap,
            amount: 1_000,
            user,
            verification_hash: expected,
        })]
    );
}

#[test]
fn duplicate_vault_verification_keeps_first_hash() {
    let mut s = initialized();
    let ctx1 = VerifyOperation { authority: OTHER, unix_timestamp: 100 };
    let ctx2 = VerifyOperation { authority: OTHER, unix_timestamp: 200 };
    assert_eq!(verify_vault_operation(&mut s, &ctx1, 5, OperationType::VaultWithdrawal, 10, [1u8; 32]), Ok(()));
    let first = s.vault_verification(5).unwrap();
    let r = verify_vault_operation(&mut s, &ctx2, 5, OperationType::CrossChainTransfer, 20, [2u8; 32]);
    assert_eq!(r, Err(TrinityError::DuplicateRecord));
    assert_eq!(s.vault_verification(5).unwrap(), first);
    assert_eq!(s.events().len(), 1);
}

#[test]
fn vault_verification_ignores_active_flag() {
    let mut s = initialized();
    let r = update_validator(&mut s, &UpdateValidator { authority: AUTHORITY }, None, None, Some(false));
    assert_eq!(r, Ok(()));
    let ctx = VerifyOperation { authority: OTHER, unix_timestamp: 1 };
    assert_eq!(verify_vault_operation(&mut s, &ctx, 1, OperationType::HTLCSwap, 1, [0u8; 32]), Ok(()));
    assert!(s.vault_verification(1).is_some());
}

#[test]
fn vault_verification_before_initialize_is_refused() {
    let mut s = ProgramState::new(REGISTRY_KEY, 1);
    let ctx = VerifyOperation { authority: OTHER, unix_timestamp: 1 };
    let r = verify_vault_operation(&mut s, &ctx, 1, OperationType::HTLCSwap, 1, [0u8; 32]);
    assert_eq!(r, Err(TrinityError::NotInitialized));
    assert!(s.vault_verification(1).is_none());
}

#[test]
fn record_vault_verification_stores_the_given_hash() {
    let mut s = initialized();
    let ctx = VerifyOperation { authority: OTHER, unix_timestamp: 3 };
    let r = record_vault_verification(&mut s, &ctx, 9, OperationType::CrossChainTransfer, 4, [6u8; 32], [0xFEu8; 32]);
    assert_eq!(r, Ok(()));
    assert_eq!(s.vault_verification(9).unwrap().verification_hash, [0xFEu8; 32]);
    assert!(s.vault_verification(8).is_none());
}

#[test]
fn longest_path_is_accepted() {
    let mut s = initialized();
    let id = [0x01u8; 32];
    let path: Vec<[u8; 32]> = (0u8..10).map(|i| [i; 32]).collect();
    assert_eq!(path.len(), trinity_validator::records::MAX_PROOF_LEN);
    assert_eq!(submit(&mut s, id, path.clone()), Ok(()));
    let rec = s.proof_record(&id).unwrap();
    assert_eq!(rec.merkle_proof, path);
    assert_eq!(rec.merkle_root, calculate_merkle_root(&path, &id));
}

#[test]
fn longest_rpc_url_is_accepted() {
    let mut s = ProgramState::new(REGISTRY_KEY, 1);
    let url = "h".repeat(trinity_validator::records::MAX_RPC_URL_LEN);
    let r = initialize(&mut s, &Initialize { authority: AUTHORITY }, [0u8; 20], [0u8; 20], url.clone());
    assert_eq!(r, Ok(()));
    assert_eq!(s.validator().unwrap().arbitrum_rpc_url, url);
}
