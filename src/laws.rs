//! Properties of the relay that span several instructions, stated over the
//! instructions' own postconditions.
use vstd::prelude::*;

use crate::records::{
    ConfirmSubmission, Initialize, OperationType, SubmitProof, TrinityError, UpdateValidator,
    VerifyOperation,
};
use crate::relay::{
    confirm_post, initialize_post, submit_post, update_post, verify_vault_post, ProgramState,
};

verus! {

/// Every confirmed proof record of `pre` is still in `post`, unchanged.
pub open spec fn confirmations_kept(pre: ProgramState, post: ProgramState) -> bool {
    forall|id: [u8; 32]|
        #![trigger post.proofs()[id]]
        pre.proofs().contains_key(id) && pre.proofs()[id].submitted_to_ethereum ==> {
            &&& post.proofs().contains_key(id)
            &&& post.proofs()[id] == pre.proofs()[id]
        }
}

/// Submitting a proof twice for one operation id: the first submission, on
/// an active registry, succeeds; the second fails with `DuplicateRecord`
/// and changes nothing.
pub proof fn lemma_second_submission_is_duplicate(
    s0: ProgramState,
    s1: ProgramState,
    s2: ProgramState,
    ctx1: SubmitProof,
    ctx2: SubmitProof,
    operation_id: [u8; 32],
    path1: Seq<[u8; 32]>,
    path2: Seq<[u8; 32]>,
    block_hash1: [u8; 32],
    block_hash2: [u8; 32],
    signature1: [u8; 64],
    signature2: [u8; 64],
    block_number1: u64,
    block_number2: u64,
    r1: Result<(), TrinityError>,
    r2: Result<(), TrinityError>,
)
    requires
        s0.registry() matches Some(v) && v.is_active,
        !s0.proofs().contains_key(operation_id),
        submit_post(s0, s1, ctx1, operation_id, path1, block_hash1, signature1, block_number1, r1),
        submit_post(s1, s2, ctx2, operation_id, path2, block_hash2, signature2, block_number2, r2),
    ensures
        r1 is Ok,
        s1.proofs().contains_key(operation_id),
        r2 == Err::<(), TrinityError>(TrinityError::DuplicateRecord),
        s2 == s1,
{
    assert(s1.proofs().contains_key(operation_id));
}

/// A proof record is confirmed exactly once: the first confirmation
/// succeeds and stores the remote hash, the next fails with
/// `AlreadySubmitted` and changes nothing.
pub proof fn lemma_confirmation_happens_once(
    s0: ProgramState,
    s1: ProgramState,
    s2: ProgramState,
    operation_id: [u8; 32],
    tx_hash1: [u8; 32],
    tx_hash2: [u8; 32],
    r1: Result<(), TrinityError>,
    r2: Result<(), TrinityError>,
)
    requires
        s0.proofs().contains_key(operation_id),
        !s0.proofs()[operation_id].submitted_to_ethereum,
        confirm_post(s0, s1, operation_id, tx_hash1, r1),
        confirm_post(s1, s2, operation_id, tx_hash2, r2),
    ensures
        r1 is Ok,
        s1.proofs()[operation_id].submitted_to_ethereum,
        s1.proofs()[operation_id].ethereum_tx_hash == tx_hash1,
        r2 == Err::<(), TrinityError>(TrinityError::AlreadySubmitted),
        s2 == s1,
{
    assert(s1.proofs().contains_key(operation_id));
}

/// Confirming a record that is already confirmed fails with
/// `AlreadySubmitted` and changes nothing.
pub proof fn lemma_confirmed_record_refuses_confirmation(
    s0: ProgramState,
    s1: ProgramState,
    operation_id: [u8; 32],
    tx_hash: [u8; 32],
    r: Result<(), TrinityError>,
)
    requires
        s0.proofs().contains_key(operation_id),
        s0.proofs()[operation_id].submitted_to_ethereum,
        confirm_post(s0, s1, operation_id, tx_hash, r),
    ensures
        r == Err::<(), TrinityError>(TrinityError::AlreadySubmitted),
        s1 == s0,
{
}

/// `initialize` leaves every confirmed record as it was.
pub proof fn lemma_initialize_keeps_confirmations(
    s0: ProgramState,
    s1: ProgramState,
    ctx: Initialize,
    ethereum_bridge_address: [u8; 20],
    validator_ethereum_address: [u8; 20],
    arbitrum_rpc_url: String,
    r: Result<(), TrinityError>,
)
    requires
        initialize_post(
            s0,
            s1,
            ctx,
            ethereum_bridge_address,
            validator_ethereum_address,
            arbitrum_rpc_url,
            r,
        ),
    ensures
        confirmations_kept(s0, s1),
{
}

/// `submit_consensus_proof` leaves every confirmed record as it was.
pub proof fn lemma_submission_keeps_confirmations(
    s0: ProgramState,
    s1: ProgramState,
    ctx: SubmitProof,
    operation_id: [u8; 32],
    path: Seq<[u8; 32]>,
    block_hash: [u8; 32],
    signature: [u8; 64],
    block_number: u64,
    r: Result<(), TrinityError>,
)
    requires
        submit_post(s0, s1, ctx, operation_id, path, block_hash, signature, block_number, r),
    ensures
        confirmations_kept(s0, s1),
{
}

/// `confirm_ethereum_submission` leaves every confirmed record as it was.
pub proof fn lemma_confirmation_keeps_confirmations(
    s0: ProgramState,
    s1: ProgramState,
    operation_id: [u8; 32],
    tx_hash: [u8; 32],
    r: Result<(), TrinityError>,
)
    requires
        confirm_post(s0, s1, operation_id, tx_hash, r),
    ensures
        confirmations_kept(s0, s1),
{
}

/// `verify_vault_operation` leaves every confirmed record as it was.
pub proof fn lemma_vault_verification_keeps_confirmations(
    s0: ProgramState,
    s1: ProgramState,
    ctx: VerifyOperation,
    vault_id: u64,
    operation_type: OperationType,
    amount: u64,
    user: [u8; 32],
    r: Result<(), TrinityError>,
)
    requires
        verify_vault_post(s0, s1, ctx, vault_id, operation_type, amount, user, r),
    ensures
        confirmations_kept(s0, s1),
{
}

/// `update_validator` leaves every confirmed record as it was.
pub proof fn lemma_update_keeps_confirmations(
    s0: ProgramState,
    s1: ProgramState,
    ctx: UpdateValidator,
    new_arbitrum_rpc: Option<String>,
    new_ethereum_bridge: Option<[u8; 20]>,
    is_active: Option<bool>,
    r: Result<(), TrinityError>,
)
    requires
        update_post(s0, s1, ctx, new_arbitrum_rpc, new_ethereum_bridge, is_active, r),
    ensures
        confirmations_kept(s0, s1),
{
}

/// While the registry is inactive, every proof submission fails with
/// `ValidatorNotActive` and changes nothing, whatever its inputs.
pub proof fn lemma_inactive_registry_refuses_proofs(
    s0: ProgramState,
    s1: ProgramState,
    ctx: SubmitProof,
    operation_id: [u8; 32],
    path: Seq<[u8; 32]>,
    block_hash: [u8; 32],
    signature: [u8; 64],
    block_number: u64,
    r: Result<(), TrinityError>,
)
    requires
        s0.registry() matches Some(v) && !v.is_active,
        submit_post(s0, s1, ctx, operation_id, path, block_hash, signature, block_number, r),
    ensures
        r == Err::<(), TrinityError>(TrinityError::ValidatorNotActive),
        s1 == s0,
{
}

/// Verifying one vault twice: the first verification, once the registry
/// exists, succeeds; the second fails with `DuplicateRecord`, and the first
/// record, its hash included, is kept.
pub proof fn lemma_second_vault_verification_is_duplicate(
    s0: ProgramState,
    s1: ProgramState,
    s2: ProgramState,
    ctx1: VerifyOperation,
    ctx2: VerifyOperation,
    vault_id: u64,
    operation_type1: OperationType,
    operation_type2: OperationType,
    amount1: u64,
    amount2: u64,
    user1: [u8; 32],
    user2: [u8; 32],
    r1: Result<(), TrinityError>,
    r2: Result<(), TrinityError>,
)
    requires
        s0.registry() is Some,
        !s0.vaults().contains_key(vault_id),
        verify_vault_post(s0, s1, ctx1, vault_id, operation_type1, amount1, user1, r1),
        verify_vault_post(s1, s2, ctx2, vault_id, operation_type2, amount2, user2, r2),
    ensures
        r1 is Ok,
        r2 == Err::<(), TrinityError>(TrinityError::DuplicateRecord),
        s2.vaults()[vault_id] == s1.vaults()[vault_id],
        s2.vaults()[vault_id].verification_hash == s1.vaults()[vault_id].verification_hash,
        s2 == s1,
{
    assert(s1.vaults().contains_key(vault_id));
}

} // verus!
