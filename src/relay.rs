//! The relay's state and its instructions.
//!
//! The state holds the validator registry, the proof records keyed by
//! operation id, the vault verification records keyed by vault id, and the
//! ordered notification log. Each instruction either applies all of its
//! effects or, when a precondition fails, returns an error and changes nothing.
use vstd::prelude::*;

use vstd::bytes::{spec_u64_to_le_bytes, u64_to_le_bytes};

use crate::keccak::{keccak256, keccak256_of};
use crate::merkle::{calculate_merkle_root, merkle_root};
use crate::records::{
    ConfirmSubmission, Initialize, OperationType, OperationVerified, ProofGenerated, ProofRecord,
    SubmitProof, TrinityError, TrinityEvent, TrinityValidator, UpdateValidator, VaultVerification,
    VerifyOperation, MAX_PROOF_LEN, MAX_RPC_URL_LEN, utf8_len,
};
use crate::store::{
    bytes_eq, index_map, keys_unique, lemma_index_map_at, lemma_index_map_push,
    lemma_index_map_update,
};

verus! {

/// Proof records are addressed by their operation id.
pub open spec fn proof_key() -> spec_fn(ProofRecord) -> [u8; 32] {
    |r: ProofRecord| r.operation_id
}

/// Vault verifications are addressed by their vault id.
pub open spec fn vault_key() -> spec_fn(VaultVerification) -> u64 {
    |v: VaultVerification| v.vault_id
}

/// The ledger state that the relay's instructions act on.
pub struct ProgramState {
    validator: Option<TrinityValidator>,
    validator_key: [u8; 32],
    validator_bump: u8,
    proof_records: Vec<ProofRecord>,
    verifications: Vec<VaultVerification>,
    events: Vec<TrinityEvent>,
}

impl ProgramState {
    /// The validator registry, once initialized.
    pub closed spec fn registry(&self) -> Option<TrinityValidator> {
        self.validator
    }

    /// The address of the registry account.
    pub closed spec fn key(&self) -> [u8; 32] {
        self.validator_key
    }

    /// The bump seed of the registry account's address.
    pub closed spec fn bump(&self) -> u8 {
        self.validator_bump
    }

    /// The proof records, by operation id.
    pub closed spec fn proofs(&self) -> Map<[u8; 32], ProofRecord> {
        index_map(self.proof_records@, proof_key())
    }

    /// The vault verification records, by vault id.
    pub closed spec fn vaults(&self) -> Map<u64, VaultVerification> {
        index_map(self.verifications@, vault_key())
    }

    /// The notifications emitted so far, oldest first.
    pub closed spec fn log(&self) -> Seq<TrinityEvent> {
        self.events@
    }

    /// Keys are unique in each store; proof records exist only once the
    /// registry does, and the registry counts every one of them; the RPC
    /// endpoint fits its bound.
    pub closed spec fn wf(&self) -> bool {
        &&& keys_unique(self.proof_records@, proof_key())
        &&& keys_unique(self.verifications@, vault_key())
        &&& self.validator is None ==> self.proof_records@.len() == 0
        &&& self.validator matches Some(v) ==> v.total_proofs_submitted
            == self.proof_records@.len()
        &&& self.validator matches Some(v) ==> utf8_len(v.arbitrum_rpc_url) <= MAX_RPC_URL_LEN
    }

    /// A deployment with no registry and no records yet, whose registry
    /// account will live at `validator_key`.
    pub fn new(validator_key: [u8; 32], validator_bump: u8) -> (s: Self)
        ensures
            s.wf(),
            s.registry() is None,
            s.key() == validator_key,
            s.bump() == validator_bump,
            s.proofs() == Map::<[u8; 32], ProofRecord>::empty(),
            s.vaults() == Map::<u64, VaultVerification>::empty(),
            s.log() == Seq::<TrinityEvent>::empty(),
    {
        let s = ProgramState {
            validator: None,
            validator_key,
            validator_bump,
            proof_records: Vec::new(),
            verifications: Vec::new(),
            events: Vec::new(),
        };
        assert(s.proofs() =~= Map::<[u8; 32], ProofRecord>::empty());
        assert(s.vaults() =~= Map::<u64, VaultVerification>::empty());
        s
    }

    /// The index of the proof record for `operation_id`, if there is one.
    fn find_proof(&self, operation_id: &[u8; 32]) -> (r: Option<usize>)
        requires
            self.wf(),
        ensures
            match r {
                Some(i) => i < self.proof_records@.len() && self.proof_records@[i as int].operation_id
                    == *operation_id,
                None => !self.proofs().contains_key(*operation_id),
            },
    {
        let mut i: usize = 0;
        while i < self.proof_records.len()
            invariant
                0 <= i <= self.proof_records@.len(),
                forall|j: int| 0 <= j < i ==> self.proof_records@[j].operation_id != *operation_id,
            decreases self.proof_records@.len() - i,
        {
            if bytes_eq(&self.proof_records[i].operation_id, operation_id) {
                return Some(i);
            }
            i += 1;
        }
        None
    }

    /// The index of the vault verification for `vault_id`, if there is one.
    fn find_vault(&self, vault_id: u64) -> (r: Option<usize>)
        requires
            self.wf(),
        ensures
            match r {
                Some(i) => i < self.verifications@.len() && self.verifications@[i as int].vault_id
                    == vault_id,
                None => !self.vaults().contains_key(vault_id),
            },
    {
        let mut i: usize = 0;
        while i < self.verifications.len()
            invariant
                0 <= i <= self.verifications@.len(),
                forall|j: int| 0 <= j < i ==> self.verifications@[j].vault_id != vault_id,
            decreases self.verifications@.len() - i,
        {
            if self.verifications[i].vault_id == vault_id {
                return Some(i);
            }
            i += 1;
        }
        None
    }

    /// The validator registry, once initialized.
    pub fn validator(&self) -> (r: Option<&TrinityValidator>)
        ensures
            match r {
                Some(v) => self.registry() == Some(*v),
                None => self.registry() is None,
            },
    {
        self.validator.as_ref()
    }

    /// The proof record for `operation_id`, if one was generated.
    pub fn proof_record(&self, operation_id: &[u8; 32]) -> (r: Option<&ProofRecord>)
        requires
            self.wf(),
        ensures
            match r {
                Some(p) => self.proofs().contains_key(*operation_id) && self.proofs()[*operation_id]
                    == *p,
                None => !self.proofs().contains_key(*operation_id),
            },
    {
        match self.find_proof(operation_id) {
            Some(i) => {
                proof {
                    lemma_index_map_at(self.proof_records@, proof_key(), i as int);
                }
                Some(&self.proof_records[i])
            },
            None => None,
        }
    }

    /// The vault verification for `vault_id`, if one was made.
    pub fn vault_verification(&self, vault_id: u64) -> (r: Option<VaultVerification>)
        requires
            self.wf(),
        ensures
            match r {
                Some(v) => self.vaults().contains_key(vault_id) && self.vaults()[vault_id] == v,
                None => !self.vaults().contains_key(vault_id),
            },
    {
        match self.find_vault(vault_id) {
            Some(i) => {
                proof {
                    lemma_index_map_at(self.verifications@, vault_key(), i as int);
                }
                Some(self.verifications[i])
            },
            None => None,
        }
    }

    /// The notifications emitted so far, oldest first.
    pub fn events(&self) -> (r: &[TrinityEvent])
        ensures
            r@ == self.log(),
    {
        self.events.as_slice()
    }
}

/// The result an instruction returns when it fails with `e`, if it fails.
pub open spec fn outcome(e: Option<TrinityError>) -> Result<(), TrinityError> {
    match e {
        Some(err) => Err(err),
        None => Ok(()),
    }
}

/// The registry's account address and bump seed do not change.
pub open spec fn same_account(pre: ProgramState, post: ProgramState) -> bool {
    post.key() == pre.key() && post.bump() == pre.bump()
}

/// Why `initialize` is refused on `s`, if it is.
pub open spec fn initialize_error(s: ProgramState) -> Option<TrinityError> {
    if s.registry() is Some {
        Some(TrinityError::AlreadyInitialized)
    } else {
        None
    }
}

/// What `initialize` does: on a state without a registry it creates one,
/// active, with zero counters, owned by the signer; otherwise it fails.
pub open spec fn initialize_post(
    pre: ProgramState,
    post: ProgramState,
    ctx: Initialize,
    ethereum_bridge_address: [u8; 20],
    validator_ethereum_address: [u8; 20],
    arbitrum_rpc_url: String,
    r: Result<(), TrinityError>,
) -> bool {
    &&& r == outcome(initialize_error(pre))
    &&& r is Err ==> post == pre
    &&& r is Ok ==> {
        &&& post.registry() == Some(
            (TrinityValidator {
                authority: ctx.authority,
                ethereum_bridge_address,
                validator_ethereum_address,
                arbitrum_rpc_url,
                total_proofs_submitted: 0,
                last_processed_operation: 0,
                is_active: true,
                bump: pre.bump(),
            }),
        )
        &&& post.proofs() == pre.proofs()
        &&& post.vaults() == pre.vaults()
        &&& post.log() == pre.log()
        &&& same_account(pre, post)
    }
}

/// Creates the validator registry, once.
pub fn initialize(
    state: &mut ProgramState,
    ctx: &Initialize,
    ethereum_bridge_address: [u8; 20],
    validator_ethereum_address: [u8; 20],
    arbitrum_rpc_url: String,
) -> (r: Result<(), TrinityError>)
    requires
        old(state).wf(),
        utf8_len(arbitrum_rpc_url) <= MAX_RPC_URL_LEN,
    ensures
        final(state).wf(),
        initialize_post(
            *old(state),
            *final(state),
            *ctx,
            ethereum_bridge_address,
            validator_ethereum_address,
            arbitrum_rpc_url,
            r,
        ),
{
    if state.validator.is_some() {
        return Err(TrinityError::AlreadyInitialized);
    }
    state.validator = Some(
        TrinityValidator {
            authority: ctx.authority,
            ethereum_bridge_address,
            validator_ethereum_address,
            arbitrum_rpc_url,
            total_proofs_submitted: 0,
            last_processed_operation: 0,
            is_active: true,
            bump: state.validator_bump,
        },
    );
    Ok(())
}

/// Why `update_validator` is refused on `s` for the signer of `ctx`, if it is.
pub open spec fn update_error(s: ProgramState, ctx: UpdateValidator) -> Option<TrinityError> {
    match s.registry() {
        None => Some(TrinityError::NotInitialized),
        Some(v) => if ctx.authority != v.authority {
            Some(TrinityError::Unauthorized)
        } else {
            None
        },
    }
}

/// The registry `v` with each field that is given overwritten.
pub open spec fn updated_registry(
    v: TrinityValidator,
    new_arbitrum_rpc: Option<String>,
    new_ethereum_bridge: Option<[u8; 20]>,
    is_active: Option<bool>,
) -> TrinityValidator {
    TrinityValidator {
        arbitrum_rpc_url: match new_arbitrum_rpc {
            Some(u) => u,
            None => v.arbitrum_rpc_url,
        },
        ethereum_bridge_address: match new_ethereum_bridge {
            Some(b) => b,
            None => v.ethereum_bridge_address,
        },
        is_active: match is_active {
            Some(a) => a,
            None => v.is_active,
        },
        ..v
    }
}

/// What `update_validator` does: when the signer is the registry's
/// authority it overwrites the given fields and nothing else.
pub open spec fn update_post(
    pre: ProgramState,
    post: ProgramState,
    ctx: UpdateValidator,
    new_arbitrum_rpc: Option<String>,
    new_ethereum_bridge: Option<[u8; 20]>,
    is_active: Option<bool>,
    r: Result<(), TrinityError>,
) -> bool {
    &&& r == outcome(update_error(pre, ctx))
    &&& r is Err ==> post == pre
    &&& r is Ok ==> {
        &&& post.registry() == Some(
            updated_registry(pre.registry().unwrap(), new_arbitrum_rpc, new_ethereum_bridge, is_active),
        )
        &&& post.proofs() == pre.proofs()
        &&& post.vaults() == pre.vaults()
        &&& post.log() == pre.log()
        &&& same_account(pre, post)
    }
}

/// Changes the registry's configuration; only its authority may.
pub fn update_validator(
    state: &mut ProgramState,
    ctx: &UpdateValidator,
    new_arbitrum_rpc: Option<String>,
    new_ethereum_bridge: Option<[u8; 20]>,
    is_active: Option<bool>,
) -> (r: Result<(), TrinityError>)
    requires
        old(state).wf(),
        new_arbitrum_rpc matches Some(u) ==> utf8_len(u) <= MAX_RPC_URL_LEN,
    ensures
        final(state).wf(),
        update_post(
            *old(state),
            *final(state),
            *ctx,
            new_arbitrum_rpc,
            new_ethereum_bridge,
            is_active,
            r,
        ),
{
    match &mut state.validator {
        None => Err(TrinityError::NotInitialized),
        Some(validator) => {
            if !bytes_eq(&ctx.authority, &validator.authority) {
                return Err(TrinityError::Unauthorized);
            }
            if let Some(rpc) = new_arbitrum_rpc {
                validator.arbitrum_rpc_url = rpc;
            }
            if let Some(bridge) = new_ethereum_bridge {
                validator.ethereum_bridge_address = bridge;
            }
            if let Some(active) = is_active {
                validator.is_active = active;
            }
            Ok(())
        },
    }
}

/// Why a proof for `operation_id` is refused on `s`, if it is: the registry
/// must exist and be active, and no record may exist for the operation yet.
pub open spec fn submission_error(s: ProgramState, operation_id: [u8; 32]) -> Option<TrinityError> {
    match s.registry() {
        None => Some(TrinityError::NotInitialized),
        Some(v) => if !v.is_active {
            Some(TrinityError::ValidatorNotActive)
        } else if s.proofs().contains_key(operation_id) {
            Some(TrinityError::DuplicateRecord)
        } else {
            None
        },
    }
}

/// `rec` is the record generated for these inputs by the registry at
/// `validator`: not yet confirmed, with an all-zero remote hash.
pub open spec fn is_generated_record(
    rec: ProofRecord,
    validator: [u8; 32],
    ctx: SubmitProof,
    operation_id: [u8; 32],
    merkle_root: [u8; 32],
    merkle_proof: Seq<[u8; 32]>,
    solana_block_hash: [u8; 32],
    solana_tx_signature: [u8; 64],
    solana_block_number: u64,
) -> bool {
    &&& rec.operation_id == operation_id
    &&& rec.merkle_root == merkle_root
    &&& rec.merkle_proof@ == merkle_proof
    &&& rec.solana_block_hash == solana_block_hash
    &&& rec.solana_tx_signature == solana_tx_signature
    &&& rec.solana_block_number == solana_block_number
    &&& rec.timestamp == ctx.unix_timestamp as u64
    &&& !rec.submitted_to_ethereum
    &&& forall|i: int| 0 <= i < 32 ==> rec.ethereum_tx_hash[i] == 0
    &&& rec.validator == validator
}

/// What storing a proof with root `merkle_root` does: when permitted, it
/// adds the generated record under `operation_id`, counts it in the registry
/// and emits `ProofGenerated`; otherwise it fails and changes nothing.
pub open spec fn record_proof_post(
    pre: ProgramState,
    post: ProgramState,
    ctx: SubmitProof,
    operation_id: [u8; 32],
    merkle_root: [u8; 32],
    merkle_proof: Seq<[u8; 32]>,
    solana_block_hash: [u8; 32],
    solana_tx_signature: [u8; 64],
    solana_block_number: u64,
    r: Result<(), TrinityError>,
) -> bool {
    &&& r == outcome(submission_error(pre, operation_id))
    &&& r is Err ==> post == pre
    &&& r is Ok ==> {
        &&& post.proofs() == pre.proofs().insert(operation_id, post.proofs()[operation_id])
        &&& is_generated_record(
            post.proofs()[operation_id],
            pre.key(),
            ctx,
            operation_id,
            merkle_root,
            merkle_proof,
            solana_block_hash,
            solana_tx_signature,
            solana_block_number,
        )
        &&& post.registry() is Some
        &&& post.registry().unwrap().total_proofs_submitted
            == pre.registry().unwrap().total_proofs_submitted + 1
        &&& post.registry() == Some(
            (TrinityValidator {
                total_proofs_submitted: post.registry().unwrap().total_proofs_submitted,
                ..pre.registry().unwrap()
            }),
        )
        &&& post.vaults() == pre.vaults()
        &&& post.log() == pre.log().push(
            TrinityEvent::ProofGenerated(
                ProofGenerated {
                    operation_id,
                    merkle_root,
                    solana_block_hash,
                    solana_block_number,
                    timestamp: ctx.unix_timestamp as u64,
                },
            ),
        )
        &&& same_account(pre, post)
    }
}

/// What `submit_consensus_proof` does: storing the proof whose root is
/// reconstructed from `operation_id` as the leaf and `merkle_proof` as the
/// sibling path.
pub open spec fn submit_post(
    pre: ProgramState,
    post: ProgramState,
    ctx: SubmitProof,
    operation_id: [u8; 32],
    merkle_proof: Seq<[u8; 32]>,
    solana_block_hash: [u8; 32],
    solana_tx_signature: [u8; 64],
    solana_block_number: u64,
    r: Result<(), TrinityError>,
) -> bool {
    &&& record_proof_post(
        pre,
        post,
        ctx,
        operation_id,
        post.proofs()[operation_id].merkle_root,
        merkle_proof,
        solana_block_hash,
        solana_tx_signature,
        solana_block_number,
        r,
    )
    &&& r is Ok ==> post.proofs()[operation_id].merkle_root@ == merkle_root(
        operation_id@,
        merkle_proof,
    )
}

/// Stores the proof of `operation_id` whose Merkle root is `merkle_root`.
pub fn record_consensus_proof(
    state: &mut ProgramState,
    ctx: &SubmitProof,
    operation_id: [u8; 32],
    merkle_root: [u8; 32],
    merkle_proof: Vec<[u8; 32]>,
    solana_block_hash: [u8; 32],
    solana_tx_signature: [u8; 64],
    solana_block_number: u64,
) -> (r: Result<(), TrinityError>)
    requires
        old(state).wf(),
        merkle_proof@.len() <= MAX_PROOF_LEN,
    ensures
        final(state).wf(),
        record_proof_post(
            *old(state),
            *final(state),
            *ctx,
            operation_id,
            merkle_root,
            merkle_proof@,
            solana_block_hash,
            solana_tx_signature,
            solana_block_number,
            r,
        ),
{
    match &state.validator {
        None => {
            return Err(TrinityError::NotInitialized);
        },
        Some(validator) => {
            if !validator.is_active {
                return Err(TrinityError::ValidatorNotActive);
            }
        },
    }
    if let Some(i) = state.find_proof(&operation_id) {
        proof {
            lemma_index_map_at(state.proof_records@, proof_key(), i as int);
        }
        return Err(TrinityError::DuplicateRecord);
    }
    let timestamp = #[verifier::truncate] (ctx.unix_timestamp as u64);
    let record = ProofRecord {
        operation_id,
        merkle_root,
        merkle_proof,
        solana_block_hash,
        solana_tx_signature,
        solana_block_number,
        timestamp,
        submitted_to_ethereum: false,
        ethereum_tx_hash: [0u8; 32],
        validator: state.validator_key,
    };
    proof {
        lemma_index_map_push(state.proof_records@, proof_key(), record);
        lemma_index_map_at(state.proof_records@.push(record), proof_key(), state.proof_records@.len() as int);
    }
    state.proof_records.push(record);
    // The counter equals the number of stored records, which fits in a
    // usize, so the increment cannot overflow.
    let stored = state.proof_records.len();
    match &mut state.validator {
        Some(validator) => {
            validator.total_proofs_submitted = validator.total_proofs_submitted + 1;
            assert(validator.total_proofs_submitted == stored);
        },
        None => {},
    }
    state.events.push(
        TrinityEvent::ProofGenerated(
            ProofGenerated {
                operation_id,
                merkle_root,
                solana_block_hash,
                solana_block_number,
                timestamp,
            },
        ),
    );
    Ok(())
}

/// Generates the proof record of a remote operation: the Merkle root is
/// reconstructed with the operation id as the leaf.
pub fn submit_consensus_proof(
    state: &mut ProgramState,
    ctx: &SubmitProof,
    operation_id: [u8; 32],
    merkle_proof: Vec<[u8; 32]>,
    solana_block_hash: [u8; 32],
    solana_tx_signature: [u8; 64],
    solana_block_number: u64,
) -> (r: Result<(), TrinityError>)
    requires
        old(state).wf(),
        merkle_proof@.len() <= MAX_PROOF_LEN,
    ensures
        final(state).wf(),
        submit_post(
            *old(state),
            *final(state),
            *ctx,
            operation_id,
            merkle_proof@,
            solana_block_hash,
            solana_tx_signature,
            solana_block_number,
            r,
        ),
{
    let root = calculate_merkle_root(merkle_proof.as_slice(), &operation_id);
    let r = record_consensus_proof(
        state,
        ctx,
        operation_id,
        root,
        merkle_proof,
        solana_block_hash,
        solana_tx_signature,
        solana_block_number,
    );
    r
}

/// Why confirming `operation_id` is refused on `s`, if it is: the record
/// must exist and not be confirmed yet.
pub open spec fn confirmation_error(s: ProgramState, operation_id: [u8; 32]) -> Option<TrinityError> {
    if !s.proofs().contains_key(operation_id) {
        Some(TrinityError::OperationNotFound)
    } else if s.proofs()[operation_id].submitted_to_ethereum {
        Some(TrinityError::AlreadySubmitted)
    } else {
        None
    }
}

/// What `confirm_ethereum_submission` does: it marks the record confirmed
/// and stores the remote transaction hash, once.
pub open spec fn confirm_post(
    pre: ProgramState,
    post: ProgramState,
    operation_id: [u8; 32],
    ethereum_tx_hash: [u8; 32],
    r: Result<(), TrinityError>,
) -> bool {
    &&& r == outcome(confirmation_error(pre, operation_id))
    &&& r is Err ==> post == pre
    &&& r is Ok ==> {
        &&& post.proofs() == pre.proofs().insert(
            operation_id,
            (ProofRecord {
                submitted_to_ethereum: true,
                ethereum_tx_hash,
                ..pre.proofs()[operation_id]
            }),
        )
        &&& post.registry() == pre.registry()
        &&& post.vaults() == pre.vaults()
        &&& post.log() == pre.log()
        &&& same_account(pre, post)
    }
}

/// Records that the proof of `operation_id` was accepted on the remote chain.
pub fn confirm_ethereum_submission(
    state: &mut ProgramState,
    ctx: &ConfirmSubmission,
    operation_id: [u8; 32],
    ethereum_tx_hash: [u8; 32],
) -> (r: Result<(), TrinityError>)
    requires
        old(state).wf(),
    ensures
        final(state).wf(),
        confirm_post(*old(state), *final(state), operation_id, ethereum_tx_hash, r),
{
    let i = match state.find_proof(&operation_id) {
        None => {
            return Err(TrinityError::OperationNotFound);
        },
        Some(i) => i,
    };
    proof {
        lemma_index_map_at(state.proof_records@, proof_key(), i as int);
    }
    if state.proof_records[i].submitted_to_ethereum {
        return Err(TrinityError::AlreadySubmitted);
    }
    let ghost before = state.proof_records@;
    let record = &mut state.proof_records[i];
    record.submitted_to_ethereum = true;
    record.ethereum_tx_hash = ethereum_tx_hash;
    proof {
        lemma_index_map_update(before, proof_key(), i as int, state.proof_records@[i as int]);
    }
    Ok(())
}

/// The bytes hashed into a vault verification: the vault id, the operation
/// type's code, the amount, the user and the cluster time, integers in
/// little-endian order.
pub open spec fn verification_preimage(
    vault_id: u64,
    operation_type: OperationType,
    amount: u64,
    user: [u8; 32],
    unix_timestamp: i64,
) -> Seq<u8> {
    spec_u64_to_le_bytes(vault_id) + seq![operation_type.spec_code()] + spec_u64_to_le_bytes(amount)
        + user@ + spec_u64_to_le_bytes(unix_timestamp as u64)
}

/// Lays out the bytes hashed into a vault verification.
pub fn verification_bytes(
    vault_id: u64,
    operation_type: OperationType,
    amount: u64,
    user: &[u8; 32],
    unix_timestamp: i64,
) -> (r: Vec<u8>)
    ensures
        r@ == verification_preimage(vault_id, operation_type, amount, *user, unix_timestamp),
{
    let mut data = u64_to_le_bytes(vault_id);
    data.push(operation_type.code());
    let mut amount_bytes = u64_to_le_bytes(amount);
    data.append(&mut amount_bytes);
    let ghost head = data@;
    let mut i: usize = 0;
    while i < 32
        invariant
            0 <= i <= 32,
            data@ == head + user@.subrange(0, i as int),
        decreases 32 - i,
    {
        data.push(user[i]);
        i += 1;
    }
    assert(user@.subrange(0, 32) == user@);
    let mut time_bytes = u64_to_le_bytes(#[verifier::truncate] (unix_timestamp as u64));
    data.append(&mut time_bytes);
    data
}

/// Why verifying vault `vault_id` is refused on `s`, if it is: the registry
/// must exist and the vault must not have been verified yet. The registry's
/// active flag is not consulted.
pub open spec fn vault_error(s: ProgramState, vault_id: u64) -> Option<TrinityError> {
    if s.registry() is None {
        Some(TrinityError::NotInitialized)
    } else if s.vaults().contains_key(vault_id) {
        Some(TrinityError::DuplicateRecord)
    } else {
        None
    }
}

/// What storing a vault verification with hash `verification_hash` does:
/// when permitted, it adds the record under `vault_id` and emits
/// `OperationVerified`; otherwise it fails and changes nothing.
pub open spec fn record_vault_post(
    pre: ProgramState,
    post: ProgramState,
    ctx: VerifyOperation,
    vault_id: u64,
    operation_type: OperationType,
    amount: u64,
    user: [u8; 32],
    verification_hash: [u8; 32],
    r: Result<(), TrinityError>,
) -> bool {
    &&& r == outcome(vault_error(pre, vault_id))
    &&& r is Err ==> post == pre
    &&& r is Ok ==> {
        &&& post.vaults() == pre.vaults().insert(
            vault_id,
            (VaultVerification {
                vault_id,
                operation_type,
                amount,
                user,
                verification_hash,
                timestamp: ctx.unix_timestamp as u64,
                validator: pre.key(),
            }),
        )
        &&& post.registry() == pre.registry()
        &&& post.proofs() == pre.proofs()
        &&& post.log() == pre.log().push(
            TrinityEvent::OperationVerified(
                OperationVerified { vault_id, operation_type, amount, user, verification_hash },
            ),
        )
        &&& same_account(pre, post)
    }
}

/// What `verify_vault_operation` does: storing the verification whose hash
/// is the Keccak-256 digest of the verification bytes.
pub open spec fn verify_vault_post(
    pre: ProgramState,
    post: ProgramState,
    ctx: VerifyOperation,
    vault_id: u64,
    operation_type: OperationType,
    amount: u64,
    user: [u8; 32],
    r: Result<(), TrinityError>,
) -> bool {
    &&& record_vault_post(
        pre,
        post,
        ctx,
        vault_id,
        operation_type,
        amount,
        user,
        post.vaults()[vault_id].verification_hash,
        r,
    )
    &&& r is Ok ==> post.vaults()[vault_id].verification_hash@ == keccak256_of(
        verification_preimage(vault_id, operation_type, amount, user, ctx.unix_timestamp),
    )
}

/// Stores the verification of vault `vault_id` with hash `verification_hash`.
pub fn record_vault_verification(
    state: &mut ProgramState,
    ctx: &VerifyOperation,
    vault_id: u64,
    operation_type: OperationType,
    amount: u64,
    user: [u8; 32],
    verification_hash: [u8; 32],
) -> (r: Result<(), TrinityError>)
    requires
        old(state).wf(),
    ensures
        final(state).wf(),
        record_vault_post(
            *old(state),
            *final(state),
            *ctx,
            vault_id,
            operation_type,
            amount,
            user,
            verification_hash,
            r,
        ),
{
    if state.validator.is_none() {
        return Err(TrinityError::NotInitialized);
    }
    if let Some(i) = state.find_vault(vault_id) {
        proof {
            lemma_index_map_at(state.verifications@, vault_key(), i as int);
        }
        return Err(TrinityError::DuplicateRecord);
    }
    let verification = VaultVerification {
        vault_id,
        operation_type,
        amount,
        user,
        verification_hash,
        timestamp: #[verifier::truncate] (ctx.unix_timestamp as u64),
        validator: state.validator_key,
    };
    proof {
        lemma_index_map_push(state.verifications@, vault_key(), verification);
    }
    state.verifications.push(verification);
    state.events.push(
        TrinityEvent::OperationVerified(
            OperationVerified { vault_id, operation_type, amount, user, verification_hash },
        ),
    );
    Ok(())
}

/// Produces the standalone verification record of a vault operation.
pub fn verify_vault_operation(
    state: &mut ProgramState,
    ctx: &VerifyOperation,
    vault_id: u64,
    operation_type: OperationType,
    amount: u64,
    user: [u8; 32],
) -> (r: Result<(), TrinityError>)
    requires
        old(state).wf(),
    ensures
        final(state).wf(),
        verify_vault_post(*old(state), *final(state), *ctx, vault_id, operation_type, amount, user, r),
{
    let data = verification_bytes(vault_id, operation_type, amount, &user, ctx.unix_timestamp);
    let verification_hash = keccak256(data.as_slice());
    record_vault_verification(state, ctx, vault_id, operation_type, amount, user, verification_hash)
}

} // verus!
