//! The records the relay keeps, the notifications it emits, its errors, and
//! the context in which each instruction runs.
use vstd::prelude::*;

use vstd::utf8::encode_utf8;

verus! {

/// The longest sibling path a proof record holds.
pub const MAX_PROOF_LEN: usize = 10;

/// The longest RPC endpoint, in bytes, that the registry holds.
pub const MAX_RPC_URL_LEN: usize = 200;

/// The length in bytes of the UTF-8 encoding of `s`.
pub open spec fn utf8_len(s: String) -> nat {
    encode_utf8(s@).len()
}

/// The registry of the relaying validator: one per deployment.
pub struct TrinityValidator {
    /// The identity allowed to change this configuration.
    pub authority: [u8; 32],
    /// Address of the bridge contract on the remote chain.
    pub ethereum_bridge_address: [u8; 20],
    /// The validator's own signing identity on the remote chain.
    pub validator_ethereum_address: [u8; 20],
    /// RPC endpoint of the remote chain.
    pub arbitrum_rpc_url: String,
    /// Number of proof records generated so far.
    pub total_proofs_submitted: u64,
    /// Marker of the last remote operation processed.
    pub last_processed_operation: u64,
    /// Proof submission is refused while this is false.
    pub is_active: bool,
    /// Bump seed of the registry's derived address.
    pub bump: u8,
}

/// The proof of one remote operation, from generation to confirmation.
pub struct ProofRecord {
    pub operation_id: [u8; 32],
    pub merkle_root: [u8; 32],
    pub merkle_proof: Vec<[u8; 32]>,
    pub solana_block_hash: [u8; 32],
    pub solana_tx_signature: [u8; 64],
    pub solana_block_number: u64,
    pub timestamp: u64,
    /// Set once, when the remote chain has accepted the proof.
    pub submitted_to_ethereum: bool,
    /// The remote transaction hash; all zero until confirmation.
    pub ethereum_tx_hash: [u8; 32],
    /// Address of the registry that generated the record.
    pub validator: [u8; 32],
}

/// The kind of vault operation being verified.
#[derive(Clone, Copy, Debug, PartialEq, Eq, Structural)]
pub enum OperationType {
    VaultWithdrawal,
    HTLCSwap,
    EmergencyRecovery,
    CrossChainTransfer,
}

impl OperationType {
    /// The one-byte code of the operation type in hashed data.
    pub open spec fn spec_code(self) -> u8 {
        match self {
            OperationType::VaultWithdrawal => 0,
            OperationType::HTLCSwap => 1,
            OperationType::EmergencyRecovery => 2,
            OperationType::CrossChainTransfer => 3,
        }
    }

    /// The one-byte code of the operation type in hashed data.
    pub fn code(&self) -> (r: u8)
        ensures
            r == self.spec_code(),
    {
        match self {
            OperationType::VaultWithdrawal => 0,
            OperationType::HTLCSwap => 1,
            OperationType::EmergencyRecovery => 2,
            OperationType::CrossChainTransfer => 3,
        }
    }
}

/// A standalone audit record of one vault operation.
#[derive(Clone, Copy, Debug, PartialEq, Eq)]
pub struct VaultVerification {
    pub vault_id: u64,
    pub operation_type: OperationType,
    pub amount: u64,
    pub user: [u8; 32],
    pub verification_hash: [u8; 32],
    pub timestamp: u64,
    pub validator: [u8; 32],
}

/// Notification that a proof record was generated.
#[derive(Clone, Copy, Debug, PartialEq, Eq)]
pub struct ProofGenerated {
    pub operation_id: [u8; 32],
    pub merkle_root: [u8; 32],
    pub solana_block_hash: [u8; 32],
    pub solana_block_number: u64,
    pub timestamp: u64,
}

/// Notification that a vault operation was verified.
#[derive(Clone, Copy, Debug, PartialEq, Eq)]
pub struct OperationVerified {
    pub vault_id: u64,
    pub operation_type: OperationType,
    pub amount: u64,
    pub user: [u8; 32],
    pub verification_hash: [u8; 32],
}

/// An entry of the notification log.
#[derive(Clone, Copy, Debug, PartialEq, Eq)]
pub enum TrinityEvent {
    ProofGenerated(ProofGenerated),
    OperationVerified(OperationVerified),
}

/// Why an instruction was refused. A refused instruction changes nothing.
#[derive(Clone, Copy, Debug, PartialEq, Eq, Structural)]
pub enum TrinityError {
    /// The registry is inactive: proof submission is refused.
    ValidatorNotActive,
    /// The proof record was confirmed already.
    AlreadySubmitted,
    /// Reserved; no instruction returns it.
    VaultMismatch,
    /// Reserved; no instruction returns it.
    UnauthorizedUser,
    /// Reserved; no instruction returns it.
    InvalidMerkleProof,
    /// No proof record exists for the operation.
    OperationNotFound,
    /// A record already exists under the key.
    DuplicateRecord,
    /// The signer is not the registry's authority.
    Unauthorized,
    /// The registry exists already.
    AlreadyInitialized,
    /// The registry has not been created.
    NotInitialized,
}

/// Context of `initialize`: the signer, who becomes the authority.
#[derive(Clone, Copy, Debug, PartialEq, Eq)]
pub struct Initialize {
    pub authority: [u8; 32],
}

/// Context of `submit_consensus_proof`: the signer and the cluster time.
#[derive(Clone, Copy, Debug, PartialEq, Eq)]
pub struct SubmitProof {
    pub authority: [u8; 32],
    pub unix_timestamp: i64,
}

/// Context of `confirm_ethereum_submission`: the signer.
#[derive(Clone, Copy, Debug, PartialEq, Eq)]
pub struct ConfirmSubmission {
    pub authority: [u8; 32],
}

/// Context of `verify_vault_operation`: the signer and the cluster time.
#[derive(Clone, Copy, Debug, PartialEq, Eq)]
pub struct VerifyOperation {
    pub authority: [u8; 32],
    pub unix_timestamp: i64,
}

/// Context of `update_validator`: the signer.
#[derive(Clone, Copy, Debug, PartialEq, Eq)]
pub struct UpdateValidator {
    pub authority: [u8; 32],
}

} // verus!
