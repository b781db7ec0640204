//! A cross-chain proof relay: a registry of the relaying validator, a store
//! of proof records that move from generated to confirmed, a store of vault
//! verification records, and the ordered log of notifications that the
//! off-chain relayer consumes.
pub mod keccak;
pub mod laws;
pub mod merkle;
pub mod records;
pub mod relay;
pub mod store;
