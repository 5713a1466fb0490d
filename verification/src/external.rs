//! What consensus hands to the execution layer, and what it hears back.

use crate::types::{AccountAddress, BlockId};
use crate::validators::EpochState;
use std::sync::Arc;
use vstd::prelude::*;

verus! {

/// The hash of a transaction.
#[derive(Debug, Clone, Copy, PartialEq, Eq)]
pub struct TxnHash(pub [u8; 32]);

/// The random seed of a block.
#[derive(Debug, Clone, Copy, PartialEq, Eq)]
pub struct Random(pub [u8; 32]);

/// A user transaction whose signature has been checked.
#[derive(Debug)]
pub struct VerifiedTxn {
    pub bytes: Vec<u8>,
    pub sender: AccountAddress,
    pub sequence_number: u64,
    pub chain_id: u64,
    pub committed_hash: TxnHash,
}

/// A transaction with the next sequence number of its sender's account.
#[derive(Debug)]
pub struct VerifiedTxnWithAccountSeqNum {
    pub txn: VerifiedTxn,
    pub account_seq_num: u64,
}

/// Serialized validator transactions that travel with a block.
#[derive(Debug)]
pub enum ExtraDataType {
    DKG(Vec<u8>),
    JWK(Vec<u8>),
}

/// The header of a block that is handed to execution.
#[derive(Debug, Clone, Copy)]
pub struct ExternalBlockMeta {
    pub block_id: BlockId,
    pub block_number: u64,
    pub usecs: u64,
    pub epoch: u64,
    pub randomness: Option<Random>,
    pub block_hash: Option<[u8; 32]>,
    pub proposer_index: Option<u64>,
}

/// A block that is handed to execution.
#[derive(Debug)]
pub struct ExternalBlock {
    pub block_meta: ExternalBlockMeta,
    pub txns: Vec<VerifiedTxn>,
    pub extra_data: Vec<ExtraDataType>,
    pub enable_randomness: bool,
}

/// What became of one transaction of a block.
#[derive(Debug, Clone, Copy)]
pub struct TxnStatus {
    pub txn_hash: [u8; 32],
    pub sender: [u8; 32],
    pub nonce: u64,
    pub is_discarded: bool,
}

/// An event that a block emitted.
#[derive(Debug)]
pub enum GravityEvent {
    /// A new epoch begins: its number, and its serialized validator set.
    NewEpoch(u64, Vec<u8>),
    /// Keys of identity providers changed: a count, and the serialized keys.
    ObservedJWKsUpdated(u64, Vec<u8>),
    /// Any other event, serialized.
    Other(Vec<u8>),
}

/// The output of a block's execution.
#[derive(Debug)]
pub struct ComputeRes {
    pub data: [u8; 32],
    pub txn_num: u64,
    pub txn_status: Arc<Option<Vec<TxnStatus>>>,
    pub events: Vec<GravityEvent>,
}

/// The output of a block's execution, with the epoch that it starts, if it starts one.
#[derive(Debug)]
pub struct StateComputeResult {
    pub execution_output: ComputeRes,
    pub epoch_state: Option<EpochState>,
}

impl StateComputeResult {
    pub fn new(execution_output: ComputeRes, epoch_state: Option<EpochState>) -> (result: Self)
        ensures
            result.execution_output == execution_output,
            result.epoch_state == epoch_state,
    {
        StateComputeResult { execution_output, epoch_state }
    }

    pub fn epoch_state(&self) -> (epoch_state: &Option<EpochState>)
        ensures
            *epoch_state == self.epoch_state,
    {
        &self.epoch_state
    }
}

} // verus!
