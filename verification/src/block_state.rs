//! The states that a block passes through between consensus and execution.

use crate::block_map::BlockKey;
use crate::external::{ExternalBlock, StateComputeResult};
use crate::types::{BlockId, Nanos};
use std::sync::Arc;
use std::time::SystemTime;
use vstd::prelude::*;

verus! {

/// A block that is to be committed, or that was.
#[derive(Debug, Clone, Copy, PartialEq, Eq)]
pub struct BlockHashRef {
    pub block_id: BlockId,
    pub num: u64,
    pub hash: Option<[u8; 32]>,
    /// The ticket of whoever waits until the block is persisted.
    pub persist_notifier: Option<BlockKey>,
}

/// How far a block has come.
#[derive(Debug)]
pub enum BlockState {
    /// Consensus has ordered the block.
    Ordered { block: Arc<ExternalBlock>, parent_id: BlockId },
    /// The block has been executed.
    Computed { id: BlockId, compute_result: Arc<StateComputeResult> },
    /// Consensus has committed the result of the block.
    Committed {
        hash: Option<[u8; 32]>,
        compute_result: Arc<StateComputeResult>,
        id: BlockId,
        persist_notifier: Option<BlockKey>,
    },
    /// A block recovered from storage, of which only the identifier is known.
    Historical { id: BlockId },
}

impl BlockState {
    /// The identifier of the block.
    pub open spec fn block_id(self) -> BlockId {
        match self {
            BlockState::Ordered { block, .. } => block.block_meta.block_id,
            BlockState::Computed { id, .. } => id,
            BlockState::Committed { id, .. } => id,
            BlockState::Historical { id } => id,
        }
    }

    /// The identifier of the block.
    pub fn get_block_id(&self) -> (id: BlockId)
        ensures
            id == self.block_id(),
    {
        match self {
            BlockState::Ordered { block, .. } => block.block_meta.block_id,
            BlockState::Computed { id, .. } => *id,
            BlockState::Committed { id, .. } => *id,
            BlockState::Historical { id } => *id,
        }
    }
}

/// What the buffer is doing.
#[derive(Debug, Clone, Copy, PartialEq, Eq, Structural)]
pub enum BufferState {
    Uninitialized,
    Ready,
    EpochChange,
}

/// When a block passed each station.
#[derive(Debug, Clone, Copy, PartialEq, Eq)]
pub struct BlockProfile {
    pub set_ordered_block_time: Option<SystemTime>,
    pub get_ordered_blocks_time: Option<SystemTime>,
    pub set_compute_res_time: Option<SystemTime>,
    pub get_executed_res_time: Option<SystemTime>,
    pub set_commit_blocks_time: Option<SystemTime>,
    pub get_committed_blocks_time: Option<SystemTime>,
}

impl BlockProfile {
    /// The profile of a block that has passed no station yet.
    pub open spec fn blank() -> BlockProfile {
        BlockProfile {
            set_ordered_block_time: None,
            get_ordered_blocks_time: None,
            set_compute_res_time: None,
            get_executed_res_time: None,
            set_commit_blocks_time: None,
            get_committed_blocks_time: None,
        }
    }
}

impl Default for BlockProfile {
    fn default() -> (profile: Self)
        ensures
            profile == BlockProfile::blank(),
    {
        BlockProfile {
            set_ordered_block_time: None,
            get_ordered_blocks_time: None,
            set_compute_res_time: None,
            get_executed_res_time: None,
            set_commit_blocks_time: None,
            get_committed_blocks_time: None,
        }
    }
}

/// How long the buffer waits, and how much it keeps.
#[derive(Debug, Clone, Copy)]
pub struct BlockBufferManagerConfig {
    /// How long one wait for a change lasts at most.
    pub wait_for_change_timeout: Nanos,
    /// How long a reader waits at most.
    pub max_wait_timeout: Nanos,
    /// The time between two sweeps.
    pub remove_committed_blocks_interval: Nanos,
    /// The number of blocks from which on a sweep removes what is committed.
    pub max_block_size: usize,
}

impl Default for BlockBufferManagerConfig {
    fn default() -> (config: Self)
        ensures
            config.wait_for_change_timeout == 100_000_000,
            config.max_wait_timeout == 5_000_000_000,
            config.remove_committed_blocks_interval == 1_000_000_000,
            config.max_block_size == 256,
    {
        BlockBufferManagerConfig {
            wait_for_change_timeout: 100_000_000,
            max_wait_timeout: 5_000_000_000,
            remove_committed_blocks_interval: 1_000_000_000,
            max_block_size: 256,
        }
    }
}

/// Why the buffer refuses a request.
#[derive(Debug, PartialEq, Eq)]
pub enum BufferError {
    /// The buffer is changing epochs.
    InEpochChange,
    /// The reader and the buffer are in different epochs.
    EpochMismatch { expected: u64, current: u64 },
    /// The reader has waited too long for a block.
    Timeout { block_number: u64 },
    /// The block was recovered from storage, without its result.
    HistoricalBlock { id: BlockId, block_number: u64 },
    /// The buffer does not hold the block.
    MissingBlock { id: BlockId, block_number: u64, latest_epoch_change_block_number: u64 },
    /// The validator set of the next epoch could not be read.
    ValidatorSet(String),
}

} // verus!
