//! The mathematical model of the block buffer: its state, and what each operation makes of it.

use crate::block_map::BlockKey;
use crate::block_state::{
    BlockBufferManagerConfig, BlockHashRef, BlockProfile, BlockState, BufferState,
};
use crate::external::{ComputeRes, ExternalBlock, GravityEvent, StateComputeResult, TxnStatus};
use crate::txn_buffer::TxnItem;
use crate::types::BlockId;
use crate::validators::{EpochState, ValidatorVerifier};
use std::sync::Arc;
use std::time::SystemTime;
use vstd::prelude::*;

verus! {

/// What the block buffer holds.
#[verifier::ext_equal]
pub struct BufferView {
    pub txns: Seq<TxnItem>,
    pub blocks: Map<BlockKey, BlockState>,
    pub profile: Map<BlockKey, BlockProfile>,
    pub latest_commit_block_number: u64,
    pub latest_finalized_block_number: u64,
    pub block_number_to_block_id: Map<u64, BlockId>,
    pub current_epoch: u64,
    pub next_epoch: Option<u64>,
    pub buffer_state: BufferState,
    pub latest_epoch_change_block_number: u64,
    pub config: BlockBufferManagerConfig,
}

/// The key of block `number` in `epoch`.
pub open spec fn key_at(epoch: u64, number: int) -> BlockKey {
    BlockKey { epoch, block_number: number as u64 }
}

/// The profile of the block at `key`, blank where none was kept yet.
pub open spec fn profile_at(profile: Map<BlockKey, BlockProfile>, key: BlockKey) -> BlockProfile {
    if profile.contains_key(key) {
        profile[key]
    } else {
        BlockProfile::blank()
    }
}

/// How many blocks of `epoch` stand in `keys` one after the other from number `start` on, counted
/// up to `limit`.
pub open spec fn run_len(keys: Set<BlockKey>, epoch: u64, start: int, limit: nat) -> nat
    decreases limit,
{
    if limit == 0 || start > u64::MAX || !keys.contains(key_at(epoch, start)) {
        0
    } else {
        1 + run_len(keys, epoch, start + 1, (limit - 1) as nat)
    }
}

/// The number of blocks that a reader gets at most: `max_size`, but never none.
pub open spec fn read_limit(max_size: Option<usize>) -> nat {
    match max_size {
        Some(size) => if size == 0 {
            1
        } else {
            size as nat
        },
        None => usize::MAX as nat,
    }
}

/// Whether `key` is one of the `len` blocks of `epoch` from number `start` on.
pub open spec fn in_run(key: BlockKey, epoch: u64, start: int, len: nat) -> bool {
    key.epoch == epoch && start <= key.block_number < start + len
}

/// Whether the reader of such a run has to look at a block number that does not exist.
pub open spec fn run_overflows(keys: Set<BlockKey>, epoch: u64, start: u64, limit: nat) -> bool {
    let len = run_len(keys, epoch, start as int, limit);
    len < limit && start + len > u64::MAX
}

/// The identifier that block `number` of `epoch` takes for its parent: that of the block before
/// it in the same epoch, else in the epoch before, else the one that was claimed.
pub open spec fn parent_of(
    blocks: Map<BlockKey, BlockState>,
    epoch: u64,
    number: u64,
    claimed: BlockId,
) -> BlockId {
    let here = key_at(epoch, number - 1);
    let before = BlockKey { epoch: (epoch - 1) as u64, block_number: (number - 1) as u64 };
    if blocks.contains_key(here) {
        blocks[here].block_id()
    } else if epoch > 0 && blocks.contains_key(before) {
        blocks[before].block_id()
    } else {
        claimed
    }
}

/// The first event that starts an epoch: its number and its serialized validator set.
pub open spec fn first_new_epoch(events: Seq<GravityEvent>) -> Option<(u64, Seq<u8>)>
    decreases events.len(),
{
    if events.len() == 0 {
        None
    } else {
        match events[0] {
            GravityEvent::NewEpoch(epoch, bytes) => Some((epoch, bytes@)),
            _ => first_new_epoch(events.skip(1)),
        }
    }
}

impl BufferView {
    /// The buffer before it learns where the chain stands.
    pub open spec fn initial(config: BlockBufferManagerConfig) -> BufferView {
        BufferView {
            txns: Seq::empty(),
            blocks: Map::empty(),
            profile: Map::empty(),
            latest_commit_block_number: 0,
            latest_finalized_block_number: 0,
            block_number_to_block_id: Map::empty(),
            current_epoch: 0,
            next_epoch: None,
            buffer_state: BufferState::Uninitialized,
            latest_epoch_change_block_number: 0,
            config,
        }
    }

    /// The buffer after it learnt that the chain stands at block `latest`.
    pub open spec fn inited(
        self,
        latest: u64,
        known: Map<u64, (u64, BlockId)>,
        epoch: u64,
    ) -> BufferView {
        let base = BufferView {
            latest_commit_block_number: latest,
            latest_finalized_block_number: latest,
            block_number_to_block_id: known.map_values(|entry: (u64, BlockId)| entry.1),
            current_epoch: epoch,
            buffer_state: BufferState::Ready,
            ..self
        };
        if known.dom() == Set::<u64>::empty() {
            base
        } else {
            BufferView {
                blocks: self.blocks.insert(
                    BlockKey { epoch: known[latest].0, block_number: latest },
                    BlockState::Historical { id: known[latest].1 },
                ),
                latest_epoch_change_block_number: latest,
                ..base
            }
        }
    }

    /// Whether `block` is new to the buffer and of its epoch.
    pub open spec fn accepts(self, block: ExternalBlock) -> bool {
        block.block_meta.epoch == self.current_epoch && !self.blocks.contains_key(
            key_at(block.block_meta.epoch, block.block_meta.block_number as int),
        )
    }

    /// The buffer with `block` ordered.
    pub open spec fn with_ordered(
        self,
        claimed: BlockId,
        block: Arc<ExternalBlock>,
        now: SystemTime,
    ) -> BufferView {
        let meta = block.block_meta;
        let key = key_at(meta.epoch, meta.block_number as int);
        BufferView {
            blocks: self.blocks.insert(
                key,
                BlockState::Ordered {
                    block,
                    parent_id: parent_of(self.blocks, meta.epoch, meta.block_number, claimed),
                },
            ),
            profile: self.profile.insert(
                key,
                BlockProfile {
                    set_ordered_block_time: Some(now),
                    ..profile_at(self.profile, key)
                },
            ),
            ..self
        }
    }

    /// The number of blocks that a reader of ordered blocks gets.
    pub open spec fn ordered_len(self, start: u64, max_size: Option<usize>, epoch: u64) -> nat {
        run_len(self.blocks.dom(), epoch, start as int, read_limit(max_size))
    }

    /// Whether every block that a reader of ordered blocks meets is ordered, and none of the
    /// numbers it looks at is too large.
    pub open spec fn readable_ordered(self, start: u64, max_size: Option<usize>, epoch: u64) -> bool {
        &&& forall|i: int|
            0 <= i < self.ordered_len(start, max_size, epoch)
                ==> #[trigger] self.blocks[key_at(epoch, start + i)] is Ordered
        &&& !run_overflows(self.blocks.dom(), epoch, start, read_limit(max_size))
    }

    /// The blocks that a reader of ordered blocks gets, each with the identifier of its parent.
    pub open spec fn ordered_run(self, start: u64, epoch: u64, len: nat) -> Seq<
        (Arc<ExternalBlock>, BlockId),
    > {
        Seq::new(
            len,
            |i: int|
                (
                    self.blocks[key_at(epoch, start + i)]->block,
                    self.blocks[key_at(epoch, start + i)]->parent_id,
                ),
        )
    }

    /// The buffer after `len` ordered blocks were read.
    pub open spec fn with_ordered_read(
        self,
        start: u64,
        epoch: u64,
        len: nat,
        now: SystemTime,
    ) -> BufferView {
        BufferView {
            profile: Map::new(
                |key: BlockKey|
                    self.profile.contains_key(key) || in_run(key, epoch, start as int, len),
                |key: BlockKey|
                    if in_run(key, epoch, start as int, len) {
                        BlockProfile {
                            get_ordered_blocks_time: Some(now),
                            ..profile_at(self.profile, key)
                        }
                    } else {
                        self.profile[key]
                    },
            ),
            ..self
        }
    }

    /// The result of a block's execution.
    pub open spec fn compute_result(
        self,
        key: BlockKey,
        hash: [u8; 32],
        txn_status: Arc<Option<Vec<TxnStatus>>>,
        events: Vec<GravityEvent>,
        validators: Option<ValidatorVerifier>,
    ) -> StateComputeResult {
        StateComputeResult {
            execution_output: ComputeRes {
                data: hash,
                txn_num: self.blocks[key]->block.txns@.len() as u64,
                txn_status,
                events,
            },
            epoch_state: match first_new_epoch(events@) {
                Some((epoch, _)) => Some(
                    EpochState { epoch, verifier: Arc::new(validators->0) },
                ),
                None => None,
            },
        }
    }

    /// The buffer with the block at `key` executed.
    pub open spec fn with_computed(
        self,
        key: BlockKey,
        id: BlockId,
        result: StateComputeResult,
        now: SystemTime,
    ) -> BufferView {
        BufferView {
            blocks: self.blocks.insert(
                key,
                BlockState::Computed { id, compute_result: Arc::new(result) },
            ),
            profile: self.profile.insert(
                key,
                BlockProfile { set_compute_res_time: Some(now), ..profile_at(self.profile, key) },
            ),
            next_epoch: match result.epoch_state {
                Some(state) => Some(state.epoch),
                None => self.next_epoch,
            },
            latest_epoch_change_block_number: match result.epoch_state {
                Some(_) => key.block_number,
                None => self.latest_epoch_change_block_number,
            },
            ..self
        }
    }

    /// Whether `block` can be committed: the buffer holds it, under the same identifier, past
    /// execution.
    pub open spec fn committable(self, block: BlockHashRef, epoch: u64) -> bool {
        let key = key_at(epoch, block.num as int);
        &&& self.blocks.contains_key(key)
        &&& self.blocks[key] !is Ordered
        &&& self.blocks[key].block_id() == block.block_id
    }

    /// Whether committing the block at `key` gives a ticket to wait for its persistence: it has
    /// just been executed, and it starts an epoch.
    pub open spec fn gives_notifier(self, key: BlockKey) -> bool {
        self.blocks[key] matches BlockState::Computed { compute_result, .. }
            && compute_result.epoch_state is Some
    }

    /// The buffer with `block` committed.
    pub open spec fn with_committed(
        self,
        block: BlockHashRef,
        epoch: u64,
        now: SystemTime,
    ) -> BufferView {
        let key = key_at(epoch, block.num as int);
        match self.blocks[key] {
            BlockState::Computed { id, compute_result } => BufferView {
                blocks: self.blocks.insert(
                    key,
                    BlockState::Committed {
                        hash: block.hash,
                        compute_result,
                        id: block.block_id,
                        persist_notifier: if self.gives_notifier(key) {
                            Some(key)
                        } else {
                            None
                        },
                    },
                ),
                profile: self.profile.insert(
                    key,
                    BlockProfile {
                        set_commit_blocks_time: Some(now),
                        ..profile_at(self.profile, key)
                    },
                ),
                ..self
            },
            _ => self,
        }
    }

    /// The buffer with all of `list` committed, in order.
    pub open spec fn with_all_committed(
        self,
        list: Seq<BlockHashRef>,
        epoch: u64,
        now: SystemTime,
    ) -> BufferView
        decreases list.len(),
    {
        if list.len() == 0 {
            self
        } else {
            self.with_all_committed(list.drop_last(), epoch, now).with_committed(
                list.last(),
                epoch,
                now,
            )
        }
    }

    /// The tickets that committing all of `list` gives, in order.
    pub open spec fn notifiers(
        self,
        list: Seq<BlockHashRef>,
        epoch: u64,
        now: SystemTime,
    ) -> Seq<BlockKey>
        decreases list.len(),
    {
        if list.len() == 0 {
            Seq::empty()
        } else {
            let earlier = self.notifiers(list.drop_last(), epoch, now);
            let key = key_at(epoch, list.last().num as int);
            if self.with_all_committed(list.drop_last(), epoch, now).gives_notifier(key) {
                earlier.push(key)
            } else {
                earlier
            }
        }
    }

    /// The places that hold a committed block.
    pub open spec fn committed_keys(self) -> Set<BlockKey> {
        Set::new(|key: BlockKey| self.blocks.contains_key(key) && self.blocks[key] is Committed)
    }

    /// The number of blocks that a reader of committed blocks gets.
    pub open spec fn committed_len(self, start: u64, max_size: Option<usize>, epoch: u64) -> nat {
        run_len(self.committed_keys(), epoch, start as int, read_limit(max_size))
    }

    /// The blocks that a reader of committed blocks gets.
    pub open spec fn committed_run(self, start: u64, epoch: u64, len: nat) -> Seq<BlockHashRef> {
        Seq::new(
            len,
            |i: int|
                BlockHashRef {
                    block_id: self.blocks[key_at(epoch, start + i)].block_id(),
                    num: (start + i) as u64,
                    hash: self.blocks[key_at(epoch, start + i)]->hash,
                    persist_notifier: self.blocks[key_at(epoch, start + i)]->persist_notifier,
                },
        )
    }

    /// The buffer after `len` committed blocks were read. Their tickets went to the reader.
    pub open spec fn with_committed_read(
        self,
        start: u64,
        epoch: u64,
        len: nat,
        now: SystemTime,
    ) -> BufferView {
        let last = start + len - 1;
        BufferView {
            blocks: Map::new(
                |key: BlockKey| self.blocks.contains_key(key),
                |key: BlockKey|
                    if in_run(key, epoch, start as int, len) {
                        without_notifier(self.blocks[key])
                    } else {
                        self.blocks[key]
                    },
            ),
            profile: Map::new(
                |key: BlockKey|
                    self.profile.contains_key(key) || in_run(key, epoch, start as int, len),
                |key: BlockKey|
                    if in_run(key, epoch, start as int, len) {
                        BlockProfile {
                            get_committed_blocks_time: Some(now),
                            ..profile_at(self.profile, key)
                        }
                    } else {
                        self.profile[key]
                    },
            ),
            latest_finalized_block_number: if len > 0 && last > self.latest_finalized_block_number {
                last as u64
            } else {
                self.latest_finalized_block_number
            },
            ..self
        }
    }

    /// The buffer without the blocks before the last one that was read back as committed, where
    /// it holds enough of them to be swept.
    pub open spec fn swept(self) -> BufferView {
        if self.blocks.len() < self.config.max_block_size {
            self
        } else {
            let kept = crate::block_map::numbered(self.latest_finalized_block_number, u64::MAX);
            BufferView {
                blocks: self.blocks.restrict(kept),
                profile: self.profile.restrict(kept),
                ..self
            }
        }
    }

    /// The buffer without the blocks after the one that ends the epoch, in the next epoch if one
    /// was announced.
    pub open spec fn released(self) -> BufferView {
        let kept = crate::block_map::numbered(0, self.latest_epoch_change_block_number);
        BufferView {
            blocks: self.blocks.restrict(kept),
            profile: self.profile.restrict(kept),
            current_epoch: match self.next_epoch {
                Some(epoch) => epoch,
                None => self.current_epoch,
            },
            next_epoch: None,
            buffer_state: BufferState::EpochChange,
            ..self
        }
    }
}

/// `state`, with its ticket taken out.
pub open spec fn without_notifier(state: BlockState) -> BlockState {
    match state {
        BlockState::Committed { hash, compute_result, id, .. } => BlockState::Committed {
            hash,
            compute_result,
            id,
            persist_notifier: None,
        },
        _ => state,
    }
}

} // verus!
