//! The buffer through which consensus hands blocks to execution and hears of their results.
//!
//! A reader that finds nothing to read is told so (`Ok(None)`), waits for the next change and
//! tries again, until it has waited for longer than the configured time. A read of ordered blocks
//! is checked when it begins, and gets a value to go on with.

use crate::block_map::{BlockKey, BlockMap};
use crate::block_state::{
    BlockBufferManagerConfig, BlockHashRef, BlockProfile, BlockState, BufferError, BufferState,
};
use crate::buffer_model::BufferView;
use crate::external::{
    ComputeRes, ExternalBlock, GravityEvent, StateComputeResult, TxnStatus,
    VerifiedTxnWithAccountSeqNum,
};
use crate::txn_buffer::TxnBuffer;
use crate::types::{BlockId, Nanos};
use crate::validators::{EpochState, ValidatorVerifier};
use std::collections::HashMap;
use std::sync::Arc;
use std::time::SystemTime;
use vstd::prelude::*;

verus! {

broadcast use vstd::std_specs::hash::group_hash_axioms;

/// The blocks in the buffer, and where the chain stands.
pub struct BlockStateMachine {
    blocks: BlockMap<BlockState>,
    profile: BlockMap<BlockProfile>,
    latest_commit_block_number: u64,
    latest_finalized_block_number: u64,
    block_number_to_block_id: HashMap<u64, BlockId>,
    current_epoch: u64,
    next_epoch: Option<u64>,
}

/// The block buffer.
pub struct BlockBufferManager {
    txn_buffer: TxnBuffer,
    block_state_machine: BlockStateMachine,
    buffer_state: BufferState,
    config: BlockBufferManagerConfig,
    latest_epoch_change_block_number: u64,
}

impl View for BlockBufferManager {
    type V = BufferView;

    closed spec fn view(&self) -> BufferView {
        BufferView {
            txns: self.txn_buffer@,
            blocks: self.block_state_machine.blocks@,
            profile: self.block_state_machine.profile@,
            latest_commit_block_number: self.block_state_machine.latest_commit_block_number,
            latest_finalized_block_number: self.block_state_machine.latest_finalized_block_number,
            block_number_to_block_id: self.block_state_machine.block_number_to_block_id@,
            current_epoch: self.block_state_machine.current_epoch,
            next_epoch: self.block_state_machine.next_epoch,
            buffer_state: self.buffer_state,
            latest_epoch_change_block_number: self.latest_epoch_change_block_number,
            config: self.config,
        }
    }
}

/// What became of a block that consensus ordered.
#[derive(Debug, Clone, Copy, PartialEq, Eq, Structural)]
pub enum OrderOutcome {
    /// The block belongs to an epoch that is over.
    OldEpoch,
    /// The block belongs to an epoch that has not begun.
    FutureEpoch,
    /// The buffer holds the block already.
    Duplicate,
    /// The buffer holds another block at this place.
    Conflict,
    /// The block is in the buffer now.
    Inserted,
}

/// A read of ordered blocks that was let begin. Only the buffer makes one.
#[derive(Debug)]
pub struct OrderedRead {
    start_num: u64,
    max_size: Option<usize>,
    expected_epoch: u64,
}

/// What a read of ordered blocks asks for.
pub struct OrderedReadView {
    pub start_num: u64,
    pub max_size: Option<usize>,
    pub expected_epoch: u64,
}

impl View for OrderedRead {
    type V = OrderedReadView;

    closed spec fn view(&self) -> OrderedReadView {
        OrderedReadView {
            start_num: self.start_num,
            max_size: self.max_size,
            expected_epoch: self.expected_epoch,
        }
    }
}

/// What a read of ordered blocks finds.
#[derive(Debug)]
pub enum OrderedBlocks {
    /// The blocks, each with the identifier of its parent.
    Found(Vec<(Arc<ExternalBlock>, BlockId)>),
    /// There is none yet: the read goes on.
    Waiting(OrderedRead),
}

/// What becomes of `block` in a buffer that holds `view`.
pub open spec fn order_outcome(view: BufferView, block: ExternalBlock) -> OrderOutcome {
    let meta = block.block_meta;
    let key = crate::buffer_model::key_at(meta.epoch, meta.block_number as int);
    if meta.epoch < view.current_epoch {
        OrderOutcome::OldEpoch
    } else if meta.epoch > view.current_epoch {
        OrderOutcome::FutureEpoch
    } else if !view.blocks.contains_key(key) {
        OrderOutcome::Inserted
    } else if view.blocks[key].block_id() == meta.block_id {
        OrderOutcome::Duplicate
    } else {
        OrderOutcome::Conflict
    }
}

/// The index of the first event in `events` that starts an epoch, if there is one.
fn find_new_epoch(events: &Vec<GravityEvent>) -> (found: Option<usize>)
    ensures
        match found {
            Some(i) => {
                &&& i < events@.len()
                &&& events@[i as int] is NewEpoch
                &&& crate::buffer_model::first_new_epoch(events@) == Some(
                    (events@[i as int]->NewEpoch_0, events@[i as int]->NewEpoch_1@),
                )
            },
            None => crate::buffer_model::first_new_epoch(events@) is None,
        },
{
    let mut i: usize = 0;
    assert(events@.skip(0) =~= events@);
    while i < events.len()
        invariant
            i <= events.len(),
            crate::buffer_model::first_new_epoch(events@)
                == crate::buffer_model::first_new_epoch(events@.skip(i as int)),
        decreases events.len() - i,
    {
        assert(events@.skip(i as int).skip(1) =~= events@.skip(i + 1));
        if let GravityEvent::NewEpoch(_, _) = &events[i] {
            return Some(i);
        }
        i += 1;
    }
    None
}

/// The serialized validator set of the epoch that `events` start, if they start one.
pub fn new_epoch_validators(events: &Vec<GravityEvent>) -> (bytes: Option<&Vec<u8>>)
    ensures
        match crate::buffer_model::first_new_epoch(events@) {
            Some((_, set)) => bytes matches Some(b) && b@ == set,
            None => bytes is None,
        },
{
    match find_new_epoch(events) {
        Some(i) => match &events[i] {
            GravityEvent::NewEpoch(_, bytes) => Some(bytes),
            _ => vstd::pervasive::unreached(),
        },
        None => None,
    }
}

impl BlockBufferManager {
    /// An empty buffer that is not ready yet.
    pub fn new(config: BlockBufferManagerConfig) -> (manager: Self)
        ensures
            manager@ == BufferView::initial(config),
    {
        let manager = BlockBufferManager {
            txn_buffer: TxnBuffer::new(),
            block_state_machine: BlockStateMachine {
                blocks: BlockMap::new(),
                profile: BlockMap::new(),
                latest_commit_block_number: 0,
                latest_finalized_block_number: 0,
                block_number_to_block_id: HashMap::new(),
                current_epoch: 0,
                next_epoch: None,
            },
            buffer_state: BufferState::Uninitialized,
            config,
            latest_epoch_change_block_number: 0,
        };
        assert(manager@ =~= BufferView::initial(config));
        manager
    }

    /// The profile of the block at `key`, blank where none was kept yet.
    fn profile_at(&self, key: BlockKey) -> (profile: BlockProfile)
        ensures
            profile == crate::buffer_model::profile_at(self@.profile, key),
    {
        match self.block_state_machine.profile.get(key) {
            Some(profile) => *profile,
            None => BlockProfile::default(),
        }
    }

    /// Takes a block that consensus ordered. The buffer finds its parent itself.
    pub fn set_ordered_blocks(
        &mut self,
        parent_id: BlockId,
        block: Arc<ExternalBlock>,
        now: SystemTime,
    ) -> (outcome: OrderOutcome)
        requires
            old(self)@.accepts(*block) ==> block.block_meta.block_number > 0,
        ensures
            outcome == order_outcome(old(self)@, *block),
            final(self)@ == (if outcome is Inserted {
                old(self)@.with_ordered(parent_id, block, now)
            } else {
                old(self)@
            }),
    {
        let meta = block.block_meta;
        let current_epoch: u64 = self.block_state_machine.current_epoch;
        if meta.epoch < current_epoch {
            return OrderOutcome::OldEpoch;
        }
        if meta.epoch > current_epoch {
            return OrderOutcome::FutureEpoch;
        }
        let key = BlockKey::new(meta.epoch, meta.block_number);
        if let Some(existing) = self.block_state_machine.blocks.get(key) {
            return if existing.get_block_id() == meta.block_id {
                OrderOutcome::Duplicate
            } else {
                OrderOutcome::Conflict
            };
        }
        let here = BlockKey::new(meta.epoch, meta.block_number - 1);
        let actual_parent_id = match self.block_state_machine.blocks.get(here) {
            Some(state) => state.get_block_id(),
            None => if meta.epoch > 0 {
                match self.block_state_machine.blocks.get(
                    BlockKey::new(meta.epoch - 1, meta.block_number - 1),
                ) {
                    Some(state) => state.get_block_id(),
                    None => parent_id,
                }
            } else {
                parent_id
            },
        };
        let mut profile = self.profile_at(key);
        profile.set_ordered_block_time = Some(now);
        self.block_state_machine.blocks.insert(
            key,
            BlockState::Ordered { block, parent_id: actual_parent_id },
        );
        self.block_state_machine.profile.insert(key, profile);
        assert(self@ =~= old(self)@.with_ordered(parent_id, block, now));
        OrderOutcome::Inserted
    }

    /// Whether `block` would enter the buffer.
    pub fn accepts(&self, block: &ExternalBlock) -> (accepted: bool)
        ensures
            accepted == self@.accepts(*block),
    {
        let meta = block.block_meta;
        meta.epoch == self.block_state_machine.current_epoch && self.block_state_machine.blocks.get(
            BlockKey::new(meta.epoch, meta.block_number),
        ).is_none()
    }

    /// Whether ordered blocks of `expected_epoch` may be asked for now.
    pub fn check_ordered_epoch(&self, expected_epoch: u64) -> (checked: Result<(), BufferError>)
        ensures
            checked == ordered_epoch_check(self@, expected_epoch),
    {
        if self.is_epoch_change() {
            return Err(BufferError::InEpochChange);
        }
        let current: u64 = self.block_state_machine.current_epoch;
        if expected_epoch != current {
            return Err(BufferError::EpochMismatch { expected: expected_epoch, current });
        }
        Ok(())
    }

    /// Begins to read the ordered blocks of `expected_epoch` from number `start_num` on, at most
    /// `max_size` of them. The read is refused at once, whatever blocks there are, while the buffer
    /// changes epochs and where it is in another epoch.
    pub fn get_ordered_blocks(
        &mut self,
        start_num: u64,
        max_size: Option<usize>,
        expected_epoch: u64,
        elapsed: Nanos,
        now: SystemTime,
    ) -> (read: Result<OrderedBlocks, BufferError>)
        requires
            ordered_epoch_check(old(self)@, expected_epoch) is Ok && elapsed <= old(
                self,
            )@.config.max_wait_timeout ==> old(self)@.readable_ordered(
                start_num,
                max_size,
                expected_epoch,
            ),
        ensures
            match ordered_epoch_check(old(self)@, expected_epoch) {
                Err(e) => {
                    &&& read == Err::<OrderedBlocks, BufferError>(e)
                    &&& final(self)@ == old(self)@
                },
                Ok(_) => match ordered_look(
                    old(self)@,
                    start_num,
                    max_size,
                    expected_epoch,
                    elapsed,
                ) {
                    Err(e) => {
                        &&& read == Err::<OrderedBlocks, BufferError>(e)
                        &&& final(self)@ == old(self)@
                    },
                    Ok(None) => {
                        &&& read matches Ok(OrderedBlocks::Waiting(read)) && read@ == (
                        OrderedReadView { start_num, max_size, expected_epoch })
                        &&& final(self)@ == old(self)@
                    },
                    Ok(Some(blocks)) => {
                        &&& read matches Ok(OrderedBlocks::Found(found)) && found@ == blocks
                        &&& final(self)@ == old(self)@.with_ordered_read(
                            start_num,
                            expected_epoch,
                            blocks.len(),
                            now,
                        )
                    },
                },
            },
            read matches Ok(OrderedBlocks::Found(found)) ==> forall|i: int|
                0 <= i < found@.len() ==> old(self)@.blocks[BlockKey {
                    epoch: expected_epoch,
                    block_number: (start_num + i) as u64,
                }] == (BlockState::Ordered {
                    block: (#[trigger] found@[i]).0,
                    parent_id: found@[i].1,
                }),
    {
        if let Err(e) = self.check_ordered_epoch(expected_epoch) {
            return Err(e);
        }
        let read = OrderedRead { start_num, max_size, expected_epoch };
        match self.poll_ordered_blocks(&read, elapsed, now) {
            Err(e) => Err(e),
            Ok(None) => Ok(OrderedBlocks::Waiting(read)),
            Ok(Some(blocks)) => Ok(OrderedBlocks::Found(blocks)),
        }
    }

    /// Goes on with a read that was let begin: the blocks, each with the identifier of its parent;
    /// `None` where there is none yet. The epoch was checked when the read began, and is not
    /// checked again.
    pub fn poll_ordered_blocks(&mut self, read: &OrderedRead, elapsed: Nanos, now: SystemTime) -> (
    polled: Result<Option<Vec<(Arc<ExternalBlock>, BlockId)>>, BufferError>)
        requires
            elapsed <= old(self)@.config.max_wait_timeout ==> old(self)@.readable_ordered(
                read@.start_num,
                read@.max_size,
                read@.expected_epoch,
            ),
        ensures
            match ordered_look(
                old(self)@,
                read@.start_num,
                read@.max_size,
                read@.expected_epoch,
                elapsed,
            ) {
                Err(e) => {
                    &&& polled == Err::<Option<Vec<(Arc<ExternalBlock>, BlockId)>>, BufferError>(e)
                    &&& final(self)@ == old(self)@
                },
                Ok(None) => {
                    &&& polled matches Ok(None)
                    &&& final(self)@ == old(self)@
                },
                Ok(Some(blocks)) => {
                    &&& polled matches Ok(Some(found)) && found@ == blocks
                    &&& final(self)@ == old(self)@.with_ordered_read(
                        read@.start_num,
                        read@.expected_epoch,
                        blocks.len(),
                        now,
                    )
                },
            },
            polled matches Ok(Some(found)) ==> forall|i: int|
                0 <= i < found@.len() ==> old(self)@.blocks[BlockKey {
                    epoch: read@.expected_epoch,
                    block_number: (read@.start_num + i) as u64,
                }] == (BlockState::Ordered {
                    block: (#[trigger] found@[i]).0,
                    parent_id: found@[i].1,
                }),
    {
        let start_num: u64 = read.start_num;
        let max_size: Option<usize> = read.max_size;
        let expected_epoch: u64 = read.expected_epoch;
        if elapsed > self.config.max_wait_timeout {
            return Err(BufferError::Timeout { block_number: start_num });
        }
        let ghost before = self@;
        let ghost keys = before.blocks.dom();
        let limit: usize = read_limit(max_size);
        let ghost len = before.ordered_len(start_num, max_size, expected_epoch);
        let mut result: Vec<(Arc<ExternalBlock>, BlockId)> = Vec::new();
        let mut done = false;
        assert(self@ =~= before.with_ordered_read(start_num, expected_epoch, 0, now));
        while !done
            invariant
                before.readable_ordered(start_num, max_size, expected_epoch),
                keys == before.blocks.dom(),
                limit == crate::buffer_model::read_limit(max_size),
                len == before.ordered_len(start_num, max_size, expected_epoch),
                result@ =~= before.ordered_run(start_num, expected_epoch, result@.len()),
                self@ == before.with_ordered_read(
                    start_num,
                    expected_epoch,
                    result@.len(),
                    now,
                ),
                result@.len() <= limit,
                len == result@.len() + crate::buffer_model::run_len(
                    keys,
                    expected_epoch,
                    start_num + result@.len(),
                    (limit - result@.len()) as nat,
                ),
                !done ==> result@.len() < limit,
                done ==> len == result@.len(),
            decreases limit - result@.len() + (if done { 0int } else { 1 }),
        {
            let ghost count = result@.len();
            let current: u64 = start_num + result.len() as u64;
            let key = BlockKey::new(expected_epoch, current);
            assert(key == crate::buffer_model::key_at(expected_epoch, start_num + count));
            match self.block_state_machine.blocks.get(key) {
                Some(BlockState::Ordered { block, parent_id }) => {
                    result.push((block.clone(), *parent_id));
                    let mut profile = self.profile_at(key);
                    profile.get_ordered_blocks_time = Some(now);
                    self.block_state_machine.profile.insert(key, profile);
                    assert(self@ =~= before.with_ordered_read(
                        start_num,
                        expected_epoch,
                        count + 1,
                        now,
                    ));
                    if result.len() >= limit {
                        done = true;
                    }
                },
                _ => {
                    done = true;
                },
            }
        }
        if result.len() == 0 {
            assert(self@ =~= before);
            return Ok(None);
        }
        assert forall|i: int| 0 <= i < result@.len() implies before.blocks[BlockKey {
            epoch: expected_epoch,
            block_number: (start_num + i) as u64,
        }] == (BlockState::Ordered {
            block: (#[trigger] result@[i]).0,
            parent_id: result@[i].1,
        }) by {
            assert(before.blocks[crate::buffer_model::key_at(
                expected_epoch,
                start_num + i,
            )] is Ordered);
        }
        Ok(Some(result))
    }

    /// Whether a reader of ordered blocks meets only ordered blocks, and no block number that is
    /// too large.
    pub fn can_get_ordered_blocks(
        &self,
        start_num: u64,
        max_size: Option<usize>,
        expected_epoch: u64,
    ) -> (can: bool)
        ensures
            can == self@.readable_ordered(start_num, max_size, expected_epoch),
    {
        let ghost keys = self@.blocks.dom();
        let limit: usize = read_limit(max_size);
        let ghost len = self@.ordered_len(start_num, max_size, expected_epoch);
        let mut count: usize = 0;
        while count < limit
            invariant
                keys == self@.blocks.dom(),
                limit == crate::buffer_model::read_limit(max_size),
                len == self@.ordered_len(start_num, max_size, expected_epoch),
                count <= limit,
                len == count + crate::buffer_model::run_len(
                    keys,
                    expected_epoch,
                    start_num + count,
                    (limit - count) as nat,
                ),
                forall|i: int|
                    0 <= i < count ==> #[trigger] self@.blocks[crate::buffer_model::key_at(
                        expected_epoch,
                        start_num + i,
                    )] is Ordered,
            decreases limit - count,
        {
            if count as u64 > u64::MAX - start_num {
                return false;
            }
            let key = BlockKey::new(expected_epoch, start_num + count as u64);
            assert(key == crate::buffer_model::key_at(expected_epoch, start_num + count));
            match self.block_state_machine.blocks.get(key) {
                Some(BlockState::Ordered { .. }) => {},
                Some(_) => {
                    return false;
                },
                None => {
                    return true;
                },
            }
            count += 1;
        }
        true
    }

    /// The result of the execution of block `block_num` of `epoch`; `None` where it is not there
    /// yet.
    pub fn get_executed_res(
        &mut self,
        block_id: BlockId,
        block_num: u64,
        epoch: u64,
        elapsed: Nanos,
        now: SystemTime,
    ) -> (read: Result<Option<Arc<StateComputeResult>>, BufferError>)
        requires
            ({
                let key = crate::buffer_model::key_at(epoch, block_num as int);
                elapsed <= old(self)@.config.max_wait_timeout && old(self)@.blocks.contains_key(key)
                    && (old(self)@.blocks[key] is Computed || old(self)@.blocks[key] is Committed)
                    ==> old(self)@.blocks[key].block_id() == block_id
            }),
        ensures
            read == executed_res(old(self)@, block_id, block_num, epoch, elapsed),
            final(self)@ == (if read matches Ok(Some(_)) && old(
                self,
            )@.blocks[crate::buffer_model::key_at(epoch, block_num as int)] is Computed {
                with_result_read(
                    old(self)@,
                    crate::buffer_model::key_at(epoch, block_num as int),
                    now,
                )
            } else {
                old(self)@
            }),
    {
        if elapsed > self.config.max_wait_timeout {
            return Err(BufferError::Timeout { block_number: block_num });
        }
        let key = BlockKey::new(epoch, block_num);
        match self.block_state_machine.blocks.get(key) {
            Some(BlockState::Computed { id: _, compute_result }) => {
                let result = compute_result.clone();
                let mut profile = self.profile_at(key);
                profile.get_executed_res_time = Some(now);
                self.block_state_machine.profile.insert(key, profile);
                assert(self@ =~= with_result_read(old(self)@, key, now));
                Ok(Some(result))
            },
            Some(BlockState::Ordered { .. }) => Ok(None),
            Some(BlockState::Committed { compute_result, .. }) => Ok(Some(compute_result.clone())),
            Some(BlockState::Historical { id }) => Err(
                BufferError::HistoricalBlock { id: *id, block_number: block_num },
            ),
            None => Err(
                BufferError::MissingBlock {
                    id: block_id,
                    block_number: block_num,
                    latest_epoch_change_block_number: self.latest_epoch_change_block_number,
                },
            ),
        }
    }

    /// The epoch that the execution of block `block_num` starts, if it starts one. The number of
    /// the new epoch is kept until the blocks in flight are released.
    fn calculate_new_epoch_state(
        &mut self,
        events: &Vec<GravityEvent>,
        block_num: u64,
        validators: Option<Result<ValidatorVerifier, String>>,
    ) -> (state: Result<Option<EpochState>, BufferError>)
        requires
            crate::buffer_model::first_new_epoch(events@) is Some ==> validators is Some,
        ensures
            match crate::buffer_model::first_new_epoch(events@) {
                None => {
                    &&& state == Ok::<Option<EpochState>, BufferError>(None)
                    &&& final(self)@ == old(self)@
                },
                Some((epoch, _)) => match validators->0 {
                    Ok(verifier) => {
                        &&& state == Ok::<Option<EpochState>, BufferError>(
                            Some(EpochState { epoch, verifier: Arc::new(verifier) }),
                        )
                        &&& final(self)@ == (BufferView {
                            next_epoch: Some(epoch),
                            latest_epoch_change_block_number: block_num,
                            ..old(self)@
                        })
                    },
                    Err(e) => {
                        &&& state == Err::<Option<EpochState>, BufferError>(
                            BufferError::ValidatorSet(e),
                        )
                        &&& final(self)@ == old(self)@
                    },
                },
            },
    {
        match find_new_epoch(events) {
            None => Ok(None),
            Some(i) => match &events[i] {
                GravityEvent::NewEpoch(new_epoch, _) => match validators {
                    Some(Ok(verifier)) => {
                        self.latest_epoch_change_block_number = block_num;
                        self.block_state_machine.next_epoch = Some(*new_epoch);
                        Ok(Some(EpochState::new(*new_epoch, verifier)))
                    },
                    Some(Err(e)) => Err(BufferError::ValidatorSet(e)),
                    None => vstd::pervasive::unreached(),
                },
                _ => vstd::pervasive::unreached(),
            },
        }
    }

    /// Takes the result of the execution of block `block_num` of `epoch`. `validators` is what
    /// decoding the validator set of the epoch that `events` start gave.
    pub fn set_compute_res(
        &mut self,
        block_id: BlockId,
        block_hash: [u8; 32],
        block_num: u64,
        epoch: u64,
        txn_status: Arc<Option<Vec<TxnStatus>>>,
        events: Vec<GravityEvent>,
        validators: Option<Result<ValidatorVerifier, String>>,
        now: SystemTime,
    ) -> (set: Result<(), BufferError>)
        requires
            old(self)@.blocks.contains_key(crate::buffer_model::key_at(epoch, block_num as int)),
            old(self)@.blocks[crate::buffer_model::key_at(epoch, block_num as int)] is Ordered,
            old(self)@.blocks[crate::buffer_model::key_at(epoch, block_num as int)].block_id()
                == block_id,
            crate::buffer_model::first_new_epoch(events@) is Some ==> validators is Some,
        ensures
            ({
                let key = crate::buffer_model::key_at(epoch, block_num as int);
                if crate::buffer_model::first_new_epoch(events@) is Some && validators->0 is Err {
                    &&& set == Err::<(), BufferError>(
                        BufferError::ValidatorSet(validators->0->Err_0),
                    )
                    &&& final(self)@ == old(self)@
                } else {
                    &&& set is Ok
                    &&& final(self)@ == old(self)@.with_computed(
                        key,
                        block_id,
                        old(self)@.compute_result(
                            key,
                            block_hash,
                            txn_status,
                            events,
                            match validators {
                                Some(Ok(v)) => Some(v),
                                _ => None,
                            },
                        ),
                        now,
                    )
                }
            }),
            set is Ok ==> ({
                let key = BlockKey { epoch, block_number: block_num };
                &&& final(self)@.blocks[key] matches BlockState::Computed { id, compute_result }
                &&& id == block_id
                &&& compute_result.execution_output.data == block_hash
                &&& compute_result.execution_output.txn_status == txn_status
                &&& compute_result.execution_output.events == events
                &&& old(self)@.blocks[key] matches BlockState::Ordered { block, .. }
                &&& compute_result.execution_output.txn_num == block.txns@.len()
            }),
    {
        let key = BlockKey::new(epoch, block_num);
        let txn_num: u64 = match self.block_state_machine.blocks.get(key) {
            Some(BlockState::Ordered { block, .. }) => block.txns.len() as u64,
            _ => vstd::pervasive::unreached(),
        };
        let new_epoch_state = match self.calculate_new_epoch_state(
            &events,
            block_num,
            validators,
        ) {
            Ok(state) => state,
            Err(e) => {
                return Err(e);
            },
        };
        let compute_result = StateComputeResult::new(
            ComputeRes { data: block_hash, txn_num, txn_status, events },
            new_epoch_state,
        );
        let ghost result = compute_result;
        self.block_state_machine.blocks.insert(
            key,
            BlockState::Computed { id: block_id, compute_result: Arc::new(compute_result) },
        );
        let mut profile = self.profile_at(key);
        profile.set_compute_res_time = Some(now);
        self.block_state_machine.profile.insert(key, profile);
        assert(self@ =~= old(self)@.with_computed(key, block_id, result, now));
        Ok(())
    }

    /// Whether every block in `block_ids` can be committed.
    pub fn can_set_commit_blocks(&self, block_ids: &Vec<BlockHashRef>, epoch: u64) -> (can: bool)
        ensures
            can == forall|i: int|
                0 <= i < block_ids@.len() ==> self@.committable(#[trigger] block_ids@[i], epoch),
    {
        let mut i: usize = 0;
        while i < block_ids.len()
            invariant
                i <= block_ids.len(),
                forall|j: int|
                    0 <= j < i ==> self@.committable(#[trigger] block_ids@[j], epoch),
            decreases block_ids.len() - i,
        {
            let key = BlockKey::new(epoch, block_ids[i].num);
            let can = match self.block_state_machine.blocks.get(key) {
                None => false,
                Some(BlockState::Ordered { .. }) => false,
                Some(state) => state.get_block_id() == block_ids[i].block_id,
            };
            if !can {
                assert(!self@.committable(block_ids@[i as int], epoch));
                return false;
            }
            i += 1;
        }
        true
    }

    /// Marks blocks of `epoch` as committed. Gives a ticket for each of them that starts an
    /// epoch: whoever holds it hears when the block is persisted.
    pub fn set_commit_blocks(
        &mut self,
        block_ids: Vec<BlockHashRef>,
        epoch: u64,
        now: SystemTime,
    ) -> (persist_notifiers: Vec<BlockKey>)
        requires
            forall|i: int|
                0 <= i < block_ids@.len() ==> old(self)@.committable(
                    #[trigger] block_ids@[i],
                    epoch,
                ),
        ensures
            final(self)@ == old(self)@.with_all_committed(block_ids@, epoch, now),
            persist_notifiers@ == old(self)@.notifiers(block_ids@, epoch, now),
    {
        let ghost before = self@;
        let mut persist_notifiers: Vec<BlockKey> = Vec::new();
        let mut i: usize = 0;
        while i < block_ids.len()
            invariant
                i <= block_ids.len(),
                forall|j: int|
                    0 <= j < block_ids@.len() ==> before.committable(
                        #[trigger] block_ids@[j],
                        epoch,
                    ),
                self@ == before.with_all_committed(block_ids@.take(i as int), epoch, now),
                persist_notifiers@ == before.notifiers(block_ids@.take(i as int), epoch, now),
            decreases block_ids.len() - i,
        {
            let block = block_ids[i];
            let ghost view = self@;
            assert(block_ids@.take(i + 1).drop_last() =~= block_ids@.take(i as int));
            assert(block_ids@.take(i + 1).last() == block);
            proof {
                crate::buffer_laws::commit_keeps_blocks(
                    before,
                    block_ids@.take(i as int),
                    epoch,
                    now,
                );
                assert(before.committable(block_ids@[i as int], epoch));
            }
            let key = BlockKey::new(epoch, block.num);
            match self.block_state_machine.blocks.get(key) {
                Some(BlockState::Computed { id: _, compute_result }) => {
                    let mut persist_notifier: Option<BlockKey> = None;
                    if compute_result.epoch_state().is_some() {
                        persist_notifier = Some(key);
                        persist_notifiers.push(key);
                    }
                    let state = BlockState::Committed {
                        hash: block.hash,
                        compute_result: compute_result.clone(),
                        id: block.block_id,
                        persist_notifier,
                    };
                    self.block_state_machine.blocks.insert(key, state);
                    let mut profile = self.profile_at(key);
                    profile.set_commit_blocks_time = Some(now);
                    self.block_state_machine.profile.insert(key, profile);
                },
                _ => {},
            }
            assert(self@ =~= view.with_committed(block, epoch, now));
            i += 1;
        }
        assert(block_ids@.take(i as int) =~= block_ids@);
        persist_notifiers
    }

    /// The committed blocks of `epoch` from number `start_num` on, at most `max_size` of them;
    /// `None` where there is none yet. The tickets go with the blocks.
    pub fn get_committed_blocks(
        &mut self,
        start_num: u64,
        max_size: Option<usize>,
        epoch: u64,
        elapsed: Nanos,
        now: SystemTime,
    ) -> (read: Result<Option<Vec<BlockHashRef>>, BufferError>)
        requires
            elapsed <= old(self)@.config.max_wait_timeout ==> !crate::buffer_model::run_overflows(
                old(self)@.committed_keys(),
                epoch,
                start_num,
                crate::buffer_model::read_limit(max_size),
            ),
        ensures
            ({
                let len = old(self)@.committed_len(start_num, max_size, epoch);
                if elapsed > old(self)@.config.max_wait_timeout {
                    &&& read == Err::<Option<Vec<BlockHashRef>>, BufferError>(
                        BufferError::Timeout { block_number: start_num },
                    )
                    &&& final(self)@ == old(self)@
                } else if len == 0 {
                    &&& read matches Ok(None)
                    &&& final(self)@ == old(self)@
                } else {
                    &&& read matches Ok(Some(blocks)) && blocks@ == old(self)@.committed_run(
                        start_num,
                        epoch,
                        len,
                    )
                    &&& final(self)@ == old(self)@.with_committed_read(
                        start_num,
                        epoch,
                        len,
                        now,
                    )
                }
            }),
            read matches Ok(Some(blocks)) ==> forall|i: int|
                0 <= i < blocks@.len() ==> (#[trigger] blocks@[i]).num == start_num + i && (old(
                    self,
                )@.blocks[BlockKey { epoch, block_number: (start_num + i) as u64 }]
                    matches BlockState::Committed { hash, id, .. } && blocks@[i].hash == hash
                    && blocks@[i].block_id == id),
    {
        if elapsed > self.config.max_wait_timeout {
            return Err(BufferError::Timeout { block_number: start_num });
        }
        let ghost before = self@;
        let ghost keys = before.committed_keys();
        let limit: usize = read_limit(max_size);
        let ghost len = before.committed_len(start_num, max_size, epoch);
        let ghost finalized = before.latest_finalized_block_number;
        let mut result: Vec<BlockHashRef> = Vec::new();
        let mut done = false;
        assert(self@ =~= before.with_committed_read(start_num, epoch, 0, now));
        while !done
            invariant
                !crate::buffer_model::run_overflows(
                    before.committed_keys(),
                    epoch,
                    start_num,
                    crate::buffer_model::read_limit(max_size),
                ),
                keys == before.committed_keys(),
                limit == crate::buffer_model::read_limit(max_size),
                len == before.committed_len(start_num, max_size, epoch),
                finalized == before.latest_finalized_block_number,
                result@ =~= before.committed_run(start_num, epoch, result@.len()),
                self@ == (BufferView {
                    latest_finalized_block_number: finalized,
                    ..before.with_committed_read(start_num, epoch, result@.len(), now)
                }),
                start_num + result@.len() <= u64::MAX + 1,
                result@.len() <= limit,
                len == result@.len() + crate::buffer_model::run_len(
                    keys,
                    epoch,
                    start_num + result@.len(),
                    (limit - result@.len()) as nat,
                ),
                !done ==> result@.len() < limit,
                done ==> len == result@.len(),
            decreases limit - result@.len() + (if done { 0int } else { 1 }),
        {
            let ghost count = result@.len();
            let current: u64 = start_num + result.len() as u64;
            let key = BlockKey::new(epoch, current);
            assert(key == crate::buffer_model::key_at(epoch, start_num + count));
            match self.block_state_machine.blocks.get(key) {
                Some(BlockState::Committed { hash, compute_result, id, persist_notifier }) => {
                    let block = BlockHashRef {
                        block_id: *id,
                        num: current,
                        hash: *hash,
                        persist_notifier: *persist_notifier,
                    };
                    let state = BlockState::Committed {
                        hash: *hash,
                        compute_result: compute_result.clone(),
                        id: *id,
                        persist_notifier: None,
                    };
                    self.block_state_machine.blocks.insert(key, state);
                    result.push(block);
                    let mut profile = self.profile_at(key);
                    profile.get_committed_blocks_time = Some(now);
                    self.block_state_machine.profile.insert(key, profile);
                    assert(self@ =~= (BufferView {
                        latest_finalized_block_number: finalized,
                        ..before.with_committed_read(start_num, epoch, count + 1, now)
                    }));
                    if result.len() >= limit {
                        done = true;
                    }
                },
                _ => {
                    assert(!keys.contains(key));
                    done = true;
                },
            }
        }
        if result.len() == 0 {
            assert(self@ =~= before);
            return Ok(None);
        }
        let last: u64 = result[result.len() - 1].num;
        if last > self.block_state_machine.latest_finalized_block_number {
            self.block_state_machine.latest_finalized_block_number = last;
        }
        assert(self@ =~= before.with_committed_read(start_num, epoch, len, now));
        proof {
            crate::buffer_laws::run_is_contiguous(
                keys,
                epoch,
                start_num as int,
                crate::buffer_model::read_limit(max_size),
            );
            assert forall|i: int| 0 <= i < result@.len() implies (#[trigger] result@[i]).num
                == start_num + i && (before.blocks[BlockKey {
                epoch,
                block_number: (start_num + i) as u64,
            }] matches BlockState::Committed { hash, id, .. } && result@[i].hash == hash
                && result@[i].block_id == id) by {
                assert(keys.contains(crate::buffer_model::key_at(epoch, start_num + i)));
            }
        }
        Ok(Some(result))
    }

    /// Whether a reader of committed blocks meets no block number that is too large.
    pub fn can_get_committed_blocks(&self, start_num: u64, max_size: Option<usize>, epoch: u64) -> (
    can: bool)
        ensures
            can == !crate::buffer_model::run_overflows(
                self@.committed_keys(),
                epoch,
                start_num,
                crate::buffer_model::read_limit(max_size),
            ),
    {
        let ghost keys = self@.committed_keys();
        let limit: usize = read_limit(max_size);
        let ghost len = self@.committed_len(start_num, max_size, epoch);
        let mut count: usize = 0;
        while count < limit
            invariant
                keys == self@.committed_keys(),
                limit == crate::buffer_model::read_limit(max_size),
                len == self@.committed_len(start_num, max_size, epoch),
                count <= limit,
                len == count + crate::buffer_model::run_len(
                    keys,
                    epoch,
                    start_num + count,
                    (limit - count) as nat,
                ),
            decreases limit - count,
        {
            if count as u64 > u64::MAX - start_num {
                return false;
            }
            let key = BlockKey::new(epoch, start_num + count as u64);
            assert(key == crate::buffer_model::key_at(epoch, start_num + count));
            match self.block_state_machine.blocks.get(key) {
                Some(BlockState::Committed { .. }) => {},
                _ => {
                    return true;
                },
            }
            count += 1;
        }
        true
    }

    /// Removes the blocks before the last one that was read back as committed, where the buffer
    /// holds enough blocks to be swept.
    pub fn remove_committed_blocks(&mut self)
        ensures
            final(self)@ == old(self)@.swept(),
    {
        if self.block_state_machine.blocks.len() < self.config.max_block_size {
            return;
        }
        let latest: u64 = self.block_state_machine.latest_finalized_block_number;
        self.block_state_machine.blocks.retain_numbers(latest, u64::MAX);
        self.block_state_machine.profile.retain_numbers(latest, u64::MAX);
        assert(self@ =~= old(self)@.swept());
    }

    /// Ends the epoch: drops the blocks after the one that ends it, and moves to the next epoch
    /// if one was announced.
    pub fn release_inflight_blocks(&mut self)
        ensures
            final(self)@ == old(self)@.released(),
    {
        let latest: u64 = self.latest_epoch_change_block_number;
        if let Some(next_epoch) = self.block_state_machine.next_epoch {
            self.block_state_machine.current_epoch = next_epoch;
            self.block_state_machine.next_epoch = None;
        }
        self.block_state_machine.blocks.retain_numbers(0, latest);
        self.buffer_state = BufferState::EpochChange;
        self.block_state_machine.profile.retain_numbers(0, latest);
        assert(self@ =~= old(self)@.released());
    }

    /// Makes the buffer ready: the chain stands at block `latest_commit_block_number`, in
    /// `initial_epoch`, and the blocks in `known` are known by number.
    pub fn init(
        &mut self,
        latest_commit_block_number: u64,
        known: HashMap<u64, (u64, BlockId)>,
        initial_epoch: u64,
    )
        requires
            known@.dom() != Set::<u64>::empty() ==> known@.contains_key(
                latest_commit_block_number,
            ),
        ensures
            final(self)@ == old(self)@.inited(latest_commit_block_number, known@, initial_epoch),
    {
        let mut ids: HashMap<u64, BlockId> = HashMap::new();
        for entry in iter: known.iter()
            invariant
                forall|n: u64| #[trigger]
                    ids@.contains_key(n) ==> known@.contains_key(n) && ids@[n] == known@[n].1,
                forall|i: int|
                    0 <= i < iter.index() ==> ids@.contains_key(*(#[trigger] iter.seq()[i]).0),
                forall|i: int|
                    0 <= i < iter.seq().len() ==> known@.contains_key(
                        *(#[trigger] iter.seq()[i]).0,
                    ) && known@[*iter.seq()[i].0] == *iter.seq()[i].1,
        {
            let (number, place) = entry;
            ids.insert(*number, place.1);
        }
        self.block_state_machine.latest_commit_block_number = latest_commit_block_number;
        self.block_state_machine.latest_finalized_block_number = latest_commit_block_number;
        self.block_state_machine.block_number_to_block_id = ids;
        self.block_state_machine.current_epoch = initial_epoch;
        if let Some(place) = known.get(&latest_commit_block_number) {
            let (epoch, id) = *place;
            self.block_state_machine.blocks.insert(
                BlockKey::new(epoch, latest_commit_block_number),
                BlockState::Historical { id },
            );
            self.latest_epoch_change_block_number = latest_commit_block_number;
        }
        self.buffer_state = BufferState::Ready;
        assert(self@ =~= old(self)@.inited(latest_commit_block_number, known@, initial_epoch));
    }
}

/// What a reader of the result of block `block_num` of `epoch` is told in a buffer that holds
/// `view`.
pub open spec fn executed_res(
    view: BufferView,
    block_id: BlockId,
    block_num: u64,
    epoch: u64,
    elapsed: Nanos,
) -> Result<Option<Arc<StateComputeResult>>, BufferError> {
    let key = crate::buffer_model::key_at(epoch, block_num as int);
    if elapsed > view.config.max_wait_timeout {
        Err(BufferError::Timeout { block_number: block_num })
    } else if !view.blocks.contains_key(key) {
        Err(
            BufferError::MissingBlock {
                id: block_id,
                block_number: block_num,
                latest_epoch_change_block_number: view.latest_epoch_change_block_number,
            },
        )
    } else {
        match view.blocks[key] {
            BlockState::Computed { compute_result, .. } => Ok(Some(compute_result)),
            BlockState::Committed { compute_result, .. } => Ok(Some(compute_result)),
            BlockState::Ordered { .. } => Ok(None),
            BlockState::Historical { id } => Err(
                BufferError::HistoricalBlock { id, block_number: block_num },
            ),
        }
    }
}

/// The buffer after the result of the block at `key` was read.
pub open spec fn with_result_read(view: BufferView, key: BlockKey, now: SystemTime) -> BufferView {
    BufferView {
        profile: view.profile.insert(
            key,
            BlockProfile {
                get_executed_res_time: Some(now),
                ..crate::buffer_model::profile_at(view.profile, key)
            },
        ),
        ..view
    }
}

/// The number of blocks that a reader gets at most.
fn read_limit(max_size: Option<usize>) -> (limit: usize)
    ensures
        limit == crate::buffer_model::read_limit(max_size),
{
    match max_size {
        Some(size) => if size == 0 {
            1
        } else {
            size
        },
        None => usize::MAX,
    }
}

/// What a reader of ordered blocks that was let begin finds in a buffer that holds `view`: an error
/// once it has waited for too long, and `None` where there is no block yet.
pub open spec fn ordered_look(
    view: BufferView,
    start_num: u64,
    max_size: Option<usize>,
    epoch: u64,
    elapsed: Nanos,
) -> Result<Option<Seq<(Arc<ExternalBlock>, BlockId)>>, BufferError> {
    let len = view.ordered_len(start_num, max_size, epoch);
    if elapsed > view.config.max_wait_timeout {
        Err(BufferError::Timeout { block_number: start_num })
    } else if len == 0 {
        Ok(None)
    } else {
        Ok(Some(view.ordered_run(start_num, epoch, len)))
    }
}

/// What a reader of ordered blocks of epoch `expected` is told in a buffer that holds `view`.
pub open spec fn ordered_epoch_check(view: BufferView, expected: u64) -> Result<(), BufferError> {
    if view.buffer_state is EpochChange {
        Err(BufferError::InEpochChange)
    } else if expected != view.current_epoch {
        Err(BufferError::EpochMismatch { expected, current: view.current_epoch })
    } else {
        Ok(())
    }
}

impl BlockBufferManager {
    /// Whether the buffer knows where the chain stands.
    pub fn is_ready(&self) -> (ready: bool)
        ensures
            ready == !(self@.buffer_state is Uninitialized),
    {
        self.buffer_state != BufferState::Uninitialized
    }

    /// Whether the buffer is changing epochs.
    pub fn is_epoch_change(&self) -> (changing: bool)
        ensures
            changing == (self@.buffer_state is EpochChange),
    {
        self.buffer_state == BufferState::EpochChange
    }

    /// Leaves the epoch change, and gives the epoch that the buffer is in.
    pub fn consume_epoch_change(&mut self) -> (epoch: u64)
        ensures
            epoch == old(self)@.current_epoch,
            final(self)@ == (BufferView { buffer_state: BufferState::Ready, ..old(self)@ }),
    {
        self.buffer_state = BufferState::Ready;
        self.block_state_machine.current_epoch
    }

    /// Sets the epoch that the buffer is in.
    pub fn init_epoch(&mut self, epoch: u64)
        ensures
            final(self)@ == (BufferView { current_epoch: epoch, ..old(self)@ }),
    {
        self.block_state_machine.current_epoch = epoch;
    }

    /// Sets where the chain stands.
    pub fn set_state(
        &mut self,
        latest_commit_block_number: u64,
        latest_finalized_block_number: u64,
    )
        ensures
            final(self)@ == (BufferView {
                latest_commit_block_number,
                latest_finalized_block_number,
                ..old(self)@
            }),
    {
        self.block_state_machine.latest_commit_block_number = latest_commit_block_number;
        self.block_state_machine.latest_finalized_block_number = latest_finalized_block_number;
    }

    /// Appends the transactions in `txns` as one batch, and leaves `txns` empty.
    pub fn push_txns(
        &mut self,
        txns: &mut Vec<VerifiedTxnWithAccountSeqNum>,
        gas_limit: u64,
        now: SystemTime,
    )
        ensures
            final(self)@ == (BufferView { txns: final(self)@.txns, ..old(self)@ }),
            final(self)@.txns.len() == old(self)@.txns.len() + 1,
            final(self)@.txns.drop_last() == old(self)@.txns,
            final(self)@.txns.last().txns@ == old(txns)@,
            final(self)@.txns.last().gas_limit == gas_limit,
            final(self)@.txns.last().insert_time == now,
            final(txns)@.len() == 0,
    {
        self.txn_buffer.push_txns(txns, gas_limit, now);
    }

    /// Takes the oldest batches of transactions: as many as `max_size` and `gas_limit` allow, but
    /// one where the oldest alone exceeds the gas.
    pub fn pop_txns(&mut self, max_size: usize, gas_limit: u64) -> (txns: Vec<
        VerifiedTxnWithAccountSeqNum,
    >)
        ensures
            final(self)@ == (BufferView { txns: final(self)@.txns, ..old(self)@ }),
            exists|count: int| #[trigger]
                crate::txn_buffer::is_pop_count(
                    old(self)@.txns,
                    count,
                    max_size as nat,
                    gas_limit as nat,
                ) && txns@ == crate::txn_buffer::all_txns(old(self)@.txns.take(count)) && final(self)@.txns
                    == old(self)@.txns.skip(count),
    {
        let ghost items = self.txn_buffer@;
        let txns = self.txn_buffer.pop_txns(max_size, gas_limit);
        proof {
            let count = choose|count: int| #[trigger]
                crate::txn_buffer::is_pop_count(items, count, max_size as nat, gas_limit as nat)
                    && txns@ == crate::txn_buffer::all_txns(items.take(count))
                    && self.txn_buffer@ == items.skip(count);
            assert(crate::txn_buffer::is_pop_count(
                old(self)@.txns,
                count,
                max_size as nat,
                gas_limit as nat,
            ));
        }
        txns
    }

    /// The state of the block at `key`, if the buffer holds it.
    pub fn block(&self, key: BlockKey) -> (state: Option<&BlockState>)
        ensures
            state == (if self@.blocks.contains_key(key) {
                Some(&self@.blocks[key])
            } else {
                None
            }),
    {
        self.block_state_machine.blocks.get(key)
    }

    /// When the block at `key` passed each station.
    pub fn profile(&self, key: BlockKey) -> (profile: BlockProfile)
        ensures
            profile == crate::buffer_model::profile_at(self@.profile, key),
    {
        self.profile_at(key)
    }

    pub fn config(&self) -> (config: &BlockBufferManagerConfig)
        ensures
            *config == self@.config,
    {
        &self.config
    }

    pub fn latest_epoch_change_block_number(&self) -> (number: u64)
        ensures
            number == self@.latest_epoch_change_block_number,
    {
        self.latest_epoch_change_block_number
    }

    pub fn latest_commit_block_number(&self) -> (number: u64)
        ensures
            number == self@.latest_commit_block_number,
    {
        self.block_state_machine.latest_commit_block_number
    }

    /// The number of the last block that was read back as committed.
    pub fn latest_finalized_block_number(&self) -> (number: u64)
        ensures
            number == self@.latest_finalized_block_number,
    {
        self.block_state_machine.latest_finalized_block_number
    }

    pub fn get_current_epoch(&self) -> (epoch: u64)
        ensures
            epoch == self@.current_epoch,
    {
        self.block_state_machine.current_epoch
    }

    pub fn block_number_to_block_id(&self) -> (ids: HashMap<u64, BlockId>)
        ensures
            ids@ == self@.block_number_to_block_id,
    {
        let ids = self.block_state_machine.block_number_to_block_id.clone();
        assert(ids@ =~= self@.block_number_to_block_id);
        ids
    }
}

} // verus!
