//! What each operation of the block buffer hands out and changes, place by place.

use crate::block_buffer_manager::{OrderOutcome, OrderedReadView};
use crate::block_map::BlockKey;
use crate::block_state::{
    BlockBufferManagerConfig, BlockHashRef, BlockState, BufferError, BufferState,
};
use crate::buffer_model::BufferView;
use crate::external::{ExternalBlock, GravityEvent, StateComputeResult, TxnStatus};
use crate::types::{BlockId, Nanos};
use crate::validators::ValidatorVerifier;
use std::sync::Arc;
use std::time::SystemTime;
use vstd::prelude::*;

verus! {

/// A read of ordered blocks hands out, at each place, the very block that was ordered there: where
/// blocks stand in their places, the block at place `i` says that it has the number `i` after the
/// first, and that it is of the epoch that was asked for.
pub proof fn reads_hand_out_the_block_at_each_place(
    view: BufferView,
    read: OrderedReadView,
    elapsed: Nanos,
    i: int,
)
    requires
        view.readable_ordered(read.start_num, read.max_size, read.expected_epoch),
        crate::block_buffer_manager::ordered_look(
            view,
            read.start_num,
            read.max_size,
            read.expected_epoch,
            elapsed,
        ) matches Ok(Some(found)) && 0 <= i < found.len(),
    ensures
        ({
            let found = crate::block_buffer_manager::ordered_look(
                view,
                read.start_num,
                read.max_size,
                read.expected_epoch,
                elapsed,
            )->Ok_0->0;
            let key = BlockKey {
                epoch: read.expected_epoch,
                block_number: (read.start_num + i) as u64,
            };
            let (block, parent_id) = found[i];
            &&& read.start_num + i <= u64::MAX
            &&& view.blocks.contains_key(key)
            &&& view.blocks[key] == (BlockState::Ordered { block, parent_id })
            &&& crate::buffer_laws::in_place(view) ==> block.block_meta.block_number
                == read.start_num + i && block.block_meta.epoch == read.expected_epoch
        }),
{
    crate::buffer_laws::run_is_contiguous(
        view.blocks.dom(),
        read.expected_epoch,
        read.start_num as int,
        crate::buffer_model::read_limit(read.max_size),
    );
    let key = crate::buffer_model::key_at(read.expected_epoch, read.start_num + i);
    assert(view.blocks.dom().contains(key));
    assert(view.blocks[key] is Ordered);
}

/// Two blocks that are ordered one after the other are read one after the other, the second with
/// the first for its parent.
pub proof fn consecutive_blocks_are_read_in_order(
    view: BufferView,
    claimed: BlockId,
    first: Arc<ExternalBlock>,
    next_claimed: BlockId,
    second: Arc<ExternalBlock>,
    now: SystemTime,
    elapsed: Nanos,
)
    requires
        view.accepts(*first),
        second.block_meta.epoch == first.block_meta.epoch,
        second.block_meta.block_number == first.block_meta.block_number + 1,
        view.with_ordered(claimed, first, now).accepts(*second),
        elapsed <= view.config.max_wait_timeout,
    ensures
        ({
            let after = view.with_ordered(claimed, first, now).with_ordered(
                next_claimed,
                second,
                now,
            );
            let number = first.block_meta.block_number;
            let epoch = first.block_meta.epoch;
            &&& after.readable_ordered(number, Some(2), epoch)
            &&& crate::block_buffer_manager::ordered_look(after, number, Some(2), epoch, elapsed)
                matches Ok(Some(found))
            &&& found.len() == 2
            &&& found[0].0 == first
            &&& found[1].0 == second
            &&& found[1].1 == first.block_meta.block_id
        }),
{
    let after = view.with_ordered(claimed, first, now).with_ordered(next_claimed, second, now);
    let number = first.block_meta.block_number;
    let epoch = first.block_meta.epoch;
    let keys = after.blocks.dom();
    reveal_with_fuel(crate::buffer_model::run_len, 3);
    assert(keys.contains(crate::buffer_model::key_at(epoch, number as int)));
    assert(keys.contains(crate::buffer_model::key_at(epoch, number + 1)));
    assert(after.ordered_len(number, Some(2), epoch) == 2);
}

/// A read of ordered blocks takes all that it may: no more blocks than were asked for, but one where
/// none were asked for, and it stops before that only where the next block is missing.
pub proof fn ordered_reads_take_all_they_may(
    view: BufferView,
    start: u64,
    max_size: Option<usize>,
    epoch: u64,
)
    ensures
        ({
            let len = view.ordered_len(start, max_size, epoch);
            &&& max_size matches Some(size) ==> len <= size || len == 1
            &&& len <= usize::MAX
            &&& forall|n: u64|
                start <= n < start + len ==> #[trigger] view.blocks.contains_key(
                    BlockKey { epoch, block_number: n },
                )
            &&& start + len <= u64::MAX && view.blocks.contains_key(
                BlockKey { epoch, block_number: (start + len) as u64 },
            ) ==> len > 0 && match max_size {
                Some(size) => len >= size,
                None => len == usize::MAX,
            }
        }),
{
    let len = view.ordered_len(start, max_size, epoch);
    crate::buffer_laws::run_is_contiguous(
        view.blocks.dom(),
        epoch,
        start as int,
        crate::buffer_model::read_limit(max_size),
    );
    assert forall|n: u64| start <= n < start + len implies #[trigger] view.blocks.contains_key(
        BlockKey { epoch, block_number: n },
    ) by {
        assert(view.blocks.dom().contains(crate::buffer_model::key_at(epoch, n as int)));
    }
}

/// A read of committed blocks takes all that it may: no more blocks than were asked for, but one
/// where none were asked for, and it stops before that only where the next block is not committed.
pub proof fn committed_reads_take_all_they_may(
    view: BufferView,
    start: u64,
    max_size: Option<usize>,
    epoch: u64,
)
    ensures
        ({
            let len = view.committed_len(start, max_size, epoch);
            let next = BlockKey { epoch, block_number: (start + len) as u64 };
            &&& max_size matches Some(size) ==> len <= size || len == 1
            &&& len <= usize::MAX
            &&& forall|n: u64|
                start <= n < start + len ==> #[trigger] view.blocks.contains_key(
                    BlockKey { epoch, block_number: n },
                ) && view.blocks[BlockKey { epoch, block_number: n }] is Committed
            &&& start + len <= u64::MAX && view.blocks.contains_key(next) && view.blocks[next]
                is Committed ==> len > 0 && match max_size {
                Some(size) => len >= size,
                None => len == usize::MAX,
            }
        }),
{
    let len = view.committed_len(start, max_size, epoch);
    crate::buffer_laws::run_is_contiguous(
        view.committed_keys(),
        epoch,
        start as int,
        crate::buffer_model::read_limit(max_size),
    );
    assert forall|n: u64| start <= n < start + len implies #[trigger] view.blocks.contains_key(
        BlockKey { epoch, block_number: n },
    ) && view.blocks[BlockKey { epoch, block_number: n }] is Committed by {
        assert(view.committed_keys().contains(crate::buffer_model::key_at(epoch, n as int)));
    }
}

/// Ordered blocks can be read wherever the reader meets only ordered blocks and does not run past
/// the last block number: it may take blocks up to that number where it was to take no more.
pub proof fn ordered_blocks_can_be_read(
    view: BufferView,
    start: u64,
    max_size: Option<usize>,
    epoch: u64,
)
    ensures
        ({
            let len = view.ordered_len(start, max_size, epoch);
            view.readable_ordered(start, max_size, epoch) <==> {
                &&& forall|i: int|
                    0 <= i < len ==> #[trigger] view.blocks[crate::buffer_model::key_at(
                        epoch,
                        start + i,
                    )] is Ordered
                &&& start + len <= u64::MAX || len > 0 && match max_size {
                    Some(size) => len >= size,
                    None => len == usize::MAX,
                }
            }
        }),
        !crate::buffer_model::run_overflows(
            view.committed_keys(),
            epoch,
            start,
            crate::buffer_model::read_limit(max_size),
        ) <==> {
            let len = view.committed_len(start, max_size, epoch);
            start + len <= u64::MAX || len > 0 && match max_size {
                Some(size) => len >= size,
                None => len == usize::MAX,
            }
        },
{
    crate::buffer_laws::run_is_contiguous(
        view.blocks.dom(),
        epoch,
        start as int,
        crate::buffer_model::read_limit(max_size),
    );
    crate::buffer_laws::run_is_contiguous(
        view.committed_keys(),
        epoch,
        start as int,
        crate::buffer_model::read_limit(max_size),
    );
}

/// A reader of ordered blocks is refused while the buffer changes epochs, and else where it is in
/// another epoch; one that was let begin is told that it waited for too long exactly once it has,
/// and that there is nothing yet exactly where its first block is missing.
pub proof fn readers_are_refused_for_a_reason(
    view: BufferView,
    start: u64,
    max_size: Option<usize>,
    epoch: u64,
    elapsed: Nanos,
)
    ensures
        ({
            let checked = crate::block_buffer_manager::ordered_epoch_check(view, epoch);
            let look = crate::block_buffer_manager::ordered_look(
                view,
                start,
                max_size,
                epoch,
                elapsed,
            );
            &&& checked is Ok <==> view.buffer_state != BufferState::EpochChange
                && view.current_epoch == epoch
            &&& checked == Err::<(), BufferError>(BufferError::InEpochChange)
                <==> view.buffer_state == BufferState::EpochChange
            &&& checked == Err::<(), BufferError>(
                BufferError::EpochMismatch { expected: epoch, current: view.current_epoch },
            ) <==> view.buffer_state != BufferState::EpochChange && view.current_epoch != epoch
            &&& look is Err <==> elapsed > view.config.max_wait_timeout
            &&& look matches Err(e) ==> e == (BufferError::Timeout { block_number: start })
            &&& look matches Ok(found) ==> (found is Some <==> view.blocks.contains_key(
                BlockKey { epoch, block_number: start },
            ))
            &&& look matches Ok(Some(found)) ==> found.len() == view.ordered_len(
                start,
                max_size,
                epoch,
            )
        }),
{
    crate::buffer_laws::run_is_contiguous(
        view.blocks.dom(),
        epoch,
        start as int,
        crate::buffer_model::read_limit(max_size),
    );
    let key = BlockKey { epoch, block_number: start };
    assert(crate::buffer_model::key_at(epoch, start as int) == key);
}

/// Reading ordered blocks changes nothing but when they were read.
pub proof fn ordered_reads_only_note_the_time(
    view: BufferView,
    start: u64,
    epoch: u64,
    len: nat,
    now: SystemTime,
    key: BlockKey,
)
    ensures
        ({
            let after = view.with_ordered_read(start, epoch, len, now);
            let was_read = key.epoch == epoch && start <= key.block_number < start + len;
            let before = crate::buffer_model::profile_at(view.profile, key);
            &&& after == (BufferView { profile: after.profile, ..view })
            &&& after.profile.contains_key(key) <==> view.profile.contains_key(key) || was_read
            &&& !was_read && view.profile.contains_key(key) ==> after.profile[key]
                == view.profile[key]
            &&& was_read ==> {
                let profile = after.profile[key];
                &&& profile.get_ordered_blocks_time == Some(now)
                &&& profile.set_ordered_block_time == before.set_ordered_block_time
                &&& profile.set_compute_res_time == before.set_compute_res_time
                &&& profile.get_executed_res_time == before.get_executed_res_time
                &&& profile.set_commit_blocks_time == before.set_commit_blocks_time
                &&& profile.get_committed_blocks_time == before.get_committed_blocks_time
            }
        }),
{
}

/// A profile that is kept is the one that is told, and where none is kept no time is told.
pub proof fn profiles_are_told_as_kept(view: BufferView, key: BlockKey)
    ensures
        ({
            let profile = crate::buffer_model::profile_at(view.profile, key);
            if view.profile.contains_key(key) {
                profile == view.profile[key]
            } else {
                &&& profile.set_ordered_block_time is None
                &&& profile.get_ordered_blocks_time is None
                &&& profile.set_compute_res_time is None
                &&& profile.get_executed_res_time is None
                &&& profile.set_commit_blocks_time is None
                &&& profile.get_committed_blocks_time is None
            }
        }),
{
}

/// A block is taken exactly where it is of the current epoch and its place is free; otherwise the
/// outcome says which of its epoch and its place is in the way, and whether the same block is there.
pub proof fn blocks_are_taken_into_free_places(view: BufferView, block: Arc<ExternalBlock>)
    ensures
        ({
            let meta = block.block_meta;
            let key = BlockKey { epoch: meta.epoch, block_number: meta.block_number };
            let outcome = outcome_of(view, block);
            let held = view.blocks.contains_key(key);
            let same = view.blocks[key].block_id() == meta.block_id;
            &&& outcome == OrderOutcome::Inserted <==> meta.epoch == view.current_epoch && !held
            &&& outcome == OrderOutcome::OldEpoch <==> meta.epoch < view.current_epoch
            &&& outcome == OrderOutcome::FutureEpoch <==> meta.epoch > view.current_epoch
            &&& outcome == OrderOutcome::Duplicate <==> meta.epoch == view.current_epoch && held
                && same
            &&& outcome == OrderOutcome::Conflict <==> meta.epoch == view.current_epoch && held
                && !same
            &&& view.accepts(*block) <==> outcome == OrderOutcome::Inserted
        }),
{
}

/// What becomes of `block`.
pub open spec fn outcome_of(view: BufferView, block: Arc<ExternalBlock>) -> OrderOutcome {
    crate::block_buffer_manager::order_outcome(view, *block)
}

/// The identifier of a block is that of its header, and from its execution on the one that is kept
/// with it.
pub proof fn blocks_are_known_by_their_ids(state: BlockState)
    ensures
        state matches BlockState::Ordered { block, .. } ==> state.block_id()
            == block.block_meta.block_id,
        state matches BlockState::Computed { id, .. } ==> state.block_id() == id,
        state matches BlockState::Committed { id, .. } ==> state.block_id() == id,
        state matches BlockState::Historical { id } ==> state.block_id() == id,
{
}

/// Ordering a block puts it into its place, and changes nothing else but when it was ordered. Its
/// parent is the block before it in the same epoch, or else the one with that number in the epoch
/// before, and only else the one that was claimed.
pub proof fn ordering_changes_one_place(
    view: BufferView,
    claimed: BlockId,
    block: Arc<ExternalBlock>,
    now: SystemTime,
    other: BlockKey,
)
    requires
        block.block_meta.block_number > 0,
    ensures
        ({
            let meta = block.block_meta;
            let key = BlockKey { epoch: meta.epoch, block_number: meta.block_number };
            let here = BlockKey { epoch: meta.epoch, block_number: (meta.block_number - 1) as u64 };
            let earlier = BlockKey {
                epoch: (meta.epoch - 1) as u64,
                block_number: (meta.block_number - 1) as u64,
            };
            let after = view.with_ordered(claimed, block, now);
            &&& after == (BufferView { blocks: after.blocks, profile: after.profile, ..view })
            &&& after.blocks.contains_key(key)
            &&& after.blocks[key] matches BlockState::Ordered { block: held, parent_id }
            &&& held == block
            &&& view.blocks.contains_key(here) ==> parent_id == view.blocks[here].block_id()
            &&& !view.blocks.contains_key(here) && meta.epoch > 0 && view.blocks.contains_key(
                earlier,
            ) ==> parent_id == view.blocks[earlier].block_id()
            &&& !view.blocks.contains_key(here) && (meta.epoch == 0 || !view.blocks.contains_key(
                earlier,
            )) ==> parent_id == claimed
            &&& after.profile.contains_key(key)
            &&& after.profile[key].set_ordered_block_time == Some(now)
            &&& other != key ==> {
                &&& after.blocks.contains_key(other) <==> view.blocks.contains_key(other)
                &&& after.blocks[other] == view.blocks[other]
                &&& after.profile.contains_key(other) <==> view.profile.contains_key(other)
                &&& after.profile[other] == view.profile[other]
            }
        }),
{
}

/// The epoch that events start is that of the first event that starts one; events of which none does
/// start none.
pub proof fn first_new_epoch_is_the_first(events: Seq<GravityEvent>)
    ensures
        match crate::buffer_model::first_new_epoch(events) {
            Some((epoch, bytes)) => exists|k: int|
                0 <= k < events.len() && (#[trigger] events[k] matches GravityEvent::NewEpoch(e, b)
                    && e == epoch && b@ == bytes) && forall|j: int|
                    0 <= j < k ==> !(#[trigger] events[j] is NewEpoch),
            None => forall|j: int| 0 <= j < events.len() ==> !(#[trigger] events[j] is NewEpoch),
        },
    decreases events.len(),
{
    if events.len() > 0 {
        let rest = events.skip(1);
        if events[0] is NewEpoch {
            assert(events[0] is NewEpoch);
        } else {
            first_new_epoch_is_the_first(rest);
            match crate::buffer_model::first_new_epoch(rest) {
                Some((epoch, bytes)) => {
                    let k = choose|k: int|
                        0 <= k < rest.len() && (#[trigger] rest[k] matches GravityEvent::NewEpoch(
                            e,
                            b,
                        ) && e == epoch && b@ == bytes) && forall|j: int|
                            0 <= j < k ==> !(#[trigger] rest[j] is NewEpoch);
                    assert(events[k + 1] == rest[k]);
                    assert forall|j: int| 0 <= j < k + 1 implies !(
                    #[trigger] events[j] is NewEpoch) by {
                        if j > 0 {
                            assert(rest[j - 1] == events[j]);
                        }
                    }
                },
                None => {
                    assert forall|j: int| 0 <= j < events.len() implies !(
                    #[trigger] events[j] is NewEpoch) by {
                        if j > 0 {
                            assert(rest[j - 1] == events[j]);
                        }
                    }
                },
            }
        }
    }
}

/// The result that was set for a block reads back as it was set: its hash, what became of each
/// transaction and its events are those that were given, the number of its transactions is that of
/// the ordered block, and it starts an epoch exactly where one of the events does, the first of
/// them.
pub proof fn results_read_back_as_they_were_set(
    view: BufferView,
    key: BlockKey,
    block: Arc<ExternalBlock>,
    parent_id: BlockId,
    hash: [u8; 32],
    txn_status: Arc<Option<Vec<TxnStatus>>>,
    events: Vec<GravityEvent>,
    validators: Option<ValidatorVerifier>,
    now: SystemTime,
    elapsed: Nanos,
)
    requires
        view.blocks.contains_key(key),
        view.blocks[key] == (BlockState::Ordered { block, parent_id }),
        elapsed <= view.config.max_wait_timeout,
    ensures
        ({
            let id = block.block_meta.block_id;
            let after = view.with_computed(
                key,
                id,
                view.compute_result(key, hash, txn_status, events, validators),
                now,
            );
            let read = crate::block_buffer_manager::executed_res(
                after,
                id,
                key.block_number,
                key.epoch,
                elapsed,
            );
            &&& read matches Ok(Some(result))
            &&& result.execution_output.data == hash
            &&& result.execution_output.txn_status == txn_status
            &&& result.execution_output.events == events
            &&& result.execution_output.txn_num == block.txns@.len()
            &&& result.epoch_state is None <==> forall|j: int|
                0 <= j < events@.len() ==> !(#[trigger] events@[j] is NewEpoch)
            &&& result.epoch_state matches Some(state) ==> *state.verifier == validators->0
                && exists|k: int|
                0 <= k < events@.len() && (#[trigger] events@[k] matches GravityEvent::NewEpoch(e, _)
                    && e == state.epoch) && forall|j: int|
                    0 <= j < k ==> !(#[trigger] events@[j] is NewEpoch)
        }),
{
    first_new_epoch_is_the_first(events@);
    let len: usize = block.txns.len();
    assert(len == block.txns@.len());
    match crate::buffer_model::first_new_epoch(events@) {
        Some((epoch, bytes)) => {
            let k = choose|k: int|
                0 <= k < events@.len() && (#[trigger] events@[k] matches GravityEvent::NewEpoch(
                    e,
                    b,
                ) && e == epoch && b@ == bytes) && forall|j: int|
                    0 <= j < k ==> !(#[trigger] events@[j] is NewEpoch);
            assert(events@[k] is NewEpoch);
        },
        None => {},
    }
}

/// Setting the result of a block changes its place, and nothing else but when that was, and the
/// epoch that comes next and the block that announced it where the result starts an epoch.
pub proof fn executing_changes_one_place(
    view: BufferView,
    key: BlockKey,
    id: BlockId,
    result: StateComputeResult,
    now: SystemTime,
    other: BlockKey,
)
    ensures
        ({
            let after = view.with_computed(key, id, result, now);
            &&& after == (BufferView {
                blocks: after.blocks,
                profile: after.profile,
                next_epoch: after.next_epoch,
                latest_epoch_change_block_number: after.latest_epoch_change_block_number,
                ..view
            })
            &&& after.blocks.contains_key(key)
            &&& after.blocks[key] == (BlockState::Computed { id, compute_result: Arc::new(result) })
            &&& result.epoch_state matches Some(state) ==> after.next_epoch == Some(state.epoch)
                && after.latest_epoch_change_block_number == key.block_number
            &&& result.epoch_state is None ==> after.next_epoch == view.next_epoch
                && after.latest_epoch_change_block_number == view.latest_epoch_change_block_number
            &&& after.profile.contains_key(key)
            &&& after.profile[key].set_compute_res_time == Some(now)
            &&& view.profile.contains_key(key) ==> after.profile[key].set_ordered_block_time
                == view.profile[key].set_ordered_block_time
            &&& other != key ==> {
                &&& after.blocks.contains_key(other) <==> view.blocks.contains_key(other)
                &&& after.blocks[other] == view.blocks[other]
                &&& after.profile.contains_key(other) <==> view.profile.contains_key(other)
                &&& after.profile[other] == view.profile[other]
            }
        }),
{
}

/// A reader of the result of a block gets it exactly where it waited for no longer than it may and
/// the block is executed or committed; it is told to wait exactly where the block is only ordered,
/// and otherwise that it waited for too long, that the block was recovered, or that it is missing.
pub proof fn readers_of_results_are_told_what_is_there(
    view: BufferView,
    id: BlockId,
    number: u64,
    epoch: u64,
    elapsed: Nanos,
)
    ensures
        ({
            let key = BlockKey { epoch, block_number: number };
            let in_time = elapsed <= view.config.max_wait_timeout;
            let held = view.blocks.contains_key(key);
            let read = crate::block_buffer_manager::executed_res(view, id, number, epoch, elapsed);
            &&& !in_time ==> read == Err::<Option<Arc<StateComputeResult>>, BufferError>(
                BufferError::Timeout { block_number: number },
            )
            &&& in_time && !held ==> read == Err::<Option<Arc<StateComputeResult>>, BufferError>(
                BufferError::MissingBlock {
                    id,
                    block_number: number,
                    latest_epoch_change_block_number: view.latest_epoch_change_block_number,
                },
            )
            &&& in_time && held && view.blocks[key] is Ordered ==> (read matches Ok(
                None,
            ))
            &&& in_time && held ==> (view.blocks[key] matches BlockState::Computed {
                compute_result,
                ..
            } ==> read matches Ok(Some(result)) && result == compute_result)
            &&& in_time && held ==> (view.blocks[key] matches BlockState::Committed {
                compute_result,
                ..
            } ==> read matches Ok(Some(result)) && result == compute_result)
            &&& in_time && held ==> (view.blocks[key] matches BlockState::Historical { id: known }
                ==> read == Err::<Option<Arc<StateComputeResult>>, BufferError>(
                BufferError::HistoricalBlock { id: known, block_number: number },
            ))
        }),
{
}

/// Reading the result of a block changes nothing but when it was read.
pub proof fn result_reads_only_note_the_time(
    view: BufferView,
    key: BlockKey,
    now: SystemTime,
    other: BlockKey,
)
    ensures
        ({
            let after = crate::block_buffer_manager::with_result_read(view, key, now);
            &&& after == (BufferView { profile: after.profile, ..view })
            &&& after.profile.contains_key(key)
            &&& after.profile[key].get_executed_res_time == Some(now)
            &&& view.profile.contains_key(key) ==> after.profile[key].set_compute_res_time
                == view.profile[key].set_compute_res_time
            &&& other != key ==> {
                &&& after.profile.contains_key(other) <==> view.profile.contains_key(other)
                &&& after.profile[other] == view.profile[other]
            }
        }),
{
}

/// A block can be committed exactly where the buffer holds it, with the identifier by which it is to
/// be committed, and it is past being only ordered.
pub proof fn executed_blocks_can_be_committed(view: BufferView, block: BlockHashRef, epoch: u64)
    ensures
        ({
            let key = BlockKey { epoch, block_number: block.num };
            view.committable(block, epoch) <==> view.blocks.contains_key(key) && (
            match view.blocks[key] {
                BlockState::Ordered { .. } => false,
                BlockState::Computed { id, .. } => id == block.block_id,
                BlockState::Committed { id, .. } => id == block.block_id,
                BlockState::Historical { id } => id == block.block_id,
            })
        }),
{
}

/// A commit touches no block but those that are to be committed, and of the rest of the buffer
/// nothing at all.
pub proof fn commits_leave_other_blocks_alone(
    view: BufferView,
    list: Seq<BlockHashRef>,
    epoch: u64,
    now: SystemTime,
    key: BlockKey,
)
    ensures
        ({
            let after = view.with_all_committed(list, epoch, now);
            &&& after == (BufferView { blocks: after.blocks, profile: after.profile, ..view })
            &&& (forall|j: int|
                0 <= j < list.len() ==> (BlockKey { epoch, block_number: (#[trigger] list[j]).num })
                    != key) ==> {
                &&& after.blocks.contains_key(key) <==> view.blocks.contains_key(key)
                &&& after.blocks[key] == view.blocks[key]
                &&& after.profile.contains_key(key) <==> view.profile.contains_key(key)
                &&& after.profile[key] == view.profile[key]
            }
            &&& !(view.blocks[key] is Computed) && view.blocks.contains_key(key)
                ==> after.blocks.contains_key(key) && after.blocks[key] == view.blocks[key]
        }),
    decreases list.len(),
{
    if list.len() > 0 {
        let earlier = list.drop_last();
        commits_leave_other_blocks_alone(view, earlier, epoch, now, key);
        assert(list[list.len() - 1] == list.last());
        if forall|j: int|
            0 <= j < list.len() ==> (BlockKey { epoch, block_number: (#[trigger] list[j]).num })
                != key {
            assert forall|j: int| 0 <= j < earlier.len() implies (BlockKey {
                epoch,
                block_number: (#[trigger] earlier[j]).num,
            }) != key by {
                assert(earlier[j] == list[j]);
            }
        }
    }
}

/// A commit takes each executed block over with the hash that it is committed with, the result of
/// its execution and its identifier, and gives a ticket with it exactly where the result starts an
/// epoch.
pub proof fn commits_keep_the_result_of_each_block(
    view: BufferView,
    list: Seq<BlockHashRef>,
    epoch: u64,
    now: SystemTime,
    i: int,
    result: Arc<StateComputeResult>,
)
    requires
        0 <= i < list.len(),
        forall|j: int| 0 <= j < i ==> (#[trigger] list[j]).num != list[i].num,
        view.blocks.contains_key(BlockKey { epoch, block_number: list[i].num }),
        view.blocks[BlockKey { epoch, block_number: list[i].num }] == (BlockState::Computed {
            id: list[i].block_id,
            compute_result: result,
        }),
    ensures
        ({
            let key = BlockKey { epoch, block_number: list[i].num };
            let after = view.with_all_committed(list, epoch, now);
            &&& after.blocks.contains_key(key)
            &&& after.blocks[key] == (BlockState::Committed {
                hash: list[i].hash,
                compute_result: result,
                id: list[i].block_id,
                persist_notifier: if result.epoch_state is Some {
                    Some(key)
                } else {
                    None
                },
            })
            &&& after.profile.contains_key(key)
            &&& after.profile[key].set_commit_blocks_time == Some(now)
            &&& view.profile.contains_key(key) ==> after.profile[key].set_compute_res_time
                == view.profile[key].set_compute_res_time
        }),
    decreases list.len(),
{
    let earlier = list.drop_last();
    let key = BlockKey { epoch, block_number: list[i].num };
    if i < earlier.len() {
        assert(earlier[i] == list[i]);
        assert forall|j: int| 0 <= j < i implies (#[trigger] earlier[j]).num != earlier[i].num by {
            assert(earlier[j] == list[j]);
        }
        commits_keep_the_result_of_each_block(view, earlier, epoch, now, i, result);
    } else {
        assert forall|j: int| 0 <= j < earlier.len() implies (BlockKey {
            epoch,
            block_number: (#[trigger] earlier[j]).num,
        }) != key by {
            assert(earlier[j] == list[j]);
        }
        commits_leave_other_blocks_alone(view, earlier, epoch, now, key);
        assert(list.last() == list[i]);
    }
}

/// The tickets of a commit of different blocks are those of the executed blocks whose results start
/// an epoch, one for each, in the order of the blocks. `places` are where those blocks stand.
pub proof fn tickets_come_in_the_order_of_the_blocks(
    view: BufferView,
    list: Seq<BlockHashRef>,
    epoch: u64,
    now: SystemTime,
) -> (places: Seq<int>)
    requires
        forall|j: int| 0 <= j < list.len() ==> view.committable(#[trigger] list[j], epoch),
        forall|j: int, k: int|
            0 <= j < k < list.len() ==> (#[trigger] list[j]).num != (#[trigger] list[k]).num,
    ensures
        crate::places::are_places(
            places,
            list.len(),
            |i: int|
                view.blocks[BlockKey { epoch, block_number: list[i].num }] matches BlockState::Computed {
                    compute_result,
                    ..
                } && compute_result.epoch_state is Some,
        ),
        view.notifiers(list, epoch, now).len() == places.len(),
        forall|k: int|
            0 <= k < places.len() ==> #[trigger] view.notifiers(list, epoch, now)[k] == (BlockKey {
                epoch,
                block_number: list[places[k]].num,
            }),
{
    let places = lemma_tickets(view, list, epoch, now, list.len());
    assert(list.take(list.len() as int) =~= list);
    places
}

proof fn lemma_tickets(
    view: BufferView,
    list: Seq<BlockHashRef>,
    epoch: u64,
    now: SystemTime,
    n: nat,
) -> (places: Seq<int>)
    requires
        n <= list.len(),
        forall|j: int, k: int|
            0 <= j < k < list.len() ==> (#[trigger] list[j]).num != (#[trigger] list[k]).num,
    ensures
        crate::places::are_places(
            places,
            n,
            |i: int|
                view.blocks[BlockKey { epoch, block_number: list[i].num }] matches BlockState::Computed {
                    compute_result,
                    ..
                } && compute_result.epoch_state is Some,
        ),
        view.notifiers(list.take(n as int), epoch, now).len() == places.len(),
        forall|k: int|
            0 <= k < places.len() ==> #[trigger] view.notifiers(list.take(n as int), epoch, now)[k]
                == (BlockKey { epoch, block_number: list[places[k]].num }),
    decreases n,
{
    let wanted = |i: int|
        view.blocks[BlockKey { epoch, block_number: list[i].num }] matches BlockState::Computed {
            compute_result,
            ..
        } && compute_result.epoch_state is Some;
    if n == 0 {
        crate::places::no_places(wanted);
        Seq::empty()
    } else {
        let last = (n - 1) as nat;
        let earlier = list.take(last as int);
        let places = lemma_tickets(view, list, epoch, now, last);
        assert(list.take(n as int).drop_last() =~= earlier);
        assert(list.take(n as int).last() == list[last as int]);
        let key = BlockKey { epoch, block_number: list[last as int].num };
        assert forall|j: int| 0 <= j < earlier.len() implies (BlockKey {
            epoch,
            block_number: (#[trigger] earlier[j]).num,
        }) != key by {
            assert(earlier[j] == list[j]);
        }
        commits_leave_other_blocks_alone(view, earlier, epoch, now, key);
        assert(key == crate::buffer_model::key_at(epoch, list[last as int].num as int));
        let next = crate::places::next_place(places, last, wanted);
        let before = view.notifiers(earlier, epoch, now);
        let all = view.notifiers(list.take(n as int), epoch, now);
        assert(all == (if wanted(last as int) {
            before.push(key)
        } else {
            before
        }));
        assert forall|k: int| 0 <= k < next.len() implies #[trigger] all[k] == (BlockKey {
            epoch,
            block_number: list[next[k]].num,
        }) by {
            if k < places.len() {
                assert(all[k] == before[k]);
                assert(next[k] == places[k]);
            }
        }
        next
    }
}

/// A read of committed blocks tells of each block at its place: its identifier, its number, the hash
/// that it was committed with and its ticket, if the block still has it.
pub proof fn committed_reads_tell_of_each_block(
    view: BufferView,
    start: u64,
    max_size: Option<usize>,
    epoch: u64,
    i: int,
)
    requires
        0 <= i < view.committed_len(start, max_size, epoch),
    ensures
        ({
            let len = view.committed_len(start, max_size, epoch);
            let run = view.committed_run(start, epoch, len);
            let key = BlockKey { epoch, block_number: (start + i) as u64 };
            &&& run.len() == len
            &&& run[i].num == start + i
            &&& view.blocks.contains_key(key)
            &&& view.blocks[key] matches BlockState::Committed { hash, id, persist_notifier, .. }
            &&& run[i].block_id == id
            &&& run[i].hash == hash
            &&& run[i].persist_notifier == persist_notifier
        }),
{
    crate::buffer_laws::run_is_contiguous(
        view.committed_keys(),
        epoch,
        start as int,
        crate::buffer_model::read_limit(max_size),
    );
    assert(view.committed_keys().contains(crate::buffer_model::key_at(epoch, start + i)));
}

/// Reading committed blocks takes the tickets of the blocks that were read, notes the last of them as
/// finalized where it is the latest yet, and changes nothing else but when they were read.
pub proof fn committed_reads_only_take_tickets(
    view: BufferView,
    start: u64,
    max_size: Option<usize>,
    epoch: u64,
    now: SystemTime,
    key: BlockKey,
)
    ensures
        ({
            let len = view.committed_len(start, max_size, epoch);
            let after = view.with_committed_read(start, epoch, len, now);
            let was_read = key.epoch == epoch && start <= key.block_number < start + len;
            &&& after == (BufferView {
                blocks: after.blocks,
                profile: after.profile,
                latest_finalized_block_number: after.latest_finalized_block_number,
                ..view
            })
            &&& after.latest_finalized_block_number == (if len > 0 && start + len - 1
                > view.latest_finalized_block_number {
                start + len - 1
            } else {
                view.latest_finalized_block_number as int
            })
            &&& after.blocks.contains_key(key) <==> view.blocks.contains_key(key)
            &&& !was_read && view.blocks.contains_key(key) ==> after.blocks[key]
                == view.blocks[key]
            &&& was_read ==> {
                &&& view.blocks[key] matches BlockState::Committed { hash, compute_result, id, .. }
                &&& after.blocks[key] == (BlockState::Committed {
                    hash,
                    compute_result,
                    id,
                    persist_notifier: None,
                })
            }
            &&& after.profile.contains_key(key) <==> view.profile.contains_key(key) || was_read
            &&& !was_read && view.profile.contains_key(key) ==> after.profile[key]
                == view.profile[key]
            &&& was_read ==> after.profile[key].get_committed_blocks_time == Some(now)
            &&& was_read && view.profile.contains_key(key)
                ==> after.profile[key].set_commit_blocks_time
                == view.profile[key].set_commit_blocks_time
        }),
{
    let len = view.committed_len(start, max_size, epoch);
    crate::buffer_laws::run_is_contiguous(
        view.committed_keys(),
        epoch,
        start as int,
        crate::buffer_model::read_limit(max_size),
    );
    if key.epoch == epoch && start <= key.block_number < start + len {
        assert(view.committed_keys().contains(
            crate::buffer_model::key_at(epoch, key.block_number as int),
        ));
    }
}

/// A sweep removes just the blocks, and their times, that are older than the last finalized one, and
/// only where the buffer holds as many blocks as it may; it changes nothing else.
pub proof fn sweeps_remove_finalized_blocks(view: BufferView, key: BlockKey)
    ensures
        ({
            let after = view.swept();
            let kept = view.blocks.len() < view.config.max_block_size || key.block_number
                >= view.latest_finalized_block_number;
            &&& after == (BufferView { blocks: after.blocks, profile: after.profile, ..view })
            &&& after.blocks.contains_key(key) <==> view.blocks.contains_key(key) && kept
            &&& after.blocks.contains_key(key) ==> after.blocks[key] == view.blocks[key]
            &&& after.profile.contains_key(key) <==> view.profile.contains_key(key) && kept
            &&& after.profile.contains_key(key) ==> after.profile[key] == view.profile[key]
        }),
{
}

/// The end of an epoch removes just the blocks, and their times, after the one that ends it, moves
/// to the next epoch where one was announced, which is then no longer announced, and changes nothing
/// else.
pub proof fn releases_remove_blocks_in_flight(view: BufferView, key: BlockKey)
    ensures
        ({
            let after = view.released();
            let kept = key.block_number <= view.latest_epoch_change_block_number;
            &&& after == (BufferView {
                blocks: after.blocks,
                profile: after.profile,
                current_epoch: after.current_epoch,
                next_epoch: None,
                buffer_state: BufferState::EpochChange,
                ..view
            })
            &&& view.next_epoch matches Some(epoch) ==> after.current_epoch == epoch
            &&& view.next_epoch is None ==> after.current_epoch == view.current_epoch
            &&& after.blocks.contains_key(key) <==> view.blocks.contains_key(key) && kept
            &&& after.blocks.contains_key(key) ==> after.blocks[key] == view.blocks[key]
            &&& after.profile.contains_key(key) <==> view.profile.contains_key(key) && kept
            &&& after.profile.contains_key(key) ==> after.profile[key] == view.profile[key]
        }),
{
}

/// A new buffer holds nothing, knows of no block and is not ready.
pub proof fn new_buffers_are_empty(config: BlockBufferManagerConfig, key: BlockKey, number: u64)
    ensures
        ({
            let view = BufferView::initial(config);
            &&& view.txns.len() == 0
            &&& !view.blocks.contains_key(key)
            &&& !view.profile.contains_key(key)
            &&& !view.block_number_to_block_id.contains_key(number)
            &&& view.latest_commit_block_number == 0
            &&& view.latest_finalized_block_number == 0
            &&& view.latest_epoch_change_block_number == 0
            &&& view.current_epoch == 0
            &&& view.next_epoch is None
            &&& view.buffer_state == BufferState::Uninitialized
            &&& view.config == config
        }),
{
}

/// A buffer that learns where the chain stands is ready, in the epoch that it is told, and knows
/// every block that it is told of by its number. The last of them is in the buffer as one recovered
/// from storage, at which the epoch began; where it is told of none, no block enters the buffer.
pub proof fn buffers_start_where_the_chain_stands(
    view: BufferView,
    latest: u64,
    known: Map<u64, (u64, BlockId)>,
    epoch: u64,
    number: u64,
    key: BlockKey,
)
    requires
        known.dom() != Set::<u64>::empty() ==> known.contains_key(latest),
    ensures
        ({
            let after = view.inited(latest, known, epoch);
            let place = BlockKey { epoch: known[latest].0, block_number: latest };
            &&& after.buffer_state == BufferState::Ready
            &&& after.current_epoch == epoch
            &&& after.latest_commit_block_number == latest
            &&& after.latest_finalized_block_number == latest
            &&& after.block_number_to_block_id.contains_key(number) <==> known.contains_key(number)
            &&& known.contains_key(number) ==> after.block_number_to_block_id[number]
                == known[number].1
            &&& known.contains_key(latest) ==> {
                &&& after.blocks.contains_key(place)
                &&& after.blocks[place] == (BlockState::Historical { id: known[latest].1 })
                &&& after.latest_epoch_change_block_number == latest
            }
            &&& !known.contains_key(latest) ==> after.blocks == view.blocks
                && after.latest_epoch_change_block_number == view.latest_epoch_change_block_number
            &&& key != place ==> {
                &&& after.blocks.contains_key(key) <==> view.blocks.contains_key(key)
                &&& after.blocks[key] == view.blocks[key]
            }
            &&& after.txns == view.txns
            &&& after.profile == view.profile
            &&& after.next_epoch == view.next_epoch
            &&& after.config == view.config
        }),
{
    let after = view.inited(latest, known, epoch);
    if known.dom() == Set::<u64>::empty() {
        assert(!known.contains_key(latest));
    } else if !known.contains_key(latest) {
        assert(known.dom() =~= Set::<u64>::empty());
    } else {
        assert(known.dom().contains(latest));
    }
}

} // verus!
