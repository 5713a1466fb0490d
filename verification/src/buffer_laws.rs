//! What holds of the block buffer as a whole.

use crate::block_map::BlockKey;
use crate::block_buffer_manager::OrderOutcome;
use crate::block_state::{BlockBufferManagerConfig, BlockHashRef, BlockState, BufferError};
use crate::buffer_model::BufferView;
use crate::external::{ExternalBlock, StateComputeResult};
use crate::types::{BlockId, Nanos};
use std::sync::Arc;
use std::time::SystemTime;
use vstd::prelude::*;

verus! {

/// Whether a block can go from `before` to `after` by being committed.
pub open spec fn commits_from(before: BlockState, after: BlockState) -> bool {
    ||| after == before
    ||| {
        &&& before is Computed
        &&& after is Committed
        &&& after.block_id() == before.block_id()
        &&& after->Committed_compute_result == before->Computed_compute_result
    }
}

/// Committing blocks keeps every block in its place and under its identifier, and takes none back
/// to before its execution.
pub proof fn commit_keeps_blocks(
    view: BufferView,
    list: Seq<BlockHashRef>,
    epoch: u64,
    now: SystemTime,
)
    requires
        forall|i: int| 0 <= i < list.len() ==> view.committable(#[trigger] list[i], epoch),
    ensures
        view.with_all_committed(list, epoch, now).blocks.dom() == view.blocks.dom(),
        forall|key: BlockKey| #[trigger]
            view.blocks.contains_key(key) ==> commits_from(
                view.blocks[key],
                view.with_all_committed(list, epoch, now).blocks[key],
            ),
    decreases list.len(),
{
    if list.len() > 0 {
        let earlier = list.drop_last();
        assert forall|i: int| 0 <= i < earlier.len() implies view.committable(
            #[trigger] earlier[i],
            epoch,
        ) by {
            assert(earlier[i] == list[i]);
        }
        commit_keeps_blocks(view, earlier, epoch, now);
        assert(view.committable(list[list.len() - 1], epoch));
        let mid = view.with_all_committed(earlier, epoch, now);
        assert(mid.with_committed(list.last(), epoch, now).blocks.dom() =~= view.blocks.dom());
        assert forall|key: BlockKey| #[trigger] view.blocks.contains_key(key) implies commits_from(
            view.blocks[key],
            view.with_all_committed(list, epoch, now).blocks[key],
        ) by {
            assert(commits_from(view.blocks[key], mid.blocks[key]));
        }
    } else {
        assert(view.with_all_committed(list, epoch, now).blocks.dom() =~= view.blocks.dom());
    }
}

/// After blocks were committed, none of them waits for its commit any more.
pub proof fn commit_reaches_all(
    view: BufferView,
    list: Seq<BlockHashRef>,
    epoch: u64,
    now: SystemTime,
    i: int,
)
    requires
        forall|j: int| 0 <= j < list.len() ==> view.committable(#[trigger] list[j], epoch),
        0 <= i < list.len(),
    ensures
        ({
            let key = crate::buffer_model::key_at(epoch, list[i].num as int);
            let after = view.with_all_committed(list, epoch, now).blocks[key];
            (after is Committed || after is Historical) && after.block_id() == list[i].block_id
        }),
    decreases list.len(),
{
    let earlier = list.drop_last();
    assert forall|j: int| 0 <= j < earlier.len() implies view.committable(
        #[trigger] earlier[j],
        epoch,
    ) by {
        assert(earlier[j] == list[j]);
    }
    commit_keeps_blocks(view, earlier, epoch, now);
    assert(view.committable(list[i], epoch));
    assert(view.committable(list[list.len() - 1], epoch));
    if i < earlier.len() {
        commit_reaches_all(view, earlier, epoch, now, i);
        assert(earlier[i] == list[i]);
    }
}

/// A ticket is given exactly for each block that this commit took from executed to committed and
/// that starts an epoch, and the block keeps it until it is read back.
pub proof fn commit_gives_tickets(
    view: BufferView,
    list: Seq<BlockHashRef>,
    epoch: u64,
    now: SystemTime,
    key: BlockKey,
)
    requires
        forall|j: int| 0 <= j < list.len() ==> view.committable(#[trigger] list[j], epoch),
    ensures
        view.notifiers(list, epoch, now).contains(key) <==> {
            &&& view.blocks.contains_key(key)
            &&& view.gives_notifier(key)
            &&& view.with_all_committed(list, epoch, now).blocks[key] is Committed
        },
        view.notifiers(list, epoch, now).contains(key) ==> view.with_all_committed(
            list,
            epoch,
            now,
        ).blocks[key]->persist_notifier == Some(key),
        view.notifiers(list, epoch, now).no_duplicates(),
    decreases list.len(),
{
    if list.len() > 0 {
        let earlier = list.drop_last();
        assert forall|j: int| 0 <= j < earlier.len() implies view.committable(
            #[trigger] earlier[j],
            epoch,
        ) by {
            assert(earlier[j] == list[j]);
        }
        let last = crate::buffer_model::key_at(epoch, list.last().num as int);
        commit_keeps_blocks(view, earlier, epoch, now);
        commit_gives_tickets(view, earlier, epoch, now, key);
        commit_gives_tickets(view, earlier, epoch, now, last);
        assert(view.committable(list[list.len() - 1], epoch));
        let mid = view.with_all_committed(earlier, epoch, now);
        assert(commits_from(view.blocks[last], mid.blocks[last]));
        let given = view.notifiers(earlier, epoch, now);
        if mid.gives_notifier(last) {
            assert(given.push(last).contains(key) <==> given.contains(key) || key == last) by {
                if given.contains(key) {
                    let at = given.index_of(key);
                    assert(given.push(last)[at] == key);
                }
                assert(given.push(last)[given.len() as int] == last);
            }
        }
    }
}

/// A block that enters the buffer is there to be read, with its parent.
pub proof fn ordered_block_is_readable(
    view: BufferView,
    claimed: BlockId,
    block: Arc<ExternalBlock>,
    now: SystemTime,
)
    requires
        view.accepts(*block),
        block.block_meta.block_number > 0,
    ensures
        ({
            let meta = block.block_meta;
            let after = view.with_ordered(claimed, block, now);
            &&& after.ordered_len(meta.block_number, Some(1), meta.epoch) == 1
            &&& after.readable_ordered(meta.block_number, Some(1), meta.epoch)
            &&& after.ordered_run(meta.block_number, meta.epoch, 1) == seq![
                (block, crate::buffer_model::parent_of(view.blocks, meta.epoch, meta.block_number, claimed)),
            ]
        }),
{
    let meta = block.block_meta;
    let after = view.with_ordered(claimed, block, now);
    reveal_with_fuel(crate::buffer_model::run_len, 2);
    assert(after.ordered_len(meta.block_number, Some(1), meta.epoch) == 1);
    assert(after.ordered_run(meta.block_number, meta.epoch, 1) =~= seq![
        (block, crate::buffer_model::parent_of(view.blocks, meta.epoch, meta.block_number, claimed)),
    ]);
}

/// Ordering a block twice changes nothing the second time, and no other block can take its place.
pub proof fn ordering_is_idempotent(
    view: BufferView,
    claimed: BlockId,
    block: Arc<ExternalBlock>,
    now: SystemTime,
    other: ExternalBlock,
)
    requires
        view.accepts(*block),
        other.block_meta.epoch == block.block_meta.epoch,
        other.block_meta.block_number == block.block_meta.block_number,
    ensures
        crate::block_buffer_manager::order_outcome(view.with_ordered(claimed, block, now), other) == (
        if other.block_meta.block_id == block.block_meta.block_id {
            OrderOutcome::Duplicate
        } else {
            OrderOutcome::Conflict
        }),
        !view.with_ordered(claimed, block, now).accepts(other),
{
}

/// A block that follows another in the buffer takes it for its parent, whatever parent was claimed.
pub proof fn parent_links_follow_the_buffer(
    view: BufferView,
    claimed: BlockId,
    block: Arc<ExternalBlock>,
    next_claimed: BlockId,
    next: Arc<ExternalBlock>,
    now: SystemTime,
)
    requires
        view.accepts(*block),
        next.block_meta.epoch == block.block_meta.epoch,
        next.block_meta.block_number == block.block_meta.block_number + 1,
    ensures
        ({
            let after = view.with_ordered(claimed, block, now).with_ordered(
                next_claimed,
                next,
                now,
            );
            after.blocks[crate::buffer_model::key_at(next.block_meta.epoch, next.block_meta.block_number as int)]
                == BlockState::Ordered { block: next, parent_id: block.block_meta.block_id }
        }),
{
}

/// The result of a block's execution can be read back, before and after the block is committed.
pub proof fn executed_result_is_readable(
    view: BufferView,
    key: BlockKey,
    id: BlockId,
    result: StateComputeResult,
    list: Seq<BlockHashRef>,
    epoch: u64,
    now: SystemTime,
    elapsed: Nanos,
)
    requires
        view.blocks.contains_key(key),
        elapsed <= view.config.max_wait_timeout,
        forall|i: int|
            0 <= i < list.len() ==> view.with_computed(key, id, result, now).committable(
                #[trigger] list[i],
                epoch,
            ),
    ensures
        ({
            let computed = view.with_computed(key, id, result, now);
            let committed = computed.with_all_committed(list, epoch, now);
            &&& crate::block_buffer_manager::executed_res(computed, id, key.block_number, key.epoch, elapsed) == Ok::<
                Option<Arc<StateComputeResult>>,
                BufferError,
            >(Some(Arc::new(result)))
            &&& crate::block_buffer_manager::executed_res(committed, id, key.block_number, key.epoch, elapsed) == Ok::<
                Option<Arc<StateComputeResult>>,
                BufferError,
            >(Some(Arc::new(result)))
        }),
{
    let computed = view.with_computed(key, id, result, now);
    commit_keeps_blocks(computed, list, epoch, now);
    commit_keeps_config(computed, list, epoch, now);
    assert(computed.blocks.contains_key(key));
}

proof fn commit_keeps_config(
    view: BufferView,
    list: Seq<BlockHashRef>,
    epoch: u64,
    now: SystemTime,
)
    ensures
        view.with_all_committed(list, epoch, now).config == view.config,
    decreases list.len(),
{
    if list.len() > 0 {
        commit_keeps_config(view, list.drop_last(), epoch, now);
    }
}

/// A run of blocks holds consecutive blocks, and ends at its limit or where the next block is
/// missing.
pub proof fn run_is_contiguous(keys: Set<BlockKey>, epoch: u64, start: int, limit: nat)
    ensures
        ({
            let len = crate::buffer_model::run_len(keys, epoch, start, limit);
            &&& len <= limit
            &&& len > 0 ==> start + len <= u64::MAX + 1
            &&& forall|n: int|
                start <= n < start + len ==> keys.contains(
                    #[trigger] crate::buffer_model::key_at(epoch, n),
                )
            &&& len < limit ==> start + len > u64::MAX || !keys.contains(
                crate::buffer_model::key_at(epoch, start + len),
            )
        }),
    decreases limit,
{
    if limit > 0 && start <= u64::MAX && keys.contains(
        crate::buffer_model::key_at(epoch, start),
    ) {
        run_is_contiguous(keys, epoch, start + 1, (limit - 1) as nat);
    }
}

/// Reading committed blocks hands each ticket out once: a second read of the same blocks finds
/// the same blocks without tickets.
pub proof fn tickets_are_handed_out_once(
    view: BufferView,
    start: u64,
    max_size: Option<usize>,
    epoch: u64,
    now: SystemTime,
    i: int,
)
    requires
        0 <= i < view.committed_len(start, max_size, epoch),
    ensures
        ({
            let len = view.committed_len(start, max_size, epoch);
            let after = view.with_committed_read(start, epoch, len, now);
            let first = view.committed_run(start, epoch, len)[i];
            let second = after.committed_run(start, epoch, len)[i];
            &&& after.committed_len(start, max_size, epoch) == len
            &&& second.persist_notifier is None
            &&& second.block_id == first.block_id
            &&& second.num == first.num
            &&& second.hash == first.hash
        }),
{
    let len = view.committed_len(start, max_size, epoch);
    let limit = crate::buffer_model::read_limit(max_size);
    let after = view.with_committed_read(start, epoch, len, now);
    run_is_contiguous(view.committed_keys(), epoch, start as int, limit);
    assert(after.committed_keys() =~= view.committed_keys());
    assert(view.committed_keys().contains(crate::buffer_model::key_at(epoch, start + i)));
}

/// Reading committed blocks never moves the last finalized block back, and leaves it at or after
/// the last block that was read.
pub proof fn finalized_number_only_grows(
    view: BufferView,
    start: u64,
    max_size: Option<usize>,
    epoch: u64,
    now: SystemTime,
)
    ensures
        ({
            let len = view.committed_len(start, max_size, epoch);
            let after = view.with_committed_read(start, epoch, len, now);
            &&& after.latest_finalized_block_number >= view.latest_finalized_block_number
            &&& len > 0 ==> after.latest_finalized_block_number >= start + len - 1
        }),
{
    let limit = crate::buffer_model::read_limit(max_size);
    let len = view.committed_len(start, max_size, epoch);
    run_is_contiguous(view.committed_keys(), epoch, start as int, limit);
    if len > 0 {
        assert(view.committed_keys().contains(crate::buffer_model::key_at(epoch, start + (len - 1))));
    }
}

/// No operation gives a block that stays in the buffer another identifier.
pub proof fn blocks_keep_their_ids(
    view: BufferView,
    claimed: BlockId,
    block: Arc<ExternalBlock>,
    computed: BlockKey,
    id: BlockId,
    result: StateComputeResult,
    list: Seq<BlockHashRef>,
    start: u64,
    len: nat,
    epoch: u64,
    now: SystemTime,
    key: BlockKey,
)
    requires
        view.blocks.contains_key(key),
        view.accepts(*block),
        view.blocks.contains_key(computed) && view.blocks[computed].block_id() == id,
        forall|i: int| 0 <= i < list.len() ==> view.committable(#[trigger] list[i], epoch),
    ensures
        same_block_at(view, view.with_ordered(claimed, block, now), key),
        same_block_at(view, view.with_ordered_read(start, epoch, len, now), key),
        same_block_at(view, view.with_computed(computed, id, result, now), key),
        same_block_at(view, view.with_all_committed(list, epoch, now), key),
        same_block_at(view, view.with_committed_read(start, epoch, len, now), key),
        view.swept().blocks.contains_key(key) ==> same_block_at(view, view.swept(), key),
        view.released().blocks.contains_key(key) ==> same_block_at(view, view.released(), key),
{
    commit_keeps_blocks(view, list, epoch, now);
    assert(commits_from(
        view.blocks[key],
        view.with_all_committed(list, epoch, now).blocks[key],
    ));
}

/// Whether `before` and `after` hold the same block at `key`.
pub open spec fn same_block_at(before: BufferView, after: BufferView, key: BlockKey) -> bool {
    after.blocks.contains_key(key) && after.blocks[key].block_id() == before.blocks[key].block_id()
}

/// How far a block has come, as a number.
pub open spec fn stage_of(state: BlockState) -> int {
    match state {
        BlockState::Ordered { .. } => 0,
        BlockState::Computed { .. } => 1,
        BlockState::Committed { .. } => 2,
        BlockState::Historical { .. } => 3,
    }
}

/// Whether the block at `key` is, where `after` still holds it, at least as far as in `before`.
pub open spec fn no_way_back(before: BufferView, after: BufferView, key: BlockKey) -> bool {
    after.blocks.contains_key(key) ==> stage_of(after.blocks[key]) >= stage_of(before.blocks[key])
}

/// No operation takes a block that stays in the buffer back to an earlier stage: blocks go from
/// ordered to executed to committed.
pub proof fn blocks_only_move_forward(
    view: BufferView,
    claimed: BlockId,
    block: Arc<ExternalBlock>,
    computed: BlockKey,
    id: BlockId,
    result: StateComputeResult,
    list: Seq<BlockHashRef>,
    start: u64,
    len: nat,
    epoch: u64,
    now: SystemTime,
    key: BlockKey,
)
    requires
        view.blocks.contains_key(key),
        view.accepts(*block),
        view.blocks.contains_key(computed) && view.blocks[computed] is Ordered,
        forall|i: int| 0 <= i < list.len() ==> view.committable(#[trigger] list[i], epoch),
    ensures
        no_way_back(view, view.with_ordered(claimed, block, now), key),
        no_way_back(view, view.with_ordered_read(start, epoch, len, now), key),
        no_way_back(view, view.with_computed(computed, id, result, now), key),
        no_way_back(view, view.with_all_committed(list, epoch, now), key),
        no_way_back(view, view.with_committed_read(start, epoch, len, now), key),
        no_way_back(view, view.swept(), key),
        no_way_back(view, view.released(), key),
{
    commit_keeps_blocks(view, list, epoch, now);
    assert(commits_from(
        view.blocks[key],
        view.with_all_committed(list, epoch, now).blocks[key],
    ));
}

/// A sweep loses no block from the last finalized one on, and the end of an epoch none up to the
/// block that ends it; neither brings a block back.
pub proof fn removal_keeps_what_is_needed(view: BufferView, key: BlockKey)
    requires
        view.blocks.contains_key(key),
    ensures
        key.block_number >= view.latest_finalized_block_number
            ==> view.swept().blocks.contains_key(key) && view.swept().blocks[key]
            == view.blocks[key],
        view.released().blocks.contains_key(key) <==> key.block_number
            <= view.latest_epoch_change_block_number,
        view.released().blocks.contains_key(key) ==> view.released().blocks[key]
            == view.blocks[key],
        view.swept().blocks.submap_of(view.blocks),
        view.released().blocks.submap_of(view.blocks),
{
}

/// An epoch that a block starts becomes current when the blocks in flight are released, not
/// before.
pub proof fn epoch_changes_at_release(
    view: BufferView,
    key: BlockKey,
    id: BlockId,
    result: StateComputeResult,
    now: SystemTime,
)
    requires
        result.epoch_state is Some,
    ensures
        ({
            let computed = view.with_computed(key, id, result, now);
            &&& computed.current_epoch == view.current_epoch
            &&& computed.released().current_epoch == result.epoch_state->0.epoch
            &&& computed.released().next_epoch is None
            &&& computed.released().buffer_state is EpochChange
            &&& forall|k: BlockKey| #[trigger]
                computed.released().blocks.contains_key(k) ==> k.block_number <= key.block_number
        }),
{
}

/// Whether every ordered block stands at its own epoch and number, and every ticket is that of the
/// block that it is kept with, which starts an epoch.
pub open spec fn in_place(view: BufferView) -> bool {
    forall|key: BlockKey| #[trigger]
        view.blocks.contains_key(key) ==> state_in_place(key, view.blocks[key])
}

/// Whether a block with the state `state` may stand at `key`.
pub open spec fn state_in_place(key: BlockKey, state: BlockState) -> bool {
    match state {
        BlockState::Ordered { block, .. } => block.block_meta.epoch == key.epoch
            && block.block_meta.block_number == key.block_number,
        BlockState::Committed {
            persist_notifier: Some(ticket),
            compute_result,
            ..
        } => ticket == key && compute_result.epoch_state is Some,
        _ => true,
    }
}

proof fn lemma_commit_in_place(
    view: BufferView,
    list: Seq<BlockHashRef>,
    epoch: u64,
    now: SystemTime,
)
    requires
        in_place(view),
        forall|i: int| 0 <= i < list.len() ==> view.committable(#[trigger] list[i], epoch),
    ensures
        in_place(view.with_all_committed(list, epoch, now)),
    decreases list.len(),
{
    if list.len() > 0 {
        let earlier = list.drop_last();
        assert forall|i: int| 0 <= i < earlier.len() implies view.committable(
            #[trigger] earlier[i],
            epoch,
        ) by {
            assert(earlier[i] == list[i]);
        }
        lemma_commit_in_place(view, earlier, epoch, now);
        commit_keeps_blocks(view, earlier, epoch, now);
        assert(view.committable(list[list.len() - 1], epoch));
    }
}

/// Blocks stand in their places in the buffer from the beginning on, and every operation keeps
/// them there.
pub proof fn blocks_stay_in_place(
    view: BufferView,
    config: BlockBufferManagerConfig,
    latest: u64,
    known: Map<u64, (u64, BlockId)>,
    claimed: BlockId,
    block: Arc<ExternalBlock>,
    computed: BlockKey,
    id: BlockId,
    result: StateComputeResult,
    list: Seq<BlockHashRef>,
    start: u64,
    len: nat,
    epoch: u64,
    now: SystemTime,
)
    requires
        in_place(view),
        forall|i: int| 0 <= i < list.len() ==> view.committable(#[trigger] list[i], epoch),
    ensures
        in_place(BufferView::initial(config)),
        in_place(view.inited(latest, known, epoch)),
        in_place(view.with_ordered(claimed, block, now)),
        in_place(view.with_ordered_read(start, epoch, len, now)),
        in_place(view.with_computed(computed, id, result, now)),
        in_place(view.with_all_committed(list, epoch, now)),
        in_place(view.with_committed_read(start, epoch, len, now)),
        in_place(view.swept()),
        in_place(view.released()),
{
    lemma_commit_in_place(view, list, epoch, now);
}

/// What is read of committed blocks is what was committed: the identifiers of the blocks, in the
/// order of their numbers.
pub proof fn committed_blocks_are_readable(
    view: BufferView,
    block: BlockHashRef,
    epoch: u64,
    now: SystemTime,
)
    requires
        view.committable(block, epoch),
        view.blocks[crate::buffer_model::key_at(epoch, block.num as int)] is Computed,
    ensures
        ({
            let after = view.with_committed(block, epoch, now);
            &&& after.committed_len(block.num, Some(1), epoch) == 1
            &&& after.committed_run(block.num, epoch, 1)[0].block_id == block.block_id
            &&& after.committed_run(block.num, epoch, 1)[0].num == block.num
            &&& after.committed_run(block.num, epoch, 1)[0].hash == block.hash
        }),
{
    let after = view.with_committed(block, epoch, now);
    reveal_with_fuel(crate::buffer_model::run_len, 2);
    assert(after.committed_keys().contains(
        crate::buffer_model::key_at(epoch, block.num as int),
    ));
}

} // verus!
