//! An executor that leaves execution to another process and keeps only what was committed.

use crate::types::HashValue;
use vstd::prelude::*;

verus! {

/// The blocks that were committed, in order.
pub struct BlockExecutor {
    committed_blocks: Vec<HashValue>,
}

impl View for BlockExecutor {
    type V = Seq<HashValue>;

    closed spec fn view(&self) -> Seq<HashValue> {
        self.committed_blocks@
    }
}

/// Whether `id` is the last of the blocks `committed`, or the zero hash where there is none.
pub open spec fn is_last_committed(committed: Seq<HashValue>, id: HashValue) -> bool {
    if committed.len() > 0 {
        id == committed.last()
    } else {
        id.is_zero_spec()
    }
}

impl BlockExecutor {
    pub fn new() -> (executor: Self)
        ensures
            executor@ == Seq::<HashValue>::empty(),
    {
        BlockExecutor { committed_blocks: Vec::new() }
    }

    /// The block that was committed last; the zero hash before any was.
    pub fn committed_block_id(&self) -> (id: HashValue)
        ensures
            is_last_committed(self@, id),
    {
        if self.committed_blocks.len() == 0 {
            HashValue::zero()
        } else {
            self.committed_blocks[self.committed_blocks.len() - 1]
        }
    }

    /// The root of the state after `block_id`: the block stands for it.
    pub fn ledger_update(&self, block_id: HashValue) -> (root_hash: HashValue)
        ensures
            root_hash == block_id,
    {
        block_id
    }

    /// Forgets what is held in memory, of which there is nothing but the committed blocks; they
    /// stay.
    pub fn reset(&mut self)
        ensures
            *final(self) == *old(self),
    {
    }

    /// Frees what is held in memory, of which there is nothing but the committed blocks; they stay.
    pub fn finish(&mut self)
        ensures
            *final(self) == *old(self),
    {
    }

    /// Prepares the commit of a block, for which there is nothing to do.
    pub fn pre_commit_block(&mut self, _block_id: HashValue)
        ensures
            *final(self) == *old(self),
    {
    }

    pub fn commit_blocks(&mut self, block_ids: Vec<HashValue>)
        ensures
            final(self)@ == old(self)@ + block_ids@,
    {
        let mut block_ids = block_ids;
        self.committed_blocks.append(&mut block_ids);
    }

    /// Commits blocks together with their ledger info, which is kept elsewhere.
    pub fn commit_ledger(&mut self, block_ids: Vec<HashValue>)
        ensures
            final(self)@ == old(self)@ + block_ids@,
    {
        self.commit_blocks(block_ids);
    }
}

/// A call of an executor.
pub enum ExecutorCall {
    CommitBlocks { block_ids: Seq<HashValue> },
    CommitLedger { block_ids: Seq<HashValue> },
    LedgerUpdate { block_id: HashValue },
    PreCommitBlock { block_id: HashValue },
    Reset,
    Finish,
}

impl ExecutorCall {
    /// The blocks that the call commits.
    pub open spec fn committed(self) -> Seq<HashValue> {
        match self {
            ExecutorCall::CommitBlocks { block_ids } => block_ids,
            ExecutorCall::CommitLedger { block_ids } => block_ids,
            _ => Seq::empty(),
        }
    }

    /// What an executor that held `before` holds after the call.
    pub open spec fn performed(self, before: Seq<HashValue>) -> Seq<HashValue> {
        match self {
            ExecutorCall::CommitBlocks { block_ids } => before + block_ids,
            ExecutorCall::CommitLedger { block_ids } => before + block_ids,
            _ => before,
        }
    }
}

/// What a new executor holds after `calls`.
pub open spec fn after_calls(calls: Seq<ExecutorCall>) -> Seq<HashValue>
    decreases calls.len(),
{
    if calls.len() == 0 {
        Seq::empty()
    } else {
        calls.last().performed(after_calls(calls.drop_last()))
    }
}

/// After any calls of a new executor, the block that was committed last is the last of all blocks
/// that the calls committed, in the order of the calls; the zero hash where they committed none.
/// Calls that commit nothing do not change it.
pub proof fn last_committed_block_is_the_last_of_all(calls: Seq<ExecutorCall>, id: HashValue)
    requires
        is_last_committed(after_calls(calls), id),
    ensures
        ({
            let all = calls.map_values(|call: ExecutorCall| call.committed()).flatten();
            &&& after_calls(calls) == all
            &&& all.len() > 0 ==> id == all.last()
            &&& all.len() == 0 ==> id.is_zero_spec()
        }),
        calls.len() > 0 && calls.last().committed().len() == 0 ==> is_last_committed(
            after_calls(calls.drop_last()),
            id,
        ),
{
    lemma_after_calls(calls);
    if calls.len() > 0 {
        assert(after_calls(calls) =~= after_calls(calls.drop_last()) + calls.last().committed());
        if calls.last().committed().len() == 0 {
            assert(after_calls(calls) =~= after_calls(calls.drop_last()));
        }
    }
}

proof fn lemma_after_calls(calls: Seq<ExecutorCall>)
    ensures
        after_calls(calls) == calls.map_values(|call: ExecutorCall| call.committed()).flatten(),
    decreases calls.len(),
{
    let ids = |call: ExecutorCall| call.committed();
    if calls.len() > 0 {
        let earlier = calls.drop_last();
        lemma_after_calls(earlier);
        assert(calls.map_values(ids) =~= earlier.map_values(ids).push(ids(calls.last())));
        earlier.map_values(ids).lemma_flatten_push(ids(calls.last()));
        assert(after_calls(calls) =~= after_calls(earlier) + calls.last().committed());
    }
}

} // verus!
