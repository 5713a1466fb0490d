//! What holds of every answer to a request for blocks.

use crate::block_retrieval::{Answer, Chain, Context, Database, RetrievalError};
use crate::consensus_types::{
    Block, BlockRetrievalResponse, BlockRetrievalStatus, BlockWithRandomness,
    LedgerInfoWithSignatures, QuorumCert,
};
use crate::types::HashValue;
use std::sync::Arc;
use vstd::prelude::*;

verus! {

/// Whether the database keeps each block under its own identifier, and each certificate under that
/// of the block that it certifies.
pub open spec fn keeps_ids(db: Database) -> bool {
    &&& forall|epoch: u64, id: HashValue|
        (#[trigger] (db.block)(epoch, id)) matches Ok(Some(block)) ==> block.id == id
    &&& forall|epoch: u64, id: HashValue|
        (#[trigger] (db.quorum_cert)(epoch, id)) matches Ok(Some(qc)) ==> qc.vote_data.proposed.id
            == id
}

/// Whether each block extends the one after it.
pub open spec fn linked(blocks: Seq<BlockWithRandomness>) -> bool {
    forall|i: int|
        0 <= i < blocks.len() - 1 ==> (#[trigger] blocks[i]).0.parent() == blocks[i + 1].0.id
}

/// The block that comes after `blocks` in a chain that starts with the block `first`.
pub open spec fn next_id(blocks: Seq<BlockWithRandomness>, first: HashValue) -> HashValue {
    if blocks.len() == 0 {
        first
    } else {
        blocks.last().0.parent()
    }
}

/// Whether `chain`, after its first `prefix` blocks, starts with the block `first` and runs from
/// each block to its parent; each block has its certificate, and its number if it has a seed.
pub open spec fn runs(chain: Chain, prefix: nat, first: HashValue) -> bool {
    let blocks = chain.blocks.skip(prefix as int);
    &&& prefix <= chain.blocks.len()
    &&& linked(blocks)
    &&& blocks.len() > 0 ==> blocks[0].0.id == first
    &&& chain.blocks.len() == chain.quorum_certs.len()
    &&& crate::sync_manager::certify(chain.quorum_certs, chain.blocks)
    &&& crate::sync_manager::seeds_have_numbers(chain.blocks)
}

/// Whether a chain that is asked for ends with `block`, which `qc` certifies: it is the target, or the
/// first block of its epoch, whose parent is of round zero and has an identifier.
pub open spec fn is_end(cx: Context, block: BlockWithRandomness, qc: Arc<QuorumCert>) -> bool {
    ||| cx.request.target_block_id == Some(block.0.id)
    ||| qc.vote_data.parent.round == 0 && !qc.vote_data.parent.id.is_zero_spec()
}

/// Whether `answer`, after its first `prefix` blocks, is a chain from the block `first` that ends
/// as its status says: at the number of blocks that was asked for, at the target or the first block
/// of the epoch, or else only where the next block, or its certificate, is nowhere to be found.
pub open spec fn sound(
    answer: Answer,
    cx: Context,
    epoch: u64,
    prefix: nat,
    first: HashValue,
) -> bool {
    let all = answer.chain.blocks;
    let blocks = all.skip(prefix as int);
    let next = next_block(cx, epoch, next_id(blocks, first));
    &&& runs(answer.chain, prefix, first)
    &&& all.len() <= cx.request.num_blocks || blocks.len() == 0
    &&& match answer.status {
        BlockRetrievalStatus::Succeeded => all.len() >= cx.request.num_blocks,
        BlockRetrievalStatus::SucceededWithTarget => {
            &&& blocks.len() > 0
            &&& is_end(cx, blocks.last(), answer.chain.quorum_certs.last())
        },
        BlockRetrievalStatus::NotEnoughBlocks => all.len() < cx.request.num_blocks
            && next is None,
        BlockRetrievalStatus::QuorumCertNotFound => {
            &&& all.len() < cx.request.num_blocks
            &&& next matches Some((_, None))
        },
    }
}

proof fn lemma_with(
    chain: Chain,
    prefix: nat,
    first: HashValue,
    block: Arc<Block>,
    seed: Option<Arc<Vec<u8>>>,
    qc: Arc<QuorumCert>,
)
    requires
        runs(chain, prefix, first),
        block.id == next_id(chain.blocks.skip(prefix as int), first),
        qc.vote_data.proposed.id == block.id,
        seed is Some ==> block.block_number is Some,
    ensures
        runs(chain.with(block, seed, qc), prefix, first),
        next_id(chain.with(block, seed, qc).blocks.skip(prefix as int), first) == block.parent(),
{
    let longer = chain.with(block, seed, qc);
    let before = chain.blocks.skip(prefix as int);
    let after = longer.blocks.skip(prefix as int);
    assert(after =~= before.push((block, seed)));
    assert forall|i: int| 0 <= i < after.len() - 1 implies (#[trigger] after[i]).0.parent()
        == after[i + 1].0.id by {
        assert(after[i] == before[i]);
        if i < before.len() - 1 {
            assert(after[i + 1] == before[i + 1]);
        }
    }
    assert forall|i: int| 0 <= i < longer.blocks.len() implies (
    #[trigger] longer.blocks[i]).0.id == longer.quorum_certs[i].vote_data.proposed.id by {
        if i < chain.blocks.len() {
            assert(longer.blocks[i] == chain.blocks[i]);
        }
    }
    assert forall|i: int| 0 <= i < longer.blocks.len() && (
    #[trigger] longer.blocks[i]).1 is Some implies longer.blocks[i].0.block_number is Some by {
        if i < chain.blocks.len() {
            assert(longer.blocks[i] == chain.blocks[i]);
        }
    }
}

/// The block `id` of `epoch`, with its certificate, from memory or else from the database.
pub open spec fn next_block(cx: Context, epoch: u64, id: HashValue) -> Option<
    (Arc<Block>, Option<Arc<QuorumCert>>),
> {
    match crate::block_store::find_block(cx.store.blocks@, id) {
        Some(block) => Some(
            (block, crate::block_store::find_cert(cx.store.quorum_certs@, id)),
        ),
        None => match (cx.db.block)(epoch, id) {
            Ok(Some(block)) => Some(
                (
                    block,
                    match (cx.db.quorum_cert)(epoch, id) {
                        Ok(qc) => qc,
                        Err(_) => None,
                    },
                ),
            ),
            _ => None,
        },
    }
}

proof fn lemma_step(cx: Context, epoch: u64, id: HashValue, chain: Chain)
    requires
        chain.blocks.len() < cx.request.num_blocks,
    ensures
        crate::block_retrieval::walk(cx, epoch, id, chain) == (match next_block(cx, epoch, id) {
            None => crate::block_retrieval::answer_with(
                cx,
                epoch,
                chain,
                BlockRetrievalStatus::NotEnoughBlocks,
            ),
            Some((_, None)) => crate::block_retrieval::answer_with(
                cx,
                epoch,
                chain,
                BlockRetrievalStatus::QuorumCertNotFound,
            ),
            Some((block, Some(qc))) => {
                let longer = chain.with(
                    block,
                    crate::block_retrieval::seed_of(cx.db, block),
                    qc,
                );
                if cx.request.target_block_id == Some(id)
                    || crate::block_retrieval::extends_genesis(*qc) {
                    crate::block_retrieval::answer_with(
                        cx,
                        epoch,
                        longer,
                        BlockRetrievalStatus::SucceededWithTarget,
                    )
                } else {
                    crate::block_retrieval::walk(cx, epoch, block.parent(), longer)
                }
            },
        }),
{
    reveal_with_fuel(crate::block_retrieval::walk, 5);
    reveal_with_fuel(crate::block_retrieval::walk_in_db, 5);
    reveal_with_fuel(crate::block_retrieval::walk_with_db_block, 5);
    reveal_with_fuel(crate::block_retrieval::walk_past, 5);
}

proof fn lemma_walk(cx: Context, epoch: u64, prefix: nat, first: HashValue, chain: Chain)
    requires
        keeps_ids(cx.db),
        runs(chain, prefix, first),
        chain.blocks.len() <= cx.request.num_blocks || chain.blocks.len() == prefix,
    ensures
        crate::block_retrieval::walk(
            cx,
            epoch,
            next_id(chain.blocks.skip(prefix as int), first),
            chain,
        ) matches Ok(answer) && sound(answer, cx, epoch, prefix, first),
    decreases crate::block_retrieval::blocks_left(cx, chain),
{
    if chain.blocks.len() < cx.request.num_blocks {
        let id = next_id(chain.blocks.skip(prefix as int), first);
        lemma_step(cx, epoch, id, chain);
        crate::block_store::find_block_finds(cx.store.blocks@, id);
        crate::block_store::find_cert_finds(cx.store.quorum_certs@, id);
        if let Some((block, Some(qc))) = next_block(cx, epoch, id) {
            let seed = crate::block_retrieval::seed_of(cx.db, block);
            let longer = chain.with(block, seed, qc);
            lemma_with(chain, prefix, first, block, seed, qc);
            assert(longer.blocks.skip(prefix as int).last() == (block, seed));
            lemma_walk(cx, epoch, prefix, first, longer);
        }
    }
}

/// A request that names a block is always answered, with a chain from that block on in which each
/// block extends the next, with a certificate for each block, no longer than was asked for. It is
/// as long as was asked for where the answer says that it succeeded, and it ends at the target or
/// at the first block of the epoch where the answer says that it reached the target; otherwise it
/// goes as far as blocks and certificates can be found.
pub proof fn answers_are_chains(cx: Context)
    requires
        keeps_ids(cx.db),
        cx.request.epoch is None || !cx.request.block_id.is_zero_spec(),
    ensures
        crate::block_retrieval::retrieval(cx, false) matches Ok(answer) && sound(
            answer,
            cx,
            match cx.request.epoch {
                Some(epoch) => epoch,
                None => cx.store.ordered_root.epoch,
            },
            0,
            cx.request.block_id,
        ),
{
    let epoch = match cx.request.epoch {
        Some(epoch) => epoch,
        None => cx.store.ordered_root.epoch,
    };
    assert(Chain::empty().blocks.skip(0) =~= Seq::empty());
    lemma_walk(cx, epoch, 0, cx.request.block_id, Chain::empty());
}

proof fn lemma_committing(quorum_certs: Seq<Arc<QuorumCert>>, id: HashValue)
    ensures
        crate::block_retrieval::cert_committing(quorum_certs, id) matches Some(qc)
            ==> qc.signed_ledger_info.commit_info.id == id && quorum_certs.contains(qc),
    decreases quorum_certs.len(),
{
    if quorum_certs.len() > 0 {
        let rest = quorum_certs.skip(1);
        lemma_committing(rest, id);
        assert(quorum_certs.contains(quorum_certs[0]));
        if let Some(qc) = crate::block_retrieval::cert_committing(rest, id) {
            if rest.contains(qc) {
                let i = rest.index_of(qc);
                assert(quorum_certs[i + 1] == qc);
            }
        }
    }
}

/// The last block of `epoch`, as far as the database knows it.
pub open spec fn end_of_epoch(db: Database, epoch: u64) -> Option<HashValue> {
    match db.epoch_table {
        Ok(table) => match crate::block_retrieval::block_number_of(table@, epoch) {
            Some(number) => match (db.ledger_info)(number) {
                Ok(Some(info)) => Some(info.commit_info.id),
                _ => None,
            },
            None => None,
        },
        Err(_) => None,
    }
}

/// A request for a whole epoch is answered, if it is, with the block whose certificate commits the
/// last block of the epoch, and then with the chain from that last block on.
pub proof fn epochs_are_answered_from_their_end(cx: Context, epoch: u64)
    requires
        keeps_ids(cx.db),
        cx.request.epoch == Some(epoch),
        cx.request.block_id.is_zero_spec(),
    ensures
        crate::block_retrieval::retrieval(cx, false) matches Ok(answer) ==> {
            &&& end_of_epoch(cx.db, epoch) matches Some(end)
            &&& sound(answer, cx, epoch, 1, end)
            &&& answer.chain.quorum_certs[0].signed_ledger_info.commit_info.id == end
            &&& (cx.db.quorum_certs)(epoch) matches Ok(certs)
            &&& certs@.contains(answer.chain.quorum_certs[0])
        },
{
    if let Ok(answer) = crate::block_retrieval::retrieval(cx, false) {
        let number = crate::block_retrieval::block_number_of(cx.db.epoch_table->Ok_0@, epoch)->0;
        let end = end_of_epoch(cx.db, epoch)->0;
        let certs = (cx.db.quorum_certs)(epoch)->Ok_0@;
        let qc = crate::block_retrieval::cert_committing(certs, end)->0;
        lemma_committing(certs, end);
        let block = (cx.db.block)(epoch, qc.vote_data.proposed.id)->Ok_0->0;
        let seed = match block.block_number {
            Some(own_number) => (cx.db.randomness)(own_number)->Ok_0,
            None => None,
        };
        let chain = Chain::empty().with(block, seed, qc);
        assert(chain.blocks.skip(1) =~= Seq::empty());
        lemma_walk(cx, epoch, 1, end, chain);
        lemma_walk_keeps(cx, epoch, end, chain);
        assert(answer.chain.quorum_certs[0] == chain.quorum_certs[0]);
    }
}

/// What was collected stays where it is while a chain gets longer.
proof fn lemma_walk_keeps(cx: Context, epoch: u64, id: HashValue, chain: Chain)
    ensures
        crate::block_retrieval::walk(cx, epoch, id, chain) matches Ok(answer)
            && chain.quorum_certs.is_prefix_of(answer.chain.quorum_certs),
    decreases crate::block_retrieval::blocks_left(cx, chain),
{
    if chain.blocks.len() < cx.request.num_blocks {
        lemma_step(cx, epoch, id, chain);
        if let Some((block, Some(qc))) = next_block(cx, epoch, id) {
            let longer = chain.with(block, crate::block_retrieval::seed_of(cx.db, block), qc);
            lemma_walk_keeps(cx, epoch, block.parent(), longer);
            assert(chain.quorum_certs.is_prefix_of(longer.quorum_certs));
        }
    }
}

proof fn lemma_ledger_infos(
    infos: Seq<Arc<crate::consensus_types::LedgerInfoWithSignatures>>,
    epoch: u64,
)
    ensures
        forall|i: int|
            0 <= i < crate::block_retrieval::of_epoch_reversed(infos, epoch).len() ==> (
            #[trigger] crate::block_retrieval::of_epoch_reversed(
                infos,
                epoch,
            )[i]).commit_info.epoch == epoch,
    decreases infos.len(),
{
    if infos.len() > 0 {
        lemma_ledger_infos(infos.skip(1), epoch);
    }
}

proof fn lemma_walk_epoch(cx: Context, epoch: u64, id: HashValue, chain: Chain)
    ensures
        crate::block_retrieval::walk(cx, epoch, id, chain) matches Ok(answer) && of_one_epoch(
            answer,
            epoch,
        ),
    decreases crate::block_retrieval::blocks_left(cx, chain),
{
    assert forall|c: Chain, status: BlockRetrievalStatus| (
    #[trigger] crate::block_retrieval::answer_with(cx, epoch, c, status)) matches Ok(answer)
        && of_one_epoch(answer, epoch) by {
        let (lower, upper) = crate::block_retrieval::number_range(c.blocks);
        lemma_ledger_infos((cx.db.ledger_infos)(lower, upper)@, epoch);
    }
    if chain.blocks.len() < cx.request.num_blocks {
        lemma_step(cx, epoch, id, chain);
        if let Some((block, Some(qc))) = next_block(cx, epoch, id) {
            let seed = crate::block_retrieval::seed_of(cx.db, block);
            let longer = chain.with(block, seed, qc);
            lemma_walk_epoch(cx, epoch, block.parent(), longer);
        }
    }
}

/// Whether every ledger info in `answer` is of `epoch`.
pub open spec fn of_one_epoch(answer: Answer, epoch: u64) -> bool {
    forall|i: int|
        0 <= i < answer.ledger_infos.len() ==> (#[trigger] answer.ledger_infos[i]).commit_info.epoch
            == epoch
}

/// An answer carries ledger infos of a single epoch: the one that was asked for, or else that of
/// the last ordered block.
pub proof fn answers_stay_in_their_epoch(cx: Context)
    ensures
        crate::block_retrieval::retrieval(cx, false) matches Ok(answer) ==> of_one_epoch(
            answer,
            match cx.request.epoch {
                Some(epoch) => epoch,
                None => cx.store.ordered_root.epoch,
            },
        ),
{
    let epoch = match cx.request.epoch {
        Some(epoch) => epoch,
        None => cx.store.ordered_root.epoch,
    };
    assert forall|id: HashValue, chain: Chain| (
    #[trigger] crate::block_retrieval::walk(cx, epoch, id, chain)) matches Ok(answer)
        && of_one_epoch(answer, epoch) by {
        lemma_walk_epoch(cx, epoch, id, chain);
    }
}

/// Whether `block` is what the node holds under its identifier in `epoch`, in memory or else in the
/// database, with the seed that the database has for its number, and `qc` is the certificate that
/// the node holds for it.
pub open spec fn is_held(
    cx: Context,
    epoch: u64,
    block: BlockWithRandomness,
    qc: Arc<QuorumCert>,
) -> bool {
    &&& next_block(cx, epoch, block.0.id) == Some((block.0, Some(qc)))
    &&& has_its_seed(cx.db, block)
}

/// Whether the seed of `block` is the one that the database has for its number; none where the block
/// has no number, or the database cannot say.
pub open spec fn has_its_seed(db: Database, block: BlockWithRandomness) -> bool {
    match block.0.block_number {
        Some(number) => match (db.randomness)(number) {
            Ok(seed) => block.1 == seed,
            Err(_) => block.1 is None,
        },
        None => block.1 is None,
    }
}

proof fn lemma_walk_holds(cx: Context, epoch: u64, id: HashValue, chain: Chain, from: int)
    requires
        keeps_ids(cx.db),
        chain.blocks.len() == chain.quorum_certs.len(),
        0 <= from <= chain.blocks.len(),
        forall|i: int|
            from <= i < chain.blocks.len() ==> is_held(
                cx,
                epoch,
                #[trigger] chain.blocks[i],
                chain.quorum_certs[i],
            ) && !is_end(cx, chain.blocks[i], chain.quorum_certs[i]),
    ensures
        crate::block_retrieval::walk(cx, epoch, id, chain) matches Ok(answer) && {
            let blocks = answer.chain.blocks;
            let certs = answer.chain.quorum_certs;
            &&& blocks.len() == certs.len()
            &&& blocks.len() >= chain.blocks.len()
            &&& forall|i: int| 0 <= i < chain.blocks.len() ==> #[trigger] blocks[i]
                == chain.blocks[i]
            &&& forall|i: int|
                from <= i < blocks.len() ==> is_held(cx, epoch, #[trigger] blocks[i], certs[i])
            &&& forall|i: int|
                from <= i < blocks.len() && is_end(cx, #[trigger] blocks[i], certs[i]) ==> i
                    == blocks.len() - 1 && answer.status is SucceededWithTarget
            &&& answer.status is SucceededWithTarget ==> blocks.len() > from && is_end(
                cx,
                blocks.last(),
                certs.last(),
            )
        },
    decreases crate::block_retrieval::blocks_left(cx, chain),
{
    if chain.blocks.len() < cx.request.num_blocks {
        lemma_step(cx, epoch, id, chain);
        crate::block_store::find_block_finds(cx.store.blocks@, id);
        if let Some((block, Some(qc))) = next_block(cx, epoch, id) {
            let seed = crate::block_retrieval::seed_of(cx.db, block);
            let longer = chain.with(block, seed, qc);
            assert(block.id == id);
            assert(is_held(cx, epoch, (block, seed), qc));
            assert forall|i: int| from <= i < longer.blocks.len() implies is_held(
                cx,
                epoch,
                #[trigger] longer.blocks[i],
                longer.quorum_certs[i],
            ) by {
                if i < chain.blocks.len() {
                    assert(longer.blocks[i] == chain.blocks[i]);
                }
            }
            assert(longer.blocks.last() == (block, seed));
            if is_end(cx, (block, seed), qc) {
                assert forall|i: int| from <= i < longer.blocks.len() && is_end(
                    cx,
                    #[trigger] longer.blocks[i],
                    longer.quorum_certs[i],
                ) implies i == longer.blocks.len() - 1 by {
                    if i < chain.blocks.len() {
                        assert(longer.blocks[i] == chain.blocks[i]);
                    }
                }
            } else {
                assert forall|i: int| from <= i < longer.blocks.len() implies !is_end(
                    cx,
                    #[trigger] longer.blocks[i],
                    longer.quorum_certs[i],
                ) by {
                    if i < chain.blocks.len() {
                        assert(longer.blocks[i] == chain.blocks[i]);
                    }
                }
                lemma_walk_holds(cx, epoch, block.parent(), longer, from);
                let blocks = crate::block_retrieval::walk(
                    cx,
                    epoch,
                    block.parent(),
                    longer,
                )->Ok_0.chain.blocks;
                assert forall|i: int| 0 <= i < chain.blocks.len() implies #[trigger] blocks[i]
                    == chain.blocks[i] by {
                    assert(blocks[i] == longer.blocks[i]);
                }
            }
        }
    }
}

/// An answer to a request that names a block gives each block as the node holds it, with its seed
/// and its certificate. No block but the last is the target or the first of its epoch, and the last
/// is exactly where the answer says that the target was reached.
pub proof fn answers_give_blocks_as_they_are_held(cx: Context)
    requires
        keeps_ids(cx.db),
        cx.request.epoch is None || !cx.request.block_id.is_zero_spec(),
    ensures
        crate::block_retrieval::retrieval(cx, false) matches Ok(answer) && {
            let blocks = answer.chain.blocks;
            let certs = answer.chain.quorum_certs;
            let epoch = match cx.request.epoch {
                Some(epoch) => epoch,
                None => cx.store.ordered_root.epoch,
            };
            &&& blocks.len() == certs.len()
            &&& forall|i: int|
                0 <= i < blocks.len() ==> is_held(cx, epoch, #[trigger] blocks[i], certs[i])
            &&& forall|i: int|
                0 <= i < blocks.len() - 1 ==> !is_end(cx, #[trigger] blocks[i], certs[i])
            &&& answer.status is SucceededWithTarget <==> blocks.len() > 0 && is_end(
                cx,
                blocks.last(),
                certs.last(),
            )
        },
{
    let epoch = match cx.request.epoch {
        Some(epoch) => epoch,
        None => cx.store.ordered_root.epoch,
    };
    lemma_walk_holds(cx, epoch, cx.request.block_id, Chain::empty(), 0);
    let answer = crate::block_retrieval::retrieval(cx, false)->Ok_0;
    let blocks = answer.chain.blocks;
    if blocks.len() > 0 {
        assert(blocks[blocks.len() - 1] == blocks.last());
    }
}

/// An answer for a whole epoch starts with the block that the first certificate is for, as the
/// database holds it, with its seed; each block after it is given as the node holds it, and the
/// chain ends as it does for a request that names a block.
pub proof fn epochs_are_given_as_they_are_held(cx: Context, epoch: u64)
    requires
        keeps_ids(cx.db),
        cx.request.epoch == Some(epoch),
        cx.request.block_id.is_zero_spec(),
    ensures
        crate::block_retrieval::retrieval(cx, false) matches Ok(answer) ==> {
            let blocks = answer.chain.blocks;
            let certs = answer.chain.quorum_certs;
            &&& blocks.len() > 0
            &&& blocks.len() == certs.len()
            &&& (cx.db.block)(epoch, certs[0].vote_data.proposed.id) == Ok::<
                Option<Arc<Block>>,
                String,
            >(Some(blocks[0].0))
            &&& has_its_seed(cx.db, blocks[0])
            &&& forall|i: int|
                1 <= i < blocks.len() ==> is_held(cx, epoch, #[trigger] blocks[i], certs[i])
            &&& forall|i: int|
                1 <= i < blocks.len() - 1 ==> !is_end(cx, #[trigger] blocks[i], certs[i])
            &&& answer.status is SucceededWithTarget <==> blocks.len() > 1 && is_end(
                cx,
                blocks.last(),
                certs.last(),
            )
        },
{
    if let Ok(answer) = crate::block_retrieval::retrieval(cx, false) {
        let end = end_of_epoch(cx.db, epoch)->0;
        let certs = (cx.db.quorum_certs)(epoch)->Ok_0@;
        let qc = crate::block_retrieval::cert_committing(certs, end)->0;
        let block = (cx.db.block)(epoch, qc.vote_data.proposed.id)->Ok_0->0;
        let seed = match block.block_number {
            Some(own_number) => (cx.db.randomness)(own_number)->Ok_0,
            None => None,
        };
        let chain = Chain::empty().with(block, seed, qc);
        lemma_walk_holds(cx, epoch, end, chain, 1);
        lemma_walk_keeps(cx, epoch, end, chain);
        assert(answer.chain.quorum_certs[0] == chain.quorum_certs[0]);
        assert(answer.chain.blocks[0] == chain.blocks[0]);
        let blocks = answer.chain.blocks;
        assert(blocks[blocks.len() - 1] == blocks.last());
    }
}

/// The number that stands for an epoch in the table is that of the first entry of the epoch.
pub proof fn the_first_entry_of_an_epoch_counts(table: Seq<(u64, u64)>, epoch: u64, i: int)
    requires
        0 <= i < table.len(),
        table[i].1 == epoch,
        forall|j: int| 0 <= j < i ==> (#[trigger] table[j]).1 != epoch,
    ensures
        crate::block_retrieval::block_number_of(table, epoch) == Some(table[i].0),
    decreases i,
{
    if i > 0 {
        let rest = table.skip(1);
        assert(table[0].1 != epoch);
        assert forall|j: int| 0 <= j < i - 1 implies (#[trigger] rest[j]).1 != epoch by {
            assert(rest[j] == table[j + 1]);
        }
        the_first_entry_of_an_epoch_counts(rest, epoch, i - 1);
    }
}

/// An epoch that the table does not hold has no number.
pub proof fn epochs_that_are_not_in_the_table_have_no_number(table: Seq<(u64, u64)>, epoch: u64)
    requires
        forall|j: int| 0 <= j < table.len() ==> (#[trigger] table[j]).1 != epoch,
    ensures
        crate::block_retrieval::block_number_of(table, epoch) is None,
    decreases table.len(),
{
    if table.len() > 0 {
        let rest = table.skip(1);
        assert(table[0].1 != epoch);
        assert forall|j: int| 0 <= j < rest.len() implies (#[trigger] rest[j]).1 != epoch by {
            assert(rest[j] == table[j + 1]);
        }
        epochs_that_are_not_in_the_table_have_no_number(rest, epoch);
    }
}

/// Of several certificates that commit a block, the first is taken.
pub proof fn the_first_committing_cert_counts(
    quorum_certs: Seq<Arc<QuorumCert>>,
    id: HashValue,
    i: int,
)
    requires
        0 <= i < quorum_certs.len(),
        quorum_certs[i].signed_ledger_info.commit_info.id == id,
        forall|j: int|
            0 <= j < i ==> (#[trigger] quorum_certs[j]).signed_ledger_info.commit_info.id != id,
    ensures
        crate::block_retrieval::cert_committing(quorum_certs, id) == Some(quorum_certs[i]),
    decreases i,
{
    if i > 0 {
        let rest = quorum_certs.skip(1);
        assert(quorum_certs[0].signed_ledger_info.commit_info.id != id);
        assert forall|j: int| 0 <= j < i - 1 implies (
        #[trigger] rest[j]).signed_ledger_info.commit_info.id != id by {
            assert(rest[j] == quorum_certs[j + 1]);
        }
        the_first_committing_cert_counts(rest, id, i - 1);
    }
}

/// Where no certificate commits a block, none is taken.
pub proof fn without_a_committing_cert_none_counts(
    quorum_certs: Seq<Arc<QuorumCert>>,
    id: HashValue,
)
    requires
        forall|j: int|
            0 <= j < quorum_certs.len() ==> (
            #[trigger] quorum_certs[j]).signed_ledger_info.commit_info.id != id,
    ensures
        crate::block_retrieval::cert_committing(quorum_certs, id) is None,
    decreases quorum_certs.len(),
{
    if quorum_certs.len() > 0 {
        let rest = quorum_certs.skip(1);
        assert(quorum_certs[0].signed_ledger_info.commit_info.id != id);
        assert forall|j: int| 0 <= j < rest.len() implies (
        #[trigger] rest[j]).signed_ledger_info.commit_info.id != id by {
            assert(rest[j] == quorum_certs[j + 1]);
        }
        without_a_committing_cert_none_counts(rest, id);
    }
}

/// The ledger infos that belong to a chain reach up to the first block of it that has a number, and
/// down to the last one that has, for chains that do not reach the last block number.
pub proof fn ledger_infos_reach_from_the_last_to_the_first_number(
    blocks: Seq<BlockWithRandomness>,
    i: int,
)
    requires
        0 <= i < blocks.len(),
        blocks[i].0.block_number is Some,
        forall|j: int|
            0 <= j < blocks.len() ==> (#[trigger] blocks[j]).0.block_number != Some(u64::MAX),
    ensures
        (forall|j: int| 0 <= j < i ==> (#[trigger] blocks[j]).0.block_number is None)
            ==> crate::block_retrieval::number_range(blocks).1 == blocks[i].0.block_number->0 + 1,
        (forall|j: int|
            i < j < blocks.len() ==> (#[trigger] blocks[j]).0.block_number is None)
            ==> crate::block_retrieval::number_range(blocks).0 == blocks[i].0.block_number->0,
    decreases blocks.len(),
{
    let earlier = blocks.drop_last();
    assert(blocks.last() == blocks[blocks.len() - 1]);
    if i == earlier.len() {
        if forall|j: int| 0 <= j < i ==> (#[trigger] blocks[j]).0.block_number is None {
            assert forall|j: int| 0 <= j < earlier.len() implies (
            #[trigger] earlier[j]).0.block_number is None by {
                assert(earlier[j] == blocks[j]);
            }
            chains_without_numbers_have_no_ledger_infos(earlier);
        }
    } else {
        assert(earlier[i] == blocks[i]);
        assert forall|j: int| 0 <= j < earlier.len() implies (
        #[trigger] earlier[j]).0.block_number != Some(u64::MAX) by {
            assert(earlier[j] == blocks[j]);
        }
        ledger_infos_reach_from_the_last_to_the_first_number(earlier, i);
        if forall|j: int| 0 <= j < i ==> (#[trigger] blocks[j]).0.block_number is None {
            assert forall|j: int| 0 <= j < i implies (#[trigger] earlier[j]).0.block_number
                is None by {
                assert(earlier[j] == blocks[j]);
            }
        }
        if forall|j: int| i < j < blocks.len() ==> (#[trigger] blocks[j]).0.block_number is None {
            assert(blocks[blocks.len() - 1].0.block_number is None);
            assert forall|j: int| i < j < earlier.len() implies (
            #[trigger] earlier[j]).0.block_number is None by {
                assert(earlier[j] == blocks[j]);
            }
        }
    }
}

/// A chain in which no block has a number has no ledger infos.
pub proof fn chains_without_numbers_have_no_ledger_infos(blocks: Seq<BlockWithRandomness>)
    requires
        forall|j: int| 0 <= j < blocks.len() ==> (#[trigger] blocks[j]).0.block_number is None,
    ensures
        crate::block_retrieval::number_range(blocks) == (0u64, 0u64),
    decreases blocks.len(),
{
    if blocks.len() > 0 {
        let earlier = blocks.drop_last();
        assert(blocks[blocks.len() - 1].0.block_number is None);
        assert forall|j: int| 0 <= j < earlier.len() implies (
        #[trigger] earlier[j]).0.block_number is None by {
            assert(earlier[j] == blocks[j]);
        }
        chains_without_numbers_have_no_ledger_infos(earlier);
    }
}

/// Of the ledger infos that were read, an answer carries all that are of its epoch and no other, the
/// last first. `places` are where they stand among those that were read.
pub proof fn every_ledger_info_of_the_epoch_is_given(
    infos: Seq<Arc<LedgerInfoWithSignatures>>,
    epoch: u64,
) -> (places: Seq<int>)
    ensures
        crate::places::are_places(
            places,
            infos.len(),
            |i: int| infos[i].commit_info.epoch == epoch,
        ),
        ({
            let given = crate::block_retrieval::of_epoch_reversed(infos, epoch);
            &&& given.len() == places.len()
            &&& forall|k: int|
                0 <= k < places.len() ==> given[places.len() - 1 - k] == infos[#[trigger] places[k]]
        }),
{
    let places = lemma_given_infos(infos, epoch, infos.len());
    assert(infos.take(infos.len() as int) =~= infos);
    places
}

proof fn lemma_given_infos(infos: Seq<Arc<LedgerInfoWithSignatures>>, epoch: u64, n: nat) -> (places:
    Seq<int>)
    requires
        n <= infos.len(),
    ensures
        crate::places::are_places(places, n, |i: int| infos[i].commit_info.epoch == epoch),
        ({
            let given = crate::block_retrieval::of_epoch_reversed(infos.take(n as int), epoch);
            &&& given.len() == places.len()
            &&& forall|k: int|
                0 <= k < places.len() ==> given[places.len() - 1 - k] == infos[#[trigger] places[k]]
        }),
    decreases n,
{
    let wanted = |i: int| infos[i].commit_info.epoch == epoch;
    if n == 0 {
        crate::places::no_places(wanted);
        Seq::empty()
    } else {
        let last = (n - 1) as nat;
        let earlier = lemma_given_infos(infos, epoch, last);
        let before = infos.take(last as int);
        let info = infos[last as int];
        assert(infos.take(n as int) =~= before.push(info));
        lemma_last_info(before, info, epoch);
        let given = crate::block_retrieval::of_epoch_reversed(infos.take(n as int), epoch);
        let given_before = crate::block_retrieval::of_epoch_reversed(before, epoch);
        let places = crate::places::next_place(earlier, last, wanted);
        assert forall|k: int| 0 <= k < places.len() implies given[places.len() - 1 - k]
            == infos[#[trigger] places[k]] by {
            if k < earlier.len() {
                assert(places[k] == earlier[k]);
                assert(given_before[earlier.len() - 1 - k] == infos[earlier[k]]);
            }
        }
        places
    }
}

proof fn lemma_last_info(
    infos: Seq<Arc<LedgerInfoWithSignatures>>,
    info: Arc<LedgerInfoWithSignatures>,
    epoch: u64,
)
    ensures
        crate::block_retrieval::of_epoch_reversed(infos.push(info), epoch) == (
        if info.commit_info.epoch == epoch {
            seq![info]
        } else {
            Seq::empty()
        }) + crate::block_retrieval::of_epoch_reversed(infos, epoch),
    decreases infos.len(),
{
    let all = infos.push(info);
    if infos.len() == 0 {
        assert(all.skip(1) =~= Seq::empty());
        reveal_with_fuel(crate::block_retrieval::of_epoch_reversed, 2);
        assert(crate::block_retrieval::of_epoch_reversed(all, epoch) =~= (
        if info.commit_info.epoch == epoch {
            seq![info]
        } else {
            Seq::empty()
        }) + crate::block_retrieval::of_epoch_reversed(infos, epoch));
    } else {
        assert(all.skip(1) =~= infos.skip(1).push(info));
        lemma_last_info(infos.skip(1), info, epoch);
        assert(all[0] == infos[0]);
        assert(crate::block_retrieval::of_epoch_reversed(all, epoch) =~= (
        if info.commit_info.epoch == epoch {
            seq![info]
        } else {
            Seq::empty()
        }) + crate::block_retrieval::of_epoch_reversed(infos, epoch));
    }
}

/// Whether the ledger infos of `answer` are those that the database gives for the numbers of its
/// blocks, as far as they are of `epoch`; none where no block has a number.
pub open spec fn tells_of_its_blocks(answer: Answer, db: Database, epoch: u64) -> bool {
    let (lower, upper) = crate::block_retrieval::number_range(answer.chain.blocks);
    if upper == 0 {
        answer.ledger_infos.len() == 0
    } else {
        answer.ledger_infos == crate::block_retrieval::of_epoch_reversed(
            (db.ledger_infos)(lower, upper)@,
            epoch,
        )
    }
}

proof fn lemma_walk_tells(cx: Context, epoch: u64, id: HashValue, chain: Chain)
    ensures
        crate::block_retrieval::walk(cx, epoch, id, chain) matches Ok(answer)
            && tells_of_its_blocks(answer, cx.db, epoch),
    decreases crate::block_retrieval::blocks_left(cx, chain),
{
    if chain.blocks.len() < cx.request.num_blocks {
        lemma_step(cx, epoch, id, chain);
        if let Some((block, Some(qc))) = next_block(cx, epoch, id) {
            let longer = chain.with(block, crate::block_retrieval::seed_of(cx.db, block), qc);
            lemma_walk_tells(cx, epoch, block.parent(), longer);
        }
    }
}

/// Every answer carries the ledger infos that belong to its own blocks.
pub proof fn answers_carry_the_ledger_infos_of_their_blocks(cx: Context)
    ensures
        crate::block_retrieval::retrieval(cx, false) matches Ok(answer) ==> tells_of_its_blocks(
            answer,
            cx.db,
            match cx.request.epoch {
                Some(epoch) => epoch,
                None => cx.store.ordered_root.epoch,
            },
        ),
{
    let epoch = match cx.request.epoch {
        Some(epoch) => epoch,
        None => cx.store.ordered_root.epoch,
    };
    assert forall|id: HashValue, chain: Chain| (
    #[trigger] crate::block_retrieval::walk(cx, epoch, id, chain)) matches Ok(answer)
        && tells_of_its_blocks(answer, cx.db, epoch) by {
        lemma_walk_tells(cx, epoch, id, chain);
    }
}

/// A request for a whole epoch fails just where something is missing on the way to its last block,
/// and the error says what: the table or the epoch in it, the ledger info of the last block, the
/// certificates or one that commits it, the block that is certified, or its seed.
pub proof fn epoch_requests_fail_for_what_is_missing(cx: Context, epoch: u64)
    requires
        cx.request.epoch == Some(epoch),
        cx.request.block_id.is_zero_spec(),
    ensures
        ({
            let answer = crate::block_retrieval::retrieval(cx, false);
            match cx.db.epoch_table {
                Err(cause) => answer == Err::<Answer, RetrievalError>(
                    RetrievalError::EpochTable(cause),
                ),
                Ok(table) => match crate::block_retrieval::block_number_of(table@, epoch) {
                    None => answer == Err::<Answer, RetrievalError>(
                        RetrievalError::EpochNotFound { epoch },
                    ),
                    Some(block_number) => fails_after_table(cx, epoch, block_number, answer),
                },
            }
        }),
{
    assert forall|id: HashValue, chain: Chain| (
    #[trigger] crate::block_retrieval::walk(cx, epoch, id, chain)) is Ok by {
        lemma_walk_epoch(cx, epoch, id, chain);
    }
}

/// Whether `answer` fails just where something is missing of the epoch whose last block has the
/// number `block_number`, and says what.
pub open spec fn fails_after_table(
    cx: Context,
    epoch: u64,
    block_number: u64,
    answer: Result<Answer, RetrievalError>,
) -> bool {
    match (cx.db.ledger_info)(block_number) {
        Err(cause) => answer == Err::<Answer, RetrievalError>(
            RetrievalError::LedgerInfo { block_number, cause },
        ),
        Ok(None) => answer == Err::<Answer, RetrievalError>(
            RetrievalError::LedgerInfoNotFound { block_number },
        ),
        Ok(Some(info)) => match (cx.db.quorum_certs)(epoch) {
            Err(cause) => answer == Err::<Answer, RetrievalError>(
                RetrievalError::QuorumCerts { epoch, cause },
            ),
            Ok(certs) => match crate::block_retrieval::cert_committing(
                certs@,
                info.commit_info.id,
            ) {
                None => answer == Err::<Answer, RetrievalError>(
                    RetrievalError::QuorumCertNotFound {
                        end_block_id: info.commit_info.id,
                        epoch,
                    },
                ),
                Some(qc) => {
                    let id = qc.vote_data.proposed.id;
                    match (cx.db.block)(epoch, id) {
                        Err(cause) => answer == Err::<Answer, RetrievalError>(
                            RetrievalError::Block { id, cause },
                        ),
                        Ok(None) => answer == Err::<Answer, RetrievalError>(
                            RetrievalError::BlockNotFound { id },
                        ),
                        Ok(Some(block)) => match block.block_number {
                            None => answer is Ok,
                            Some(number) => match (cx.db.randomness)(number) {
                                Err(cause) => answer == Err::<Answer, RetrievalError>(
                                    RetrievalError::Randomness { block_number: number, cause },
                                ),
                                Ok(_) => answer is Ok,
                            },
                        },
                    }
                },
            },
        },
    }
}

/// A response carries its answer as it is: the status, the blocks, a certificate for each and the
/// ledger infos, all in their order.
pub proof fn responses_carry_answers_as_they_are(response: BlockRetrievalResponse)
    ensures
        ({
            let answer = crate::block_retrieval::answer_of(response);
            &&& answer.status == response.status
            &&& answer.chain.blocks == response.blocks@
            &&& answer.chain.quorum_certs == response.quorum_certs@
            &&& answer.ledger_infos == response.ledger_infos@
        }),
{
}

/// A failure that is injected is the only way in which a request that names a block fails.
pub proof fn only_injected_failures_refuse_a_block(cx: Context, injected: bool)
    requires
        cx.request.epoch is None || !cx.request.block_id.is_zero_spec(),
    ensures
        crate::block_retrieval::retrieval(cx, injected) is Err <==> injected,
        injected ==> crate::block_retrieval::retrieval(cx, injected) == Err::<
            Answer,
            RetrievalError,
        >(RetrievalError::Injected),
{
    let epoch = match cx.request.epoch {
        Some(epoch) => epoch,
        None => cx.store.ordered_root.epoch,
    };
    lemma_walk_epoch(cx, epoch, cx.request.block_id, Chain::empty());
}

} // verus!
