//! What holds of catching up with the chain as a whole.

use crate::block_retrieval::{Answer, Context};
use crate::block_retriever::BlockFetch;
use crate::block_store::BlockStore;
use crate::consensus_types::{
    BlockRetrievalResponse, BlockWithRandomness, LedgerInfoWithSignatures, QuorumCert,
};
use crate::sync_manager::{CertFetch, CertFetchStep, CertInsertion, CertStep, InsertStep};
use crate::types::AccountAddress;
use std::sync::Arc;
use vstd::prelude::*;

verus! {

/// The blocks of a fast forward are a chain: the first is the one that the certificate is for, and
/// each extends the next; for the tree, which gets them oldest first, each extends the one before.
pub proof fn fast_forward_is_a_chain(highest: Arc<QuorumCert>, blocks: Seq<BlockWithRandomness>)
    requires
        crate::sync_manager::is_certified_chain(highest, blocks),
    ensures
        blocks[0].0.id == highest.vote_data.proposed.id,
        crate::retrieval_laws::linked(blocks),
        forall|i: int|
            0 < i < blocks.len() ==> (#[trigger] blocks.reverse()[i]).0.parent()
                == blocks.reverse()[i - 1].0.id,
        crate::sync_manager::certs_for(highest, blocks).len() == blocks.len(),
{
    let certs = crate::sync_manager::certs_for(highest, blocks);
    assert(blocks[0].0.id == certs[0].vote_data.proposed.id);
    assert forall|i: int| 0 <= i < blocks.len() - 1 implies (
    #[trigger] blocks[i]).0.parent() == blocks[i + 1].0.id by {
        assert(blocks[i + 1].0.id == certs[i + 1].vote_data.proposed.id);
    }
    assert forall|i: int| 0 < i < blocks.len() implies (
    #[trigger] blocks.reverse()[i]).0.parent() == blocks.reverse()[i - 1].0.id by {
        let j = blocks.len() - 1 - i;
        assert(blocks[j].0.parent() == blocks[j + 1].0.id);
    }
}

/// The blocks that a fetch has collected stay a chain when the next chunk is an answer to what the
/// fetch asked for.
pub proof fn fetch_stays_a_chain(
    before: BlockFetch,
    after: BlockFetch,
    chunk: BlockRetrievalResponse,
    peer: Context,
)
    requires
        before.wf(),
        !before.target_found,
        crate::retrieval_laws::linked(before.blocks@),
        before.appended(after, chunk),
        peer.request.block_id == before.last_block_id,
        peer.request.epoch is None || !peer.request.block_id.is_zero_spec(),
        crate::retrieval_laws::keeps_ids(peer.db),
        crate::block_retrieval::retrieval(peer, false) == Ok::<
            Answer,
            crate::block_retrieval::RetrievalError,
        >(crate::block_retrieval::answer_of(chunk)),
    ensures
        crate::retrieval_laws::linked(after.blocks@),
{
    crate::retrieval_laws::answers_are_chains(peer);
    let a = before.blocks@;
    let b = chunk.blocks@;
    let both = after.blocks@;
    assert(b.skip(0) =~= b);
    assert forall|i: int| 0 <= i < both.len() - 1 implies (#[trigger] both[i]).0.parent() == both[i
        + 1].0.id by {
        if i < a.len() - 1 {
            assert(a[i].0.parent() == a[i + 1].0.id);
        } else if i >= a.len() {
            assert(b[i - a.len()].0.parent() == b[i - a.len() + 1].0.id);
        }
    }
}

/// A fetch that asks a peer for more blocks makes progress with every chunk that it takes.
pub proof fn fetch_makes_progress(
    before: BlockFetch,
    after: BlockFetch,
    chunk: BlockRetrievalResponse,
)
    requires
        before.wf(),
        before.appended(after, chunk),
        chunk.blocks@.len() > 0,
    ensures
        after.progress() > before.progress(),
{
}

/// A chain from the block that a certificate is for, in which blocks with a seed have a number, is
/// one that can be fast forwarded to.
pub proof fn chains_are_certified(highest: Arc<QuorumCert>, blocks: Seq<BlockWithRandomness>)
    requires
        blocks.len() > 0,
        blocks[0].0.id == highest.vote_data.proposed.id,
        crate::retrieval_laws::linked(blocks),
        crate::sync_manager::seeds_have_numbers(blocks),
    ensures
        crate::sync_manager::is_certified_chain(highest, blocks),
{
    let certs = crate::sync_manager::certs_for(highest, blocks);
    assert forall|i: int| 0 <= i < blocks.len() implies i < certs.len() && (
    #[trigger] blocks[i]).0.id == certs[i].vote_data.proposed.id by {
        if i > 0 {
            assert(blocks[i - 1].0.parent() == blocks[i - 1 + 1].0.id);
        }
    }
}

/// What an honest peer answers to a request for the block that a certificate is for can be fast
/// forwarded to: where it holds a block at all, it is a certified chain.
pub proof fn honest_answers_can_be_fast_forwarded(highest: Arc<QuorumCert>, peer: Context)
    requires
        crate::retrieval_laws::keeps_ids(peer.db),
        peer.request.block_id == highest.vote_data.proposed.id,
        peer.request.epoch is None || !peer.request.block_id.is_zero_spec(),
    ensures
        crate::block_retrieval::retrieval(peer, false) matches Ok(answer)
            && (answer.chain.blocks.len() > 0 ==> crate::sync_manager::is_certified_chain(
            highest,
            answer.chain.blocks,
        )),
        crate::block_retrieval::retrieval(peer, false) matches Ok(answer) && (answer.status
            is Succeeded && peer.request.num_blocks > 0 ==> answer.chain.blocks.len() > 0),
{
    crate::retrieval_laws::answers_are_chains(peer);
    let blocks = crate::block_retrieval::retrieval(peer, false)->Ok_0.chain.blocks;
    assert(blocks.skip(0) =~= blocks);
    if blocks.len() > 0 {
        chains_are_certified(highest, blocks);
    }
}

/// What honest peers answer to requests for a whole epoch can be saved: the blocks that a fetch has
/// collected keep their certificates and their numbers with every chunk.
pub proof fn fetched_epochs_stay_certified(
    before: BlockFetch,
    after: BlockFetch,
    chunk: BlockRetrievalResponse,
    peer: Context,
)
    requires
        before.appended(after, chunk),
        before.blocks@.len() == before.quorum_certs@.len(),
        crate::sync_manager::certify(before.quorum_certs@, before.blocks@),
        crate::sync_manager::seeds_have_numbers(before.blocks@),
        crate::retrieval_laws::keeps_ids(peer.db),
        crate::block_retrieval::retrieval(peer, false) == Ok::<
            Answer,
            crate::block_retrieval::RetrievalError,
        >(crate::block_retrieval::answer_of(chunk)),
    ensures
        after.blocks@.len() == after.quorum_certs@.len(),
        crate::sync_manager::certify(after.quorum_certs@, after.blocks@),
        crate::sync_manager::seeds_have_numbers(after.blocks@),
{
    match peer.request.epoch {
        Some(epoch) => {
            if peer.request.block_id.is_zero_spec() {
                crate::retrieval_laws::epochs_are_answered_from_their_end(peer, epoch);
            } else {
                crate::retrieval_laws::answers_are_chains(peer);
            }
        },
        None => {
            crate::retrieval_laws::answers_are_chains(peer);
        },
    }
    let a = before.blocks@;
    let b = chunk.blocks@;
    assert forall|i: int| 0 <= i < after.blocks@.len() implies i < after.quorum_certs@.len() && (
    #[trigger] after.blocks@[i]).0.id == after.quorum_certs@[i].vote_data.proposed.id by {
        if i < a.len() {
            assert(after.blocks@[i] == a[i]);
        } else {
            assert(after.blocks@[i] == b[i - a.len()]);
        }
    }
    assert forall|i: int| 0 <= i < after.blocks@.len() && (
    #[trigger] after.blocks@[i]).1 is Some implies after.blocks@[i].0.block_number is Some by {
        if i < a.len() {
            assert(after.blocks@[i] == a[i]);
        } else {
            assert(after.blocks@[i] == b[i - a.len()]);
        }
    }
}

/// The first attempt to fetch a chunk goes to the preferred peer alone, whether or not it is one of
/// the peers; no attempt asks a peer that is not one of them otherwise.
pub proof fn first_attempt_asks_the_preferred_peer(
    preferred: AccountAddress,
    peers: Seq<AccountAddress>,
    picked: Seq<AccountAddress>,
    left: Seq<AccountAddress>,
    later: Seq<AccountAddress>,
    later_left: Seq<AccountAddress>,
    wanted: nat,
)
    requires
        peers.len() > 0,
        crate::block_retriever::picked_from(preferred, true, peers, 1, picked, left),
        crate::block_retriever::picked_from(preferred, false, left, wanted, later, later_left),
    ensures
        picked == seq![preferred],
        forall|i: int| 0 <= i < later.len() ==> peers.contains(#[trigger] later[i]),
{
    broadcast use vstd::seq_lib::group_to_multiset_ensures;

    assert(picked =~= seq![preferred]) by {
        assert(picked.take(1)[0] == picked[0]);
    }
    let rest = peers.remove_value(preferred);
    assert forall|i: int| 0 <= i < later.len() implies peers.contains(#[trigger] later[i]) by {
        let peer = later[i];
        assert(later.skip(0) =~= later);
        assert(later.contains(peer));
        assert(later.to_multiset().count(peer) > 0);
        assert(later.to_multiset().add(later_left.to_multiset()).count(peer) > 0);
        assert(left.to_multiset().count(peer) > 0);
        assert(picked.skip(1).to_multiset().add(left.to_multiset()).count(peer) > 0);
        assert(rest.to_multiset().count(peer) > 0);
        assert(rest.contains(peer));
        peers.index_of_first_ensures(preferred);
        let at = rest.index_of(peer);
        match peers.index_of_first(preferred) {
            Some(k) => {
                assert(rest == peers.remove(k));
                if at < k {
                    assert(peers[at] == peer);
                } else {
                    assert(peers[at + 1] == peer);
                }
            },
            None => {
                assert(rest == peers);
            },
        }
    }
}

/// A block that has to be fetched to sync to a certificate also has to be fetched to insert the
/// certificate, unless the certificate is there already.
pub proof fn sync_agrees_with_fetch(store: BlockStore, hqc: QuorumCert)
    requires
        store.ordered_root.round < hqc.vote_data.proposed.round,
        crate::block_store::find_block(store.blocks@, hqc.vote_data.proposed.id) is None,
    ensures
        store.need_fetch(hqc) is NeedFetch || store.need_fetch(hqc) is QCAlreadyExist,
{
}

/// Fetched blocks enter the store oldest first, each after the certificate of its parent, and the
/// certificate that they were fetched for comes last, if every block with a seed has a number.
pub proof fn insertions_are_ordered(pending: Seq<BlockWithRandomness>, qc: Arc<QuorumCert>)
    requires
        crate::sync_manager::seeds_have_numbers(pending),
    ensures
        ({
            let plan = crate::sync_manager::insertion_plan(pending, qc);
            &&& plan.len() > 0
            &&& plan.last() == InsertStep::InsertQuorumCert(qc)
            &&& inserted_blocks(plan) == pending.reverse().map_values(
                |block: BlockWithRandomness| block.0,
            )
            &&& parents_first(plan)
        }),
    decreases pending.len(),
{
    let plan = crate::sync_manager::insertion_plan(pending, qc);
    if pending.len() == 0 {
        assert(plan.drop_first() =~= Seq::empty());
        assert(inserted_blocks(plan.drop_first()) =~= Seq::empty());
        assert(inserted_blocks(plan) =~= pending.reverse().map_values(
            |block: BlockWithRandomness| block.0,
        ));
    } else {
        let earlier = pending.drop_last();
        let (block, seed) = pending.last();
        assert forall|i: int| 0 <= i < earlier.len() && (
        #[trigger] earlier[i]).1 is Some implies earlier[i].0.block_number is Some by {
            assert(pending[i] == earlier[i]);
        }
        insertions_are_ordered(earlier, qc);
        let rest = crate::sync_manager::insertion_plan(earlier, qc);
        let steps = crate::sync_manager::insert_block_steps(block);
        assert(pending[pending.len() - 1].1 is Some ==> block.block_number is Some);
        let head = match seed {
            None => steps,
            Some(seed) => steps.push(
                InsertStep::SetRandomness { block, block_number: block.block_number->0, seed },
            ),
        };
        assert(plan == head + rest);
        assert(plan[0] == steps[0]);
        assert(plan[1] == steps[1]);
        assert(plan.drop_first().drop_first() =~= head.skip(2) + rest);
        if seed is Some {
            assert((head.skip(2) + rest).drop_first() =~= rest);
        } else {
            assert(head.skip(2) + rest =~= rest);
        }
        reveal_with_fuel(inserted_blocks, 4);
        assert(inserted_blocks(plan) =~= seq![block] + inserted_blocks(rest));
        assert(inserted_blocks(plan) =~= pending.reverse().map_values(
            |b: BlockWithRandomness| b.0,
        ));
        assert(parents_first(plan)) by {
            assert forall|i: int| 0 <= i < plan.len() && (
            #[trigger] plan[i]) is InsertBlock implies i > 0 && plan[i - 1]
                == InsertStep::InsertQuorumCert(plan[i]->InsertBlock_0.quorum_cert) by {
                if i >= head.len() {
                    let j = i - head.len();
                    assert(plan[i] == rest[j]);
                    assert(rest[j] is InsertBlock);
                    assert(plan[i - 1] == rest[j - 1]);
                }
            }
        }
    }
}

/// A fast forward saves the seed of every block that has one, and nothing else: there is one pair
/// for each block with a seed, of the number of the block and its seed, in the order of the blocks.
/// `places` are where those blocks stand.
pub proof fn every_seed_is_saved(blocks: Seq<BlockWithRandomness>) -> (places: Seq<int>)
    requires
        forall|i: int|
            0 <= i < blocks.len() && (#[trigger] blocks[i]).1 is Some ==> blocks[i].0.block_number
                is Some,
    ensures
        crate::places::are_places(places, blocks.len(), |i: int| blocks[i].1 is Some),
        crate::sync_manager::seeds_of(blocks).len() == places.len(),
        forall|k: int|
            0 <= k < places.len() ==> blocks[#[trigger] places[k]].1 == Some(
                crate::sync_manager::seeds_of(blocks)[k].1,
            ) && blocks[places[k]].0.block_number == Some(
                crate::sync_manager::seeds_of(blocks)[k].0,
            ),
        forall|i: int|
            0 <= i < blocks.len() && (#[trigger] blocks[i]).1 is Some
                ==> crate::sync_manager::seeds_of(blocks).contains(
                (blocks[i].0.block_number->0, blocks[i].1->0),
            ),
{
    let wanted = |i: int| blocks[i].1 is Some;
    let places = lemma_seeds(blocks, blocks.len());
    assert(blocks.take(blocks.len() as int) =~= blocks);
    let seeds = crate::sync_manager::seeds_of(blocks);
    assert forall|i: int| 0 <= i < blocks.len() && (
    #[trigger] blocks[i]).1 is Some implies seeds.contains(
        (blocks[i].0.block_number->0, blocks[i].1->0),
    ) by {
        assert(wanted(i));
        let k = places.index_of(i);
        assert(places[k] == i);
        assert(seeds[k] == (blocks[i].0.block_number->0, blocks[i].1->0));
    }
    places
}

proof fn lemma_seeds(blocks: Seq<BlockWithRandomness>, n: nat) -> (places: Seq<int>)
    requires
        n <= blocks.len(),
        forall|i: int|
            0 <= i < blocks.len() && (#[trigger] blocks[i]).1 is Some ==> blocks[i].0.block_number
                is Some,
    ensures
        crate::places::are_places(places, n, |i: int| blocks[i].1 is Some),
        crate::sync_manager::seeds_of(blocks.take(n as int)).len() == places.len(),
        forall|k: int|
            0 <= k < places.len() ==> blocks[#[trigger] places[k]].1 == Some(
                crate::sync_manager::seeds_of(blocks.take(n as int))[k].1,
            ) && blocks[places[k]].0.block_number == Some(
                crate::sync_manager::seeds_of(blocks.take(n as int))[k].0,
            ),
    decreases n,
{
    let wanted = |i: int| blocks[i].1 is Some;
    if n == 0 {
        crate::places::no_places(wanted);
        Seq::empty()
    } else {
        let last = (n - 1) as nat;
        let earlier = lemma_seeds(blocks, last);
        assert(blocks.take(n as int).drop_last() =~= blocks.take(last as int));
        assert(blocks.take(n as int).last() == blocks[last as int]);
        crate::places::next_place(earlier, last, wanted)
    }
}

/// A fast forward notes the number of every block that has one, and nothing else: there is one
/// entry for each block with a number, of its epoch, its number and its identifier, in the order of
/// the blocks. `places` are where those blocks stand.
pub proof fn every_block_number_is_saved(blocks: Seq<BlockWithRandomness>) -> (places: Seq<int>)
    ensures
        crate::places::are_places(places, blocks.len(), |i: int| blocks[i].0.block_number is Some),
        crate::sync_manager::block_numbers_of(blocks).len() == places.len(),
        forall|k: int|
            0 <= k < places.len() ==> {
                let (epoch, number, id) = crate::sync_manager::block_numbers_of(blocks)[k];
                let block = blocks[#[trigger] places[k]].0;
                block.epoch == epoch && block.block_number == Some(number) && block.id == id
            },
{
    let places = lemma_block_numbers(blocks, blocks.len());
    assert(blocks.take(blocks.len() as int) =~= blocks);
    places
}

proof fn lemma_block_numbers(blocks: Seq<BlockWithRandomness>, n: nat) -> (places: Seq<int>)
    requires
        n <= blocks.len(),
    ensures
        crate::places::are_places(places, n, |i: int| blocks[i].0.block_number is Some),
        crate::sync_manager::block_numbers_of(blocks.take(n as int)).len() == places.len(),
        forall|k: int|
            0 <= k < places.len() ==> {
                let (epoch, number, id) = crate::sync_manager::block_numbers_of(
                    blocks.take(n as int),
                )[k];
                let block = blocks[#[trigger] places[k]].0;
                block.epoch == epoch && block.block_number == Some(number) && block.id == id
            },
    decreases n,
{
    let wanted = |i: int| blocks[i].0.block_number is Some;
    if n == 0 {
        crate::places::no_places(wanted);
        Seq::empty()
    } else {
        let last = (n - 1) as nat;
        let earlier = lemma_block_numbers(blocks, last);
        assert(blocks.take(n as int).drop_last() =~= blocks.take(last as int));
        assert(blocks.take(n as int).last() == blocks[last as int]);
        crate::places::next_place(earlier, last, wanted)
    }
}

/// Each block of a fast forward is saved with the certificate that is for it: the first with the
/// one that was synced to, and each other with the one that the block before it carries. The tree
/// gets the same blocks and certificates the other way round, each still at the place of the other.
pub proof fn each_block_is_saved_with_its_cert(
    highest: Arc<QuorumCert>,
    blocks: Seq<BlockWithRandomness>,
    i: int,
)
    requires
        crate::sync_manager::is_certified_chain(highest, blocks),
        0 <= i < blocks.len(),
    ensures
        ({
            let certs = crate::sync_manager::certs_for(highest, blocks);
            let from_end = blocks.len() - 1 - i;
            &&& certs.len() == blocks.len()
            &&& certs[i] == (if i == 0 {
                highest
            } else {
                blocks[i - 1].0.quorum_cert
            })
            &&& certs[i].vote_data.proposed.id == blocks[i].0.id
            &&& blocks.reverse()[from_end] == blocks[i]
            &&& certs.reverse()[from_end] == certs[i]
            &&& certs.reverse()[i].vote_data.proposed.id == blocks.reverse()[i].0.id
        }),
{
    let certs = crate::sync_manager::certs_for(highest, blocks);
    assert(blocks[i].0.id == certs[i].vote_data.proposed.id);
    let from_end = blocks.len() - 1 - i;
    assert(blocks[from_end].0.id == certs[from_end].vote_data.proposed.id);
}

/// Blocks can be fast forwarded to exactly where there is one, the first is the one that the
/// certificate is for, each extends the next, and each that has a seed has a number.
pub proof fn fast_forwards_need_a_chain(highest: Arc<QuorumCert>, blocks: Seq<BlockWithRandomness>)
    ensures
        crate::sync_manager::is_certified_chain(highest, blocks) <==> {
            &&& blocks.len() > 0
            &&& blocks[0].0.id == highest.vote_data.proposed.id
            &&& forall|i: int|
                0 <= i < blocks.len() - 1 ==> (
                #[trigger] blocks[i]).0.quorum_cert.vote_data.proposed.id == blocks[i + 1].0.id
            &&& forall|i: int|
                0 <= i < blocks.len() && (#[trigger] blocks[i]).1 is Some
                    ==> blocks[i].0.block_number is Some
        },
{
    if crate::sync_manager::is_certified_chain(highest, blocks) {
        fast_forward_is_a_chain(highest, blocks);
        assert forall|i: int| 0 <= i < blocks.len() - 1 implies (
        #[trigger] blocks[i]).0.quorum_cert.vote_data.proposed.id == blocks[i + 1].0.id by {
            assert(blocks[i].0.parent() == blocks[i + 1].0.id);
        }
    } else if blocks.len() > 0 && blocks[0].0.id == highest.vote_data.proposed.id && (forall|i: int|
        0 <= i < blocks.len() - 1 ==> (#[trigger] blocks[i]).0.quorum_cert.vote_data.proposed.id
            == blocks[i + 1].0.id) && (forall|i: int|
        0 <= i < blocks.len() && (#[trigger] blocks[i]).1 is Some ==> blocks[i].0.block_number
            is Some) {
        assert forall|i: int| 0 <= i < blocks.len() - 1 implies (#[trigger] blocks[i]).0.parent()
            == blocks[i + 1].0.id by {
            assert(blocks[i].0.quorum_cert.vote_data.proposed.id == blocks[i + 1].0.id);
        }
        chains_are_certified(highest, blocks);
    }
}

/// What was fetched of an epoch can be saved exactly where there is a ledger info, each block has
/// the certificate that is for it at its place, and each block with a seed has a number.
pub proof fn epochs_need_certs_and_an_end(
    blocks: Seq<BlockWithRandomness>,
    quorum_certs: Seq<Arc<QuorumCert>>,
    ledger_infos: Seq<Arc<LedgerInfoWithSignatures>>,
)
    ensures
        crate::sync_manager::is_certified_epoch(blocks, quorum_certs, ledger_infos) <==> {
            &&& ledger_infos.len() > 0
            &&& forall|i: int|
                0 <= i < blocks.len() ==> i < quorum_certs.len()
                    && quorum_certs[i].vote_data.proposed.id == (#[trigger] blocks[i]).0.id
            &&& forall|i: int|
                0 <= i < blocks.len() && (#[trigger] blocks[i]).1 is Some
                    ==> blocks[i].0.block_number is Some
        },
{
}

/// A ledger info ends an epoch exactly where it says which epoch comes next.
pub proof fn epochs_end_where_the_next_is_known(info: LedgerInfoWithSignatures)
    ensures
        info.ends() <==> info.commit_info.next_epoch_state is Some,
{
}

/// What stands between a certificate and the store: a certificate for a block that is older than the
/// last ordered one is too old; else it is there already exactly where some certificate for the
/// block is, it can be inserted as it is exactly where some block with the identifier is, and else
/// the block has to be fetched.
pub proof fn certs_are_fetched_where_their_block_is_missing(
    store: BlockStore,
    qc: Arc<QuorumCert>,
)
    ensures
        ({
            let round = qc.vote_data.proposed.round;
            let id = qc.vote_data.proposed.id;
            let old = round < store.ordered_root.round;
            let has_cert = exists|i: int|
                0 <= i < store.quorum_certs@.len() && (
                #[trigger] store.quorum_certs@[i]).vote_data.proposed.id == id;
            let has_block = exists|i: int|
                0 <= i < store.blocks@.len() && (#[trigger] store.blocks@[i]).id == id;
            let insertion = insertion_into(store, qc);
            &&& insertion == CertInsertion::TooOld <==> old
            &&& insertion == CertInsertion::AlreadyThere <==> !old && has_cert
            &&& insertion == CertInsertion::InsertSingle <==> !old && !has_cert && has_block
            &&& insertion == CertInsertion::Fetch <==> !old && !has_cert && !has_block
        }),
{
    crate::block_store::find_block_finds(store.blocks@, qc.vote_data.proposed.id);
    crate::block_store::find_cert_finds(store.quorum_certs@, qc.vote_data.proposed.id);
}

/// The certificates of a peer are brought in by syncing to its highest commit, then to its highest
/// certified block, then inserting its highest certificate, and then the highest ordered one: that
/// of the peer where nodes vote on the order, and else the node's own. A timeout certificate comes
/// last, where there is one.
pub proof fn certs_are_brought_in_step_by_step(order_vote_enabled: bool, has_timeout_cert: bool)
    ensures
        ({
            let steps = crate::sync_manager::cert_steps(order_vote_enabled, has_timeout_cert);
            &&& steps.len() == (if has_timeout_cert {
                5int
            } else {
                4
            })
            &&& steps[0] == CertStep::SyncToCommitCert
            &&& steps[1] == CertStep::SyncToQuorumCert
            &&& steps[2] == CertStep::InsertQuorumCert
            &&& steps[3] == CertStep::InsertOrderedCert <==> order_vote_enabled
            &&& steps[3] == CertStep::InsertOwnOrderedCert <==> !order_vote_enabled
            &&& has_timeout_cert ==> steps[4] == CertStep::InsertTimeoutCert
        }),
{
}

/// A fetch retrieves the block that comes next exactly where no block in the store has its
/// identifier; otherwise it inserts what was fetched.
pub proof fn fetches_end_at_a_block_that_is_there(
    fetch: CertFetch,
    store: BlockStore,
    step: CertFetchStep,
)
    requires
        fetch.goes_on_with(store, step),
    ensures
        ({
            let id = fetch.next.vote_data.proposed.id;
            let has_block = exists|i: int|
                0 <= i < store.blocks@.len() && (#[trigger] store.blocks@[i]).id == id;
            &&& step is Insert <==> has_block
            &&& step matches CertFetchStep::Retrieve(wanted) ==> wanted == id
            &&& step matches CertFetchStep::Insert(steps) ==> steps@
                == crate::sync_manager::insertion_plan(fetch.pending@, fetch.qc)
        }),
{
    crate::block_store::find_block_finds(store.blocks@, fetch.next.vote_data.proposed.id);
}

/// A fetch goes on at the parent of the last block that was fetched, and starts at the block of its
/// certificate.
pub proof fn fetches_go_from_child_to_parent(fetch: CertFetch)
    requires
        fetch.wf(),
    ensures
        fetch.pending@.len() == 0 ==> fetch.next == fetch.qc,
        fetch.pending@.len() > 0 ==> fetch.next.vote_data.proposed.id
            == fetch.pending@.last().0.parent(),
{
}

/// The blocks that were fetched are put into the store oldest first, each with three things: the
/// certificate of its parent, the block, and its seed under its number where it has a seed. The
/// steps for the block at `i` of `pending` start at `at`; they are followed by those for the block
/// fetched before it, or by the certificate that was fetched.
pub proof fn every_fetched_block_is_put_in(
    pending: Seq<BlockWithRandomness>,
    qc: Arc<QuorumCert>,
    i: int,
) -> (at: int)
    requires
        0 <= i < pending.len(),
        forall|j: int|
            i < j < pending.len() && (#[trigger] pending[j]).1 is Some
                ==> pending[j].0.block_number is Some,
    ensures
        ({
            let plan = crate::sync_manager::insertion_plan(pending, qc);
            let (block, seed) = pending[i];
            let rest = crate::sync_manager::insertion_plan(pending.take(i), qc);
            &&& 0 <= at
            &&& at + 2 <= plan.len()
            &&& i == pending.len() - 1 ==> at == 0
            &&& plan[at] == InsertStep::InsertQuorumCert(block.quorum_cert)
            &&& plan[at + 1] == InsertStep::InsertBlock(block)
            &&& match (seed, block.block_number) {
                (None, _) => plan.skip(at + 2) == rest,
                (Some(seed), Some(block_number)) => {
                    &&& at + 2 < plan.len()
                    &&& plan[at + 2] == (InsertStep::SetRandomness { block, block_number, seed })
                    &&& plan.skip(at + 3) == rest
                },
                (Some(_), None) => {
                    &&& plan.len() == at + 3
                    &&& plan[at + 2] == (InsertStep::MissingBlockNumber { id: block.id })
                },
            }
        }),
    decreases pending.len(),
{
    let plan = crate::sync_manager::insertion_plan(pending, qc);
    let earlier = pending.drop_last();
    let rest = crate::sync_manager::insertion_plan(earlier, qc);
    let (block, seed) = pending.last();
    let steps = crate::sync_manager::insert_block_steps(block);
    if i == pending.len() - 1 {
        assert(pending.take(i) =~= earlier);
        match (seed, block.block_number) {
            (None, _) => {
                assert(plan.skip(2) =~= rest);
            },
            (Some(seed), Some(block_number)) => {
                assert(plan.skip(3) =~= rest);
            },
            (Some(_), None) => {},
        }
        0
    } else {
        assert(pending[pending.len() - 1] == (block, seed));
        assert forall|j: int| i < j < earlier.len() && (
        #[trigger] earlier[j]).1 is Some implies earlier[j].0.block_number is Some by {
            assert(earlier[j] == pending[j]);
        }
        let inner = every_fetched_block_is_put_in(earlier, qc, i);
        assert(earlier.take(i) =~= pending.take(i));
        assert(earlier[i] == pending[i]);
        let head: Seq<InsertStep> = match seed {
            None => steps,
            Some(seed) => steps.push(
                InsertStep::SetRandomness { block, block_number: block.block_number->0, seed },
            ),
        };
        assert(plan =~= head + rest);
        let at = head.len() + inner;
        assert(plan[at] == rest[inner]);
        assert(plan[at + 1] == rest[inner + 1]);
        assert(plan.skip(at + 2) =~= rest.skip(inner + 2));
        assert(plan.skip(at + 3) =~= rest.skip(inner + 3));
        at
    }
}

/// Where nothing was fetched, only the certificate itself is put in.
pub proof fn the_cert_comes_last(qc: Arc<QuorumCert>)
    ensures
        crate::sync_manager::insertion_plan(Seq::empty(), qc) == seq![
            InsertStep::InsertQuorumCert(qc),
        ],
{
}

/// Whether nothing is left to do to hold `qc`: the store holds a certificate for its block, or the
/// block is older than the last ordered one.
pub open spec fn is_settled(store: BlockStore, qc: QuorumCert) -> bool {
    store.need_fetch(qc) is QCAlreadyExist || store.need_fetch(qc) is QCRoundBeforeRoot
}

/// Whether the store holds a certificate for the block of `qc`.
pub open spec fn holds_cert(store: BlockStore, qc: QuorumCert) -> bool {
    crate::block_store::find_cert(store.quorum_certs@, qc.vote_data.proposed.id) is Some
}

/// Whether the certificates of the store for the block of `qc` are of the same round as `qc`: an
/// identifier belongs to one block, which is in one round.
pub open spec fn agrees_on_round(store: BlockStore, qc: QuorumCert) -> bool {
    forall|i: int|
        0 <= i < store.quorum_certs@.len() && (
        #[trigger] store.quorum_certs@[i]).vote_data.proposed.id == qc.vote_data.proposed.id
            ==> store.quorum_certs@[i].vote_data.proposed.round == qc.vote_data.proposed.round
}

/// Whether a tree that held `before` may hold `after` later: its last ordered block only moves
/// forward, and it drops no certificate of a block that is not older than that.
pub open spec fn moves_on(before: BlockStore, after: BlockStore) -> bool {
    &&& before.ordered_root.round <= after.ordered_root.round
    &&& forall|i: int|
        0 <= i < before.quorum_certs@.len() && (
        #[trigger] before.quorum_certs@[i]).vote_data.proposed.round >= after.ordered_root.round
            ==> holds_cert(after, *before.quorum_certs@[i])
}

/// Whether a tree that held `before` may hold `after` once it has done `step`: a certificate that
/// it took it holds.
pub open spec fn takes_step(before: BlockStore, step: InsertStep, after: BlockStore) -> bool {
    &&& moves_on(before, after)
    &&& step matches InsertStep::InsertQuorumCert(qc) ==> holds_cert(after, *qc)
}

/// Whether `trace` are what a tree may hold before, between and after the steps of `plan`.
pub open spec fn takes_steps(trace: Seq<BlockStore>, plan: Seq<InsertStep>) -> bool {
    &&& trace.len() == plan.len() + 1
    &&& forall|i: int|
        0 <= i < plan.len() ==> takes_step(trace[i], #[trigger] plan[i], trace[i + 1])
}

/// How `qc` gets into the store.
pub open spec fn insertion_into(store: BlockStore, qc: Arc<QuorumCert>) -> CertInsertion {
    crate::sync_manager::cert_insertion(store.need_fetch(*qc))
}

/// Whether a tree that held `before` may hold `after` once `qc` was inserted without an error: it
/// then did all that `insert_quorum_cert` says, which ends without an error only where every block
/// with a seed has a number. Blocks may have gone to execution since.
pub open spec fn cert_inserted(
    before: BlockStore,
    qc: Arc<QuorumCert>,
    trace: Seq<BlockStore>,
    pending: Seq<BlockWithRandomness>,
    after: BlockStore,
) -> bool {
    match insertion_into(before, qc) {
        CertInsertion::Fetch => {
            &&& crate::sync_manager::seeds_have_numbers(pending)
            &&& takes_steps(trace, crate::sync_manager::insertion_plan(pending, qc))
            &&& trace.first() == before
            &&& moves_on(trace.last(), after)
        },
        CertInsertion::InsertSingle => {
            &&& takes_steps(trace, seq![InsertStep::InsertQuorumCert(qc)])
            &&& trace.first() == before
            &&& moves_on(trace.last(), after)
        },
        CertInsertion::AlreadyThere => moves_on(before, after),
        CertInsertion::TooOld => moves_on(before, after),
    }
}

/// What is settled stays settled.
pub proof fn settled_certs_stay_settled(
    before: BlockStore,
    after: BlockStore,
    qc: Arc<QuorumCert>,
)
    requires
        is_settled(before, *qc),
        moves_on(before, after),
        agrees_on_round(before, *qc),
    ensures
        is_settled(after, *qc),
{
    let id = qc.vote_data.proposed.id;
    if qc.vote_data.proposed.round >= after.ordered_root.round {
        crate::block_store::find_cert_finds(before.quorum_certs@, id);
        assert(holds_cert(before, *qc));
        let i = choose|i: int|
            0 <= i < before.quorum_certs@.len() && (
            #[trigger] before.quorum_certs@[i]).vote_data.proposed.id == id;
        assert(holds_cert(after, *before.quorum_certs@[i]));
    }
}

/// Inserting a certificate settles it: a tree that took all that the insertion plan puts into it
/// holds the certificate, or has moved past its block.
pub proof fn inserting_settles_a_cert(
    before: BlockStore,
    qc: Arc<QuorumCert>,
    trace: Seq<BlockStore>,
    pending: Seq<BlockWithRandomness>,
    after: BlockStore,
)
    requires
        cert_inserted(before, qc, trace, pending, after),
        agrees_on_round(before, *qc),
        forall|i: int| 0 <= i < trace.len() ==> agrees_on_round(#[trigger] trace[i], *qc),
    ensures
        is_settled(after, *qc),
{
    let insertion = insertion_into(before, qc);
    if insertion is Fetch || insertion is InsertSingle {
        let plan = if insertion is Fetch {
            insertions_are_ordered(pending, qc);
            crate::sync_manager::insertion_plan(pending, qc)
        } else {
            seq![InsertStep::InsertQuorumCert(qc)]
        };
        let last = plan.len() - 1;
        assert(plan[last] == InsertStep::InsertQuorumCert(qc));
        assert(takes_step(trace[last], plan[last], trace[last + 1]));
        assert(trace.last() == trace[last + 1]);
        settled_certs_stay_settled(trace[last + 1], after, qc);
    } else {
        settled_certs_stay_settled(before, after, qc);
    }
}

/// Bringing in the certificates of a peer settles its highest quorum certificate: once all steps
/// of `add_certs` are done without an error, the store holds that certificate, or has moved past
/// its block. `stores` are what the tree holds before, between and after the steps; `trace` and
/// `pending` are what it holds while the certificate is inserted, and the blocks that were fetched
/// for it. From there on the tree only moves on, and it holds a certificate that it took; nothing
/// is asked of the syncs before.
pub proof fn add_certs_settles_the_highest_cert(
    order_vote_enabled: bool,
    has_timeout_cert: bool,
    highest: Arc<QuorumCert>,
    stores: Seq<BlockStore>,
    trace: Seq<BlockStore>,
    pending: Seq<BlockWithRandomness>,
)
    requires
        ({
            let steps = crate::sync_manager::cert_steps(order_vote_enabled, has_timeout_cert);
            &&& stores.len() == steps.len() + 1
            &&& forall|i: int|
                0 <= i < steps.len() ==> if (#[trigger] steps[i]) is InsertQuorumCert {
                    cert_inserted(stores[i], highest, trace, pending, stores[i + 1])
                } else {
                    i > 2 ==> moves_on(stores[i], stores[i + 1])
                }
        }),
        forall|i: int| 2 <= i < stores.len() ==> agrees_on_round(#[trigger] stores[i], *highest),
        forall|i: int| 0 <= i < trace.len() ==> agrees_on_round(#[trigger] trace[i], *highest),
    ensures
        is_settled(stores.last(), *highest),
{
    let steps = crate::sync_manager::cert_steps(order_vote_enabled, has_timeout_cert);
    assert(steps[2] is InsertQuorumCert);
    assert(agrees_on_round(stores[2], *highest));
    inserting_settles_a_cert(stores[2], highest, trace, pending, stores[3]);
    assert(steps[3] is InsertOrderedCert || steps[3] is InsertOwnOrderedCert);
    assert(agrees_on_round(stores[3], *highest));
    settled_certs_stay_settled(stores[3], stores[4], highest);
    if has_timeout_cert {
        assert(steps[4] == CertStep::InsertTimeoutCert);
        assert(agrees_on_round(stores[4], *highest));
        settled_certs_stay_settled(stores[4], stores[5], highest);
    }
}

/// The blocks that `plan` inserts, in order.
pub open spec fn inserted_blocks(plan: Seq<InsertStep>) -> Seq<
    Arc<crate::consensus_types::Block>,
>
    decreases plan.len(),
{
    if plan.len() == 0 {
        Seq::empty()
    } else {
        let rest = inserted_blocks(plan.drop_first());
        match plan.first() {
            InsertStep::InsertBlock(block) => seq![block] + rest,
            _ => rest,
        }
    }
}

/// Whether each block in `plan` comes right after the certificate of its parent.
pub open spec fn parents_first(plan: Seq<InsertStep>) -> bool {
    forall|i: int|
        0 <= i < plan.len() && (#[trigger] plan[i]) is InsertBlock ==> i > 0 && plan[i - 1]
            == InsertStep::InsertQuorumCert(plan[i]->InsertBlock_0.quorum_cert)
}

} // verus!
