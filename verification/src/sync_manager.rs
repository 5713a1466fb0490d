//! Catching up with the chain.

use crate::block_retriever::{BlockFetch, FetchError};
use crate::block_store::{BlockStore, NeedFetchResult};
use crate::consensus_types::{
    Block, BlockWithRandomness, LedgerInfoWithSignatures, QuorumCert,
};
use crate::epoch_start::LivenessStorageData;
use crate::types::{AccountAddress, HashValue, Round};
use std::sync::Arc;
use vstd::prelude::*;

verus! {

/// The certificates for `blocks` when `highest` certifies the first of them: each other block is
/// certified by the one before it.
pub open spec fn certs_for(
    highest: Arc<QuorumCert>,
    blocks: Seq<BlockWithRandomness>,
) -> Seq<Arc<QuorumCert>> {
    Seq::new(
        blocks.len(),
        |i: int|
            if i == 0 {
                highest
            } else {
                blocks[i - 1].0.quorum_cert
            },
    )
}

/// Whether each certificate is for the block at the same place.
pub open spec fn certify(
    quorum_certs: Seq<Arc<QuorumCert>>,
    blocks: Seq<BlockWithRandomness>,
) -> bool {
    forall|i: int|
        0 <= i < blocks.len() ==> i < quorum_certs.len() && (#[trigger] blocks[i]).0.id
            == quorum_certs[i].vote_data.proposed.id
}

/// Whether every block that has a random seed has a number.
pub open spec fn seeds_have_numbers(blocks: Seq<BlockWithRandomness>) -> bool {
    forall|i: int|
        0 <= i < blocks.len() && (#[trigger] blocks[i]).1 is Some ==> blocks[i].0.block_number
            is Some
}

/// The epoch, number and identifier of each block that has a number, in order.
pub open spec fn block_numbers_of(blocks: Seq<BlockWithRandomness>) -> Seq<(u64, u64, HashValue)>
    decreases blocks.len(),
{
    if blocks.len() == 0 {
        Seq::empty()
    } else {
        let earlier = block_numbers_of(blocks.drop_last());
        let block = blocks.last().0;
        match block.block_number {
            Some(number) => earlier.push((block.epoch, number, block.id)),
            None => earlier,
        }
    }
}

/// The number and the seed of each block that has a seed, in order.
pub open spec fn seeds_of(blocks: Seq<BlockWithRandomness>) -> Seq<(u64, Arc<Vec<u8>>)>
    decreases blocks.len(),
{
    if blocks.len() == 0 {
        Seq::empty()
    } else {
        let earlier = seeds_of(blocks.drop_last());
        match blocks.last().1 {
            Some(seed) => earlier.push((blocks.last().0.block_number->0, seed)),
            None => earlier,
        }
    }
}

fn collect_block_numbers(blocks: &Vec<BlockWithRandomness>) -> (numbers: Vec<
    (u64, u64, HashValue),
>)
    ensures
        numbers@ == block_numbers_of(blocks@),
{
    let mut numbers: Vec<(u64, u64, HashValue)> = Vec::new();
    let mut i: usize = 0;
    while i < blocks.len()
        invariant
            i <= blocks.len(),
            numbers@ == block_numbers_of(blocks@.take(i as int)),
        decreases blocks.len() - i,
    {
        assert(blocks@.take(i + 1).drop_last() =~= blocks@.take(i as int));
        let block = &blocks[i].0;
        if let Some(number) = block.block_number {
            numbers.push((block.epoch, number, block.id));
        }
        i += 1;
    }
    assert(blocks@.take(i as int) =~= blocks@);
    numbers
}

fn collect_seeds(blocks: &Vec<BlockWithRandomness>) -> (seeds: Vec<(u64, Arc<Vec<u8>>)>)
    requires
        seeds_have_numbers(blocks@),
    ensures
        seeds@ == seeds_of(blocks@),
{
    let mut seeds: Vec<(u64, Arc<Vec<u8>>)> = Vec::new();
    let mut i: usize = 0;
    while i < blocks.len()
        invariant
            i <= blocks.len(),
            seeds_have_numbers(blocks@),
            seeds@ == seeds_of(blocks@.take(i as int)),
        decreases blocks.len() - i,
    {
        assert(blocks@.take(i + 1).drop_last() =~= blocks@.take(i as int));
        assert(blocks@.take(i + 1).last() == blocks@[i as int]);
        match (&blocks[i].1, blocks[i].0.block_number) {
            (Some(seed), Some(number)) => {
                seeds.push((number, seed.clone()));
            },
            _ => {},
        }
        i += 1;
    }
    assert(blocks@.take(i as int) =~= blocks@);
    seeds
}

fn reverse_blocks(blocks: &Vec<BlockWithRandomness>) -> (reversed: Vec<BlockWithRandomness>)
    ensures
        reversed@ == blocks@.reverse(),
{
    let mut reversed: Vec<BlockWithRandomness> = Vec::new();
    let mut i: usize = blocks.len();
    while i > 0
        invariant
            i <= blocks.len(),
            reversed@ == blocks@.skip(i as int).reverse(),
        decreases i,
    {
        i -= 1;
        let seed = match &blocks[i].1 {
            Some(seed) => Some(seed.clone()),
            None => None,
        };
        reversed.push((blocks[i].0.clone(), seed));
        assert(reversed@ =~= blocks@.skip(i as int).reverse());
    }
    assert(blocks@.skip(0) =~= blocks@);
    reversed
}

fn reverse_certs(certs: &Vec<Arc<QuorumCert>>) -> (reversed: Vec<Arc<QuorumCert>>)
    ensures
        reversed@ == certs@.reverse(),
{
    let mut reversed: Vec<Arc<QuorumCert>> = Vec::new();
    let mut i: usize = certs.len();
    while i > 0
        invariant
            i <= certs.len(),
            reversed@ == certs@.skip(i as int).reverse(),
        decreases i,
    {
        i -= 1;
        reversed.push(certs[i].clone());
        assert(reversed@ =~= certs@.skip(i as int).reverse());
    }
    assert(certs@.skip(0) =~= certs@);
    reversed
}

fn reverse_infos(infos: &Vec<Arc<LedgerInfoWithSignatures>>) -> (reversed: Vec<
    Arc<LedgerInfoWithSignatures>,
>)
    ensures
        reversed@ == infos@.reverse(),
{
    let mut reversed: Vec<Arc<LedgerInfoWithSignatures>> = Vec::new();
    let mut i: usize = infos.len();
    while i > 0
        invariant
            i <= infos.len(),
            reversed@ == infos@.skip(i as int).reverse(),
        decreases i,
    {
        i -= 1;
        reversed.push(infos[i].clone());
        assert(reversed@ =~= infos@.skip(i as int).reverse());
    }
    assert(infos@.skip(0) =~= infos@);
    reversed
}

/// What a sync writes to storage, and hands to the tree in memory.
pub struct FastForward {
    /// The blocks to save, newest first.
    pub blocks: Vec<BlockWithRandomness>,
    /// A certificate for each of `blocks`.
    pub quorum_certs: Vec<Arc<QuorumCert>>,
    /// The epoch, number and identifier of each block that has a number.
    pub block_numbers: Vec<(u64, u64, HashValue)>,
    /// The number and the random seed of each block that has a seed.
    pub randomness: Vec<(u64, Arc<Vec<u8>>)>,
    /// The blocks for the tree, oldest first.
    pub tree_blocks: Vec<BlockWithRandomness>,
    /// The certificates for the tree, oldest first.
    pub tree_quorum_certs: Vec<Arc<QuorumCert>>,
}

/// Whether `blocks` are a chain that starts with the block that `highest` certifies.
pub open spec fn is_certified_chain(
    highest: Arc<QuorumCert>,
    blocks: Seq<BlockWithRandomness>,
) -> bool {
    &&& blocks.len() > 0
    &&& certify(certs_for(highest, blocks), blocks)
    &&& seeds_have_numbers(blocks)
}

/// The number of blocks between the block that `highest_quorum_cert` certifies and the one that
/// `highest_commit_cert` commits, both counted; `None` where the first is the older one, or where
/// there are too many to be held.
pub fn fast_forward_len(
    highest_quorum_cert: &QuorumCert,
    highest_commit_cert: &LedgerInfoWithSignatures,
) -> (num_blocks: Option<u64>)
    ensures
        ({
            let len = highest_quorum_cert.vote_data.proposed.round
                - highest_commit_cert.commit_info.round + 1;
            num_blocks == (if 0 < len < usize::MAX {
                Some(len as u64)
            } else {
                None
            })
        }),
{
    let newest: u64 = highest_quorum_cert.certified_block().round;
    let oldest: u64 = highest_commit_cert.commit_info.round;
    if newest < oldest || newest - oldest >= (usize::MAX as u64) - 1 {
        return None;
    }
    Some(newest - oldest + 1)
}

/// Whom to ask for the blocks of a certificate: those who signed it, where the node is a
/// validator and knows them, and else everyone.
pub fn peers_to_ask(
    is_validator: bool,
    voters: Vec<AccountAddress>,
    available_peers: Vec<AccountAddress>,
) -> (peers: Vec<AccountAddress>)
    ensures
        peers == (if is_validator {
            voters
        } else {
            available_peers
        }),
{
    if is_validator {
        voters
    } else {
        available_peers
    }
}

/// Whether `blocks` are a chain that starts with the block that `highest_quorum_cert` certifies,
/// and every block with a random seed has a number.
pub fn check_certified_chain(
    highest_quorum_cert: &Arc<QuorumCert>,
    blocks: &Vec<BlockWithRandomness>,
) -> (is_chain: bool)
    ensures
        is_chain == is_certified_chain(*highest_quorum_cert, blocks@),
{
    if blocks.len() == 0 {
        return false;
    }
    let ghost certs = certs_for(*highest_quorum_cert, blocks@);
    let mut i: usize = 0;
    while i < blocks.len()
        invariant
            i <= blocks.len(),
            blocks.len() > 0,
            certs == certs_for(*highest_quorum_cert, blocks@),
            forall|j: int|
                0 <= j < i ==> (#[trigger] blocks@[j]).0.id == certs[j].vote_data.proposed.id,
            forall|j: int|
                0 <= j < i && (#[trigger] blocks@[j]).1 is Some ==> blocks@[j].0.block_number
                    is Some,
        decreases blocks.len() - i,
    {
        let certified = if i == 0 {
            highest_quorum_cert.certified_block().id
        } else {
            blocks[i - 1].0.parent_id()
        };
        if !(blocks[i].0.id == certified) {
            assert(blocks@[i as int].0.id != certs[i as int].vote_data.proposed.id);
            return false;
        }
        if blocks[i].1.is_some() && blocks[i].0.block_number.is_none() {
            assert(blocks@[i as int].1 is Some);
            return false;
        }
        i += 1;
    }
    true
}

/// What a sync of a whole epoch writes to storage, and what follows it.
pub struct EpochForward {
    /// The blocks to save, newest first.
    pub blocks: Vec<BlockWithRandomness>,
    pub quorum_certs: Vec<Arc<QuorumCert>>,
    pub block_numbers: Vec<(u64, u64, HashValue)>,
    pub randomness: Vec<(u64, Arc<Vec<u8>>)>,
    /// The ledger infos to save, oldest first.
    pub ledger_infos: Vec<Arc<LedgerInfoWithSignatures>>,
    /// The epoch to recover in.
    pub recover_epoch: u64,
    /// The proof that the epoch ended, if it did.
    pub epoch_change: Option<Arc<LedgerInfoWithSignatures>>,
}

/// Whether what was fetched of an epoch can be saved: each block has its certificate and each
/// seed its number, and there is a ledger info to recover from.
pub open spec fn is_certified_epoch(
    blocks: Seq<BlockWithRandomness>,
    quorum_certs: Seq<Arc<QuorumCert>>,
    ledger_infos: Seq<Arc<LedgerInfoWithSignatures>>,
) -> bool {
    &&& certify(quorum_certs, blocks)
    &&& seeds_have_numbers(blocks)
    &&& ledger_infos.len() > 0
}

/// Whether what was fetched of an epoch can be saved.
pub fn check_certified_epoch(fetched: &BlockFetch) -> (can: bool)
    ensures
        can == is_certified_epoch(
            fetched.blocks@,
            fetched.quorum_certs@,
            fetched.ledger_infos@,
        ),
{
    if fetched.ledger_infos.len() == 0 {
        return false;
    }
    let mut i: usize = 0;
    while i < fetched.blocks.len()
        invariant
            i <= fetched.blocks.len(),
            fetched.ledger_infos@.len() > 0,
            forall|j: int|
                0 <= j < i ==> j < fetched.quorum_certs@.len() && (
                #[trigger] fetched.blocks@[j]).0.id
                    == fetched.quorum_certs@[j].vote_data.proposed.id,
            forall|j: int|
                0 <= j < i && (#[trigger] fetched.blocks@[j]).1 is Some
                    ==> fetched.blocks@[j].0.block_number is Some,
        decreases fetched.blocks.len() - i,
    {
        if i >= fetched.quorum_certs.len() {
            assert(0 <= i < fetched.blocks@.len());
            let ghost block = fetched.blocks@[i as int];
            return false;
        }
        if !(fetched.blocks[i].0.id == fetched.quorum_certs[i].certified_block().id) {
            assert(fetched.blocks@[i as int].0.id
                != fetched.quorum_certs@[i as int].vote_data.proposed.id);
            return false;
        }
        if fetched.blocks[i].1.is_some() && fetched.blocks[i].0.block_number.is_none() {
            assert(fetched.blocks@[i as int].1 is Some);
            return false;
        }
        i += 1;
    }
    true
}

impl BlockStore {
    /// What to save, and what to hand to the tree in memory, when `blocks` were fetched from the
    /// block that `highest_quorum_cert` certifies on.
    pub fn fast_forward_sync(
        highest_quorum_cert: &Arc<QuorumCert>,
        blocks: Vec<BlockWithRandomness>,
    ) -> (forward: FastForward)
        requires
            is_certified_chain(*highest_quorum_cert, blocks@),
        ensures
            forward.blocks == blocks,
            forward.quorum_certs@ == certs_for(*highest_quorum_cert, blocks@),
            forward.block_numbers@ == block_numbers_of(blocks@),
            forward.randomness@ == seeds_of(blocks@),
            forward.tree_blocks@ == blocks@.reverse(),
            forward.tree_quorum_certs@ == certs_for(*highest_quorum_cert, blocks@).reverse(),
    {
        let mut quorum_certs: Vec<Arc<QuorumCert>> = Vec::new();
        quorum_certs.push(highest_quorum_cert.clone());
        let mut i: usize = 0;
        while i < blocks.len() - 1
            invariant
                blocks.len() > 0,
                i < blocks.len(),
                quorum_certs@ == certs_for(*highest_quorum_cert, blocks@).take(i + 1),
            decreases blocks.len() - i,
        {
            quorum_certs.push(blocks[i].0.quorum_cert.clone());
            assert(quorum_certs@ =~= certs_for(*highest_quorum_cert, blocks@).take(i + 2));
            i += 1;
        }
        assert(quorum_certs@ =~= certs_for(*highest_quorum_cert, blocks@));
        let block_numbers = collect_block_numbers(&blocks);
        let randomness = collect_seeds(&blocks);
        let tree_blocks = reverse_blocks(&blocks);
        let tree_quorum_certs = reverse_certs(&quorum_certs);
        FastForward { blocks, quorum_certs, block_numbers, randomness, tree_blocks, tree_quorum_certs }
    }

    /// What to save of an epoch that was fetched whole, and what follows: the newest ledger info,
    /// which was fetched first, says where to recover and whether the epoch ended. An error where
    /// what was fetched cannot be saved.
    pub fn fast_forward_sync_by_epoch(fetched: BlockFetch) -> (forward: Result<
        EpochForward,
        SyncError,
    >)
        ensures
            match forward {
                Ok(forward) => {
                    &&& is_certified_epoch(
                        fetched.blocks@,
                        fetched.quorum_certs@,
                        fetched.ledger_infos@,
                    )
                    &&& forward.blocks == fetched.blocks
                    &&& forward.quorum_certs == fetched.quorum_certs
                    &&& forward.block_numbers@ == block_numbers_of(fetched.blocks@)
                    &&& forward.randomness@ == seeds_of(fetched.blocks@)
                    &&& forward.ledger_infos@ == fetched.ledger_infos@.reverse()
                    &&& forward.recover_epoch == fetched.ledger_infos@[0].commit_info.epoch
                    &&& forward.epoch_change == (if fetched.ledger_infos@[0].ends() {
                        Some(fetched.ledger_infos@[0])
                    } else {
                        None
                    })
                },
                Err(e) => {
                    &&& !is_certified_epoch(
                        fetched.blocks@,
                        fetched.quorum_certs@,
                        fetched.ledger_infos@,
                    )
                    &&& e == SyncError::UncertifiedEpoch
                },
            },
    {
        if !check_certified_epoch(&fetched) {
            return Err(SyncError::UncertifiedEpoch);
        }
        let block_numbers = collect_block_numbers(&fetched.blocks);
        let randomness = collect_seeds(&fetched.blocks);
        let ledger_infos = reverse_infos(&fetched.ledger_infos);
        let newest = ledger_infos[ledger_infos.len() - 1].clone();
        let recover_epoch: u64 = newest.commit_info.epoch;
        let epoch_change = if newest.ends_epoch() {
            Some(newest)
        } else {
            None
        };
        Ok(
            EpochForward {
                blocks: fetched.blocks,
                quorum_certs: fetched.quorum_certs,
                block_numbers,
                randomness,
                ledger_infos,
                recover_epoch,
                epoch_change,
            },
        )
    }
}

/// What follows the recovery after an epoch was saved, when storage gave `data`: the round that the
/// tree is built anew from, and the proof that the epoch ended, if it did. An error where storage
/// holds only the last commit; the tree is then left as it is.
pub fn recovered(forward: EpochForward, data: LivenessStorageData) -> (next: Result<
    (Round, Option<Arc<LedgerInfoWithSignatures>>),
    SyncError,
>)
    ensures
        next == (match data {
            LivenessStorageData::FullRecoveryData { root_round } => Ok::<
                (Round, Option<Arc<LedgerInfoWithSignatures>>),
                SyncError,
            >((root_round, forward.epoch_change)),
            LivenessStorageData::PartialRecoveryData { .. } => Err(
                SyncError::PartialRecoveryData,
            ),
        }),
{
    match data {
        LivenessStorageData::FullRecoveryData { root_round } => Ok(
            (root_round, forward.epoch_change),
        ),
        LivenessStorageData::PartialRecoveryData { .. } => Err(SyncError::PartialRecoveryData),
    }
}

/// A step towards holding the certificates that a peer holds.
#[derive(Debug, Clone, Copy, PartialEq, Eq, Structural)]
pub enum CertStep {
    /// Sync to the highest commit of the peer.
    SyncToCommitCert,
    /// Sync to the highest certified block of the peer.
    SyncToQuorumCert,
    /// Insert the highest certificate of the peer.
    InsertQuorumCert,
    /// Insert the highest ordered certificate of the peer.
    InsertOrderedCert,
    /// Insert the node's own highest ordered certificate, as a quorum certificate.
    InsertOwnOrderedCert,
    /// Insert the timeout certificate of the peer.
    InsertTimeoutCert,
}

/// How a quorum certificate gets into the store.
#[derive(Debug, Clone, Copy, PartialEq, Eq, Structural)]
pub enum CertInsertion {
    /// The certified block and its missing ancestors have to be fetched.
    Fetch,
    /// The certificate can be inserted as it is.
    InsertSingle,
    /// The certificate is there, and nothing is left to do.
    AlreadyThere,
    /// The certificate is too old to be kept.
    TooOld,
}

/// What an ordered certificate leads to.
#[derive(Debug, Clone, Copy, PartialEq, Eq, Structural)]
pub enum OrderedInsertion {
    /// The ordered blocks go to execution.
    Execute,
    /// They went there before.
    Late,
}

/// Why catching up fails.
#[derive(Debug, Clone, Copy, PartialEq, Eq, Structural)]
pub enum SyncError {
    /// The block that a certificate orders is not in the store.
    OrderedBlockNotFound,
    /// What was fetched of an epoch cannot be saved.
    UncertifiedEpoch,
    /// After an epoch was saved, storage holds only the last commit.
    PartialRecoveryData,
}

/// What the highest commit of a peer leads to.
#[derive(Debug, Clone, Copy, PartialEq, Eq, Structural)]
pub enum CommitSync {
    /// The block is in the pipeline: its commit proof goes there.
    SendCommitProof,
    /// The blocks up to the commit have to be fetched.
    FastForward,
    /// Nothing is missing.
    Nothing,
}

/// What the highest certified block of a peer leads to.
#[derive(Debug)]
pub enum QuorumSync {
    /// The blocks up to it have to be fetched; the end of the epoch is announced afterwards, if
    /// there is a proof of it.
    FastForward { announce: Option<Arc<LedgerInfoWithSignatures>> },
    /// Nothing is missing.
    Nothing,
}

/// The steps that bring in the certificates of a peer, in order.
pub open spec fn cert_steps(order_vote_enabled: bool, has_timeout_cert: bool) -> Seq<CertStep> {
    seq![
        CertStep::SyncToCommitCert,
        CertStep::SyncToQuorumCert,
        CertStep::InsertQuorumCert,
        if order_vote_enabled {
            CertStep::InsertOrderedCert
        } else {
            CertStep::InsertOwnOrderedCert
        },
    ] + (if has_timeout_cert {
        seq![CertStep::InsertTimeoutCert]
    } else {
        Seq::empty()
    })
}

/// How a certificate gets into a store that says `needed` of it.
pub open spec fn cert_insertion(needed: NeedFetchResult) -> CertInsertion {
    match needed {
        NeedFetchResult::NeedFetch => CertInsertion::Fetch,
        NeedFetchResult::QCBlockExist => CertInsertion::InsertSingle,
        NeedFetchResult::QCAlreadyExist => CertInsertion::AlreadyThere,
        NeedFetchResult::QCRoundBeforeRoot => CertInsertion::TooOld,
    }
}

impl BlockStore {
    /// The steps that bring in the certificates of a peer, in order; the first that fails ends
    /// them.
    pub fn add_certs(&self, has_timeout_cert: bool) -> (steps: Vec<CertStep>)
        ensures
            steps@ == cert_steps(self.order_vote_enabled, has_timeout_cert),
    {
        let mut steps: Vec<CertStep> = Vec::new();
        steps.push(CertStep::SyncToCommitCert);
        steps.push(CertStep::SyncToQuorumCert);
        steps.push(CertStep::InsertQuorumCert);
        if self.order_vote_enabled {
            steps.push(CertStep::InsertOrderedCert);
        } else {
            steps.push(CertStep::InsertOwnOrderedCert);
        }
        if has_timeout_cert {
            steps.push(CertStep::InsertTimeoutCert);
        }
        steps
    }

    /// How `qc` gets into the store.
    pub fn insert_quorum_cert(&self, qc: &QuorumCert) -> (insertion: CertInsertion)
        ensures
            insertion == cert_insertion(self.need_fetch(*qc)),
    {
        match self.need_fetch_for_quorum_cert(qc) {
            NeedFetchResult::NeedFetch => CertInsertion::Fetch,
            NeedFetchResult::QCBlockExist => CertInsertion::InsertSingle,
            NeedFetchResult::QCAlreadyExist => CertInsertion::AlreadyThere,
            NeedFetchResult::QCRoundBeforeRoot => CertInsertion::TooOld,
        }
    }

    /// Whether `qc` orders blocks that have to go to execution, and if so the proof that the epoch
    /// ended, where it did.
    pub fn execution_for_quorum_cert(&self, qc: &QuorumCert) -> (execution: Option<
        Option<Arc<LedgerInfoWithSignatures>>,
    >)
        ensures
            execution == (if self.ordered_root.round < qc.signed_ledger_info.commit_info.round {
                Some(
                    if qc.signed_ledger_info.ends() {
                        Some(qc.signed_ledger_info)
                    } else {
                        None
                    },
                )
            } else {
                None
            }),
    {
        if self.ordered_root.round < qc.commit_info().round {
            if qc.ends_epoch() {
                Some(Some(qc.signed_ledger_info.clone()))
            } else {
                Some(None)
            }
        } else {
            None
        }
    }

    /// What `ordered_cert` leads to. The block that it orders is expected in the store.
    pub fn insert_ordered_cert(&self, ordered_cert: &LedgerInfoWithSignatures) -> (insertion:
        Result<OrderedInsertion, SyncError>)
        ensures
            insertion == (if self.ordered_root.round < ordered_cert.commit_info.round {
                if crate::block_store::find_block(
                    self.blocks@,
                    ordered_cert.commit_info.id,
                ) is Some {
                    Ok(OrderedInsertion::Execute)
                } else {
                    Err(SyncError::OrderedBlockNotFound)
                }
            } else {
                Ok(OrderedInsertion::Late)
            }),
    {
        if self.ordered_root.round < ordered_cert.commit_info.round {
            if self.block_exists(ordered_cert.commit_info.id) {
                Ok(OrderedInsertion::Execute)
            } else {
                Err(SyncError::OrderedBlockNotFound)
            }
        } else {
            Ok(OrderedInsertion::Late)
        }
    }

    /// What the highest commit of a peer leads to. A sync starts from the commit at
    /// `sync_from_round` where blocks lack their randomness from there on, and else from the
    /// node's own highest commit.
    pub fn sync_to_highest_commit_cert(
        &self,
        ledger_info: &LedgerInfoWithSignatures,
        has_missing_randomness: bool,
        sync_from_round: Option<Round>,
        highest_commit_round: Round,
    ) -> (sync: CommitSync)
        ensures
            sync == ({
                let info = ledger_info.commit_info;
                let held = crate::block_store::find_block(self.blocks@, info.id) is Some;
                let from = match sync_from_round {
                    Some(round) => round,
                    None => highest_commit_round,
                };
                if self.commit_root.round < info.round <= self.ordered_root.round && held
                    && !has_missing_randomness {
                    CommitSync::SendCommitProof
                } else if (self.ordered_root.round < info.round && !held || has_missing_randomness)
                    && from < info.round {
                    CommitSync::FastForward
                } else {
                    CommitSync::Nothing
                }
            }),
    {
        let info = &ledger_info.commit_info;
        let held = self.block_exists(info.id);
        if self.commit_root.round < info.round && held && self.ordered_root.round >= info.round
            && !has_missing_randomness {
            return CommitSync::SendCommitProof;
        }
        if (self.ordered_root.round < info.round && !held) || has_missing_randomness {
            let from: u64 = match sync_from_round {
                Some(round) => round,
                None => highest_commit_round,
            };
            if from >= info.round {
                return CommitSync::Nothing;
            }
            return CommitSync::FastForward;
        }
        CommitSync::Nothing
    }

    /// What the highest certified block of a peer leads to.
    pub fn sync_to_highest_quorum_cert(
        &self,
        highest_quorum_cert: &QuorumCert,
        highest_commit_cert: &LedgerInfoWithSignatures,
    ) -> (sync: QuorumSync)
        ensures
            sync == (if self.ordered_root.round < highest_quorum_cert.vote_data.proposed.round
                && crate::block_store::find_block(
                self.blocks@,
                highest_quorum_cert.vote_data.proposed.id,
            ) is None {
                QuorumSync::FastForward {
                    announce: if highest_commit_cert.ends() {
                        Some(highest_quorum_cert.signed_ledger_info)
                    } else {
                        None
                    },
                }
            } else {
                QuorumSync::Nothing
            }),
    {
        if !self.need_sync_to_highest_quorum_cert(highest_quorum_cert) {
            return QuorumSync::Nothing;
        }
        QuorumSync::FastForward {
            announce: if highest_commit_cert.ends_epoch() {
                Some(highest_quorum_cert.signed_ledger_info.clone())
            } else {
                None
            },
        }
    }

    /// Begins to fetch what the store lacks to hold `qc`.
    pub fn fetch_quorum_cert(&self, qc: Arc<QuorumCert>) -> (begun: (CertFetch, CertFetchStep))
        ensures
            begun.0.qc == qc,
            begun.0.next == qc,
            begun.0.pending@.len() == 0,
            begun.0.wf(),
            begun.0.goes_on_with(*self, begun.1),
    {
        let fetch = CertFetch { next: qc.clone(), qc, pending: Vec::new() };
        let step = fetch.next_step(self);
        (fetch, step)
    }
}

/// The ancestors of a certified block that are being fetched, one by one.
pub struct CertFetch {
    pub qc: Arc<QuorumCert>,
    /// The certificate of the next block to fetch.
    pub next: Arc<QuorumCert>,
    /// The blocks that were fetched, newest first.
    pub pending: Vec<BlockWithRandomness>,
}

/// A step in putting fetched blocks into the store.
#[derive(Debug)]
pub enum InsertStep {
    InsertQuorumCert(Arc<QuorumCert>),
    InsertBlock(Arc<Block>),
    /// Give the block its random seed, and save the seed under the number of the block.
    SetRandomness { block: Arc<Block>, block_number: u64, seed: Arc<Vec<u8>> },
    /// Give up: a block has a random seed but no number.
    MissingBlockNumber { id: HashValue },
}

/// What fetching a certificate takes next.
#[derive(Debug)]
pub enum CertFetchStep {
    /// Retrieve the block with this identifier.
    Retrieve(HashValue),
    /// Nothing is left to retrieve: put the blocks and the certificate into the store.
    Insert(Vec<InsertStep>),
}

/// The steps that put `block` into the store: the certificate of its parent, and the block.
pub open spec fn insert_block_steps(block: Arc<Block>) -> Seq<InsertStep> {
    seq![InsertStep::InsertQuorumCert(block.quorum_cert), InsertStep::InsertBlock(block)]
}

/// The steps that put `pending` and then `qc` into the store: oldest block first, the certificate
/// of its parent before the block, up to the first block that has a seed but no number.
pub open spec fn insertion_plan(pending: Seq<BlockWithRandomness>, qc: Arc<QuorumCert>) -> Seq<
    InsertStep,
>
    decreases pending.len(),
{
    if pending.len() == 0 {
        seq![InsertStep::InsertQuorumCert(qc)]
    } else {
        let (block, seed) = pending.last();
        let head = insert_block_steps(block);
        match seed {
            None => head + insertion_plan(pending.drop_last(), qc),
            Some(seed) => match block.block_number {
                None => head.push(InsertStep::MissingBlockNumber { id: block.id }),
                Some(block_number) => head.push(
                    InsertStep::SetRandomness { block, block_number, seed },
                ) + insertion_plan(pending.drop_last(), qc),
            },
        }
    }
}

impl CertFetch {
    /// Whether the next block to fetch is the parent of the last one.
    pub open spec fn wf(self) -> bool {
        self.next == (if self.pending@.len() == 0 {
            self.qc
        } else {
            self.pending@.last().0.quorum_cert
        })
    }

    /// Whether `step` is what the fetch takes next: to retrieve the next block, and, once the
    /// store holds that, to insert what was fetched.
    pub open spec fn goes_on_with(self, store: BlockStore, step: CertFetchStep) -> bool {
        let id = self.next.vote_data.proposed.id;
        match step {
            CertFetchStep::Retrieve(wanted) => crate::block_store::find_block(store.blocks@, id)
                is None && wanted == id,
            CertFetchStep::Insert(steps) => crate::block_store::find_block(store.blocks@, id)
                is Some && steps@ == insertion_plan(self.pending@, self.qc),
        }
    }

    fn next_step(&self, store: &BlockStore) -> (step: CertFetchStep)
        ensures
            self.goes_on_with(*store, step),
    {
        let id = self.next.certified_block().id;
        if store.block_exists(id) {
            CertFetchStep::Insert(self.insertions())
        } else {
            CertFetchStep::Retrieve(id)
        }
    }

    /// Takes what came of retrieving the next block. Where that failed, the fetch fails with the
    /// same error, and nothing is inserted, not even what was retrieved before. Where no block
    /// came, what was retrieved before is inserted as it is.
    pub fn on_retrieved(
        &mut self,
        store: &BlockStore,
        retrieved: Result<Vec<BlockWithRandomness>, FetchError>,
    ) -> (step: Result<CertFetchStep, FetchError>)
        requires
            old(self).wf(),
        ensures
            final(self).wf(),
            final(self).qc == old(self).qc,
            match retrieved {
                Err(e) => {
                    &&& step == Err::<CertFetchStep, FetchError>(e)
                    &&& *final(self) == *old(self)
                },
                Ok(blocks) => if blocks@.len() == 0 {
                    &&& *final(self) == *old(self)
                    &&& step matches Ok(CertFetchStep::Insert(steps)) && steps@ == insertion_plan(
                        old(self).pending@,
                        old(self).qc,
                    )
                } else {
                    &&& final(self).pending@ == old(self).pending@.push(blocks@[0])
                    &&& step matches Ok(step) && final(self).goes_on_with(*store, step)
                },
            },
    {
        match retrieved {
            Err(e) => Err(e),
            Ok(mut blocks) => {
                if blocks.len() == 0 {
                    return Ok(CertFetchStep::Insert(self.insertions()));
                }
                let block = blocks.remove(0);
                self.next = block.0.quorum_cert.clone();
                self.pending.push(block);
                Ok(self.next_step(store))
            },
        }
    }

    /// The steps that put the fetched blocks, and then the certificate, into the store.
    fn insertions(&self) -> (steps: Vec<InsertStep>)
        ensures
            steps@ == insertion_plan(self.pending@, self.qc),
    {
        let mut steps: Vec<InsertStep> = Vec::new();
        let mut i: usize = self.pending.len();
        assert(self.pending@.take(i as int) =~= self.pending@);
        while i > 0
            invariant
                i <= self.pending.len(),
                steps@ + insertion_plan(self.pending@.take(i as int), self.qc) == insertion_plan(
                    self.pending@,
                    self.qc,
                ),
            decreases i,
        {
            let ghost before = steps@;
            let ghost rest = insertion_plan(self.pending@.take(i - 1), self.qc);
            assert(self.pending@.take(i as int).drop_last() =~= self.pending@.take(i - 1));
            assert(self.pending@.take(i as int).last() == self.pending@[i - 1]);
            i -= 1;
            let block = self.pending[i].0.clone();
            let ghost head = insert_block_steps(block);
            steps.push(InsertStep::InsertQuorumCert(block.quorum_cert.clone()));
            steps.push(InsertStep::InsertBlock(block.clone()));
            assert(steps@ =~= before + head);
            match &self.pending[i].1 {
                None => {
                    assert(steps@ + rest =~= before + (head + rest));
                },
                Some(seed) => match block.block_number {
                    None => {
                        steps.push(InsertStep::MissingBlockNumber { id: block.id });
                        assert(steps@ =~= before + head.push(
                            InsertStep::MissingBlockNumber { id: block.id },
                        ));
                        return steps;
                    },
                    Some(block_number) => {
                        let step = InsertStep::SetRandomness {
                            block,
                            block_number,
                            seed: seed.clone(),
                        };
                        let ghost step_ = step;
                        steps.push(step);
                        assert(steps@ + rest =~= before + (head.push(step_) + rest));
                    },
                },
            }
        }
        steps.push(InsertStep::InsertQuorumCert(self.qc.clone()));
        assert(self.pending@.take(0) =~= Seq::<BlockWithRandomness>::empty());
        steps
    }
}

} // verus!
