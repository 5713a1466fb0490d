//! The blocks and certificates that a node holds in memory.

use crate::consensus_types::{Block, LedgerInfoWithSignatures, QuorumCert};
use crate::types::{HashValue, Round};
use std::sync::Arc;
use vstd::prelude::*;

verus! {

/// A block that the tree in memory hangs from.
#[derive(Debug, Clone, Copy)]
pub struct RootInfo {
    pub epoch: u64,
    pub round: Round,
    pub id: HashValue,
}

/// What a node holds in memory of the chain.
pub struct BlockStore {
    pub blocks: Vec<Arc<Block>>,
    pub quorum_certs: Vec<Arc<QuorumCert>>,
    /// The last block that was ordered.
    pub ordered_root: RootInfo,
    /// The last block that was committed.
    pub commit_root: RootInfo,
    pub vote_back_pressure_limit: Round,
    pub order_vote_enabled: bool,
    pub is_validator: bool,
}

/// Whether a block has to be fetched before a certificate for it can be kept.
#[derive(Debug, Clone, Copy, PartialEq, Eq, Structural)]
pub enum NeedFetchResult {
    /// The certified block is older than the last ordered one.
    QCRoundBeforeRoot,
    /// The certificate is there already.
    QCAlreadyExist,
    /// The certified block is there.
    QCBlockExist,
    /// Neither is there.
    NeedFetch,
}

/// The first of `blocks` with the identifier `id`.
pub open spec fn find_block(blocks: Seq<Arc<Block>>, id: HashValue) -> Option<Arc<Block>>
    decreases blocks.len(),
{
    if blocks.len() == 0 {
        None
    } else if blocks[0].id == id {
        Some(blocks[0])
    } else {
        find_block(blocks.skip(1), id)
    }
}

/// The first of `quorum_certs` that certifies the block `id`.
pub open spec fn find_cert(quorum_certs: Seq<Arc<QuorumCert>>, id: HashValue) -> Option<
    Arc<QuorumCert>,
>
    decreases quorum_certs.len(),
{
    if quorum_certs.len() == 0 {
        None
    } else if quorum_certs[0].vote_data.proposed.id == id {
        Some(quorum_certs[0])
    } else {
        find_cert(quorum_certs.skip(1), id)
    }
}

/// A block is found under an identifier exactly where one of the blocks has it.
pub proof fn find_block_finds(blocks: Seq<Arc<Block>>, id: HashValue)
    ensures
        find_block(blocks, id) is Some <==> exists|i: int|
            0 <= i < blocks.len() && (#[trigger] blocks[i]).id == id,
        find_block(blocks, id) matches Some(block) ==> block.id == id && blocks.contains(block),
    decreases blocks.len(),
{
    if blocks.len() > 0 {
        if blocks[0].id == id {
            assert(blocks.contains(blocks[0]));
        } else {
            let rest = blocks.skip(1);
            find_block_finds(rest, id);
            if exists|i: int| 0 <= i < blocks.len() && (#[trigger] blocks[i]).id == id {
                let i = choose|i: int| 0 <= i < blocks.len() && (#[trigger] blocks[i]).id == id;
                assert(rest[i - 1] == blocks[i]);
            }
            if let Some(block) = find_block(rest, id) {
                let i = rest.index_of(block);
                assert(blocks[i + 1] == block);
            }
        }
    }
}

/// A certificate is found for a block exactly where one of the certificates is for it.
pub proof fn find_cert_finds(quorum_certs: Seq<Arc<QuorumCert>>, id: HashValue)
    ensures
        find_cert(quorum_certs, id) is Some <==> exists|i: int|
            0 <= i < quorum_certs.len() && (#[trigger] quorum_certs[i]).vote_data.proposed.id == id,
        find_cert(quorum_certs, id) matches Some(qc) ==> qc.vote_data.proposed.id == id
            && quorum_certs.contains(qc),
    decreases quorum_certs.len(),
{
    if quorum_certs.len() > 0 {
        if quorum_certs[0].vote_data.proposed.id == id {
            assert(quorum_certs.contains(quorum_certs[0]));
        } else {
            let rest = quorum_certs.skip(1);
            find_cert_finds(rest, id);
            if exists|i: int|
                0 <= i < quorum_certs.len() && (#[trigger] quorum_certs[i]).vote_data.proposed.id
                    == id {
                let i = choose|i: int|
                    0 <= i < quorum_certs.len() && (
                    #[trigger] quorum_certs[i]).vote_data.proposed.id == id;
                assert(rest[i - 1] == quorum_certs[i]);
            }
            if let Some(qc) = find_cert(rest, id) {
                let i = rest.index_of(qc);
                assert(quorum_certs[i + 1] == qc);
            }
        }
    }
}

/// Of several blocks with an identifier, the first is found.
pub proof fn the_first_block_is_found(blocks: Seq<Arc<Block>>, id: HashValue, i: int)
    requires
        0 <= i < blocks.len(),
        blocks[i].id == id,
        forall|j: int| 0 <= j < i ==> (#[trigger] blocks[j]).id != id,
    ensures
        find_block(blocks, id) == Some(blocks[i]),
    decreases i,
{
    if i > 0 {
        let rest = blocks.skip(1);
        assert(blocks[0].id != id);
        assert forall|j: int| 0 <= j < i - 1 implies (#[trigger] rest[j]).id != id by {
            assert(rest[j] == blocks[j + 1]);
        }
        the_first_block_is_found(rest, id, i - 1);
    }
}

/// Of several certificates for a block, the first is found.
pub proof fn the_first_cert_is_found(quorum_certs: Seq<Arc<QuorumCert>>, id: HashValue, i: int)
    requires
        0 <= i < quorum_certs.len(),
        quorum_certs[i].vote_data.proposed.id == id,
        forall|j: int| 0 <= j < i ==> (#[trigger] quorum_certs[j]).vote_data.proposed.id != id,
    ensures
        find_cert(quorum_certs, id) == Some(quorum_certs[i]),
    decreases i,
{
    if i > 0 {
        let rest = quorum_certs.skip(1);
        assert(quorum_certs[0].vote_data.proposed.id != id);
        assert forall|j: int| 0 <= j < i - 1 implies (#[trigger] rest[j]).vote_data.proposed.id
            != id by {
            assert(rest[j] == quorum_certs[j + 1]);
        }
        the_first_cert_is_found(rest, id, i - 1);
    }
}

impl BlockStore {
    pub fn get_block(&self, id: HashValue) -> (block: Option<Arc<Block>>)
        ensures
            block == find_block(self.blocks@, id),
    {
        let mut i: usize = 0;
        assert(self.blocks@.skip(0) =~= self.blocks@);
        while i < self.blocks.len()
            invariant
                i <= self.blocks.len(),
                find_block(self.blocks@, id) == find_block(self.blocks@.skip(i as int), id),
            decreases self.blocks.len() - i,
        {
            assert(self.blocks@.skip(i as int).skip(1) =~= self.blocks@.skip(i + 1));
            if self.blocks[i].id == id {
                return Some(self.blocks[i].clone());
            }
            i += 1;
        }
        None
    }

    pub fn block_exists(&self, id: HashValue) -> (exists_: bool)
        ensures
            exists_ == (find_block(self.blocks@, id) is Some),
    {
        self.get_block(id).is_some()
    }

    pub fn get_quorum_cert_for_block(&self, id: HashValue) -> (cert: Option<Arc<QuorumCert>>)
        ensures
            cert == find_cert(self.quorum_certs@, id),
    {
        let mut i: usize = 0;
        assert(self.quorum_certs@.skip(0) =~= self.quorum_certs@);
        while i < self.quorum_certs.len()
            invariant
                i <= self.quorum_certs.len(),
                find_cert(self.quorum_certs@, id) == find_cert(
                    self.quorum_certs@.skip(i as int),
                    id,
                ),
            decreases self.quorum_certs.len() - i,
        {
            assert(self.quorum_certs@.skip(i as int).skip(1) =~= self.quorum_certs@.skip(i + 1));
            if self.quorum_certs[i].vote_data.proposed.id == id {
                return Some(self.quorum_certs[i].clone());
            }
            i += 1;
        }
        None
    }

    /// Whether the node is too far behind `li` to reach it block by block: the committed block is
    /// not there and newer than the last ordered one, or the gap to the last committed one is
    /// larger than the gap that voting tolerates.
    pub fn need_sync_for_ledger_info(&self, li: &LedgerInfoWithSignatures) -> (need: bool)
        ensures
            need == ({
                let info = li.commit_info;
                ||| self.ordered_root.round < info.round && find_block(
                    self.blocks@,
                    info.id,
                ) is None
                ||| self.commit_root.round + (if 2 * self.vote_back_pressure_limit > 30 {
                    2 * self.vote_back_pressure_limit
                } else {
                    30
                }) < info.round
            }),
    {
        let double: u128 = 2 * self.vote_back_pressure_limit as u128;
        let gap: u128 = if double > 30 {
            double
        } else {
            30
        };
        (self.ordered_root.round < li.commit_info.round && !self.block_exists(li.commit_info.id))
            || self.commit_root.round as u128 + gap < li.commit_info.round as u128
    }

    /// Whether the block that `hqc` certifies is newer than the last ordered one, and not there.
    pub fn need_sync_to_highest_quorum_cert(&self, hqc: &QuorumCert) -> (need: bool)
        ensures
            need == (self.ordered_root.round < hqc.vote_data.proposed.round && find_block(
                self.blocks@,
                hqc.vote_data.proposed.id,
            ) is None),
    {
        self.ordered_root.round < hqc.certified_block().round && !self.block_exists(
            hqc.certified_block().id,
        )
    }

    /// What stands between `qc` and the store.
    pub open spec fn need_fetch(self, qc: QuorumCert) -> NeedFetchResult {
        let info = qc.vote_data.proposed;
        if info.round < self.ordered_root.round {
            NeedFetchResult::QCRoundBeforeRoot
        } else if find_cert(self.quorum_certs@, info.id) is Some {
            NeedFetchResult::QCAlreadyExist
        } else if find_block(self.blocks@, info.id) is Some {
            NeedFetchResult::QCBlockExist
        } else {
            NeedFetchResult::NeedFetch
        }
    }

    /// Whether `qc` can be kept without asking a peer for blocks, and if so how.
    pub fn need_fetch_for_quorum_cert(&self, qc: &QuorumCert) -> (result: NeedFetchResult)
        ensures
            result == self.need_fetch(*qc),
    {
        if qc.certified_block().round < self.ordered_root.round {
            return NeedFetchResult::QCRoundBeforeRoot;
        }
        if self.get_quorum_cert_for_block(qc.certified_block().id).is_some() {
            return NeedFetchResult::QCAlreadyExist;
        }
        if self.block_exists(qc.certified_block().id) {
            return NeedFetchResult::QCBlockExist;
        }
        NeedFetchResult::NeedFetch
    }
}

} // verus!
