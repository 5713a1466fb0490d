//! Blocks, the certificates that order and commit them, and the requests that fetch them.

use crate::types::{AccountAddress, Author, HashValue, Round};
use crate::validators::EpochState;
use std::sync::Arc;
use vstd::prelude::*;

verus! {

/// What a certificate says of a block.
#[derive(Debug)]
pub struct BlockInfo {
    pub epoch: u64,
    pub round: Round,
    pub id: HashValue,
    pub executed_state_id: HashValue,
    pub version: u64,
    pub timestamp_usecs: u64,
    /// The epoch that the block starts, if it ends the one that it is in.
    pub next_epoch_state: Option<EpochState>,
}

impl Clone for BlockInfo {
    fn clone(&self) -> (copy: BlockInfo)
        ensures
            copy == *self,
    {
        BlockInfo {
            epoch: self.epoch,
            round: self.round,
            id: self.id,
            executed_state_id: self.executed_state_id,
            version: self.version,
            timestamp_usecs: self.timestamp_usecs,
            next_epoch_state: match &self.next_epoch_state {
                Some(state) => Some(state.clone()),
                None => None,
            },
        }
    }
}

/// What a vote is about: a block, and the block that it extends.
#[derive(Debug)]
pub struct VoteData {
    pub proposed: BlockInfo,
    pub parent: BlockInfo,
}

impl VoteData {
    pub fn new(proposed: BlockInfo, parent: BlockInfo) -> (data: Self)
        ensures
            data.proposed == proposed,
            data.parent == parent,
    {
        VoteData { proposed, parent }
    }
}

/// A commitment to a block, with the signatures of those who agreed to it.
#[derive(Debug)]
pub struct LedgerInfoWithSignatures {
    pub commit_info: BlockInfo,
    pub consensus_data_hash: HashValue,
    pub signatures: Vec<u8>,
}

impl LedgerInfoWithSignatures {
    /// Whether the committed block ends its epoch.
    pub open spec fn ends(self) -> bool {
        self.commit_info.next_epoch_state is Some
    }

    pub fn ends_epoch(&self) -> (ends: bool)
        ensures
            ends == self.ends(),
    {
        self.commit_info.next_epoch_state.is_some()
    }
}

/// A certificate that a quorum voted for a block.
#[derive(Debug)]
pub struct QuorumCert {
    pub vote_data: VoteData,
    pub signed_ledger_info: Arc<LedgerInfoWithSignatures>,
}

impl QuorumCert {
    /// The block that the certificate is for.
    pub fn certified_block(&self) -> (info: &BlockInfo)
        ensures
            *info == self.vote_data.proposed,
    {
        &self.vote_data.proposed
    }

    /// The block that the certificate commits.
    pub fn commit_info(&self) -> (info: &BlockInfo)
        ensures
            *info == self.signed_ledger_info.commit_info,
    {
        &self.signed_ledger_info.commit_info
    }

    /// Whether the committed block ends its epoch.
    pub fn ends_epoch(&self) -> (ends: bool)
        ensures
            ends == self.signed_ledger_info.ends(),
    {
        self.signed_ledger_info.ends_epoch()
    }
}

/// The transactions that a block proposes.
#[derive(Debug)]
pub struct Payload {
    /// The number of transactions.
    pub len: usize,
    /// The number of transactions that are to be executed.
    pub len_for_execution: u64,
    pub data: Vec<u8>,
}

/// Which run of distributed key generation a transcript belongs to, and who dealt it.
#[derive(Debug, Clone, Copy)]
pub struct DKGTranscriptMetadata {
    pub epoch: u64,
    pub author: AccountAddress,
}

/// The transcript of a run of distributed key generation.
#[derive(Debug)]
pub struct DKGTranscript {
    pub metadata: DKGTranscriptMetadata,
    pub transcript_bytes: Vec<u8>,
}

/// A key of an identity provider, as far as it could be read.
#[derive(Debug)]
pub enum ObservedJWK {
    /// The key could not be parsed.
    Unreadable,
    /// An RSA key in its JSON form, if it could be written in that form.
    RSA(Option<Vec<u8>>),
    /// A key of another kind, as it came.
    Unsupported(Vec<u8>),
}

/// The keys of an identity provider.
#[derive(Debug)]
pub struct ProviderJWKs {
    pub issuer: Vec<u8>,
    pub version: u64,
    pub jwks: Vec<ObservedJWK>,
}

/// A transaction that validators put into a block themselves.
#[derive(Debug)]
pub enum ValidatorTransaction {
    DKGResult(DKGTranscript),
    ObservedJWKUpdate(ProviderJWKs),
}

/// A block of the consensus chain.
#[derive(Debug)]
pub struct Block {
    pub id: HashValue,
    pub epoch: u64,
    pub round: Round,
    /// Who proposed the block; nobody where it fills a round that failed.
    pub author: Option<Author>,
    pub timestamp_usecs: u64,
    /// The certificate of the block that this one extends.
    pub quorum_cert: Arc<QuorumCert>,
    pub block_number: Option<u64>,
    pub payload: Option<Payload>,
    pub validator_txns: Option<Vec<ValidatorTransaction>>,
}

impl Block {
    /// The identifier of the block that this one extends.
    pub open spec fn parent(&self) -> HashValue {
        self.quorum_cert.vote_data.proposed.id
    }

    pub fn parent_id(&self) -> (id: HashValue)
        ensures
            id == self.parent(),
    {
        self.quorum_cert.vote_data.proposed.id
    }

    /// The number of the block, or zero where it has none yet.
    pub open spec fn number_or_zero(self) -> u64 {
        match self.block_number {
            Some(number) => number,
            None => 0,
        }
    }

    /// What a certificate says of the block once its execution is known.
    pub open spec fn block_info(
        self,
        executed_state_id: HashValue,
        version: u64,
        next_epoch_state: Option<EpochState>,
    ) -> BlockInfo {
        BlockInfo {
            epoch: self.epoch,
            round: self.round,
            id: self.id,
            executed_state_id,
            version,
            timestamp_usecs: self.timestamp_usecs,
            next_epoch_state,
        }
    }

    pub fn gen_block_info(
        &self,
        executed_state_id: HashValue,
        version: u64,
        next_epoch_state: Option<EpochState>,
    ) -> (info: BlockInfo)
        ensures
            info == self.block_info(executed_state_id, version, next_epoch_state),
    {
        BlockInfo {
            epoch: self.epoch,
            round: self.round,
            id: self.id,
            executed_state_id,
            version,
            timestamp_usecs: self.timestamp_usecs,
            next_epoch_state,
        }
    }
}

/// A block, with the random seed that it was executed with.
pub type BlockWithRandomness = (Arc<Block>, Option<Arc<Vec<u8>>>);

/// A request for a chain of blocks, from a block back to its ancestors.
#[derive(Debug, Clone, Copy, PartialEq, Eq)]
pub struct BlockRetrievalRequest {
    pub block_id: HashValue,
    pub num_blocks: u64,
    pub target_block_id: Option<HashValue>,
    pub epoch: Option<u64>,
}

impl BlockRetrievalRequest {
    pub fn new_with_target_block_id(
        block_id: HashValue,
        num_blocks: u64,
        target_block_id: HashValue,
    ) -> (request: Self)
        ensures
            request == (BlockRetrievalRequest {
                block_id,
                num_blocks,
                target_block_id: Some(target_block_id),
                epoch: None,
            }),
    {
        BlockRetrievalRequest {
            block_id,
            num_blocks,
            target_block_id: Some(target_block_id),
            epoch: None,
        }
    }

    pub fn new_with_epoch(
        block_id: HashValue,
        num_blocks: u64,
        target_block_id: HashValue,
        epoch: u64,
    ) -> (request: Self)
        ensures
            request == (BlockRetrievalRequest {
                block_id,
                num_blocks,
                target_block_id: Some(target_block_id),
                epoch: Some(epoch),
            }),
    {
        BlockRetrievalRequest {
            block_id,
            num_blocks,
            target_block_id: Some(target_block_id),
            epoch: Some(epoch),
        }
    }

    /// Whether `id` is the block at which the chain may end.
    pub fn match_target_id(&self, id: HashValue) -> (matches: bool)
        ensures
            matches == (self.target_block_id == Some(id)),
    {
        match self.target_block_id {
            Some(target) => target == id,
            None => false,
        }
    }
}

/// How a request for blocks went.
#[derive(Debug, Clone, Copy, PartialEq, Eq, Structural)]
pub enum BlockRetrievalStatus {
    /// As many blocks as were asked for.
    Succeeded,
    /// A block of the chain is missing.
    NotEnoughBlocks,
    /// The certificate of a block of the chain is missing.
    QuorumCertNotFound,
    /// The chain reaches its target, or the beginning of the epoch.
    SucceededWithTarget,
}

/// The answer to a request for blocks.
#[derive(Debug)]
pub struct BlockRetrievalResponse {
    pub status: BlockRetrievalStatus,
    pub blocks: Vec<BlockWithRandomness>,
    pub quorum_certs: Vec<Arc<QuorumCert>>,
    pub ledger_infos: Vec<Arc<LedgerInfoWithSignatures>>,
}

} // verus!
