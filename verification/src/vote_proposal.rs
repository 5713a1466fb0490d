//! What the safety rules need to vote for a block.

use crate::consensus_types::{Block, VoteData};
use crate::types::HashValue;
use crate::validators::EpochState;
use std::sync::Arc;
use vstd::prelude::*;

verus! {

/// Everything that the safety rules look at to judge a block and to vote for it.
#[derive(Debug)]
pub struct VoteProposal {
    /// The block to judge.
    pub block: Arc<Block>,
    /// The epoch that the block starts, if it starts one.
    pub next_epoch_state: Option<EpochState>,
    /// The state after the block, to be voted for.
    pub executed_state_id: HashValue,
    /// The version of that state.
    pub executed_state_version: u64,
    /// Whether blocks are ordered before they are executed.
    pub decoupled_execution: bool,
}

/// Why there is nothing to vote for.
#[derive(Debug, Clone, Copy, PartialEq, Eq, Structural)]
pub enum VoteProposalError {
    /// Blocks are executed before they are ordered, and there is no proof of the execution.
    MissingExtensionProof,
}

impl VoteProposal {
    pub fn new(
        block: Arc<Block>,
        next_epoch_state: Option<EpochState>,
        executed_state_id: HashValue,
        executed_state_version: u64,
        decoupled_execution: bool,
    ) -> (proposal: Self)
        ensures
            proposal == (VoteProposal {
                block,
                next_epoch_state,
                executed_state_id,
                executed_state_version,
                decoupled_execution,
            }),
    {
        VoteProposal {
            block,
            next_epoch_state,
            executed_state_id,
            executed_state_version,
            decoupled_execution,
        }
    }

    pub fn block(&self) -> (block: &Arc<Block>)
        ensures
            *block == self.block,
    {
        &self.block
    }

    pub fn next_epoch_state(&self) -> (state: Option<&EpochState>)
        ensures
            match state {
                Some(state) => self.next_epoch_state == Some(*state),
                None => self.next_epoch_state is None,
            },
    {
        match &self.next_epoch_state {
            Some(state) => Some(state),
            None => None,
        }
    }

    /// The vote for the block with the state `root_hash` at `version`: the block extends the one
    /// that its certificate is for.
    pub open spec fn vote_data(&self, root_hash: HashValue, version: u64) -> VoteData {
        VoteData {
            proposed: self.block.block_info(root_hash, version, self.next_epoch_state),
            parent: self.block.quorum_cert.vote_data.proposed,
        }
    }

    /// The vote for the block with the state that the proposal names.
    fn vote_data_ordering_only(&self) -> (data: VoteData)
        ensures
            data == self.vote_data(self.executed_state_id, self.executed_state_version),
    {
        self.vote_data_with_extension_proof(self.executed_state_id, self.executed_state_version)
    }

    /// The vote for the block with the state `root_hash` at `version`, which an accumulator shows to
    /// extend the state of its parent. That it does is not looked at here.
    pub fn vote_data_with_extension_proof(&self, root_hash: HashValue, version: u64) -> (data:
        VoteData)
        ensures
            data == self.vote_data(root_hash, version),
    {
        let next_epoch_state = match &self.next_epoch_state {
            Some(state) => Some(state.clone()),
            None => None,
        };
        VoteData::new(
            self.block.gen_block_info(root_hash, version, next_epoch_state),
            self.block.quorum_cert.certified_block().clone(),
        )
    }

    /// The vote for the block, where blocks are ordered before they are executed.
    pub fn gen_vote_data(&self) -> (data: Result<VoteData, VoteProposalError>)
        ensures
            data == (if self.decoupled_execution {
                Ok(self.vote_data(self.executed_state_id, self.executed_state_version))
            } else {
                Err(VoteProposalError::MissingExtensionProof)
            }),
    {
        if self.decoupled_execution {
            Ok(self.vote_data_ordering_only())
        } else {
            Err(VoteProposalError::MissingExtensionProof)
        }
    }
}

/// A vote says of the block what the block says, with the state that is voted for and the epoch that
/// the proposal says the block starts, and of its parent what the certificate in the block says.
pub proof fn votes_are_for_the_block_and_its_state(
    proposal: VoteProposal,
    root_hash: HashValue,
    version: u64,
)
    ensures
        ({
            let vote = proposal.vote_data(root_hash, version);
            &&& vote.proposed.epoch == proposal.block.epoch
            &&& vote.proposed.round == proposal.block.round
            &&& vote.proposed.id == proposal.block.id
            &&& vote.proposed.timestamp_usecs == proposal.block.timestamp_usecs
            &&& vote.proposed.executed_state_id == root_hash
            &&& vote.proposed.version == version
            &&& vote.proposed.next_epoch_state == proposal.next_epoch_state
            &&& vote.parent == proposal.block.quorum_cert.vote_data.proposed
            &&& vote.parent.id == proposal.block.parent()
        }),
{
}

} // verus!
