//! A block on its way through the execution pipeline.

use crate::consensus_types::{Block, BlockInfo, Payload, QuorumCert, ValidatorTransaction};
use crate::external::GravityEvent;
use crate::types::{HashValue, Nanos, Round};
use crate::validators::EpochState;
use crate::vote_proposal::VoteProposal;
use std::sync::Arc;
use vstd::prelude::*;

verus! {

/// A transaction that a user signed.
#[derive(Debug)]
pub struct SignedTransaction {
    pub bytes: Vec<u8>,
}

/// What is known of the state after a block was executed.
#[derive(Debug)]
pub struct ExecutedState {
    pub root_hash: HashValue,
    /// The epoch that the block starts, if it starts one.
    pub epoch_state: Option<EpochState>,
    /// The events that others can subscribe to.
    pub events: Vec<Arc<GravityEvent>>,
    /// Whether the state carries over a change of epoch.
    pub has_reconfiguration: bool,
    /// The number of transactions that were executed.
    pub txn_num: u64,
}

impl ExecutedState {
    /// Whether the state only carries over a change of epoch from the parent: it does so, and
    /// there was no transaction.
    pub open spec fn is_suffix(self) -> bool {
        self.has_reconfiguration && self.txn_num == 0
    }
}

/// How the execution of a block went.
#[derive(Debug, Clone, Copy, PartialEq, Eq)]
pub struct ExecutionSummary {
    /// The number of transactions that were to be executed.
    pub payload_len: u64,
    /// The number of transactions to commit.
    pub to_commit: u64,
    /// The number of transactions to try again.
    pub to_retry: u64,
    pub execution_time: Nanos,
    pub root_hash: HashValue,
}

/// What the execution of a block gives.
pub struct PipelineExecutionResult {
    pub input_txns: Vec<Arc<SignedTransaction>>,
    pub result: Arc<ExecutedState>,
    pub execution_time: Nanos,
}

/// Whether the summary of an execution is the first for its block, and if not whether it agrees
/// with the first.
#[derive(Debug, Clone, Copy, PartialEq, Eq, Structural)]
pub enum SummaryOutcome {
    First,
    /// The block was executed before, with the same root or before any root was known.
    Repeated,
    /// The block was executed before, with another root.
    Conflicting,
}

/// An order vote for a block.
#[derive(Debug)]
pub struct OrderVoteProposal {
    pub block: Arc<Block>,
    pub block_info: BlockInfo,
    pub quorum_cert: Arc<QuorumCert>,
}

/// A block in the pipeline: ordered, and after its execution also executed.
pub struct PipelinedBlock {
    block: Arc<Block>,
    input_transactions: Vec<Arc<SignedTransaction>>,
    state_compute_result: Arc<ExecutedState>,
    randomness: Option<Arc<Vec<u8>>>,
    pipeline_insertion_time: Option<Nanos>,
    execution_summary: Option<ExecutionSummary>,
}

/// What a block in the pipeline holds.
#[verifier::ext_equal]
pub struct PipelinedView {
    pub block: Arc<Block>,
    pub input_transactions: Seq<Arc<SignedTransaction>>,
    pub state_compute_result: Arc<ExecutedState>,
    /// The random seed; it is set once.
    pub randomness: Option<Arc<Vec<u8>>>,
    /// When the block entered the pipeline; it is set once.
    pub pipeline_insertion_time: Option<Nanos>,
    /// The summary of the first execution.
    pub execution_summary: Option<ExecutionSummary>,
}

impl View for PipelinedBlock {
    type V = PipelinedView;

    closed spec fn view(&self) -> PipelinedView {
        PipelinedView {
            block: self.block,
            input_transactions: self.input_transactions@,
            state_compute_result: self.state_compute_result,
            randomness: self.randomness,
            pipeline_insertion_time: self.pipeline_insertion_time,
            execution_summary: self.execution_summary,
        }
    }
}

/// The summary of an execution of `block`.
pub open spec fn summary_of(
    block: Block,
    result: ExecutedState,
    execution_time: Nanos,
) -> ExecutionSummary {
    ExecutionSummary {
        payload_len: match block.payload {
            Some(payload) => payload.len_for_execution,
            None => 0,
        },
        to_commit: match block.payload {
            Some(payload) => payload.len as u64,
            None => 0,
        },
        to_retry: 0,
        execution_time,
        root_hash: result.root_hash,
    }
}

impl PipelinedView {
    /// The block after an execution: the summary of the first execution stays.
    pub open spec fn executed(self, result: PipelineExecutionResult) -> PipelinedView {
        PipelinedView {
            input_transactions: result.input_txns@,
            state_compute_result: result.result,
            execution_summary: match self.execution_summary {
                Some(previous) => Some(previous),
                None => Some(summary_of(*self.block, *result.result, result.execution_time)),
            },
            ..self
        }
    }

    /// What a certificate says of the block: its number stands for the version of the state.
    pub open spec fn info(self) -> BlockInfo {
        self.block.block_info(
            self.state_compute_result.root_hash,
            self.block.number_or_zero(),
            self.state_compute_result.epoch_state,
        )
    }

    /// What the safety rules need to vote for the block.
    pub open spec fn proposal(self) -> VoteProposal {
        VoteProposal {
            block: self.block,
            next_epoch_state: self.state_compute_result.epoch_state,
            executed_state_id: self.state_compute_result.root_hash,
            executed_state_version: self.block.number_or_zero(),
            decoupled_execution: true,
        }
    }

    /// What a summary with the root `root_hash` is to the one that the block has.
    pub open spec fn outcome(self, root_hash: HashValue, placeholder: HashValue) -> SummaryOutcome {
        match self.execution_summary {
            None => SummaryOutcome::First,
            Some(previous) => if previous.root_hash == root_hash || previous.root_hash
                == placeholder {
                SummaryOutcome::Repeated
            } else {
                SummaryOutcome::Conflicting
            },
        }
    }
}

impl PipelinedBlock {
    pub fn new(
        block: Arc<Block>,
        input_transactions: Vec<Arc<SignedTransaction>>,
        state_compute_result: Arc<ExecutedState>,
    ) -> (pipelined: Self)
        ensures
            pipelined@ == (PipelinedView {
                block,
                input_transactions: input_transactions@,
                state_compute_result,
                randomness: None,
                pipeline_insertion_time: None,
                execution_summary: None,
            }),
    {
        PipelinedBlock {
            block,
            input_transactions,
            state_compute_result,
            randomness: None,
            pipeline_insertion_time: None,
            execution_summary: None,
        }
    }

    /// A block that is ordered and not executed; `dummy` stands for the state that it will have.
    pub fn new_ordered(block: Arc<Block>, dummy: Arc<ExecutedState>) -> (pipelined: Self)
        ensures
            pipelined@ == (PipelinedView {
                block,
                input_transactions: Seq::empty(),
                state_compute_result: dummy,
                randomness: None,
                pipeline_insertion_time: None,
                execution_summary: None,
            }),
    {
        let pipelined = PipelinedBlock::new(block, Vec::new(), dummy);
        assert(pipelined@.input_transactions =~= Seq::empty());
        pipelined
    }

    pub fn set_compute_result(&mut self, compute_result: Arc<ExecutedState>)
        ensures
            final(self)@ == (PipelinedView {
                state_compute_result: compute_result,
                ..old(self)@
            }),
    {
        self.state_compute_result = compute_result;
    }

    /// Takes the result of an execution. The block may have been executed before: the summary of
    /// the first execution stays. `placeholder` is the root that stands for no root.
    pub fn set_execution_result(
        self,
        pipeline_execution_result: PipelineExecutionResult,
        placeholder: HashValue,
    ) -> (executed: (Self, SummaryOutcome))
        ensures
            executed.0@ == self@.executed(pipeline_execution_result),
            executed.1 == self@.outcome(pipeline_execution_result.result.root_hash, placeholder),
    {
        let PipelineExecutionResult { input_txns, result, execution_time } =
            pipeline_execution_result;
        let mut block = self;
        let (payload_len, to_commit): (u64, u64) = match &block.block.payload {
            Some(payload) => (payload.len_for_execution, payload.len as u64),
            None => (0, 0),
        };
        let execution_summary = ExecutionSummary {
            payload_len,
            to_commit,
            to_retry: 0,
            execution_time,
            root_hash: result.root_hash,
        };
        block.state_compute_result = result;
        block.input_transactions = input_txns;
        let outcome = match block.execution_summary {
            None => {
                block.execution_summary = Some(execution_summary);
                SummaryOutcome::First
            },
            Some(previous) => if previous.root_hash == execution_summary.root_hash
                || previous.root_hash == placeholder {
                SummaryOutcome::Repeated
            } else {
                SummaryOutcome::Conflicting
            },
        };
        (block, outcome)
    }

    /// Sets the random seed of the block, which has none yet.
    pub fn set_randomness(&mut self, randomness: Arc<Vec<u8>>)
        requires
            old(self)@.randomness is None,
        ensures
            final(self)@ == (PipelinedView { randomness: Some(randomness), ..old(self)@ }),
    {
        self.randomness = Some(randomness);
    }

    /// Notes when the block entered the pipeline, which was not noted yet.
    pub fn set_insertion_time(&mut self, now: Nanos)
        requires
            old(self)@.pipeline_insertion_time is None,
        ensures
            final(self)@ == (PipelinedView { pipeline_insertion_time: Some(now), ..old(self)@ }),
    {
        self.pipeline_insertion_time = Some(now);
    }

    /// How long the block has been in the pipeline.
    pub fn elapsed_in_pipeline(&self, now: Nanos) -> (elapsed: Option<Nanos>)
        ensures
            elapsed == (match self@.pipeline_insertion_time {
                Some(then) => Some(
                    if now > then {
                        (now - then) as u128
                    } else {
                        0
                    },
                ),
                None => None,
            }),
    {
        match self.pipeline_insertion_time {
            Some(inserted) => if now > inserted {
                Some(now - inserted)
            } else {
                Some(0)
            },
            None => None,
        }
    }

    pub fn block(&self) -> (block: &Arc<Block>)
        ensures
            *block == self@.block,
    {
        &self.block
    }

    pub fn id(&self) -> (id: HashValue)
        ensures
            id == self@.block.id,
    {
        self.block.id
    }

    pub fn input_transactions(&self) -> (txns: &Vec<Arc<SignedTransaction>>)
        ensures
            txns@ == self@.input_transactions,
    {
        &self.input_transactions
    }

    pub fn epoch(&self) -> (epoch: u64)
        ensures
            epoch == self@.block.epoch,
    {
        self.block.epoch
    }

    pub fn payload(&self) -> (payload: Option<&Payload>)
        ensures
            match payload {
                Some(payload) => self@.block.payload == Some(*payload),
                None => self@.block.payload is None,
            },
    {
        match &self.block.payload {
            Some(payload) => Some(payload),
            None => None,
        }
    }

    pub fn parent_id(&self) -> (id: HashValue)
        ensures
            id == self@.block.parent(),
    {
        self.block.parent_id()
    }

    pub fn quorum_cert(&self) -> (quorum_cert: &Arc<QuorumCert>)
        ensures
            *quorum_cert == self@.block.quorum_cert,
    {
        &self.block.quorum_cert
    }

    pub fn round(&self) -> (round: Round)
        ensures
            round == self@.block.round,
    {
        self.block.round
    }

    pub fn validator_txns(&self) -> (txns: Option<&Vec<ValidatorTransaction>>)
        ensures
            match txns {
                Some(txns) => self@.block.validator_txns == Some(*txns),
                None => self@.block.validator_txns is None,
            },
    {
        match &self.block.validator_txns {
            Some(txns) => Some(txns),
            None => None,
        }
    }

    pub fn timestamp_usecs(&self) -> (usecs: u64)
        ensures
            usecs == self@.block.timestamp_usecs,
    {
        self.block.timestamp_usecs
    }

    pub fn compute_result(&self) -> (result: &Arc<ExecutedState>)
        ensures
            *result == self@.state_compute_result,
    {
        &self.state_compute_result
    }

    pub fn randomness(&self) -> (randomness: Option<Arc<Vec<u8>>>)
        ensures
            randomness == self@.randomness,
    {
        match &self.randomness {
            Some(randomness) => Some(randomness.clone()),
            None => None,
        }
    }

    pub fn has_randomness(&self) -> (has: bool)
        ensures
            has == (self@.randomness is Some),
    {
        self.randomness.is_some()
    }

    /// The epoch that the execution of the block starts, if it starts one.
    fn next_epoch_state(&self) -> (state: Option<EpochState>)
        ensures
            state == self@.state_compute_result.epoch_state,
    {
        match &self.state_compute_result.epoch_state {
            Some(state) => Some(state.clone()),
            None => None,
        }
    }

    /// What a certificate says of the block: its number stands for the version of the state.
    pub fn block_info(&self) -> (info: BlockInfo)
        ensures
            info == self@.info(),
    {
        let version: u64 = match self.block.block_number {
            Some(number) => number,
            None => 0,
        };
        self.block.gen_block_info(
            self.state_compute_result.root_hash,
            version,
            self.next_epoch_state(),
        )
    }

    /// What the safety rules need to vote for the block.
    pub fn vote_proposal(&self) -> (proposal: VoteProposal)
        ensures
            proposal == self@.proposal(),
    {
        let version: u64 = match self.block.block_number {
            Some(number) => number,
            None => 0,
        };
        VoteProposal::new(
            self.block.clone(),
            self.next_epoch_state(),
            self.state_compute_result.root_hash,
            version,
            true,
        )
    }

    pub fn order_vote_proposal(&self, quorum_cert: Arc<QuorumCert>) -> (proposal: OrderVoteProposal)
        ensures
            proposal.block == self@.block,
            proposal.block_info == self@.info(),
            proposal.quorum_cert == quorum_cert,
    {
        OrderVoteProposal {
            block: self.block.clone(),
            block_info: self.block_info(),
            quorum_cert,
        }
    }

    pub fn subscribable_events(&self) -> (events: Vec<Arc<GravityEvent>>)
        ensures
            events@ == self@.state_compute_result.events@,
    {
        let mut events: Vec<Arc<GravityEvent>> = Vec::new();
        let mut i: usize = 0;
        while i < self.state_compute_result.events.len()
            invariant
                i <= self.state_compute_result.events.len(),
                events@ == self.state_compute_result.events@.take(i as int),
            decreases self.state_compute_result.events.len() - i,
        {
            events.push(self.state_compute_result.events[i].clone());
            assert(events@ =~= self.state_compute_result.events@.take(i + 1));
            i += 1;
        }
        assert(events@ =~= self.state_compute_result.events@);
        events
    }

    /// Whether the block only carries over the change of epoch of its parent: its state has that
    /// change, but no transaction. The block that changes the epoch has transactions, and is none.
    pub fn is_reconfiguration_suffix(&self) -> (is_suffix: bool)
        ensures
            is_suffix == (self@.state_compute_result.has_reconfiguration
                && self@.state_compute_result.txn_num == 0),
    {
        self.state_compute_result.has_reconfiguration && self.state_compute_result.txn_num == 0
    }

    pub fn get_execution_summary(&self) -> (summary: Option<ExecutionSummary>)
        ensures
            summary == self@.execution_summary,
    {
        self.execution_summary
    }
}

/// Executing a block again, whatever comes of it, does not change the summary of the first
/// execution; the inputs and the state are those of the last one.
pub proof fn first_summary_stays(
    view: PipelinedView,
    first: PipelineExecutionResult,
    second: PipelineExecutionResult,
)
    ensures
        view.executed(first).executed(second).execution_summary == view.executed(
            first,
        ).execution_summary,
        view.executed(first).executed(second).state_compute_result == second.result,
        view.executed(first).executed(second).input_transactions == second.input_txns@,
{
}

/// Executing a block takes over the transactions and the state of the execution, and its summary
/// where there was none: how many transactions of the payload were to be executed and how many are
/// to be committed, none to try again, the time that it took and the root that it led to. What else
/// is known of the block stays.
pub proof fn executions_are_summed_up(view: PipelinedView, result: PipelineExecutionResult)
    ensures
        ({
            let after = view.executed(result);
            &&& after.input_transactions == result.input_txns@
            &&& after.state_compute_result == result.result
            &&& after.block == view.block
            &&& after.randomness == view.randomness
            &&& after.pipeline_insertion_time == view.pipeline_insertion_time
            &&& view.execution_summary is Some ==> after.execution_summary == view.execution_summary
            &&& view.execution_summary is None ==> {
                &&& after.execution_summary matches Some(summary)
                &&& summary.root_hash == result.result.root_hash
                &&& summary.execution_time == result.execution_time
                &&& summary.to_retry == 0
                &&& view.block.payload matches Some(payload) ==> summary.payload_len
                    == payload.len_for_execution && summary.to_commit == payload.len
                &&& view.block.payload is None ==> summary.payload_len == 0 && summary.to_commit
                    == 0
            }
        }),
{
}

/// A summary is the first exactly where there was none; it conflicts exactly where the first had a
/// root, and another one.
pub proof fn summaries_conflict_over_their_roots(
    view: PipelinedView,
    root_hash: HashValue,
    placeholder: HashValue,
)
    ensures
        ({
            let outcome = view.outcome(root_hash, placeholder);
            &&& outcome == SummaryOutcome::First <==> view.execution_summary is None
            &&& outcome == SummaryOutcome::Conflicting <==> (view.execution_summary
                matches Some(first) && first.root_hash != placeholder && first.root_hash
                != root_hash)
            &&& outcome == SummaryOutcome::Repeated <==> (view.execution_summary
                matches Some(first) && (first.root_hash == placeholder || first.root_hash
                == root_hash))
        }),
{
}

/// What a certificate, and a vote, says of a block is what the block and its execution say: its
/// epoch, round, identifier and time, its number for the version of the state, or zero where it has
/// none, the root that its execution led to, and the epoch that it starts. It is voted for as a
/// block that is ordered before it is executed.
pub proof fn infos_say_what_the_block_says(view: PipelinedView)
    ensures
        ({
            let info = view.info();
            let proposal = view.proposal();
            let vote = proposal.vote_data(
                proposal.executed_state_id,
                proposal.executed_state_version,
            );
            &&& info.epoch == view.block.epoch
            &&& info.round == view.block.round
            &&& info.id == view.block.id
            &&& info.timestamp_usecs == view.block.timestamp_usecs
            &&& info.executed_state_id == view.state_compute_result.root_hash
            &&& view.block.block_number matches Some(number) ==> info.version == number
            &&& view.block.block_number is None ==> info.version == 0
            &&& info.next_epoch_state == view.state_compute_result.epoch_state
            &&& proposal.block == view.block
            &&& proposal.next_epoch_state == view.state_compute_result.epoch_state
            &&& proposal.decoupled_execution
            &&& vote.proposed == info
            &&& vote.parent == view.block.quorum_cert.vote_data.proposed
        }),
{
}

/// The vote that is cast for a block is for just what a certificate says of it, and names the
/// block that it extends as its parent.
pub proof fn vote_is_for_the_block_info(view: PipelinedView)
    ensures
        view.proposal().vote_data(
            view.proposal().executed_state_id,
            view.proposal().executed_state_version,
        ).proposed == view.info(),
        view.proposal().vote_data(
            view.proposal().executed_state_id,
            view.proposal().executed_state_version,
        ).parent.id == view.block.parent(),
        view.info().id == view.block.id,
        view.info().next_epoch_state == view.state_compute_result.epoch_state,
{
}

} // verus!
