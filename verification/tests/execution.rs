use gravity_sdk::block_executor::BlockExecutor;
use gravity_sdk::consensus_types::{
    Block, BlockInfo, DKGTranscript, DKGTranscriptMetadata, LedgerInfoWithSignatures, ObservedJWK,
    Payload, ProviderJWKs, QuorumCert, ValidatorTransaction, VoteData,
};
use gravity_sdk::external::{
    ComputeRes, ExtraDataType, GravityEvent, Random, StateComputeResult, TxnHash, TxnStatus,
    VerifiedTxn, VerifiedTxnWithAccountSeqNum,
};
use gravity_sdk::pipelined_block::{
    ExecutedState, PipelineExecutionResult, PipelinedBlock, SignedTransaction, SummaryOutcome,
};
use gravity_sdk::state_computer::{
    get_block_txns, process_jwk_update_util, process_single_validator_transaction_util,
    process_validator_transactions_util, rejected_transactions, CommitTransaction, DiscardReason,
    ExecutionProxy, LogicalTime, SyncStep,
};
use gravity_sdk::txn_buffer::{EmptyTxPool, TxnBuffer};
use gravity_sdk::types::{AccountAddress, BlockId, HashValue};
use gravity_sdk::validators::{EpochState, ValidatorConsensusInfo, ValidatorVerifier};
use gravity_sdk::vote_proposal::{VoteProposal, VoteProposalError};
use std::sync::Arc;
use std::time::SystemTime;

fn hash(n: u8) -> HashValue {
    HashValue([n; 32])
}

fn info(epoch: u64, round: u64, n: u8) -> BlockInfo {
    BlockInfo {
        epoch,
        round,
        id: hash(n),
        executed_state_id: hash(0),
        version: 0,
        timestamp_usecs: 5,
        next_epoch_state: None,
    }
}

fn ledger_info(epoch: u64, round: u64) -> LedgerInfoWithSignatures {
    LedgerInfoWithSignatures {
        commit_info: info(epoch, round, 0),
        consensus_data_hash: hash(0),
        signatures: vec![],
    }
}

fn block_with(
    n: u8,
    number: Option<u64>,
    payload: Option<Payload>,
    validator_txns: Option<Vec<ValidatorTransaction>>,
) -> Arc<Block> {
    Arc::new(Block {
        id: hash(n),
        epoch: 3,
        round: n as u64,
        author: Some(AccountAddress([2; 32])),
        timestamp_usecs: 77,
        quorum_cert: Arc::new(QuorumCert {
            vote_data: VoteData::new(info(3, n as u64 - 1, n - 1), info(3, 0, 0)),
            signed_ledger_info: Arc::new(ledger_info(3, n as u64 - 1)),
        }),
        block_number: number,
        payload,
        validator_txns,
    })
}

fn block(n: u8) -> Arc<Block> {
    block_with(n, Some(n as u64 + 100), None, None)
}

fn state(root: u8, events: Vec<Arc<GravityEvent>>, suffix: bool) -> Arc<ExecutedState> {
    Arc::new(ExecutedState {
        root_hash: hash(root),
        epoch_state: None,
        events,
        has_reconfiguration: suffix,
        txn_num: 0,
    })
}

/// The state of the block that changes the epoch, which has transactions.
fn reconfiguration(root: u8, txn_num: u64) -> Arc<ExecutedState> {
    Arc::new(ExecutedState {
        root_hash: hash(root),
        epoch_state: None,
        events: vec![],
        has_reconfiguration: true,
        txn_num,
    })
}

fn validators(addresses: &[u8]) -> ValidatorVerifier {
    ValidatorVerifier {
        validators: addresses
            .iter()
            .map(|n| ValidatorConsensusInfo {
                address: AccountAddress([*n; 32]),
                voting_power: *n as u64 * 10,
            })
            .collect(),
    }
}

fn txn(n: u8) -> VerifiedTxn {
    VerifiedTxn {
        bytes: vec![n],
        sender: AccountAddress([n; 32]),
        sequence_number: n as u64,
        chain_id: 1,
        committed_hash: TxnHash([n; 32]),
    }
}

/// State sync as the node sees it: it is told of commits and asked for syncs, and its logical time
/// must never decrease.
struct RecordedCommit {
    time: LogicalTime,
}

impl RecordedCommit {
    fn record(&mut self, info: &LedgerInfoWithSignatures) -> Result<(), String> {
        let new_time = LogicalTime::new(info.commit_info.epoch, info.commit_info.round);
        if self.time.is_at_least(&new_time) {
            return Err("Decreasing logical time".to_string());
        }
        self.time = new_time;
        Ok(())
    }
}

fn sync(
    executor: &mut ExecutionProxy,
    recorded_commit: &mut RecordedCommit,
    target: &LedgerInfoWithSignatures,
) -> Result<(), String> {
    match executor.sync_to(target, false) {
        SyncStep::AlreadyCommitted => Ok(()),
        SyncStep::Injected { .. } => Err("Injected error in sync_to".to_string()),
        SyncStep::Sync { .. } => {
            let result = recorded_commit.record(target);
            executor.synced(target);
            result
        }
    }
}

#[test]
fn test_commit_sync_race() {
    let mut recorded_commit = RecordedCommit { time: LogicalTime::new(0, 0) };
    let mut executor = ExecutionProxy::new();
    executor.new_epoch(&EpochState::new(1, validators(&[])), false);

    // A commit and a sync race to the same round or beyond it.
    executor.commit(&vec![], &ledger_info(1, 1));
    recorded_commit.record(&ledger_info(1, 1)).unwrap();
    executor.commit(&vec![], &ledger_info(1, 10));
    recorded_commit.record(&ledger_info(1, 10)).unwrap();
    assert!(sync(&mut executor, &mut recorded_commit, &ledger_info(1, 8)).is_ok());
    assert_eq!(recorded_commit.time, LogicalTime::new(1, 10));
    assert!(sync(&mut executor, &mut recorded_commit, &ledger_info(2, 8)).is_ok());
    assert_eq!(recorded_commit.time, LogicalTime::new(2, 8));
    // The recorder does object to a time that does not increase.
    assert_eq!(
        recorded_commit.record(&ledger_info(2, 8)),
        Err("Decreasing logical time".to_string())
    );
}

#[test]
fn a_sync_tells_the_payload_manager_within_an_epoch() {
    let mut executor = ExecutionProxy::new();
    assert_eq!(
        executor.sync_to(&ledger_info(1, 1), false),
        SyncStep::Sync { notify_payload_manager: false }
    );
    executor.new_epoch(&EpochState::new(1, validators(&[1])), true);
    assert_eq!(
        executor.sync_to(&ledger_info(1, 1), false),
        SyncStep::Sync { notify_payload_manager: true }
    );
    assert_eq!(
        executor.sync_to(&ledger_info(1, 1), true),
        SyncStep::Injected { notify_payload_manager: true }
    );
    assert_eq!(executor.sync_to(&ledger_info(0, 0), true), SyncStep::AlreadyCommitted);
    executor.synced(&ledger_info(4, 9));
    executor.end_epoch();
    assert!(executor.state.is_none());
    assert_eq!(executor.latest_logical_time, LogicalTime::new(4, 9));
    assert_eq!(executor.sync_to(&ledger_info(4, 9), false), SyncStep::AlreadyCommitted);
    assert_eq!(
        executor.sync_to(&ledger_info(4, 10), false),
        SyncStep::Sync { notify_payload_manager: false }
    );
}

#[test]
fn logical_times_compare_by_epoch_and_then_by_round() {
    assert!(LogicalTime::new(2, 1).is_at_least(&LogicalTime::new(1, 9)));
    assert!(!LogicalTime::new(1, 9).is_at_least(&LogicalTime::new(2, 1)));
    assert!(LogicalTime::new(1, 9).is_at_least(&LogicalTime::new(1, 9)));
    assert!(!LogicalTime::new(1, 8).is_at_least(&LogicalTime::new(1, 9)));
}

#[test]
fn a_commit_tells_of_blocks_seeds_payloads_transactions_and_events() {
    let mut executor = ExecutionProxy::new();
    executor.new_epoch(&EpochState::new(3, validators(&[1])), true);
    let user = Arc::new(SignedTransaction { bytes: vec![1] });
    let event = Arc::new(GravityEvent::Other(vec![4]));
    let payload = Payload { len: 1, len_for_execution: 1, data: vec![] };
    let mut first = PipelinedBlock::new(
        block_with(5, Some(105), Some(payload), None),
        vec![user.clone()],
        state(1, vec![event.clone()], false),
    );
    first.set_randomness(Arc::new(vec![9]));
    let mut second = PipelinedBlock::new(
        block_with(6, None, None, None),
        vec![user.clone()],
        state(2, vec![], true),
    );
    second.set_randomness(Arc::new(vec![8]));
    let third = PipelinedBlock::new(block(7), vec![], state(3, vec![event], false));
    let blocks = vec![Arc::new(first), Arc::new(second), Arc::new(third)];
    let plan = executor.commit(&blocks, &ledger_info(3, 7));
    assert_eq!(plan.block_ids, vec![hash(5), hash(6), hash(7)]);
    assert_eq!(plan.randomness_data, vec![(105, Arc::new(vec![9]))]);
    assert_eq!(plan.payload_blocks.len(), 1);
    assert_eq!(plan.payload_blocks[0].id, hash(5));
    assert_eq!(plan.txns.len(), 3);
    assert!(matches!(
        &plan.txns[0],
        CommitTransaction::BlockMetadataWithRandomness { block, validators, randomness: Some(seed) }
            if block.id == hash(5)
                && **validators == vec![AccountAddress([1; 32])]
                && **seed == vec![9]
    ));
    assert!(matches!(&plan.txns[1], CommitTransaction::User(txn) if txn.bytes == vec![1]));
    assert!(matches!(
        &plan.txns[2],
        CommitTransaction::BlockMetadataWithRandomness { block, randomness: None, .. }
            if block.id == hash(7)
    ));
    assert_eq!(plan.subscribable_events.len(), 2);
    assert_eq!(plan.block_number, Some(107));
    assert_eq!(plan.block_timestamp, 5);
    assert_eq!(executor.latest_logical_time, LogicalTime::new(3, 7));
    executor.new_epoch(&EpochState::new(4, validators(&[3, 1])), false);
    let plan = executor.commit(&blocks[2..].to_vec(), &ledger_info(4, 1));
    assert!(matches!(
        &plan.txns[0],
        CommitTransaction::BlockMetadata { block, validators }
            if block.id == hash(7)
                && **validators == vec![AccountAddress([3; 32]), AccountAddress([1; 32])]
    ));
}

#[test]
fn the_block_that_changes_the_epoch_is_committed_with_its_transactions() {
    let mut executor = ExecutionProxy::new();
    executor.new_epoch(&EpochState::new(3, validators(&[1])), false);
    let user = Arc::new(SignedTransaction { bytes: vec![1] });
    let changing = PipelinedBlock::new(block(5), vec![user.clone()], reconfiguration(1, 1));
    assert!(!changing.is_reconfiguration_suffix());
    let suffix = PipelinedBlock::new(block(6), vec![user], reconfiguration(1, 0));
    assert!(suffix.is_reconfiguration_suffix());
    let blocks = vec![Arc::new(changing), Arc::new(suffix)];
    let plan = executor.commit(&blocks, &ledger_info(3, 6));
    assert_eq!(plan.block_ids, vec![hash(5), hash(6)]);
    assert_eq!(plan.txns.len(), 2);
    assert!(matches!(
        &plan.txns[0],
        CommitTransaction::BlockMetadata { block, .. } if block.id == hash(5)
    ));
    assert!(matches!(&plan.txns[1], CommitTransaction::User(txn) if txn.bytes == vec![1]));
}

#[test]
fn a_block_is_handed_to_execution_with_its_proposer() {
    let mut executor = ExecutionProxy::new();
    executor.new_epoch(&EpochState::new(3, validators(&[1, 2, 2])), true);
    let seed = Some(Random([3; 32]));
    let external = executor.schedule_compute(&block(5), vec![txn(1)], seed);
    assert_eq!(external.block_meta.block_id, BlockId([5; 32]));
    assert_eq!(external.block_meta.block_number, 105);
    assert_eq!(external.block_meta.usecs, 77);
    assert_eq!(external.block_meta.epoch, 3);
    assert_eq!(external.block_meta.randomness, seed);
    assert_eq!(external.block_meta.block_hash, None);
    assert_eq!(external.block_meta.proposer_index, Some(1));
    assert_eq!(external.txns.len(), 1);
    assert!(external.enable_randomness);
    assert!(external.extra_data.is_empty());
    executor.new_epoch(&EpochState::new(3, validators(&[1, 3])), false);
    let external = executor.schedule_compute(&block(5), vec![], None);
    assert_eq!(external.block_meta.proposer_index, None);
    assert!(!external.enable_randomness);
}

fn dkg() -> ValidatorTransaction {
    ValidatorTransaction::DKGResult(DKGTranscript {
        metadata: DKGTranscriptMetadata { epoch: 0x0102, author: AccountAddress([7; 32]) },
        transcript_bytes: vec![1, 2, 3],
    })
}

fn jwks() -> ProviderJWKs {
    ProviderJWKs {
        issuer: b"me".to_vec(),
        version: 258,
        jwks: vec![
            ObservedJWK::Unreadable,
            ObservedJWK::RSA(Some(vec![9])),
            ObservedJWK::RSA(None),
            ObservedJWK::Unsupported(vec![8; 130]),
        ],
    }
}

#[test]
fn transcripts_are_encoded() {
    let mut expected = vec![2, 1, 0, 0, 0, 0, 0, 0];
    expected.extend([7; 32]);
    expected.extend([3, 1, 2, 3]);
    match process_single_validator_transaction_util(&dkg()) {
        Some(ExtraDataType::DKG(bytes)) => assert_eq!(bytes, expected),
        _ => panic!("a transcript can be encoded"),
    }
}

#[test]
fn keys_are_encoded_without_those_that_cannot_be_passed_on() {
    let mut expected = vec![2];
    expected.extend(b"me");
    expected.extend([2, 1, 0, 0, 0, 0, 0, 0]);
    expected.push(2);
    expected.push(18);
    expected.extend(b"0x1::jwks::RSA_JWK");
    expected.extend([1, 9]);
    expected.push(26);
    expected.extend(b"0x1::jwks::Unsupported_JWK");
    expected.extend([0x82, 1]);
    expected.extend([8; 130]);
    assert_eq!(process_jwk_update_util(&jwks()), Some(expected.clone()));
    let update = ValidatorTransaction::ObservedJWKUpdate(jwks());
    match process_single_validator_transaction_util(&update) {
        Some(ExtraDataType::JWK(bytes)) => assert_eq!(bytes, expected),
        _ => panic!("keys can be encoded"),
    }
}

#[test]
fn validator_transactions_go_with_the_block_in_order() {
    let txns = vec![dkg(), ValidatorTransaction::ObservedJWKUpdate(jwks())];
    let data = process_validator_transactions_util(Some(&txns));
    assert!(matches!(data[0], ExtraDataType::DKG(_)));
    assert!(matches!(data[1], ExtraDataType::JWK(_)));
    assert_eq!(data.len(), 2);
    assert!(process_validator_transactions_util(None).is_empty());
    let mut executor = ExecutionProxy::new();
    executor.new_epoch(&EpochState::new(3, validators(&[])), false);
    let with_txns = block_with(5, Some(1), None, Some(txns));
    assert_eq!(executor.schedule_compute(&with_txns, vec![], None).extra_data.len(), 2);
}

#[test]
fn discarded_transactions_are_rejected() {
    let status = |n: u8, is_discarded: bool| TxnStatus {
        txn_hash: [n; 32],
        sender: [n + 1; 32],
        nonce: n as u64 + 2,
        is_discarded,
    };
    let result = |txn_status| {
        StateComputeResult::new(
            ComputeRes { data: [0; 32], txn_num: 3, txn_status: Arc::new(txn_status), events: vec![] },
            None,
        )
    };
    let rejected =
        rejected_transactions(&result(Some(vec![status(1, true), status(4, false), status(7, true)])))
            .unwrap();
    assert_eq!(rejected.len(), 2);
    assert_eq!(rejected[0].hash, hash(1));
    assert_eq!(rejected[0].sender, AccountAddress([2; 32]));
    assert_eq!(rejected[0].sequence_number, 3);
    assert_eq!(rejected[0].reason, DiscardReason::SequenceNonceInvalid);
    assert_eq!(rejected[1].hash, hash(7));
    assert!(rejected_transactions(&result(None)).is_none());
    assert!(result(None).epoch_state().is_none());
}

#[test]
fn a_payload_that_cannot_be_had_is_empty() {
    assert_eq!(get_block_txns(Ok(vec![txn(1), txn(2)])).len(), 2);
    assert!(get_block_txns(Err("gone".to_string())).is_empty());
}

#[test]
fn the_first_execution_summary_stays() {
    let payload = Payload { len: 4, len_for_execution: 3, data: vec![] };
    let ordered =
        PipelinedBlock::new_ordered(block_with(5, Some(105), Some(payload), None), state(0, vec![], false));
    assert!(ordered.input_transactions().is_empty());
    assert!(ordered.get_execution_summary().is_none());
    let run = |root: u8, execution_time: u128| PipelineExecutionResult {
        input_txns: vec![Arc::new(SignedTransaction { bytes: vec![root] })],
        result: state(root, vec![], false),
        execution_time,
    };
    let (executed, outcome) = ordered.set_execution_result(run(1, 10), hash(99));
    assert_eq!(outcome, SummaryOutcome::First);
    let summary = executed.get_execution_summary().unwrap();
    assert_eq!(summary.payload_len, 3);
    assert_eq!(summary.to_commit, 4);
    assert_eq!(summary.to_retry, 0);
    assert_eq!(summary.execution_time, 10);
    assert_eq!(summary.root_hash, hash(1));
    let (executed, outcome) = executed.set_execution_result(run(1, 20), hash(99));
    assert_eq!(outcome, SummaryOutcome::Repeated);
    let (executed, outcome) = executed.set_execution_result(run(2, 30), hash(99));
    assert_eq!(outcome, SummaryOutcome::Conflicting);
    assert_eq!(executed.get_execution_summary(), Some(summary));
    assert_eq!(executed.compute_result().root_hash, hash(2));
    assert_eq!(executed.input_transactions()[0].bytes, vec![2]);
    let (_, outcome) = executed.set_execution_result(run(3, 40), hash(1));
    assert_eq!(outcome, SummaryOutcome::Repeated);
}

#[test]
fn a_pipelined_block_tells_of_its_block() {
    let mut pipelined = PipelinedBlock::new(block(5), vec![], state(1, vec![], false));
    assert_eq!(pipelined.id(), hash(5));
    assert_eq!(pipelined.parent_id(), hash(4));
    assert_eq!(pipelined.epoch(), 3);
    assert_eq!(pipelined.round(), 5);
    assert_eq!(pipelined.timestamp_usecs(), 77);
    assert_eq!(pipelined.quorum_cert().certified_block().id, hash(4));
    assert!(pipelined.payload().is_none());
    assert!(pipelined.validator_txns().is_none());
    assert!(!pipelined.has_randomness());
    assert!(!pipelined.is_reconfiguration_suffix());
    pipelined.set_randomness(Arc::new(vec![1]));
    assert_eq!(pipelined.randomness(), Some(Arc::new(vec![1])));
    assert_eq!(pipelined.elapsed_in_pipeline(7), None);
    pipelined.set_insertion_time(10);
    assert_eq!(pipelined.elapsed_in_pipeline(17), Some(7));
    assert_eq!(pipelined.elapsed_in_pipeline(7), Some(0));
    pipelined.set_compute_result(state(8, vec![], true));
    assert!(pipelined.is_reconfiguration_suffix());
    pipelined.set_compute_result(reconfiguration(8, 3));
    assert!(!pipelined.is_reconfiguration_suffix());
    assert_eq!(pipelined.block_info().executed_state_id, hash(8));
}

#[test]
fn a_vote_is_for_the_block_and_its_parent() {
    let mut executed = ExecutedState {
        root_hash: hash(1),
        epoch_state: None,
        events: vec![],
        has_reconfiguration: false,
        txn_num: 2,
    };
    executed.epoch_state = Some(EpochState::new(4, validators(&[1])));
    let pipelined = PipelinedBlock::new(block(5), vec![], Arc::new(executed));
    let info = pipelined.block_info();
    assert_eq!((info.epoch, info.round, info.version), (3, 5, 105));
    assert_eq!(info.id, hash(5));
    assert_eq!(info.executed_state_id, hash(1));
    assert_eq!(info.timestamp_usecs, 77);
    assert_eq!(info.next_epoch_state.unwrap().epoch, 4);
    let proposal = pipelined.vote_proposal();
    assert!(proposal.decoupled_execution);
    assert_eq!(proposal.block().id, hash(5));
    assert_eq!(proposal.next_epoch_state().unwrap().epoch, 4);
    let data = proposal.gen_vote_data().unwrap();
    assert_eq!(data.proposed.id, hash(5));
    assert_eq!(data.proposed.version, 105);
    assert_eq!(data.parent.id, hash(4));
    let data = proposal.vote_data_with_extension_proof(hash(2), 9);
    assert_eq!(data.proposed.executed_state_id, hash(2));
    assert_eq!(data.proposed.version, 9);
    let coupled = VoteProposal::new(block(5), None, hash(1), 105, false);
    assert_eq!(coupled.gen_vote_data().unwrap_err(), VoteProposalError::MissingExtensionProof);
    let order = pipelined.order_vote_proposal(block(9).quorum_cert.clone());
    assert_eq!(order.block.id, hash(5));
    assert_eq!(order.block_info.id, hash(5));
    assert_eq!(order.quorum_cert.certified_block().id, hash(8));
    let unnumbered =
        PipelinedBlock::new(block_with(5, None, None, None), vec![], state(1, vec![], false));
    assert_eq!(unnumbered.block_info().version, 0);
}

#[test]
fn the_executor_keeps_what_was_committed_last() {
    let mut executor = BlockExecutor::new();
    assert_eq!(executor.committed_block_id(), HashValue::zero());
    executor.commit_blocks(vec![hash(1), hash(2)]);
    assert_eq!(executor.committed_block_id(), hash(2));
    executor.commit_ledger(vec![]);
    executor.reset();
    executor.finish();
    executor.pre_commit_block(hash(9));
    assert_eq!(executor.committed_block_id(), hash(2));
    executor.commit_ledger(vec![hash(3)]);
    assert_eq!(executor.committed_block_id(), hash(3));
    assert_eq!(executor.ledger_update(hash(8)), hash(8));
}

#[test]
fn validators_are_found_by_address() {
    let set = validators(&[4, 2, 4]);
    assert_eq!(set.len(), 3);
    assert_eq!(set.validator_index(&AccountAddress([4; 32])), Some(0));
    assert_eq!(set.validator_index(&AccountAddress([2; 32])), Some(1));
    assert_eq!(set.validator_index(&AccountAddress([3; 32])), None);
    assert_eq!(set.get_voting_power(&AccountAddress([2; 32])), Some(20));
    assert_eq!(set.get_voting_power(&AccountAddress([3; 32])), None);
    let addresses: Vec<u8> =
        set.get_ordered_account_addresses().iter().map(|a| a.0[0]).collect();
    assert_eq!(addresses, vec![4, 2, 4]);
}

fn batch(buffer: &mut TxnBuffer, txns: &[u8], gas_limit: u64) {
    let mut batch: Vec<VerifiedTxnWithAccountSeqNum> = txns
        .iter()
        .map(|n| VerifiedTxnWithAccountSeqNum { txn: txn(*n), account_seq_num: 0 })
        .collect();
    buffer.push_txns(&mut batch, gas_limit, SystemTime::now());
    assert!(batch.is_empty());
}

fn popped(buffer: &mut TxnBuffer, max_size: usize, gas_limit: u64) -> Vec<u64> {
    buffer.pop_txns(max_size, gas_limit).iter().map(|t| t.txn.sequence_number).collect()
}

#[test]
fn batches_are_taken_oldest_first_within_size_and_gas() {
    let mut buffer = TxnBuffer::new();
    batch(&mut buffer, &[1, 2], 10);
    batch(&mut buffer, &[3], 5);
    batch(&mut buffer, &[4], 1);
    batch(&mut buffer, &[5], u64::MAX);
    assert!(popped(&mut buffer, 0, 100).is_empty());
    assert_eq!(popped(&mut buffer, 9, 15), vec![1, 2, 3]);
    // One batch too large is handed out alone.
    assert_eq!(popped(&mut buffer, 9, 0), vec![4]);
    assert_eq!(popped(&mut buffer, 9, 7), vec![5]);
    assert!(popped(&mut buffer, 9, 7).is_empty());
    batch(&mut buffer, &[6], 1);
    batch(&mut buffer, &[7], 1);
    assert_eq!(popped(&mut buffer, 1, 10), vec![6]);
    assert_eq!(popped(&mut buffer, 1, 10), vec![7]);
}

#[test]
fn the_empty_pool_stays_empty() {
    let mut pool = EmptyTxPool::boxed();
    assert!(!pool.add_external_txn(txn(1)));
    assert!(pool.best_txns(10).is_empty());
    assert!(pool.get_broadcast_txns().is_empty());
    pool.remove_txns(vec![txn(1)]);
    assert!(pool.best_txns(10).is_empty());
}
