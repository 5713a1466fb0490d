use gravity_sdk::block_buffer_manager::{
    new_epoch_validators, BlockBufferManager, OrderOutcome, OrderedBlocks,
};
use gravity_sdk::block_map::BlockKey;
use gravity_sdk::block_state::{
    BlockBufferManagerConfig, BlockHashRef, BlockProfile, BlockState, BufferError,
};
use gravity_sdk::external::{
    ExternalBlock, ExternalBlockMeta, GravityEvent, TxnHash, VerifiedTxn,
    VerifiedTxnWithAccountSeqNum,
};
use gravity_sdk::types::{AccountAddress, BlockId};
use gravity_sdk::validators::{ValidatorConsensusInfo, ValidatorVerifier};
use std::collections::HashMap;
use std::sync::Arc;
use std::time::{Duration, SystemTime};

fn id(n: u8) -> BlockId {
    BlockId([n; 32])
}

fn at(seconds: u64) -> SystemTime {
    SystemTime::UNIX_EPOCH + Duration::from_secs(seconds)
}

fn txn(n: u64) -> VerifiedTxn {
    VerifiedTxn {
        bytes: vec![n as u8],
        sender: AccountAddress([7; 32]),
        sequence_number: n,
        chain_id: 1,
        committed_hash: TxnHash([n as u8; 32]),
    }
}

fn block(epoch: u64, number: u64, block_id: BlockId, txns: u64) -> Arc<ExternalBlock> {
    Arc::new(ExternalBlock {
        block_meta: ExternalBlockMeta {
            block_id,
            block_number: number,
            usecs: 0,
            epoch,
            randomness: None,
            block_hash: None,
            proposer_index: None,
        },
        txns: (0..txns).map(txn).collect(),
        extra_data: vec![],
        enable_randomness: false,
    })
}

/// A buffer in epoch 1, with block 10 recovered from storage.
fn ready() -> BlockBufferManager {
    let mut manager = BlockBufferManager::new(BlockBufferManagerConfig::default());
    let mut known = HashMap::new();
    known.insert(9, (1, id(9)));
    known.insert(10, (1, id(10)));
    manager.init(10, known, 1);
    manager
}

/// Reads ordered blocks that are there.
fn read_ordered(
    manager: &mut BlockBufferManager,
    start_num: u64,
    max_size: Option<usize>,
    epoch: u64,
) -> Vec<(Arc<ExternalBlock>, BlockId)> {
    match manager.get_ordered_blocks(start_num, max_size, epoch, 0, at(2)) {
        Ok(OrderedBlocks::Found(blocks)) => blocks,
        _ => panic!("there should be blocks from {start_num} on"),
    }
}

fn compute(manager: &mut BlockBufferManager, number: u64, events: Vec<GravityEvent>) {
    let validators = if new_epoch_validators(&events).is_some() {
        Some(Ok(ValidatorVerifier {
            validators: vec![ValidatorConsensusInfo {
                address: AccountAddress([1; 32]),
                voting_power: 5,
            }],
        }))
    } else {
        None
    };
    let result = manager.set_compute_res(
        id(number as u8),
        [number as u8; 32],
        number,
        1,
        Arc::new(None),
        events,
        validators,
        at(3),
    );
    assert_eq!(result, Ok(()));
}

fn reference(number: u64) -> BlockHashRef {
    BlockHashRef {
        block_id: id(number as u8),
        num: number,
        hash: Some([number as u8; 32]),
        persist_notifier: None,
    }
}

#[test]
fn default_configuration() {
    let config = BlockBufferManagerConfig::default();
    assert_eq!(config.wait_for_change_timeout, 100_000_000);
    assert_eq!(config.max_wait_timeout, 5_000_000_000);
    assert_eq!(config.remove_committed_blocks_interval, 1_000_000_000);
    assert_eq!(config.max_block_size, 256);
}

#[test]
fn a_buffer_is_ready_once_it_knows_the_chain() {
    let manager = BlockBufferManager::new(BlockBufferManagerConfig::default());
    assert!(!manager.is_ready());
    let manager = ready();
    assert!(manager.is_ready());
    assert!(!manager.is_epoch_change());
    assert_eq!(manager.latest_commit_block_number(), 10);
    assert_eq!(manager.latest_finalized_block_number(), 10);
    assert_eq!(manager.latest_epoch_change_block_number(), 10);
    assert_eq!(manager.get_current_epoch(), 1);
    let ids = manager.block_number_to_block_id();
    assert_eq!(ids.len(), 2);
    assert_eq!(ids.get(&9), Some(&id(9)));
    assert!(matches!(
        manager.block(BlockKey::new(1, 10)),
        Some(BlockState::Historical { id: found }) if *found == id(10)
    ));
    assert!(manager.block(BlockKey::new(1, 9)).is_none());
}

#[test]
fn a_buffer_of_a_new_chain_has_no_block() {
    let mut manager = BlockBufferManager::new(BlockBufferManagerConfig::default());
    manager.init(0, HashMap::new(), 1);
    assert!(manager.is_ready());
    assert_eq!(manager.latest_epoch_change_block_number(), 0);
    assert!(manager.block(BlockKey::new(1, 0)).is_none());
}

#[test]
fn ordered_blocks_are_read_with_their_parents() {
    let mut manager = ready();
    let first = block(1, 11, id(11), 2);
    let second = block(1, 12, id(12), 0);
    assert_eq!(manager.set_ordered_blocks(id(99), first, at(1)), OrderOutcome::Inserted);
    assert_eq!(manager.set_ordered_blocks(id(11), second, at(1)), OrderOutcome::Inserted);
    assert_eq!(manager.check_ordered_epoch(1), Ok(()));
    assert!(manager.can_get_ordered_blocks(11, None, 1));
    let read = read_ordered(&mut manager, 11, None, 1);
    assert_eq!(read.len(), 2);
    // The recovered block before it is the parent, not the one that was claimed.
    assert_eq!(read[0].1, id(10));
    assert_eq!(read[0].0.block_meta.block_id, id(11));
    assert_eq!(read[1].1, id(11));
    assert_eq!(
        manager.profile(BlockKey::new(1, 11)),
        BlockProfile {
            set_ordered_block_time: Some(at(1)),
            get_ordered_blocks_time: Some(at(2)),
            ..BlockProfile::default()
        }
    );
}

#[test]
fn a_block_without_a_predecessor_keeps_the_claimed_parent() {
    let mut manager = ready();
    manager.set_ordered_blocks(id(42), block(1, 30, id(30), 0), at(1));
    let read = read_ordered(&mut manager, 30, None, 1);
    assert_eq!(read[0].1, id(42));
}

#[test]
fn a_parent_may_be_in_the_epoch_before() {
    let mut manager = ready();
    manager.init_epoch(2);
    manager.set_ordered_blocks(id(42), block(2, 11, id(11), 0), at(1));
    let read = read_ordered(&mut manager, 11, None, 2);
    assert_eq!(read[0].1, id(10));
}

#[test]
fn blocks_of_other_epochs_and_known_places_are_ignored() {
    let mut manager = ready();
    let old = block(0, 11, id(11), 0);
    let future = block(2, 11, id(11), 0);
    assert!(!manager.accepts(&old));
    assert_eq!(manager.set_ordered_blocks(id(10), old, at(1)), OrderOutcome::OldEpoch);
    assert_eq!(manager.set_ordered_blocks(id(10), future, at(1)), OrderOutcome::FutureEpoch);
    assert!(manager.accepts(&block(1, 11, id(11), 0)));
    manager.set_ordered_blocks(id(10), block(1, 11, id(11), 0), at(1));
    assert_eq!(
        manager.set_ordered_blocks(id(10), block(1, 11, id(11), 0), at(5)),
        OrderOutcome::Duplicate
    );
    assert_eq!(
        manager.set_ordered_blocks(id(10), block(1, 11, id(77), 0), at(5)),
        OrderOutcome::Conflict
    );
    assert_eq!(manager.profile(BlockKey::new(1, 11)).set_ordered_block_time, Some(at(1)));
}

#[test]
fn reads_are_bounded_but_never_empty() {
    let mut manager = ready();
    for n in 11..15 {
        manager.set_ordered_blocks(id(10), block(1, n, id(n as u8), 0), at(1));
    }
    let two = read_ordered(&mut manager, 11, Some(2), 1);
    assert_eq!(two.len(), 2);
    let one = read_ordered(&mut manager, 11, Some(0), 1);
    assert_eq!(one.len(), 1);
    assert!(matches!(
        manager.get_ordered_blocks(20, None, 1, 0, at(2)),
        Ok(OrderedBlocks::Waiting(_))
    ));
}

#[test]
fn readers_give_up_after_the_configured_time() {
    let mut manager = ready();
    let limit = manager.config().max_wait_timeout;
    let read = match manager.get_ordered_blocks(11, None, 1, limit, at(1)) {
        Ok(OrderedBlocks::Waiting(read)) => read,
        _ => panic!("the reader should wait"),
    };
    assert!(manager.poll_ordered_blocks(&read, limit, at(1)).unwrap().is_none());
    assert_eq!(
        manager.poll_ordered_blocks(&read, limit + 1, at(1)).unwrap_err(),
        BufferError::Timeout { block_number: 11 }
    );
    assert_eq!(
        manager.get_ordered_blocks(11, None, 1, limit + 1, at(1)).unwrap_err(),
        BufferError::Timeout { block_number: 11 }
    );
    // A reader that has waited for too long is told so, whatever it would meet.
    manager.set_ordered_blocks(id(10), block(1, 11, id(11), 0), at(1));
    compute(&mut manager, 11, vec![]);
    assert!(!manager.can_get_ordered_blocks(11, None, 1));
    assert_eq!(
        manager.poll_ordered_blocks(&read, limit + 1, at(1)).unwrap_err(),
        BufferError::Timeout { block_number: 11 }
    );
    assert_eq!(
        manager.get_executed_res(id(11), 11, 1, limit + 1, at(1)).unwrap_err(),
        BufferError::Timeout { block_number: 11 }
    );
    assert_eq!(
        manager.get_committed_blocks(11, None, 1, limit + 1, at(1)).unwrap_err(),
        BufferError::Timeout { block_number: 11 }
    );
}

#[test]
fn readers_of_ordered_blocks_have_to_be_in_the_epoch() {
    let mut manager = ready();
    assert_eq!(
        manager.check_ordered_epoch(2),
        Err(BufferError::EpochMismatch { expected: 2, current: 1 })
    );
    manager.release_inflight_blocks();
    assert_eq!(manager.check_ordered_epoch(1), Err(BufferError::InEpochChange));
    assert_eq!(manager.consume_epoch_change(), 1);
    assert_eq!(manager.check_ordered_epoch(1), Ok(()));
}

#[test]
fn a_read_in_another_epoch_is_refused_though_there_are_blocks() {
    let mut manager = ready();
    manager.set_ordered_blocks(id(10), block(1, 11, id(11), 0), at(1));
    manager.init_epoch(2);
    assert_eq!(
        manager.get_ordered_blocks(11, None, 1, 0, at(2)).unwrap_err(),
        BufferError::EpochMismatch { expected: 1, current: 2 }
    );
    manager.init_epoch(1);
    compute(&mut manager, 11, vec![GravityEvent::NewEpoch(1, vec![1])]);
    manager.set_ordered_blocks(id(11), block(1, 12, id(12), 0), at(1));
    manager.release_inflight_blocks();
    manager.set_ordered_blocks(id(11), block(1, 12, id(12), 0), at(1));
    assert_eq!(
        manager.get_ordered_blocks(12, None, 1, 0, at(2)).unwrap_err(),
        BufferError::InEpochChange
    );
    assert!(matches!(
        manager.block(BlockKey::new(1, 12)),
        Some(BlockState::Ordered { .. })
    ));
    assert_eq!(manager.profile(BlockKey::new(1, 12)).get_ordered_blocks_time, None);
}

#[test]
fn a_read_goes_on_where_it_began() {
    let mut manager = ready();
    let read = match manager.get_ordered_blocks(11, Some(1), 1, 0, at(1)) {
        Ok(OrderedBlocks::Waiting(read)) => read,
        _ => panic!("the reader should wait"),
    };
    manager.set_ordered_blocks(id(10), block(1, 11, id(11), 0), at(1));
    manager.set_ordered_blocks(id(11), block(1, 12, id(12), 0), at(1));
    // The epoch was checked when the read began.
    manager.init_epoch(2);
    let blocks = manager.poll_ordered_blocks(&read, 5, at(2)).unwrap().unwrap();
    assert_eq!(blocks.len(), 1);
    assert_eq!(blocks[0].0.block_meta.block_id, id(11));
}

#[test]
fn a_reader_of_ordered_blocks_may_not_meet_an_executed_one() {
    let mut manager = ready();
    assert!(!manager.can_get_ordered_blocks(10, None, 1));
    manager.set_ordered_blocks(id(10), block(1, 11, id(11), 0), at(1));
    manager.set_ordered_blocks(id(11), block(1, 12, id(12), 0), at(1));
    compute(&mut manager, 12, vec![]);
    assert!(!manager.can_get_ordered_blocks(11, None, 1));
    assert!(manager.can_get_ordered_blocks(11, Some(1), 1));
}

#[test]
fn results_are_read_before_and_after_the_commit() {
    let mut manager = ready();
    manager.set_ordered_blocks(id(10), block(1, 11, id(11), 3), at(1));
    assert!(manager.get_executed_res(id(11), 11, 1, 0, at(2)).unwrap().is_none());
    compute(&mut manager, 11, vec![GravityEvent::Other(vec![1])]);
    let result = manager.get_executed_res(id(11), 11, 1, 0, at(4)).unwrap().unwrap();
    assert_eq!(result.execution_output.data, [11; 32]);
    assert_eq!(result.execution_output.txn_num, 3);
    assert!(result.epoch_state.is_none());
    let profile = manager.profile(BlockKey::new(1, 11));
    assert_eq!(profile.set_compute_res_time, Some(at(3)));
    assert_eq!(profile.get_executed_res_time, Some(at(4)));
    let list = vec![reference(11)];
    assert!(manager.can_set_commit_blocks(&list, 1));
    assert!(manager.set_commit_blocks(list, 1, at(5)).is_empty());
    let again = manager.get_executed_res(id(11), 11, 1, 0, at(6)).unwrap().unwrap();
    assert!(Arc::ptr_eq(&result, &again));
    assert_eq!(manager.profile(BlockKey::new(1, 11)).get_executed_res_time, Some(at(4)));
}

#[test]
fn recovered_and_missing_blocks_have_no_result() {
    let mut manager = ready();
    assert_eq!(
        manager.get_executed_res(id(10), 10, 1, 0, at(1)).unwrap_err(),
        BufferError::HistoricalBlock { id: id(10), block_number: 10 }
    );
    assert_eq!(
        manager.get_executed_res(id(50), 50, 1, 0, at(1)).unwrap_err(),
        BufferError::MissingBlock {
            id: id(50),
            block_number: 50,
            latest_epoch_change_block_number: 10
        }
    );
}

#[test]
fn a_validator_set_that_cannot_be_read_changes_nothing() {
    let mut manager = ready();
    manager.set_ordered_blocks(id(10), block(1, 11, id(11), 0), at(1));
    let result = manager.set_compute_res(
        id(11),
        [0; 32],
        11,
        1,
        Arc::new(None),
        vec![GravityEvent::NewEpoch(2, vec![9])],
        Some(Err("no set".to_string())),
        at(2),
    );
    assert_eq!(result, Err(BufferError::ValidatorSet("no set".to_string())));
    assert!(matches!(
        manager.block(BlockKey::new(1, 11)),
        Some(BlockState::Ordered { .. })
    ));
    assert_eq!(manager.latest_epoch_change_block_number(), 10);
}

#[test]
fn the_first_event_that_starts_an_epoch_counts() {
    let events = vec![
        GravityEvent::ObservedJWKsUpdated(1, vec![5]),
        GravityEvent::NewEpoch(2, vec![6]),
        GravityEvent::NewEpoch(3, vec![7]),
    ];
    assert_eq!(new_epoch_validators(&events), Some(&vec![6]));
    assert_eq!(new_epoch_validators(&vec![GravityEvent::Other(vec![])]), None);
}

#[test]
fn an_epoch_changes_when_its_blocks_are_released() {
    let mut manager = ready();
    for n in 11..14 {
        manager.set_ordered_blocks(id(10), block(1, n, id(n as u8), 0), at(1));
    }
    compute(&mut manager, 11, vec![]);
    compute(&mut manager, 12, vec![GravityEvent::NewEpoch(2, vec![1])]);
    assert_eq!(manager.get_current_epoch(), 1);
    assert_eq!(manager.latest_epoch_change_block_number(), 12);
    let result = manager.get_executed_res(id(12), 12, 1, 0, at(4)).unwrap().unwrap();
    assert_eq!(result.epoch_state.as_ref().unwrap().epoch, 2);
    manager.release_inflight_blocks();
    assert!(manager.is_epoch_change());
    assert_eq!(manager.get_current_epoch(), 2);
    assert!(manager.block(BlockKey::new(1, 12)).is_some());
    assert!(manager.block(BlockKey::new(1, 13)).is_none());
    assert_eq!(manager.profile(BlockKey::new(1, 13)), BlockProfile::default());
    assert_eq!(manager.consume_epoch_change(), 2);
    assert!(!manager.is_epoch_change());
    // Without another announcement the epoch stays.
    manager.release_inflight_blocks();
    assert_eq!(manager.get_current_epoch(), 2);
}

#[test]
fn tickets_are_handed_out_once() {
    let mut manager = ready();
    manager.set_ordered_blocks(id(10), block(1, 11, id(11), 0), at(1));
    manager.set_ordered_blocks(id(11), block(1, 12, id(12), 0), at(1));
    compute(&mut manager, 11, vec![]);
    compute(&mut manager, 12, vec![GravityEvent::NewEpoch(2, vec![1])]);
    let tickets = manager.set_commit_blocks(
        vec![reference(10), reference(11), reference(12), reference(12)],
        1,
        at(5),
    );
    assert_eq!(tickets, vec![BlockKey::new(1, 12)]);
    assert!(manager.set_commit_blocks(vec![reference(12)], 1, at(6)).is_empty());
    assert!(manager.can_get_committed_blocks(11, None, 1));
    let read = manager.get_committed_blocks(11, None, 1, 0, at(7)).unwrap().unwrap();
    assert_eq!(read[0], reference(11));
    assert_eq!(
        read[1],
        BlockHashRef { persist_notifier: Some(BlockKey::new(1, 12)), ..reference(12) }
    );
    assert_eq!(manager.latest_finalized_block_number(), 12);
    let again = manager.get_committed_blocks(11, None, 1, 0, at(8)).unwrap().unwrap();
    assert_eq!(again, vec![reference(11), reference(12)]);
    // An earlier read does not take the finalized block back.
    manager.get_committed_blocks(11, Some(1), 1, 0, at(9)).unwrap();
    assert_eq!(manager.latest_finalized_block_number(), 12);
    assert_eq!(manager.profile(BlockKey::new(1, 12)).set_commit_blocks_time, Some(at(5)));
    assert_eq!(manager.profile(BlockKey::new(1, 12)).get_committed_blocks_time, Some(at(8)));
    assert!(manager.get_committed_blocks(13, None, 1, 0, at(9)).unwrap().is_none());
}

#[test]
fn only_executed_blocks_of_the_same_id_can_be_committed() {
    let mut manager = ready();
    manager.set_ordered_blocks(id(10), block(1, 11, id(11), 0), at(1));
    assert!(!manager.can_set_commit_blocks(&vec![reference(11)], 1));
    assert!(!manager.can_set_commit_blocks(&vec![reference(12)], 1));
    assert!(manager.can_set_commit_blocks(&vec![reference(10)], 1));
    let mut other = reference(10);
    other.block_id = id(11);
    assert!(!manager.can_set_commit_blocks(&vec![other], 1));
}

#[test]
fn a_sweep_waits_for_enough_blocks() {
    let mut manager = BlockBufferManager::new(BlockBufferManagerConfig {
        max_block_size: 4,
        ..BlockBufferManagerConfig::default()
    });
    manager.init(0, HashMap::new(), 1);
    for n in 1..4 {
        manager.set_ordered_blocks(id(0), block(1, n, id(n as u8), 0), at(1));
    }
    manager.set_state(3, 3);
    assert_eq!(manager.latest_commit_block_number(), 3);
    manager.remove_committed_blocks();
    assert!(manager.block(BlockKey::new(1, 1)).is_some());
    manager.set_ordered_blocks(id(3), block(1, 4, id(4), 0), at(1));
    manager.remove_committed_blocks();
    assert!(manager.block(BlockKey::new(1, 2)).is_none());
    assert!(manager.block(BlockKey::new(1, 3)).is_some());
    assert!(manager.block(BlockKey::new(1, 4)).is_some());
    assert_eq!(manager.latest_finalized_block_number(), 3);
}

fn batch(from: u64, to: u64) -> Vec<VerifiedTxnWithAccountSeqNum> {
    (from..to)
        .map(|n| VerifiedTxnWithAccountSeqNum { txn: txn(n), account_seq_num: n })
        .collect()
}

fn numbers(txns: &[VerifiedTxnWithAccountSeqNum]) -> Vec<u64> {
    txns.iter().map(|t| t.account_seq_num).collect()
}

#[test]
fn batches_leave_oldest_first_within_the_gas() {
    let mut manager = ready();
    let mut first = batch(0, 2);
    manager.push_txns(&mut first, 10, at(1));
    assert!(first.is_empty());
    manager.push_txns(&mut batch(2, 3), 20, at(1));
    manager.push_txns(&mut batch(3, 5), 30, at(1));
    assert!(manager.pop_txns(0, 100).is_empty());
    assert_eq!(numbers(&manager.pop_txns(10, 30)), vec![0, 1, 2]);
    assert_eq!(numbers(&manager.pop_txns(10, 30)), vec![3, 4]);
    assert!(manager.pop_txns(10, 30).is_empty());
}

#[test]
fn batches_leave_within_the_size() {
    let mut manager = ready();
    for n in 0..3 {
        manager.push_txns(&mut batch(n, n + 1), 1, at(1));
    }
    assert_eq!(numbers(&manager.pop_txns(2, 100)), vec![0, 1]);
    assert_eq!(numbers(&manager.pop_txns(2, 100)), vec![2]);
}

#[test]
fn a_batch_that_is_too_large_leaves_alone() {
    let mut manager = ready();
    manager.push_txns(&mut batch(0, 1), 100, at(1));
    manager.push_txns(&mut batch(1, 2), 1, at(1));
    assert_eq!(numbers(&manager.pop_txns(10, 50)), vec![0]);
    assert_eq!(numbers(&manager.pop_txns(10, 50)), vec![1]);
    manager.push_txns(&mut batch(2, 3), u64::MAX, at(1));
    manager.push_txns(&mut batch(3, 4), u64::MAX, at(1));
    assert_eq!(numbers(&manager.pop_txns(10, u64::MAX)), vec![2]);
}
