use gravity_sdk::block_retrieval::{RetrievalAction, RetrievalError, RetrievalEvent};
use gravity_sdk::block_retriever::{
    BlockRetriever, ChunkStep, FetchError, RetryPolicy,
};
use gravity_sdk::block_store::{BlockStore, NeedFetchResult, RootInfo};
use gravity_sdk::consensus_types::{
    Block, BlockInfo, BlockRetrievalRequest, BlockRetrievalResponse, BlockRetrievalStatus,
    BlockWithRandomness, LedgerInfoWithSignatures, QuorumCert, VoteData,
};
use gravity_sdk::epoch_start::LivenessStorageData;
use gravity_sdk::sync_manager::{
    check_certified_chain, check_certified_epoch, fast_forward_len, peers_to_ask, recovered,
    CertFetch, CertFetchStep, CertInsertion, CertStep, CommitSync, InsertStep, OrderedInsertion,
    QuorumSync, SyncError,
};
use gravity_sdk::types::{AccountAddress, HashValue};
use gravity_sdk::validators::{EpochState, ValidatorVerifier};
use std::collections::HashMap;
use std::sync::Arc;

fn hash(n: u8) -> HashValue {
    HashValue([n; 32])
}

fn peer(n: u8) -> AccountAddress {
    AccountAddress([n; 32])
}

fn info(epoch: u64, round: u64, id: HashValue) -> BlockInfo {
    BlockInfo {
        epoch,
        round,
        id,
        executed_state_id: hash(0),
        version: 0,
        timestamp_usecs: 0,
        next_epoch_state: None,
    }
}

fn ledger_info(epoch: u64, round: u64, id: HashValue) -> Arc<LedgerInfoWithSignatures> {
    Arc::new(LedgerInfoWithSignatures {
        commit_info: info(epoch, round, id),
        consensus_data_hash: hash(0),
        signatures: vec![],
    })
}

fn ending(epoch: u64, round: u64, id: HashValue) -> Arc<LedgerInfoWithSignatures> {
    let mut commit_info = info(epoch, round, id);
    commit_info.next_epoch_state =
        Some(EpochState::new(epoch + 1, ValidatorVerifier { validators: vec![] }));
    Arc::new(LedgerInfoWithSignatures {
        commit_info,
        consensus_data_hash: hash(0),
        signatures: vec![],
    })
}

/// A certificate for the block `n`, which extends the block `n - 1`, in round `n`.
fn cert(n: u8) -> Arc<QuorumCert> {
    cert_with(n, ledger_info(1, n as u64, hash(n)))
}

fn cert_with(n: u8, signed: Arc<LedgerInfoWithSignatures>) -> Arc<QuorumCert> {
    Arc::new(QuorumCert {
        vote_data: VoteData::new(
            info(1, n as u64, hash(n)),
            info(1, n as u64 - 1, hash(n - 1)),
        ),
        signed_ledger_info: signed,
    })
}

/// The block `n` in round `n`, which extends the block `n - 1`.
fn block(n: u8, number: Option<u64>) -> Arc<Block> {
    Arc::new(Block {
        id: hash(n),
        epoch: 1,
        round: n as u64,
        author: None,
        timestamp_usecs: 0,
        quorum_cert: cert(n - 1),
        block_number: number,
        payload: None,
        validator_txns: None,
    })
}

fn store(in_memory: &[u8]) -> BlockStore {
    BlockStore {
        blocks: in_memory.iter().map(|n| block(*n, Some(*n as u64 + 100))).collect(),
        quorum_certs: in_memory.iter().map(|n| cert(*n)).collect(),
        ordered_root: RootInfo { epoch: 1, round: 20, id: hash(20) },
        commit_root: RootInfo { epoch: 1, round: 15, id: hash(15) },
        vote_back_pressure_limit: 12,
        order_vote_enabled: true,
        is_validator: true,
    }
}

/// A database in which blocks `low..=high` of epoch 1 are stored, block `n` under number
/// `n + 100`.
struct Db {
    blocks: HashMap<HashValue, Arc<Block>>,
    certs: HashMap<HashValue, Arc<QuorumCert>>,
    epochs: Result<Vec<(u64, u64)>, String>,
    infos: HashMap<u64, Arc<LedgerInfoWithSignatures>>,
    all_certs: Result<Vec<Arc<QuorumCert>>, String>,
    seeds: Result<HashMap<u64, Arc<Vec<u8>>>, String>,
    reads: usize,
}

impl Db {
    fn new(low: u8, high: u8) -> Db {
        let mut db = Db {
            blocks: HashMap::new(),
            certs: HashMap::new(),
            epochs: Ok(vec![]),
            infos: HashMap::new(),
            all_certs: Ok(vec![]),
            seeds: Ok(HashMap::new()),
            reads: 0,
        };
        for n in low..=high {
            db.blocks.insert(hash(n), block(n, Some(n as u64 + 100)));
            db.certs.insert(hash(n), cert(n));
            db.infos.insert(n as u64 + 100, ledger_info(1, n as u64, hash(n)));
        }
        db
    }

    fn answer(&mut self, action: &RetrievalAction) -> RetrievalEvent {
        self.reads += 1;
        match action {
            RetrievalAction::ReadEpochTable => RetrievalEvent::EpochTable(self.epochs.clone()),
            RetrievalAction::ReadLedgerInfo { block_number } => {
                RetrievalEvent::LedgerInfo(Ok(self.infos.get(block_number).cloned()))
            }
            RetrievalAction::ReadQuorumCerts { epoch } => {
                assert_eq!(*epoch, 1);
                RetrievalEvent::QuorumCerts(self.all_certs.clone())
            }
            RetrievalAction::ReadBlock { id, .. } => {
                RetrievalEvent::Block(Ok(self.blocks.get(id).cloned()))
            }
            RetrievalAction::ReadQuorumCert { id, .. } => {
                RetrievalEvent::QuorumCert(Ok(self.certs.get(id).cloned()))
            }
            RetrievalAction::ReadRandomness { block_number } => RetrievalEvent::Randomness(
                match &self.seeds {
                    Ok(seeds) => Ok(seeds.get(block_number).cloned()),
                    Err(e) => Err(e.clone()),
                },
            ),
            RetrievalAction::ReadLedgerInfos { lower, upper } => RetrievalEvent::LedgerInfos(
                (*lower..*upper).filter_map(|n| self.infos.get(&n).cloned()).collect(),
            ),
            _ => unreachable!(),
        }
    }

    fn serve(
        &mut self,
        store: &BlockStore,
        request: BlockRetrievalRequest,
    ) -> Result<BlockRetrievalResponse, RetrievalError> {
        let (mut retrieval, mut action) = store.process_block_retrieval(request, false);
        loop {
            match action {
                RetrievalAction::Respond(response) => return Ok(response),
                RetrievalAction::Fail(error) => return Err(error),
                read => {
                    let event = self.answer(&read);
                    action = retrieval.advance(store, event);
                }
            }
        }
    }
}

fn ids(blocks: &[BlockWithRandomness]) -> Vec<HashValue> {
    blocks.iter().map(|b| b.0.id).collect()
}

fn request(id: u8, num_blocks: u64, target: Option<u8>) -> BlockRetrievalRequest {
    BlockRetrievalRequest {
        block_id: hash(id),
        num_blocks,
        target_block_id: target.map(hash),
        epoch: None,
    }
}

#[test]
fn a_chain_is_served_from_memory_and_then_from_the_database() {
    let mut db = Db::new(3, 9);
    let mut seeds = HashMap::new();
    seeds.insert(106, Arc::new(vec![6]));
    db.seeds = Ok(seeds);
    let response = db.serve(&store(&[8, 7]), request(8, 4, None)).unwrap();
    assert_eq!(response.status, BlockRetrievalStatus::Succeeded);
    assert_eq!(ids(&response.blocks), vec![hash(8), hash(7), hash(6), hash(5)]);
    assert_eq!(response.quorum_certs.len(), 4);
    assert_eq!(response.blocks[2].1, Some(Arc::new(vec![6])));
    assert_eq!(response.blocks[1].1, None);
    let infos: Vec<u64> = response.ledger_infos.iter().map(|i| i.commit_info.round).collect();
    assert_eq!(infos, vec![8, 7, 6, 5]);
}

#[test]
fn a_chain_ends_at_its_target() {
    let response = Db::new(3, 9).serve(&store(&[]), request(8, 10, Some(6))).unwrap();
    assert_eq!(response.status, BlockRetrievalStatus::SucceededWithTarget);
    assert_eq!(ids(&response.blocks), vec![hash(8), hash(7), hash(6)]);
}

#[test]
fn a_chain_ends_at_the_first_block_of_the_epoch() {
    let mut db = Db::new(4, 9);
    // Block 5 extends a block of round 0.
    db.certs.insert(
        hash(5),
        Arc::new(QuorumCert {
            vote_data: VoteData::new(info(1, 5, hash(5)), info(1, 0, hash(4))),
            signed_ledger_info: ledger_info(1, 5, hash(5)),
        }),
    );
    let response = db.serve(&store(&[]), request(8, 10, None)).unwrap();
    assert_eq!(response.status, BlockRetrievalStatus::SucceededWithTarget);
    assert_eq!(ids(&response.blocks), vec![hash(8), hash(7), hash(6), hash(5)]);
}

#[test]
fn a_missing_block_or_certificate_ends_the_chain() {
    let response = Db::new(7, 9).serve(&store(&[]), request(8, 10, None)).unwrap();
    assert_eq!(response.status, BlockRetrievalStatus::NotEnoughBlocks);
    assert_eq!(ids(&response.blocks), vec![hash(8), hash(7)]);
    let mut db = Db::new(3, 9);
    db.certs.remove(&hash(7));
    let response = db.serve(&store(&[]), request(8, 10, None)).unwrap();
    assert_eq!(response.status, BlockRetrievalStatus::QuorumCertNotFound);
    assert_eq!(ids(&response.blocks), vec![hash(8)]);
    let mut in_memory = store(&[8]);
    in_memory.quorum_certs.clear();
    let response = Db::new(3, 9).serve(&in_memory, request(8, 10, None)).unwrap();
    assert_eq!(response.status, BlockRetrievalStatus::QuorumCertNotFound);
    assert!(response.blocks.is_empty());
    assert!(response.ledger_infos.is_empty());
}

#[test]
fn a_seed_that_cannot_be_read_is_left_out_of_the_chain() {
    let mut db = Db::new(3, 9);
    db.seeds = Err("io".to_string());
    let response = db.serve(&store(&[8]), request(8, 2, None)).unwrap();
    assert_eq!(response.status, BlockRetrievalStatus::Succeeded);
    assert!(response.blocks.iter().all(|b| b.1.is_none()));
}

#[test]
fn no_blocks_are_served_where_none_are_asked_for() {
    let response = Db::new(3, 9).serve(&store(&[8]), request(8, 0, None)).unwrap();
    assert_eq!(response.status, BlockRetrievalStatus::Succeeded);
    assert!(response.blocks.is_empty());
}

#[test]
fn ledger_infos_of_other_epochs_are_left_out() {
    let mut db = Db::new(3, 9);
    db.infos.insert(107, ledger_info(2, 7, hash(7)));
    let response = db.serve(&store(&[]), request(8, 3, None)).unwrap();
    let infos: Vec<u64> = response.ledger_infos.iter().map(|i| i.commit_info.round).collect();
    assert_eq!(infos, vec![8, 6]);
}

fn epoch_request(num_blocks: u64) -> BlockRetrievalRequest {
    BlockRetrievalRequest {
        block_id: HashValue::zero(),
        num_blocks,
        target_block_id: Some(hash(99)),
        epoch: Some(1),
    }
}

/// A database whose epoch 1 ends with block 8, which the certificate of block 9 commits.
fn epoch_db() -> Db {
    let mut db = Db::new(3, 9);
    db.epochs = Ok(vec![(50, 0), (108, 1), (200, 1)]);
    db.all_certs = Ok(vec![cert(7), cert_with(9, ledger_info(1, 8, hash(8)))]);
    db
}

#[test]
fn an_epoch_is_served_from_its_last_certified_block_on() {
    let mut db = epoch_db();
    let response = db.serve(&store(&[]), epoch_request(3)).unwrap();
    assert_eq!(response.status, BlockRetrievalStatus::Succeeded);
    assert_eq!(ids(&response.blocks), vec![hash(9), hash(8), hash(7)]);
    assert_eq!(response.quorum_certs[0].commit_info().id, hash(8));
    // The first block is served even where none is asked for.
    let response = epoch_db().serve(&store(&[]), epoch_request(0)).unwrap();
    assert_eq!(ids(&response.blocks), vec![hash(9)]);
}

#[test]
fn each_failure_to_find_the_end_of_an_epoch_is_told() {
    let mut db = epoch_db();
    db.epochs = Err("io".to_string());
    assert_eq!(
        db.serve(&store(&[]), epoch_request(3)).unwrap_err(),
        RetrievalError::EpochTable("io".to_string())
    );
    let mut db = epoch_db();
    db.epochs = Ok(vec![(108, 2)]);
    assert_eq!(
        db.serve(&store(&[]), epoch_request(3)).unwrap_err(),
        RetrievalError::EpochNotFound { epoch: 1 }
    );
    let mut db = epoch_db();
    db.infos.remove(&108);
    assert_eq!(
        db.serve(&store(&[]), epoch_request(3)).unwrap_err(),
        RetrievalError::LedgerInfoNotFound { block_number: 108 }
    );
    let mut db = epoch_db();
    db.all_certs = Err("io".to_string());
    assert_eq!(
        db.serve(&store(&[]), epoch_request(3)).unwrap_err(),
        RetrievalError::QuorumCerts { epoch: 1, cause: "io".to_string() }
    );
    let mut db = epoch_db();
    db.all_certs = Ok(vec![]);
    assert_eq!(
        db.serve(&store(&[]), epoch_request(3)).unwrap_err(),
        RetrievalError::QuorumCertNotFound { end_block_id: hash(8), epoch: 1 }
    );
    let mut db = epoch_db();
    db.blocks.remove(&hash(9));
    assert_eq!(
        db.serve(&store(&[]), epoch_request(3)).unwrap_err(),
        RetrievalError::BlockNotFound { id: hash(9) }
    );
    let mut db = epoch_db();
    db.seeds = Err("io".to_string());
    assert_eq!(
        db.serve(&store(&[]), epoch_request(3)).unwrap_err(),
        RetrievalError::Randomness { block_number: 109, cause: "io".to_string() }
    );
}

#[test]
fn reads_that_fail_are_told_apart() {
    let held = store(&[]);
    let (mut retrieval, action) = held.process_block_retrieval(epoch_request(1), false);
    assert!(matches!(action, RetrievalAction::ReadEpochTable));
    let action = retrieval.advance(&held, RetrievalEvent::EpochTable(Ok(vec![(108, 1)])));
    assert!(matches!(action, RetrievalAction::ReadLedgerInfo { block_number: 108 }));
    let action = retrieval.advance(&held, RetrievalEvent::LedgerInfo(Err("io".to_string())));
    assert!(matches!(
        action,
        RetrievalAction::Fail(RetrievalError::LedgerInfo { block_number: 108, .. })
    ));
    let mut db = epoch_db();
    let (mut retrieval, mut action) = held.process_block_retrieval(epoch_request(1), false);
    loop {
        if let RetrievalAction::ReadBlock { .. } = action {
            let action = retrieval.advance(&held, RetrievalEvent::Block(Err("io".to_string())));
            assert!(matches!(
                action,
                RetrievalAction::Fail(RetrievalError::Block { id, .. }) if id == hash(9)
            ));
            break;
        }
        let event = db.answer(&action);
        action = retrieval.advance(&held, event);
    }
    for answer in [Err("io".to_string()), Ok(None)] {
        let missing = answer.is_ok();
        let mut db = epoch_db();
        let (mut retrieval, mut action) = held.process_block_retrieval(epoch_request(1), false);
        let mut infos = 0;
        let failed = loop {
            if let RetrievalAction::ReadLedgerInfo { .. } = action {
                infos += 1;
                if infos == 2 {
                    break retrieval.advance(&held, RetrievalEvent::LedgerInfo(answer));
                }
            }
            let event = db.answer(&action);
            action = retrieval.advance(&held, event);
        };
        match failed {
            RetrievalAction::Fail(RetrievalError::StartLedgerInfo(_)) => assert!(!missing),
            RetrievalAction::Fail(RetrievalError::StartLedgerInfoNotFound) => assert!(missing),
            _ => panic!("the request should have failed"),
        }
    }
}

#[test]
fn an_injected_failure_refuses_the_request() {
    let (_, action) = store(&[8]).process_block_retrieval(request(8, 1, None), true);
    assert!(matches!(action, RetrievalAction::Fail(RetrievalError::Injected)));
}

#[test]
fn a_request_for_a_block_names_its_own_epoch_or_that_of_the_last_ordered_block() {
    let (_, action) = store(&[]).process_block_retrieval(request(8, 1, None), false);
    assert!(matches!(action, RetrievalAction::ReadBlock { epoch: 1, .. }));
    let mut other = request(8, 1, None);
    other.epoch = Some(7);
    let (_, action) = store(&[]).process_block_retrieval(other, false);
    assert!(matches!(action, RetrievalAction::ReadBlock { epoch: 7, .. }));
}

#[test]
fn syncing_is_needed_far_from_the_ledger_info() {
    let held = store(&[16]);
    // Known, and within the gap of 30 rounds.
    assert!(!held.need_sync_for_ledger_info(&ledger_info(1, 16, hash(16))));
    // Unknown, but not after the last ordered block.
    assert!(!held.need_sync_for_ledger_info(&ledger_info(1, 20, hash(33))));
    // Unknown, and after the last ordered block.
    assert!(held.need_sync_for_ledger_info(&ledger_info(1, 21, hash(33))));
    // Known, but out of the gap.
    assert!(!held.need_sync_for_ledger_info(&ledger_info(1, 45, hash(16))));
    assert!(held.need_sync_for_ledger_info(&ledger_info(1, 46, hash(16))));
    let mut wide = store(&[16]);
    wide.vote_back_pressure_limit = 20;
    assert!(!wide.need_sync_for_ledger_info(&ledger_info(1, 55, hash(16))));
    assert!(wide.need_sync_for_ledger_info(&ledger_info(1, 56, hash(16))));
    wide.vote_back_pressure_limit = u64::MAX;
    assert!(!wide.need_sync_for_ledger_info(&ledger_info(1, u64::MAX, hash(16))));
}

#[test]
fn a_certificate_is_fetched_inserted_or_dropped() {
    let held = store(&[21, 22]);
    assert_eq!(held.need_fetch_for_quorum_cert(&cert(19)), NeedFetchResult::QCRoundBeforeRoot);
    assert_eq!(held.insert_quorum_cert(&cert(19)), CertInsertion::TooOld);
    assert_eq!(held.need_fetch_for_quorum_cert(&cert(21)), NeedFetchResult::QCAlreadyExist);
    assert_eq!(held.insert_quorum_cert(&cert(21)), CertInsertion::AlreadyThere);
    let mut bare = store(&[21, 22]);
    bare.quorum_certs.clear();
    assert_eq!(bare.need_fetch_for_quorum_cert(&cert(21)), NeedFetchResult::QCBlockExist);
    assert_eq!(bare.insert_quorum_cert(&cert(21)), CertInsertion::InsertSingle);
    assert_eq!(held.need_fetch_for_quorum_cert(&cert(25)), NeedFetchResult::NeedFetch);
    assert_eq!(held.insert_quorum_cert(&cert(25)), CertInsertion::Fetch);
    assert!(held.need_sync_to_highest_quorum_cert(&cert(25)));
    assert!(!held.need_sync_to_highest_quorum_cert(&cert(21)));
    assert!(!held.need_sync_to_highest_quorum_cert(&cert(20)));
}

#[test]
fn a_certificate_sends_newly_ordered_blocks_to_execution() {
    let held = store(&[]);
    assert!(held.execution_for_quorum_cert(&cert(20)).is_none());
    assert!(matches!(held.execution_for_quorum_cert(&cert(21)), Some(None)));
    let last = cert_with(22, ending(1, 21, hash(21)));
    let proof = held.execution_for_quorum_cert(&last).unwrap().unwrap();
    assert_eq!(proof.commit_info.id, hash(21));
}

#[test]
fn an_ordered_certificate_needs_its_block() {
    let held = store(&[21]);
    assert_eq!(
        held.insert_ordered_cert(&ledger_info(1, 21, hash(21))),
        Ok(OrderedInsertion::Execute)
    );
    assert_eq!(
        held.insert_ordered_cert(&ledger_info(1, 22, hash(22))),
        Err(SyncError::OrderedBlockNotFound)
    );
    assert_eq!(
        held.insert_ordered_cert(&ledger_info(1, 20, hash(22))),
        Ok(OrderedInsertion::Late)
    );
}

#[test]
fn certificates_are_added_in_order() {
    let mut held = store(&[]);
    assert_eq!(
        held.add_certs(true),
        vec![
            CertStep::SyncToCommitCert,
            CertStep::SyncToQuorumCert,
            CertStep::InsertQuorumCert,
            CertStep::InsertOrderedCert,
            CertStep::InsertTimeoutCert,
        ]
    );
    held.order_vote_enabled = false;
    assert_eq!(held.add_certs(false)[3], CertStep::InsertOwnOrderedCert);
    assert_eq!(held.add_certs(false).len(), 4);
}

#[test]
fn a_commit_leads_to_a_proof_a_sync_or_nothing() {
    let held = store(&[18]);
    let known = ledger_info(1, 18, hash(18));
    let unknown = ledger_info(1, 25, hash(25));
    assert_eq!(
        held.sync_to_highest_commit_cert(&known, false, None, 15),
        CommitSync::SendCommitProof
    );
    assert_eq!(
        held.sync_to_highest_commit_cert(&known, true, Some(16), 15),
        CommitSync::FastForward
    );
    assert_eq!(
        held.sync_to_highest_commit_cert(&known, true, Some(18), 15),
        CommitSync::Nothing
    );
    assert_eq!(
        held.sync_to_highest_commit_cert(&unknown, false, None, 15),
        CommitSync::FastForward
    );
    assert_eq!(
        held.sync_to_highest_commit_cert(&unknown, false, None, 25),
        CommitSync::Nothing
    );
    assert_eq!(
        held.sync_to_highest_commit_cert(&ledger_info(1, 19, hash(25)), false, None, 15),
        CommitSync::Nothing
    );
}

#[test]
fn a_certified_block_leads_to_a_sync_and_an_announcement() {
    let held = store(&[21]);
    assert!(matches!(
        held.sync_to_highest_quorum_cert(&cert(21), &ending(1, 20, hash(20))),
        QuorumSync::Nothing
    ));
    assert!(matches!(
        held.sync_to_highest_quorum_cert(&cert(25), &ledger_info(1, 20, hash(20))),
        QuorumSync::FastForward { announce: None }
    ));
    match held.sync_to_highest_quorum_cert(&cert(25), &ending(1, 20, hash(20))) {
        QuorumSync::FastForward { announce: Some(proof) } => {
            assert_eq!(proof.commit_info.id, hash(25))
        }
        _ => panic!("the end of the epoch should be announced"),
    }
}

#[test]
fn the_length_of_a_fast_forward_counts_both_ends() {
    assert_eq!(fast_forward_len(&cert(25), &ledger_info(1, 20, hash(20))), Some(6));
    assert_eq!(fast_forward_len(&cert(25), &ledger_info(1, 25, hash(20))), Some(1));
    assert_eq!(fast_forward_len(&cert(25), &ledger_info(1, 26, hash(20))), None);
}

#[test]
fn a_fast_forward_pairs_blocks_with_certificates() {
    let blocks = vec![
        (block(8, Some(108)), Some(Arc::new(vec![8]))),
        (block(7, None), None),
        (block(6, Some(106)), None),
    ];
    assert!(check_certified_chain(&cert(8), &blocks));
    assert!(!check_certified_chain(&cert(7), &blocks));
    assert!(!check_certified_chain(&cert(8), &vec![]));
    assert!(!check_certified_chain(
        &cert(8),
        &vec![(block(8, Some(108)), None), (block(6, Some(106)), None)]
    ));
    assert!(!check_certified_chain(&cert(8), &vec![(block(8, None), Some(Arc::new(vec![])))]));
    let forward = BlockStore::fast_forward_sync(&cert(8), blocks);
    assert_eq!(ids(&forward.blocks), vec![hash(8), hash(7), hash(6)]);
    assert_eq!(ids(&forward.tree_blocks), vec![hash(6), hash(7), hash(8)]);
    let certified: Vec<HashValue> =
        forward.quorum_certs.iter().map(|qc| qc.certified_block().id).collect();
    assert_eq!(certified, vec![hash(8), hash(7), hash(6)]);
    let for_tree: Vec<HashValue> =
        forward.tree_quorum_certs.iter().map(|qc| qc.certified_block().id).collect();
    assert_eq!(for_tree, vec![hash(6), hash(7), hash(8)]);
    assert_eq!(forward.block_numbers, vec![(1, 108, hash(8)), (1, 106, hash(6))]);
    assert_eq!(forward.randomness, vec![(108, Arc::new(vec![8]))]);
}

#[test]
fn validators_ask_those_who_signed() {
    assert_eq!(peers_to_ask(true, vec![peer(1)], vec![peer(2)]), vec![peer(1)]);
    assert_eq!(peers_to_ask(false, vec![peer(1)], vec![peer(2)]), vec![peer(2)]);
}

/// Takes the next block of a fetch. Gives the block to retrieve after it.
fn retrieve(
    fetch: &mut CertFetch,
    held: &BlockStore,
    blocks: Vec<BlockWithRandomness>,
) -> HashValue {
    match fetch.on_retrieved(held, Ok(blocks)) {
        Ok(CertFetchStep::Retrieve(id)) => id,
        _ => panic!("another block should be retrieved"),
    }
}

fn described(step: Result<CertFetchStep, FetchError>) -> Vec<String> {
    match step {
        Ok(CertFetchStep::Insert(steps)) => steps
            .iter()
            .map(|step| match step {
                InsertStep::InsertQuorumCert(qc) => format!("qc {}", qc.certified_block().round),
                InsertStep::InsertBlock(block) => format!("block {}", block.round),
                InsertStep::SetRandomness { block_number, .. } => format!("seed {}", block_number),
                InsertStep::MissingBlockNumber { id } => format!("missing {}", id.0[0]),
            })
            .collect(),
        _ => panic!("the blocks should be inserted"),
    }
}

#[test]
fn missing_ancestors_are_fetched_one_by_one_and_inserted_oldest_first() {
    let held = store(&[5]);
    let (mut fetch, first) = held.fetch_quorum_cert(cert(8));
    assert!(matches!(first, CertFetchStep::Retrieve(id) if id == hash(8)));
    let newest = vec![(block(8, Some(108)), Some(Arc::new(vec![8])))];
    assert_eq!(retrieve(&mut fetch, &held, newest), hash(7));
    assert_eq!(retrieve(&mut fetch, &held, vec![(block(7, None), None)]), hash(6));
    let last = fetch.on_retrieved(
        &held,
        Ok(vec![(block(6, Some(106)), None), (block(1, None), None)]),
    );
    assert_eq!(
        described(last),
        vec!["qc 5", "block 6", "qc 6", "block 7", "qc 7", "block 8", "seed 108", "qc 8"]
    );
    let (_, step) = store(&[8]).fetch_quorum_cert(cert(8));
    assert_eq!(described(Ok(step)), vec!["qc 8"]);
}

#[test]
fn a_retrieval_that_fails_inserts_nothing() {
    let held = store(&[5]);
    let (mut fetch, _) = held.fetch_quorum_cert(cert(8));
    retrieve(&mut fetch, &held, vec![(block(8, Some(108)), None)]);
    let error = || FetchError::Failed { last_block_id: hash(7), block_id: hash(7) };
    assert_eq!(fetch.on_retrieved(&held, Err(error())).unwrap_err(), error());
    assert_eq!(ids(&fetch.pending), vec![hash(8)]);
    assert_eq!(fetch.next.certified_block().id, hash(7));
}

#[test]
fn an_empty_retrieval_ends_the_fetch() {
    let held = store(&[5]);
    let (mut fetch, _) = held.fetch_quorum_cert(cert(8));
    retrieve(&mut fetch, &held, vec![(block(8, None), None)]);
    let step = fetch.on_retrieved(&held, Ok(vec![]));
    assert_eq!(described(step), vec!["qc 7", "block 8", "qc 8"]);
}

#[test]
fn a_seed_without_a_number_ends_the_insertions() {
    let held = store(&[6]);
    let (mut fetch, _) = held.fetch_quorum_cert(cert(8));
    retrieve(&mut fetch, &held, vec![(block(8, Some(108)), None)]);
    let step = fetch.on_retrieved(&held, Ok(vec![(block(7, None), Some(Arc::new(vec![7])))]));
    assert_eq!(described(step), vec!["qc 6", "block 7", "missing 7"]);
}

#[test]
fn an_inserted_certificate_is_settled() {
    let held = store(&[21]);
    let (mut fetch, _) = held.fetch_quorum_cert(cert(23));
    retrieve(&mut fetch, &held, vec![(block(23, None), None)]);
    let mut after = store(&[21]);
    match fetch.on_retrieved(&held, Ok(vec![(block(22, None), None)])) {
        Ok(CertFetchStep::Insert(steps)) => {
            for step in steps {
                match step {
                    InsertStep::InsertQuorumCert(qc) => after.quorum_certs.push(qc),
                    InsertStep::InsertBlock(block) => after.blocks.push(block),
                    _ => panic!("no block has a seed"),
                }
            }
        }
        _ => panic!("the blocks should be inserted"),
    }
    assert_eq!(held.need_fetch_for_quorum_cert(&cert(23)), NeedFetchResult::NeedFetch);
    assert_eq!(after.need_fetch_for_quorum_cert(&cert(23)), NeedFetchResult::QCAlreadyExist);
    after.ordered_root.round = 24;
    after.quorum_certs.clear();
    assert_eq!(after.need_fetch_for_quorum_cert(&cert(23)), NeedFetchResult::QCRoundBeforeRoot);
}

fn retriever(peers: &[u8]) -> BlockRetriever {
    BlockRetriever::new(peer(1), peers.iter().map(|n| peer(*n)).collect(), 2)
}

#[test]
fn the_preferred_peer_is_picked_first() {
    let retriever = retriever(&[]);
    let mut peers = vec![peer(3), peer(1), peer(2)];
    assert_eq!(retriever.pick_peer(true, &mut peers), peer(1));
    assert_eq!(peers, vec![peer(3), peer(2)]);
    assert_eq!(retriever.pick_peer(true, &mut peers), peer(1));
    assert_eq!(peers, vec![peer(3), peer(2)]);
    assert_eq!(retriever.pick_peer_at(false, &mut peers, 1), peer(2));
    assert_eq!(peers, vec![peer(3)]);
    let last = retriever.pick_peer(false, &mut peers);
    assert_eq!(last, peer(3));
    assert!(peers.is_empty());
}

#[test]
fn random_peers_are_all_picked_in_the_end() {
    let retriever = retriever(&[]);
    let mut seen = HashMap::new();
    for _ in 0..200 {
        let mut peers = vec![peer(2), peer(3), peer(4)];
        let mut picked = retriever.pick_peers(false, &mut peers, 2);
        assert_eq!(picked.len(), 2);
        *seen.entry(picked[0].0[0]).or_insert(0) += 1;
        picked.append(&mut peers);
        picked.sort_by_key(|p| p.0[0]);
        assert_eq!(picked, vec![peer(2), peer(3), peer(4)]);
    }
    assert_eq!(seen.len(), 3);
    let mut few = vec![peer(2)];
    assert_eq!(retriever.pick_peers(true, &mut few, 5), vec![peer(1), peer(2)]);
    assert!(retriever.pick_peers(true, &mut vec![], 5).is_empty());
}

fn response(status: BlockRetrievalStatus, blocks: &[u8]) -> BlockRetrievalResponse {
    BlockRetrievalResponse {
        status,
        blocks: blocks.iter().map(|n| (block(*n, None), None)).collect(),
        quorum_certs: blocks.iter().map(|n| cert(*n)).collect(),
        ledger_infos: blocks.iter().map(|n| ledger_info(1, *n as u64, hash(*n))).collect(),
    }
}

#[test]
fn a_chunk_is_asked_for_until_peers_and_attempts_run_out() {
    let retriever = retriever(&[1, 2, 3, 4]);
    let policy = RetryPolicy { num_retries: 2, num_peers_per_retry: 2 };
    let peers = retriever.available_peers.clone();
    let mut fetch = retriever.retrieve_block_for_id_chunk(hash(8), hash(3), 2, peers, None);
    assert_eq!(
        fetch.request,
        BlockRetrievalRequest::new_with_target_block_id(hash(8), 2, hash(3))
    );
    match fetch.on_tick(&retriever, policy) {
        ChunkStep::Ask(asked) => assert_eq!(asked, vec![peer(1)]),
        ChunkStep::GiveUp => panic!("the preferred peer should be asked"),
    }
    match fetch.on_tick(&retriever, policy) {
        ChunkStep::Ask(asked) => assert_eq!(asked.len(), 2),
        ChunkStep::GiveUp => panic!("two more peers should be asked"),
    }
    // The attempts are used up, but answers are awaited.
    match fetch.on_tick(&retriever, policy) {
        ChunkStep::Ask(asked) => assert!(asked.is_empty()),
        ChunkStep::GiveUp => panic!("answers are awaited"),
    }
    for _ in 0..3 {
        assert!(fetch.on_response(Err("timeout".to_string())).is_none());
    }
    assert!(matches!(fetch.on_tick(&retriever, policy), ChunkStep::GiveUp));
    let mut fetch =
        retriever.retrieve_block_for_id_chunk(hash(8), hash(3), 2, vec![peer(2)], Some(4));
    assert_eq!(fetch.request.epoch, Some(4));
    fetch.on_tick(&retriever, policy);
    let chunk = fetch.on_response(Ok(response(BlockRetrievalStatus::Succeeded, &[8, 7])));
    assert_eq!(ids(&chunk.unwrap().blocks), vec![hash(8), hash(7)]);
    let mut nobody = retriever.retrieve_block_for_id_chunk(hash(8), hash(3), 2, vec![], None);
    assert!(matches!(nobody.on_tick(&retriever, policy), ChunkStep::GiveUp));
}

#[test]
fn a_range_is_fetched_chunk_by_chunk() {
    let retriever = retriever(&[1]);
    let peers = retriever.available_peers.clone();
    let mut fetch = retriever.retrieve_blocks_in_range(hash(8), 3, hash(1), &peers).unwrap();
    let first = fetch.next_request().unwrap();
    assert_eq!(first, BlockRetrievalRequest::new_with_target_block_id(hash(8), 2, hash(1)));
    fetch.on_chunk(Some(response(BlockRetrievalStatus::Succeeded, &[8, 7]))).unwrap();
    let second = fetch.next_request().unwrap();
    assert_eq!(second, BlockRetrievalRequest::new_with_target_block_id(hash(6), 1, hash(1)));
    fetch.on_chunk(Some(response(BlockRetrievalStatus::Succeeded, &[6]))).unwrap();
    assert!(fetch.next_request().is_none());
    assert_eq!(ids(&fetch.blocks), vec![hash(8), hash(7), hash(6)]);
    assert_eq!(fetch.quorum_certs.len(), 3);
    assert_eq!(fetch.ledger_infos.len(), 3);
}

#[test]
fn a_range_ends_early_at_its_target() {
    let retriever = retriever(&[1]);
    let peers = retriever.available_peers.clone();
    let mut fetch = retriever.retrieve_blocks_in_range(hash(8), 30, hash(7), &peers).unwrap();
    fetch.next_request();
    fetch
        .on_chunk(Some(response(BlockRetrievalStatus::SucceededWithTarget, &[8, 7])))
        .unwrap();
    assert!(fetch.next_request().is_none());
}

#[test]
fn a_range_that_cannot_be_fetched_is_an_error() {
    let retriever = retriever(&[1]);
    let peers = retriever.available_peers.clone();
    assert_eq!(
        retriever.retrieve_blocks_in_range(hash(8), 3, hash(1), &vec![]).err(),
        Some(FetchError::NoPeers { block_id: hash(8) })
    );
    let mut fetch = retriever.retrieve_blocks_in_range(hash(8), 3, hash(1), &peers).unwrap();
    fetch.on_chunk(Some(response(BlockRetrievalStatus::Succeeded, &[8]))).unwrap();
    for chunk in [None, Some(response(BlockRetrievalStatus::NotEnoughBlocks, &[7]))] {
        assert_eq!(
            fetch.on_chunk(chunk),
            Err(FetchError::Failed { last_block_id: hash(7), block_id: hash(8) })
        );
    }
    assert_eq!(ids(&fetch.blocks), vec![hash(8)]);
}

#[test]
fn an_epoch_is_fetched_from_its_end_on() {
    let retriever = retriever(&[1]);
    let peers = retriever.available_peers.clone();
    let first = retriever.retrieve_block_by_epoch(4, hash(1), peers.clone());
    assert!(first.request.block_id.is_zero());
    assert_eq!(first.request.num_blocks, 2);
    assert_eq!(first.request.epoch, Some(4));
    let mut fetch = retriever
        .continue_by_epoch(
            4,
            hash(1),
            &peers,
            Some(response(BlockRetrievalStatus::Succeeded, &[9, 8])),
        )
        .unwrap();
    assert_eq!(
        fetch.next_request().unwrap(),
        BlockRetrievalRequest::new_with_epoch(hash(7), 2, hash(1), 4)
    );
    fetch
        .on_chunk(Some(response(BlockRetrievalStatus::SucceededWithTarget, &[7])))
        .unwrap();
    assert!(fetch.next_request().is_none());
    assert_eq!(ids(&fetch.blocks), vec![hash(9), hash(8), hash(7)]);
    assert!(check_certified_epoch(&fetch));
    let forward = BlockStore::fast_forward_sync_by_epoch(fetch).unwrap();
    assert_eq!(forward.recover_epoch, 1);
    assert!(forward.epoch_change.is_none());
    let infos: Vec<u64> = forward.ledger_infos.iter().map(|i| i.commit_info.round).collect();
    assert_eq!(infos, vec![7, 8, 9]);
    assert!(forward.block_numbers.is_empty());
}

#[test]
fn an_epoch_that_cannot_be_fetched_is_an_error() {
    let retriever = retriever(&[1]);
    let peers = retriever.available_peers.clone();
    assert_eq!(
        retriever.continue_by_epoch(4, hash(1), &peers, None).err(),
        Some(FetchError::EpochFailed { epoch: 4 })
    );
    assert_eq!(
        retriever
            .continue_by_epoch(
                4,
                hash(1),
                &vec![],
                Some(response(BlockRetrievalStatus::Succeeded, &[9, 8]))
            )
            .err(),
        Some(FetchError::NoPeers { block_id: hash(7) })
    );
    let done = retriever
        .continue_by_epoch(
            4,
            hash(1),
            &vec![],
            Some(response(BlockRetrievalStatus::SucceededWithTarget, &[9])),
        )
        .unwrap();
    assert!(done.target_found);
}

#[test]
fn the_end_of_a_fetched_epoch_is_announced() {
    let retriever = retriever(&[1]);
    let peers = retriever.available_peers.clone();
    let mut chunk = response(BlockRetrievalStatus::SucceededWithTarget, &[9, 8]);
    chunk.ledger_infos[0] = ending(1, 9, hash(9));
    let fetch = retriever.continue_by_epoch(1, hash(1), &peers, Some(chunk)).unwrap();
    let forward = BlockStore::fast_forward_sync_by_epoch(fetch).unwrap();
    let full = LivenessStorageData::FullRecoveryData { root_round: 4 };
    let (root_round, proof) = recovered(forward, full).unwrap();
    assert_eq!(root_round, 4);
    assert_eq!(proof.unwrap().commit_info.id, hash(9));
    let mut broken = response(BlockRetrievalStatus::SucceededWithTarget, &[9, 8]);
    broken.quorum_certs.pop();
    let fetch = retriever.continue_by_epoch(1, hash(1), &peers, Some(broken)).unwrap();
    assert!(!check_certified_epoch(&fetch));
    assert_eq!(
        BlockStore::fast_forward_sync_by_epoch(fetch).err(),
        Some(SyncError::UncertifiedEpoch)
    );
    let mut bare = response(BlockRetrievalStatus::SucceededWithTarget, &[9, 8]);
    bare.ledger_infos.clear();
    let fetch = retriever.continue_by_epoch(1, hash(1), &peers, Some(bare)).unwrap();
    assert!(!check_certified_epoch(&fetch));
    assert_eq!(
        BlockStore::fast_forward_sync_by_epoch(fetch).err(),
        Some(SyncError::UncertifiedEpoch)
    );
}

#[test]
fn an_epoch_that_storage_cannot_recover_from_is_an_error() {
    let retriever = retriever(&[1]);
    let peers = retriever.available_peers.clone();
    let chunk = response(BlockRetrievalStatus::SucceededWithTarget, &[9, 8]);
    let fetch = retriever.continue_by_epoch(1, hash(1), &peers, Some(chunk)).unwrap();
    let forward = BlockStore::fast_forward_sync_by_epoch(fetch).unwrap();
    let partial = LivenessStorageData::PartialRecoveryData { committed_round: 4 };
    assert_eq!(recovered(forward, partial).unwrap_err(), SyncError::PartialRecoveryData);
}

#[test]
fn a_served_chain_can_be_fast_forwarded_to() {
    let mut db = Db::new(3, 9);
    let retriever = retriever(&[1]);
    let peers = retriever.available_peers.clone();
    let remote = store(&[9, 8]);
    let mut fetch = retriever.retrieve_blocks_in_range(hash(9), 5, hash(4), &peers).unwrap();
    while let Some(request) = fetch.next_request() {
        let chunk = db.serve(&remote, request).unwrap();
        fetch.on_chunk(Some(chunk)).unwrap();
    }
    assert_eq!(ids(&fetch.blocks), vec![hash(9), hash(8), hash(7), hash(6), hash(5)]);
    assert!(check_certified_chain(&cert(9), &fetch.blocks));
    assert!(db.reads > 0);
}

#[test]
fn a_served_epoch_can_be_saved() {
    let mut db = epoch_db();
    let retriever = retriever(&[1]);
    let peers = retriever.available_peers.clone();
    let remote = store(&[]);
    let first = retriever.retrieve_block_by_epoch(1, hash(4), peers.clone());
    let chunk = db.serve(&remote, first.request).unwrap();
    let mut fetch =
        retriever.continue_by_epoch(1, hash(4), &peers, Some(chunk)).unwrap();
    while let Some(request) = fetch.next_request() {
        let chunk = db.serve(&remote, request).unwrap();
        fetch.on_chunk(Some(chunk)).unwrap();
    }
    assert_eq!(
        ids(&fetch.blocks),
        vec![hash(9), hash(8), hash(7), hash(6), hash(5), hash(4)]
    );
    assert!(check_certified_epoch(&fetch));
    let forward = BlockStore::fast_forward_sync_by_epoch(fetch).unwrap();
    assert_eq!(forward.recover_epoch, 1);
    assert_eq!(forward.quorum_certs.len(), 6);
}
