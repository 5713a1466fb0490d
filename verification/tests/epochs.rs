use gravity_sdk::consensus_types::{
    Block, BlockInfo, LedgerInfoWithSignatures, Payload, QuorumCert, VoteData,
};
use gravity_sdk::epoch_manager::{
    check_peer_ids, ConsensusMsg, DifferentEpoch, EpochCheck, EpochError, EpochManager, EventKind,
    MessageStep, NetworkId, PeerNetworkId, ProposalStep, Route, RpcKind, RpcStep, SyncAdvance,
    SyncInfoStep, TimeoutStep,
};
use gravity_sdk::epoch_start::{
    initiate_new_epoch, judge_no_randomness, parse_switch, sync_info_interval_ms, ConsensusConfig,
    ConsensusKeySource, EpochPayload, JWKConsensusConfig, JolteonStart, LivenessStorageData,
    NewEpochStep, NoRandomness, PayloadSource, Protocol,
};
use gravity_sdk::proposer_election::{
    create_proposer_election, epochs_to_read, extract_epoch_proposers, fixed_election,
    ElectionConfig, ElectionPlan, EpochHistory, HistoryRequest, ProposerAndVoterConfig,
    ProposerElectionType,
};
use gravity_sdk::randomness_setup::{
    try_get_rand_config_for_new_epoch, FastParts, NoRandomnessReason, RandConditions, RandEvent,
    RandSetup, RandStage,
};
use gravity_sdk::types::{AccountAddress, HashValue};
use gravity_sdk::validators::{EpochState, ValidatorConsensusInfo, ValidatorVerifier};
use std::sync::Arc;

fn peer(n: u8) -> AccountAddress {
    AccountAddress([n; 32])
}

fn validators(addresses: &[u8]) -> ValidatorVerifier {
    ValidatorVerifier {
        validators: addresses
            .iter()
            .map(|n| ValidatorConsensusInfo { address: peer(*n), voting_power: *n as u64 * 10 })
            .collect(),
    }
}

fn config() -> ConsensusConfig {
    ConsensusConfig {
        is_dag_enabled: false,
        is_vtxn_enabled: true,
        order_vote_enabled: true,
        decoupled_execution: true,
        quorum_store_enabled: true,
    }
}

fn payload(epoch: u64, active: &[u8]) -> EpochPayload {
    EpochPayload {
        epoch,
        active_validators: active.iter().map(|n| peer(*n)).collect(),
        verifier: validators(active),
        consensus_config: Some(config()),
        default_consensus_config: config(),
        has_execution_config: true,
        randomness_seq_num: Some(3),
        default_randomness_seq_num: 0,
        has_jwk_consensus_config: false,
        features: Some(vec![1]),
        supported_oidc_providers: None,
    }
}

/// The manager of node 1, in an epoch of `active`.
fn manager(epoch: u64, active: &[u8]) -> EpochManager {
    let mut manager = EpochManager::new(peer(1), true, Some(peer(1)), &vec![peer(1)], 3);
    manager.start_new_epoch(payload(epoch, active));
    manager
}

fn event(kind: EventKind, epoch: u64) -> ConsensusMsg {
    ConsensusMsg::Event { kind, epoch: Ok(epoch) }
}

fn running(epoch: u64, active: &[u8]) -> EpochManager {
    let mut manager = manager(epoch, active);
    let full = LivenessStorageData::FullRecoveryData { root_round: 7 };
    manager.start_new_epoch_with_joltean(full, &config(), true);
    manager
}

#[test]
fn the_peer_ids_of_all_networks_are_the_same() {
    assert!(check_peer_ids(peer(1), true, Some(peer(1)), &vec![peer(1)]));
    assert!(!check_peer_ids(peer(1), true, Some(peer(2)), &vec![]));
    assert!(!check_peer_ids(peer(1), true, None, &vec![]));
    assert!(!check_peer_ids(peer(1), false, None, &vec![peer(1), peer(2)]));
    assert!(check_peer_ids(peer(1), false, Some(peer(2)), &vec![]));
}

#[test]
fn a_message_of_another_epoch_leads_to_help_or_catching_up() {
    let validator = running(5, &[1, 2]);
    assert_eq!(validator.epoch(), 5);
    assert_eq!(validator.process_different_epoch(4), Ok(DifferentEpoch::Ignore));
    assert_eq!(validator.process_different_epoch(6), Ok(DifferentEpoch::CatchUp { epoch: 5 }));
    assert_eq!(validator.process_different_epoch(5), Err(EpochError::SameEpoch));
    let full_node = running(5, &[2]);
    assert_eq!(
        full_node.process_different_epoch(3),
        Ok(DifferentEpoch::SendProof { start_epoch: 3, end_epoch: 5 })
    );
    let stopped = manager(5, &[1]);
    assert!(stopped.can_handle_epoch(4));
    assert!(!stopped.can_handle_epoch(6));
    assert!(!EpochManager::new(peer(1), false, None, &vec![], 0).can_handle_epoch(1));
}

#[test]
fn messages_are_filtered_checked_and_verified() {
    let validator = running(5, &[1, 2]);
    assert_eq!(
        validator.process_message(peer(2), event(EventKind::VoteMsg, 5), false),
        Ok(MessageStep::Verify)
    );
    assert_eq!(
        validator.process_message(peer(2), event(EventKind::VoteMsg, 5), true),
        Err(EpochError::Injected)
    );
    assert_eq!(
        validator.process_message(peer(2), event(EventKind::VoteMsg, 6), false),
        Ok(MessageStep::ByEpoch(EpochCheck::Different(DifferentEpoch::CatchUp { epoch: 5 })))
    );
    assert_eq!(
        validator.process_message(
            peer(2),
            ConsensusMsg::Event { kind: EventKind::VoteMsg, epoch: Err("bad".to_string()) },
            false
        ),
        Err(EpochError::UnknownEpoch("bad".to_string()))
    );
    assert_eq!(
        validator.process_message(peer(2), ConsensusMsg::Other, false),
        Err(EpochError::UnexpectedMessage)
    );
    let full_node = running(5, &[2]);
    assert_eq!(
        full_node.process_message(peer(2), event(EventKind::VoteMsg, 5), true),
        Ok(MessageStep::Filtered)
    );
}

#[test]
fn an_epoch_ends_only_by_a_proof_from_the_node_itself() {
    let manager = running(5, &[1]);
    let proof_of = |epoch| ConsensusMsg::EpochChangeProof { epoch: Ok(epoch) };
    assert_eq!(manager.process_message(peer(2), proof_of(5), false), Ok(MessageStep::Filtered));
    assert_eq!(
        manager.process_message(peer(1), proof_of(5), false),
        Ok(MessageStep::ByEpoch(EpochCheck::InitiateNewEpoch))
    );
    assert_eq!(
        manager.process_message(peer(1), proof_of(4), false),
        Ok(MessageStep::ByEpoch(EpochCheck::IgnoreProof))
    );
    assert_eq!(
        manager.check_epoch(ConsensusMsg::EpochChangeProof { epoch: Err("bad".to_string()) }),
        Err(EpochError::UnknownEpoch("bad".to_string()))
    );
}

#[test]
fn proofs_are_sent_up_to_the_local_epoch() {
    let manager = running(5, &[1]);
    let request =
        |end_epoch| ConsensusMsg::EpochRetrievalRequest { start_epoch: 2, end_epoch };
    assert!(manager.can_check_epoch(&request(5)));
    assert_eq!(
        manager.check_epoch(request(5)),
        Ok(EpochCheck::SendProof { start_epoch: 2, end_epoch: 5 })
    );
    assert_eq!(manager.check_epoch(request(6)), Err(EpochError::EpochBeyondLocal));
    let unstarted = EpochManager::new(peer(1), false, None, &vec![], 0);
    assert!(!unstarted.can_check_epoch(&request(5)));
    assert!(unstarted.can_check_epoch(&ConsensusMsg::Other));
}

#[test]
fn messages_for_the_quorum_store_need_it() {
    let mut manager = running(5, &[1]);
    for kind in [EventKind::BatchMsg, EventKind::SignedBatchInfo, EventKind::ProofOfStoreMsg] {
        assert_eq!(manager.filter_quorum_store_events(peer(2), kind), Ok(true));
    }
    manager.quorum_store_enabled = false;
    assert_eq!(
        manager.process_message(peer(2), event(EventKind::BatchMsg, 5), false),
        Err(EpochError::QuorumStoreDisabled { peer: peer(2) })
    );
    manager.recovery_mode = true;
    assert_eq!(
        manager.process_message(peer(2), event(EventKind::BatchMsg, 5), false),
        Ok(MessageStep::FilteredQuorumStore)
    );
    assert_eq!(
        manager.process_message(peer(2), event(EventKind::ProposalMsg, 5), false),
        Ok(MessageStep::Verify)
    );
}

#[test]
fn verified_messages_go_to_the_part_that_runs() {
    let manager = running(5, &[1]);
    assert_eq!(manager.forward_event(EventKind::BatchMsg), (Route::QuorumStore, false));
    assert_eq!(manager.forward_event(EventKind::ProposalMsg), (Route::BufferedProposal, true));
    assert_eq!(manager.forward_event(EventKind::CommitVoteMsg), (Route::RoundManager, true));
}

fn block_info() -> BlockInfo {
    BlockInfo {
        epoch: 5,
        round: 1,
        id: HashValue::zero(),
        executed_state_id: HashValue::zero(),
        version: 0,
        timestamp_usecs: 0,
        next_epoch_state: None,
    }
}

#[test]
fn proposals_are_prefetched_and_noted() {
    let mut block = Block {
        id: HashValue::zero(),
        epoch: 5,
        round: 2,
        author: None,
        timestamp_usecs: 0,
        quorum_cert: Arc::new(QuorumCert {
            vote_data: VoteData::new(block_info(), block_info()),
            signed_ledger_info: Arc::new(LedgerInfoWithSignatures {
                commit_info: block_info(),
                consensus_data_hash: HashValue::zero(),
                signatures: vec![],
            }),
        }),
        block_number: None,
        payload: None,
        validator_txns: None,
    };
    assert_eq!(EpochManager::proposal_steps(&block), vec![ProposalStep::NotePending]);
    block.payload = Some(Payload { len: 1, len_for_execution: 1, data: vec![] });
    assert_eq!(
        EpochManager::proposal_steps(&block),
        vec![ProposalStep::PrefetchPayload, ProposalStep::NotePending]
    );
}

#[test]
fn requests_are_served_by_the_part_that_runs() {
    let mut manager = manager(5, &[1]);
    let serve = |m: &EpochManager, kind| m.process_rpc_request(kind, Some(5), false);
    assert_eq!(serve(&manager, RpcKind::BlockRetrieval), Ok(RpcStep::NotStarted));
    assert_eq!(serve(&manager, RpcKind::SyncInfoRequest), Ok(RpcStep::NotStarted));
    assert_eq!(serve(&manager, RpcKind::CommitRequest), Ok(RpcStep::Forward));
    assert_eq!(
        serve(&manager, RpcKind::BatchRetrieval),
        Err(EpochError::QuorumStoreNotStarted)
    );
    assert_eq!(serve(&manager, RpcKind::DAGRequest), Err(EpochError::DagNotBootstrapped));
    assert_eq!(
        serve(&manager, RpcKind::RandGenRequest),
        Err(EpochError::RandManagerNotStarted)
    );
    let full = LivenessStorageData::FullRecoveryData { root_round: 7 };
    manager.start_new_epoch_with_joltean(full, &config(), true);
    manager.start_quorum_store(true);
    manager.start_rand_manager();
    manager.start_new_epoch_with_dag(&config(), 1);
    for kind in [
        RpcKind::BlockRetrieval,
        RpcKind::SyncInfoRequest,
        RpcKind::BatchRetrieval,
        RpcKind::DAGRequest,
        RpcKind::RandGenRequest,
    ] {
        assert_eq!(serve(&manager, kind), Ok(RpcStep::Forward));
    }
    assert_eq!(
        manager.process_rpc_request(RpcKind::BlockRetrieval, None, false),
        Ok(RpcStep::Forward)
    );
    assert_eq!(
        manager.process_rpc_request(RpcKind::CommitRequest, None, false),
        Err(EpochError::MissingEpoch)
    );
    assert_eq!(
        manager.process_rpc_request(RpcKind::CommitRequest, Some(9), false),
        Ok(RpcStep::Different(DifferentEpoch::CatchUp { epoch: 5 }))
    );
    assert_eq!(
        manager.process_rpc_request(RpcKind::CommitRequest, Some(5), true),
        Err(EpochError::Injected)
    );
    let full_node = running(5, &[2]);
    assert_eq!(serve(&full_node, RpcKind::CommitRequest), Ok(RpcStep::Filtered));
    assert_eq!(serve(&full_node, RpcKind::BlockRetrieval), Ok(RpcStep::Forward));
    assert!(EpochManager::accepts_block_retrieval(10, 10));
    assert!(!EpochManager::accepts_block_retrieval(11, 10));
}

fn on(network_id: NetworkId, n: u8) -> PeerNetworkId {
    PeerNetworkId { network_id, peer_id: peer(n) }
}

#[test]
fn one_full_node_is_asked_for_its_sync_info_at_a_time() {
    let mut node = running(5, &[2]);
    let peers = vec![on(NetworkId::Validator, 1), on(NetworkId::Vfn, 2), on(NetworkId::Public, 3)];
    assert_eq!(node.request_sync_info(&peers), Some(peer(2)));
    assert_eq!(node.request_sync_info(&peers), None);
    assert_eq!(
        node.sync_info_received(Some(Some(5))),
        SyncInfoStep::Advance(SyncAdvance::Forward)
    );
    assert_eq!(node.request_sync_info(&peers[..1].to_vec()), None);
    let two = vec![peer(8), peer(9)];
    assert_eq!(node.request_sync_info_at(&two, 1), Some(peer(9)));
    assert_eq!(node.sync_info_received(Some(None)), SyncInfoStep::Failed);
    assert!(!node.inflight_request_sync_info);
    assert_eq!(node.sync_info_received(None), SyncInfoStep::Stop);
}

#[test]
fn every_full_node_may_be_asked() {
    let peers = vec![on(NetworkId::Vfn, 1), on(NetworkId::Vfn, 2)];
    let mut asked = [false; 3];
    for _ in 0..100 {
        let mut node = running(5, &[2]);
        asked[node.request_sync_info(&peers).unwrap().0[0] as usize] = true;
    }
    assert_eq!(asked, [false, true, true]);
}

#[test]
fn sync_infos_advance_full_nodes() {
    let node = running(5, &[2]);
    assert_eq!(node.advance_block_sync(6), SyncAdvance::CatchUp { epoch: 5 });
    assert_eq!(node.advance_block_sync(5), SyncAdvance::Forward);
    assert_eq!(node.advance_block_sync(4), SyncAdvance::PeerBehind);
    assert_eq!(running(5, &[1]).advance_block_sync(6), SyncAdvance::IgnoredByValidator);
    assert!(manager(5, &[2]).can_advance_block_sync(4));
    assert!(!manager(5, &[2]).can_advance_block_sync(5));
}

#[test]
fn timeouts_are_for_validators() {
    assert_eq!(running(5, &[2]).process_local_timeout(3), TimeoutStep::NotValidator);
    assert_eq!(manager(5, &[1]).process_local_timeout(3), TimeoutStep::NoRoundManager);
    assert_eq!(
        running(5, &[1]).process_local_timeout(3),
        TimeoutStep::Forward { peer: peer(1), round: 3 }
    );
}

#[test]
fn entering_an_epoch_takes_what_the_chain_says() {
    let mut node = EpochManager::new(peer(1), true, Some(peer(1)), &vec![], 4);
    let start = node.start_new_epoch(payload(9, &[1, 2]));
    assert_eq!(start.epoch_state.epoch, 9);
    assert!(node.is_current_epoch_validator);
    assert_eq!(start.consensus_key, ConsensusKeySource::ByPublicKey);
    assert!(start.randomness_force_disabled);
    assert_eq!(
        start.jwk_consensus_config,
        JWKConsensusConfig::FromDeprecated {
            features: Some(vec![1]),
            supported_oidc_providers: None,
        }
    );
    let mut with_providers = payload(9, &[1, 2]);
    with_providers.features = None;
    with_providers.supported_oidc_providers = Some(vec![2, 3]);
    let start = EpochManager::new(peer(1), true, Some(peer(1)), &vec![], 4)
        .start_new_epoch(with_providers);
    assert_eq!(
        start.jwk_consensus_config,
        EpochManager::equivalent_jwk_consensus_config_from_deprecated_resources(
            None,
            Some(vec![2, 3])
        )
    );
    assert!(!start.default_execution_config);
    assert_eq!(start.protocol, Protocol::Jolteon);
    let mut other = payload(10, &[2]);
    other.consensus_config = None;
    other.default_consensus_config.is_dag_enabled = true;
    other.has_execution_config = false;
    other.randomness_seq_num = None;
    other.default_randomness_seq_num = 4;
    other.has_jwk_consensus_config = true;
    let start = node.start_new_epoch(other);
    assert!(!node.is_current_epoch_validator);
    assert_eq!(start.consensus_key, ConsensusKeySource::Default);
    assert!(!start.randomness_force_disabled);
    assert_eq!(start.jwk_consensus_config, JWKConsensusConfig::OnChain);
    assert!(start.default_execution_config);
    assert_eq!(start.protocol, Protocol::Dag);
    let mut full_node = EpochManager::new(peer(1), false, None, &vec![], 0);
    full_node.start_new_epoch(payload(9, &[1]));
    assert!(!full_node.is_current_epoch_validator);
    // A validator that is about to leave signs with its own key, but takes no part.
    let mut leaving = payload(11, &[2]);
    leaving.verifier = validators(&[1, 2]);
    let start = node.start_new_epoch(leaving);
    assert!(!node.is_current_epoch_validator);
    assert_eq!(start.consensus_key, ConsensusKeySource::ByPublicKey);
}

#[test]
fn switches_are_on_unless_they_are_off() {
    let text = |s: &str| Some(s.to_string());
    assert_eq!(parse_switch(&None), Some(true));
    assert_eq!(parse_switch(&text("true")), Some(true));
    assert_eq!(parse_switch(&text("false")), Some(false));
    assert_eq!(parse_switch(&text("yes")), None);
    assert_eq!(EpochManager::enable_quorum_store(true, &text("true")), Some(false));
    assert_eq!(EpochManager::enable_quorum_store(false, &text("false")), Some(false));
    assert_eq!(sync_info_interval_ms(None), 200);
    assert_eq!(sync_info_interval_ms(Some(7)), 7);
}

#[test]
fn transactions_come_from_the_quorum_store_or_the_mempool() {
    let mut node = manager(5, &[1, 2]);
    let (source, start) = node.initialize_shared_component(true, &config());
    assert!(start);
    assert_eq!(
        source,
        PayloadSource::QuorumStore {
            epoch: 5,
            network: NetworkId::Validator,
            num_validators: 2,
            dag_config: false,
            broadcast_proofs: true,
        }
    );
    let mut full_node = manager(5, &[2]);
    let mut dag = config();
    dag.is_dag_enabled = true;
    let (source, start) = full_node.initialize_shared_component(true, &dag);
    assert!(!start);
    assert_eq!(
        source,
        PayloadSource::QuorumStore {
            epoch: 5,
            network: NetworkId::Vfn,
            num_validators: 1,
            dag_config: true,
            broadcast_proofs: false,
        }
    );
    let (source, _) = node.initialize_shared_component(false, &config());
    assert_eq!(source, PayloadSource::DirectMempool);
    node.set_quorum_store_channel(true);
    assert_eq!(node.forward_event(EventKind::BatchMsg), (Route::QuorumStore, true));
    node.start_quorum_store(false);
    assert!(!node.channels.batch_retrieval);
}

#[test]
fn an_epoch_of_rounds_starts_in_full_or_recovers() {
    let mut node = manager(5, &[1]);
    node.recovery_mode = true;
    match node.start_new_epoch_with_joltean(
        LivenessStorageData::FullRecoveryData { root_round: 7 },
        &config(),
        true,
    ) {
        JolteonStart::RoundManager(start) => {
            assert_eq!(start.root_round, 7);
            assert!(start.with_pipeline_builder);
            assert!(start.with_validator_components);
            assert!(start.order_vote_enabled);
            assert!(start.is_validator);
        }
        _ => panic!("the round manager should start"),
    }
    assert!(!node.recovery_mode);
    let mut node = manager(5, &[1]);
    assert_eq!(
        node.start_new_epoch_with_joltean(
            LivenessStorageData::PartialRecoveryData { committed_round: 8 },
            &config(),
            false,
        ),
        JolteonStart::RecoveryManager { committed_round: 8, order_vote_enabled: true }
    );
    assert!(node.recovery_mode);
    assert!(node.channels.round_manager);
    assert!(!node.channels.buffered_proposal);
}

#[test]
fn nothing_runs_after_an_epoch_was_ended() {
    let mut node = running(5, &[1]);
    node.start_quorum_store(true);
    node.start_rand_manager();
    assert_eq!(
        node.start_new_epoch_with_dag(&config(), 2),
        Some(HistoryRequest { start_epoch: 2, end_epoch: 5, needed_rounds: 2 })
    );
    let shutdown = node.shutdown_current_processor();
    assert!(shutdown.close_round_manager);
    assert!(shutdown.close_dag);
    assert!(shutdown.stop_quorum_store);
    assert_eq!(node.forward_event(EventKind::VoteMsg), (Route::RoundManager, false));
    assert_eq!(
        node.process_rpc_request(RpcKind::BlockRetrieval, Some(5), false),
        Ok(RpcStep::NotStarted)
    );
    let shutdown = node.shutdown_current_processor();
    assert!(!shutdown.close_round_manager && !shutdown.close_dag && !shutdown.stop_quorum_store);
    assert_eq!(
        initiate_new_epoch(),
        vec![
            NewEpochStep::ShutdownProcessor,
            NewEpochStep::ForgetPendingBlocks,
            NewEpochStep::SyncToProof,
            NewEpochStep::AwaitReconfiguration,
            NewEpochStep::StartNewEpoch,
        ]
    );
}

#[test]
fn missing_randomness_is_judged_by_the_epoch() {
    assert_eq!(judge_no_randomness(false, 9), NoRandomness::Expected);
    assert_eq!(judge_no_randomness(true, 2), NoRandomness::Early);
    assert_eq!(judge_no_randomness(true, 3), NoRandomness::Failure);
}

fn reputation(weighted: bool) -> ProposerAndVoterConfig {
    ProposerAndVoterConfig {
        active_weight: 1000,
        inactive_weight: 10,
        failed_weight: 1,
        failure_threshold_percent: 10,
        proposer_window_num_validators_multiplier: 10,
        voter_window_num_validators_multiplier: 1,
        weight_by_voting_power: weighted,
        use_history_from_previous_epoch_max_count: 5,
        use_reputation_window_from_stale_end: true,
        use_root_hash_for_seed: true,
    }
}

fn elect(proposer_election_type: ProposerElectionType) -> ElectionPlan {
    let config = ElectionConfig {
        proposer_election_type,
        leader_reputation_exclude_round: 40,
        max_failed_authors_to_store: 7,
    };
    let state = EpochState::new(3, validators(&[4, 2]));
    assert!(config.check_can_elect(2));
    create_proposer_election(&state, &config)
}

#[test]
fn elections_are_set_up_as_the_chain_says() {
    match elect(ProposerElectionType::RotatingProposer(3)) {
        ElectionPlan::Rotating { proposers, contiguous_rounds } => {
            assert_eq!(proposers, vec![peer(4), peer(2)]);
            assert_eq!(contiguous_rounds, 3);
        }
        _ => panic!("validators should take turns"),
    }
    match elect(ProposerElectionType::FixedProposer(6)) {
        ElectionPlan::Fixed { candidates, contiguous_rounds } => {
            assert_eq!(candidates, vec![peer(4), peer(2)]);
            assert_eq!(contiguous_rounds, 6);
        }
        _ => panic!("one validator should propose"),
    }
    match fixed_election(peer(2), 6) {
        ElectionPlan::Rotating { proposers, contiguous_rounds } => {
            assert_eq!(proposers, vec![peer(2)]);
            assert_eq!(contiguous_rounds, 6);
        }
        _ => panic!("the leader should take turns with nobody"),
    }
    match elect(ProposerElectionType::RoundProposer(vec![(5, peer(2))])) {
        ElectionPlan::Round { proposers, default_proposer } => {
            assert_eq!(proposers, vec![(5, peer(2))]);
            assert_eq!(default_proposer, peer(4));
        }
        _ => panic!("the proposers should be given"),
    }
    for (weighted, powers) in [(true, vec![40, 20]), (false, vec![1, 1])] {
        match elect(ProposerElectionType::LeaderReputation(reputation(weighted))) {
            ElectionPlan::Reputation(plan) => {
                assert_eq!(plan.proposer_window_size, 20);
                assert_eq!(plan.voter_window_size, 2);
                assert_eq!(plan.window_size, 20);
                assert_eq!(plan.seek_len, 57);
                assert_eq!(plan.needed_rounds, 77);
                assert_eq!(plan.voting_powers, powers);
                assert_eq!(plan.exclude_round, 40);
                assert_eq!(plan.cache_window, 10);
            }
            _ => panic!("reputation should decide"),
        }
    }
}

#[test]
fn an_election_that_cannot_be_held_is_told() {
    let mut config = ElectionConfig {
        proposer_election_type: ProposerElectionType::LeaderReputation(reputation(true)),
        leader_reputation_exclude_round: u64::MAX,
        max_failed_authors_to_store: 7,
    };
    assert!(!config.check_can_elect(2));
    config.leader_reputation_exclude_round = 0;
    config.max_failed_authors_to_store = usize::MAX;
    assert!(!config.check_can_elect(2));
    config.max_failed_authors_to_store = 0;
    assert!(!config.check_can_elect(usize::MAX));
    config.proposer_election_type = ProposerElectionType::RoundProposer(vec![]);
    assert!(!config.check_can_elect(0));
}

#[test]
fn history_reaches_back_over_whole_epochs() {
    let request = |start_epoch, end_epoch, needed_rounds| {
        Some(HistoryRequest { start_epoch, end_epoch, needed_rounds })
    };
    assert_eq!(epochs_to_read(1, 5, 77), None);
    assert_eq!(epochs_to_read(2, 5, 77), None);
    assert_eq!(epochs_to_read(3, 5, 77), request(1, 3, 77));
    assert_eq!(epochs_to_read(10, 5, 78), request(4, 10, 78));
    assert_eq!(epochs_to_read(10, 0, 77), None);
    let history = |ledger_infos, proposers| Some(EpochHistory { ledger_infos, proposers });
    let earlier = vec![(9, vec![peer(3)]), (10, vec![peer(4)])];
    let own = vec![(10, vec![peer(4)])];
    let extract = |h| extract_epoch_proposers(10, 1, vec![peer(4)], 77, h);
    assert_eq!(extract(history(2, Ok(earlier.clone()))), earlier);
    assert_eq!(extract(history(1, Ok(earlier.clone()))), own);
    assert_eq!(extract(history(2, Err("unreadable".to_string()))), own);
    assert_eq!(extract(None), own);
    assert_eq!(extract_epoch_proposers(10, 0, vec![peer(4)], 77, history(0, Ok(earlier))), own);
}

fn conditions() -> RandConditions {
    RandConditions {
        is_vtxn_enabled: true,
        randomness_enabled: true,
        fast_randomness_enabled: true,
        dealer_epoch: Ok(Some(4)),
    }
}

fn set_up(conditions: RandConditions) -> Result<RandSetup, NoRandomnessReason> {
    try_get_rand_config_for_new_epoch(&peer(2), &EpochState::new(5, validators(&[1, 2])), conditions)
}

#[test]
fn randomness_needs_keys_dealt_in_the_epoch_before() {
    let reason = |change: &dyn Fn(&mut RandConditions)| {
        let mut conditions = conditions();
        change(&mut conditions);
        set_up(conditions).err()
    };
    assert_eq!(reason(&|c| c.is_vtxn_enabled = false), Some(NoRandomnessReason::VTxnDisabled));
    assert_eq!(reason(&|c| c.randomness_enabled = false), Some(NoRandomnessReason::FeatureDisabled));
    assert_eq!(
        reason(&|c| c.dealer_epoch = Err("gone".to_string())),
        Some(NoRandomnessReason::DKGStateResourceMissing("gone".to_string()))
    );
    assert_eq!(
        reason(&|c| c.dealer_epoch = Ok(None)),
        Some(NoRandomnessReason::DKGCompletedSessionResourceMissing)
    );
    assert_eq!(
        reason(&|c| c.dealer_epoch = Ok(Some(3))),
        Some(NoRandomnessReason::CompletedSessionTooOld)
    );
    assert_eq!(reason(&|_| {}), None);
    assert_eq!(
        try_get_rand_config_for_new_epoch(
            &peer(9),
            &EpochState::new(5, validators(&[1, 2])),
            conditions()
        )
        .err(),
        Some(NoRandomnessReason::NotInValidatorSet)
    );
}

const ALL_PARTS: FastParts =
    FastParts { secret_key: true, public_key: true, transcript: true, weights: true };

#[test]
fn a_key_pair_is_made_and_kept_or_used_again() {
    let mut setup = set_up(conditions()).ok().unwrap();
    assert_eq!(setup.stage, RandStage::ConvertKey { my_index: 1 });
    assert_eq!(setup.advance(RandEvent::Done), Ok(RandStage::ReadTranscript { my_index: 1 }));
    assert_eq!(setup.advance(RandEvent::Done), Ok(RandStage::DecryptShare { my_index: 1 }));
    assert_eq!(
        setup.advance(RandEvent::Decrypted(ALL_PARTS)),
        Ok(RandStage::ReadKeyPair { fast: true })
    );
    assert_eq!(
        setup.advance(RandEvent::KeyPairKept(Some(4))),
        Ok(RandStage::CreateRng { fast: true })
    );
    assert_eq!(setup.advance(RandEvent::Done), Ok(RandStage::EncodeKeyPair { fast: true }));
    assert_eq!(setup.advance(RandEvent::Done), Ok(RandStage::SaveKeyPair));
    assert_eq!(setup.advance(RandEvent::Done), Ok(RandStage::Ready));
    let mut setup = set_up(conditions()).ok().unwrap();
    setup.advance(RandEvent::Done).unwrap();
    setup.advance(RandEvent::Done).unwrap();
    let mut parts = ALL_PARTS;
    parts.weights = false;
    assert_eq!(
        setup.advance(RandEvent::Decrypted(parts)),
        Ok(RandStage::ReadKeyPair { fast: false })
    );
    assert_eq!(setup.advance(RandEvent::KeyPairKept(Some(5))), Ok(RandStage::DecodeKeyPair));
    assert_eq!(setup.advance(RandEvent::Done), Ok(RandStage::Ready));
}

#[test]
fn each_step_that_fails_has_its_reason() {
    let fail = |stage| {
        let mut setup = RandSetup { epoch: 5, fast_randomness_enabled: true, stage };
        let step = setup.advance(RandEvent::Failed("no".to_string()));
        assert_eq!(setup.stage, stage);
        step.unwrap_err()
    };
    let no = || "no".to_string();
    assert_eq!(
        fail(RandStage::ConvertKey { my_index: 0 }),
        NoRandomnessReason::ErrConvertingConsensusKeyToDecryptionKey(no())
    );
    assert_eq!(
        fail(RandStage::ReadTranscript { my_index: 0 }),
        NoRandomnessReason::TranscriptDeserializationError(no())
    );
    assert_eq!(
        fail(RandStage::DecryptShare { my_index: 0 }),
        NoRandomnessReason::SecretShareDecryptionFailed(no())
    );
    assert_eq!(
        fail(RandStage::ReadKeyPair { fast: true }),
        NoRandomnessReason::RandDbNotAvailable(no())
    );
    assert_eq!(
        fail(RandStage::DecodeKeyPair),
        NoRandomnessReason::KeyPairDeserializationError(no())
    );
    assert_eq!(
        fail(RandStage::CreateRng { fast: true }),
        NoRandomnessReason::RngCreationError(no())
    );
    assert_eq!(
        fail(RandStage::EncodeKeyPair { fast: true }),
        NoRandomnessReason::KeyPairSerializationError(no())
    );
    assert_eq!(fail(RandStage::SaveKeyPair), NoRandomnessReason::KeyPairPersistError(no()));
}
