//! Starting and ending an epoch.

use crate::epoch_manager::{Channels, EpochManager, NetworkId};
use crate::types::{AccountAddress, Round};
use crate::validators::{EpochState, ValidatorVerifier};
use std::sync::Arc;
use vstd::prelude::*;

verus! {

/// Which of the two consensus protocols runs.
#[derive(Debug, Clone, Copy, PartialEq, Eq, Structural)]
pub enum Protocol {
    /// Rounds with a leader each.
    Jolteon,
    /// A graph of proposals.
    Dag,
}

/// The part of the consensus configuration on chain that starting an epoch depends on.
#[derive(Debug, Clone, Copy, PartialEq, Eq, Structural)]
pub struct ConsensusConfig {
    pub is_dag_enabled: bool,
    pub is_vtxn_enabled: bool,
    pub order_vote_enabled: bool,
    pub decoupled_execution: bool,
    pub quorum_store_enabled: bool,
}

/// What the chain says when an epoch starts.
pub struct EpochPayload {
    pub epoch: u64,
    /// The validators that are active.
    pub active_validators: Vec<AccountAddress>,
    /// The validators whose signatures count, which may be more than those that are active.
    pub verifier: ValidatorVerifier,
    /// The consensus configuration, if it can be read, and the one to use if not.
    pub consensus_config: Option<ConsensusConfig>,
    pub default_consensus_config: ConsensusConfig,
    /// Whether the execution configuration can be read.
    pub has_execution_config: bool,
    /// The number that switches randomness off where the local one is larger, if it can be read,
    /// and the one to use if not.
    pub randomness_seq_num: Option<u64>,
    pub default_randomness_seq_num: u64,
    /// Whether the configuration of the keys of identity providers can be read.
    pub has_jwk_consensus_config: bool,
    /// The features of the chain in their serialized form, if they can be read.
    pub features: Option<Vec<u8>>,
    /// The identity providers that the chain supports in their serialized form, if they can be
    /// read.
    pub supported_oidc_providers: Option<Vec<u8>>,
}

/// Which key a node signs with.
#[derive(Debug, Clone, Copy, PartialEq, Eq, Structural)]
pub enum ConsensusKeySource {
    /// The key that belongs to the public key in the validator set.
    ByPublicKey,
    /// The default key: the node is not in the validator set.
    Default,
}

/// How the configuration of the keys of identity providers is had.
#[derive(Debug, PartialEq, Eq)]
pub enum JWKConsensusConfig {
    /// It stands on chain.
    OnChain,
    /// It is not there yet, and is converted from these two resources, each as far as it can be
    /// read.
    FromDeprecated { features: Option<Vec<u8>>, supported_oidc_providers: Option<Vec<u8>> },
}

/// What starting an epoch takes.
pub struct EpochStart {
    pub epoch_state: EpochState,
    pub consensus_config: ConsensusConfig,
    /// Whether the execution configuration is the default one.
    pub default_execution_config: bool,
    /// Whether the local configuration switches randomness off.
    pub randomness_force_disabled: bool,
    pub jwk_consensus_config: JWKConsensusConfig,
    pub consensus_key: ConsensusKeySource,
    pub protocol: Protocol,
}

/// How bad it is that an epoch starts without randomness.
#[derive(Debug, Clone, Copy, PartialEq, Eq, Structural)]
pub enum NoRandomness {
    /// Randomness is off: nothing is wrong.
    Expected,
    /// Randomness is on, but the first epochs start without it.
    Early,
    /// Randomness is on and should be there.
    Failure,
}

/// What starting a round manager takes.
#[derive(Debug, Clone, Copy, PartialEq, Eq, Structural)]
pub struct RoundManagerStart {
    /// The round that execution starts from.
    pub root_round: Round,
    /// Whether a builder for the pipeline is created.
    pub with_pipeline_builder: bool,
    /// Whether the node proposes: it then gets an election, a generator of proposals and safety
    /// rules.
    pub with_validator_components: bool,
    pub order_vote_enabled: bool,
    pub is_validator: bool,
}

/// What storage gives back when an epoch starts.
#[derive(Debug, Clone, Copy, PartialEq, Eq, Structural)]
pub enum LivenessStorageData {
    /// All that is needed to take part in rounds.
    FullRecoveryData { root_round: Round },
    /// Only the last commit.
    PartialRecoveryData { committed_round: Round },
}

/// What runs in the epoch.
#[derive(Debug, Clone, Copy, PartialEq, Eq, Structural)]
pub enum JolteonStart {
    RoundManager(RoundManagerStart),
    RecoveryManager { committed_round: Round, order_vote_enabled: bool },
}

/// Where transactions come from.
#[derive(Debug, Clone, Copy, PartialEq, Eq, Structural)]
pub enum PayloadSource {
    /// A quorum store.
    QuorumStore {
        epoch: u64,
        network: NetworkId,
        num_validators: u64,
        /// Whether it is set up as for a graph of proposals.
        dag_config: bool,
        /// Whether batches go out as soon as they are proven.
        broadcast_proofs: bool,
    },
    /// The mempool.
    DirectMempool,
}

/// What is to be closed at the end of an epoch.
#[derive(Debug, Clone, Copy, PartialEq, Eq, Structural)]
pub struct Shutdown {
    pub close_round_manager: bool,
    pub close_dag: bool,
    pub stop_quorum_store: bool,
}

/// A step from one epoch to the next.
#[derive(Debug, Clone, Copy, PartialEq, Eq, Structural)]
pub enum NewEpochStep {
    ShutdownProcessor,
    ForgetPendingBlocks,
    SyncToProof,
    AwaitReconfiguration,
    StartNewEpoch,
}

/// The value of a switch in the environment: on where the switch is not set, and none where it is
/// set to something else than "true" or "false".
pub open spec fn switch_value(value: Option<Seq<char>>) -> Option<bool> {
    match value {
        None => Some(true),
        Some(text) => if text == "true"@ {
            Some(true)
        } else if text == "false"@ {
            Some(false)
        } else {
            None
        },
    }
}

/// The view of an optional text.
pub open spec fn text_of(value: Option<String>) -> Option<Seq<char>> {
    match value {
        Some(text) => Some(text@),
        None => None,
    }
}

/// The value of a switch in the environment.
pub fn parse_switch(value: &Option<String>) -> (on: Option<bool>)
    ensures
        on == switch_value(text_of(*value)),
{
    match value {
        None => Some(true),
        Some(text) => {
            let on_text = "true".to_owned();
            let off_text = "false".to_owned();
            if *text == on_text {
                Some(true)
            } else if *text == off_text {
                Some(false)
            } else {
                None
            }
        },
    }
}

/// How long to wait between two requests for sync info, in milliseconds, when the environment
/// gives `configured`.
pub fn sync_info_interval_ms(configured: Option<u64>) -> (interval: u64)
    ensures
        interval == (match configured {
            Some(interval) => interval,
            None => 200,
        }),
{
    match configured {
        Some(interval) => interval,
        None => 200,
    }
}

/// The steps from one epoch to the next, once the end of the first is proven.
pub fn initiate_new_epoch() -> (steps: Vec<NewEpochStep>)
    ensures
        steps@ == seq![
            NewEpochStep::ShutdownProcessor,
            NewEpochStep::ForgetPendingBlocks,
            NewEpochStep::SyncToProof,
            NewEpochStep::AwaitReconfiguration,
            NewEpochStep::StartNewEpoch,
        ],
{
    let mut steps: Vec<NewEpochStep> = Vec::new();
    steps.push(NewEpochStep::ShutdownProcessor);
    steps.push(NewEpochStep::ForgetPendingBlocks);
    steps.push(NewEpochStep::SyncToProof);
    steps.push(NewEpochStep::AwaitReconfiguration);
    steps.push(NewEpochStep::StartNewEpoch);
    steps
}

/// Whether `address` is one of `addresses`.
fn has_address(addresses: &Vec<AccountAddress>, address: AccountAddress) -> (has: bool)
    ensures
        has == addresses@.contains(address),
{
    let mut i: usize = 0;
    while i < addresses.len()
        invariant
            i <= addresses.len(),
            forall|j: int| 0 <= j < i ==> #[trigger] addresses@[j] != address,
        decreases addresses.len() - i,
    {
        if addresses[i] == address {
            assert(addresses@.contains(addresses@[i as int]));
            return true;
        }
        i += 1;
    }
    false
}

/// How bad it is that `epoch` starts without randomness.
pub fn judge_no_randomness(randomness_enabled: bool, epoch: u64) -> (judgement: NoRandomness)
    ensures
        judgement == (if !randomness_enabled {
            NoRandomness::Expected
        } else if epoch > 2 {
            NoRandomness::Failure
        } else {
            NoRandomness::Early
        }),
{
    if !randomness_enabled {
        NoRandomness::Expected
    } else if epoch > 2 {
        NoRandomness::Failure
    } else {
        NoRandomness::Early
    }
}

impl EpochManager {
    /// Whether the node is one of the active validators.
    pub open spec fn is_active(&self, payload: EpochPayload) -> bool {
        payload.active_validators@.contains(self.author)
    }

    /// The manager in the epoch that `payload` tells of.
    pub open spec fn entered(self, payload: EpochPayload) -> EpochManager {
        EpochManager {
            is_current_epoch_validator: self.is_validator && self.is_active(payload),
            epoch_state: Some(
                EpochState {
                    epoch: payload.epoch,
                    verifier: Arc::new(payload.verifier),
                },
            ),
            ..self
        }
    }

    /// The manager after what ran in the epoch was ended.
    pub open spec fn shut_down(self) -> EpochManager {
        EpochManager {
            channels: Channels {
                round_manager: false,
                round_manager_close: false,
                dag_shutdown: false,
                rand_manager: false,
                block_retrieval: false,
                batch_retrieval: false,
                quorum_store_coordinator: false,
                ..self.channels
            },
            ..self
        }
    }

    /// The manager after it started to take part in rounds.
    pub open spec fn in_rounds(self) -> EpochManager {
        EpochManager {
            recovery_mode: false,
            channels: Channels {
                round_manager: true,
                buffered_proposal: true,
                round_manager_close: true,
                block_retrieval: true,
                sync_info_request: true,
                ..self.channels
            },
            ..self
        }
    }

    /// The manager after it started to recover.
    pub open spec fn recovering(self) -> EpochManager {
        EpochManager {
            recovery_mode: true,
            channels: Channels { round_manager: true, round_manager_close: true, ..self.channels },
            ..self
        }
    }

    /// The configuration of the keys of identity providers before there is one on chain: it is
    /// converted from the features of the chain and the providers that it supports.
    pub fn equivalent_jwk_consensus_config_from_deprecated_resources(
        features: Option<Vec<u8>>,
        supported_oidc_providers: Option<Vec<u8>>,
    ) -> (config: JWKConsensusConfig)
        ensures
            config == (JWKConsensusConfig::FromDeprecated { features, supported_oidc_providers }),
    {
        JWKConsensusConfig::FromDeprecated { features, supported_oidc_providers }
    }

    /// Which key the node signs with in an epoch of `verifier`.
    pub fn load_consensus_key(&self, verifier: &ValidatorVerifier) -> (source: ConsensusKeySource)
        ensures
            source == (if crate::validators::has_validator(verifier.validators@, self.author) {
                ConsensusKeySource::ByPublicKey
            } else {
                ConsensusKeySource::Default
            }),
    {
        if verifier.validator_index(&self.author).is_some() {
            ConsensusKeySource::ByPublicKey
        } else {
            ConsensusKeySource::Default
        }
    }

    /// Enters the epoch that `payload` tells of.
    pub fn start_new_epoch(&mut self, payload: EpochPayload) -> (start: EpochStart)
        ensures
            start.epoch_state.epoch == payload.epoch,
            *start.epoch_state.verifier == payload.verifier,
            start.consensus_config == (match payload.consensus_config {
                Some(config) => config,
                None => payload.default_consensus_config,
            }),
            start.default_execution_config == !payload.has_execution_config,
            start.randomness_force_disabled == (old(self).randomness_override_seq_num > (
            match payload.randomness_seq_num {
                Some(number) => number,
                None => payload.default_randomness_seq_num,
            })),
            start.jwk_consensus_config == (if payload.has_jwk_consensus_config {
                JWKConsensusConfig::OnChain
            } else {
                JWKConsensusConfig::FromDeprecated {
                    features: payload.features,
                    supported_oidc_providers: payload.supported_oidc_providers,
                }
            }),
            start.consensus_key == (if crate::validators::has_validator(
                payload.verifier.validators@,
                old(self).author,
            ) {
                ConsensusKeySource::ByPublicKey
            } else {
                ConsensusKeySource::Default
            }),
            start.protocol == (if start.consensus_config.is_dag_enabled {
                Protocol::Dag
            } else {
                Protocol::Jolteon
            }),
            *final(self) == old(self).entered(payload),
    {
        let seq_num: u64 = match payload.randomness_seq_num {
            Some(number) => number,
            None => payload.default_randomness_seq_num,
        };
        let consensus_config = match payload.consensus_config {
            Some(config) => config,
            None => payload.default_consensus_config,
        };
        self.is_current_epoch_validator = self.is_validator && has_address(
            &payload.active_validators,
            self.author,
        );
        let consensus_key = self.load_consensus_key(&payload.verifier);
        let jwk_consensus_config = if payload.has_jwk_consensus_config {
            JWKConsensusConfig::OnChain
        } else {
            EpochManager::equivalent_jwk_consensus_config_from_deprecated_resources(
                payload.features,
                payload.supported_oidc_providers,
            )
        };
        let epoch_state = EpochState::new(payload.epoch, payload.verifier);
        self.epoch_state = Some(epoch_state.clone());
        EpochStart {
            epoch_state,
            consensus_config,
            default_execution_config: !payload.has_execution_config,
            randomness_force_disabled: self.randomness_override_seq_num > seq_num,
            jwk_consensus_config,
            consensus_key,
            protocol: if consensus_config.is_dag_enabled {
                Protocol::Dag
            } else {
                Protocol::Jolteon
            },
        }
    }

    /// Whether the quorum store is on: a failure can be injected that turns it off, and else the
    /// environment says.
    pub open spec fn quorum_store_switch(injected: bool, value: Option<Seq<char>>) -> Option<
        bool,
    > {
        if injected {
            Some(false)
        } else {
            switch_value(value)
        }
    }

    /// Whether the quorum store is to be on; none where the environment says neither.
    pub fn enable_quorum_store(injected: bool, value: &Option<String>) -> (on: Option<bool>)
        ensures
            on == Self::quorum_store_switch(injected, text_of(*value)),
    {
        if injected {
            return Some(false);
        }
        parse_switch(value)
    }

    /// Where transactions come from in the epoch.
    pub open spec fn payload_source(
        &self,
        quorum_store_enabled: bool,
        consensus_config: ConsensusConfig,
    ) -> PayloadSource {
        if quorum_store_enabled {
            PayloadSource::QuorumStore {
                epoch: self.current_epoch(),
                network: if self.is_current_epoch_validator {
                    NetworkId::Validator
                } else {
                    NetworkId::Vfn
                },
                num_validators: self.epoch_state->0.verifier.validators@.len() as u64,
                dag_config: consensus_config.is_dag_enabled,
                broadcast_proofs: !consensus_config.is_dag_enabled,
            }
        } else {
            PayloadSource::DirectMempool
        }
    }

    /// Where transactions come from in the epoch.
    pub fn init_payload_provider(&self, consensus_config: &ConsensusConfig) -> (source:
        PayloadSource)
        requires
            self.started(),
        ensures
            source == self.payload_source(self.quorum_store_enabled, *consensus_config),
    {
        let (epoch, num_validators): (u64, u64) = match &self.epoch_state {
            Some(state) => (state.epoch, state.verifier.len() as u64),
            None => vstd::pervasive::unreached(),
        };
        if self.quorum_store_enabled {
            PayloadSource::QuorumStore {
                epoch,
                network: if self.is_current_epoch_validator {
                    NetworkId::Validator
                } else {
                    NetworkId::Vfn
                },
                num_validators,
                dag_config: consensus_config.is_dag_enabled,
                broadcast_proofs: !consensus_config.is_dag_enabled,
            }
        } else {
            PayloadSource::DirectMempool
        }
    }

    /// Sets up what the two protocols share: where transactions come from, and whether the quorum
    /// store is to be started, which only a validator of the epoch does.
    pub fn initialize_shared_component(
        &mut self,
        quorum_store_enabled: bool,
        consensus_config: &ConsensusConfig,
    ) -> (setup: (PayloadSource, bool))
        requires
            old(self).started(),
        ensures
            setup.0 == old(self).payload_source(quorum_store_enabled, *consensus_config),
            setup.1 == old(self).is_current_epoch_validator,
            *final(self) == (EpochManager { quorum_store_enabled, ..*old(self) }),
    {
        self.quorum_store_enabled = quorum_store_enabled;
        let source = self.init_payload_provider(consensus_config);
        (source, self.is_current_epoch_validator)
    }

    /// Notes whether the source of transactions can be sent messages.
    pub fn set_quorum_store_channel(&mut self, open: bool)
        ensures
            *final(self) == (EpochManager {
                channels: Channels { quorum_store_msg: open, ..old(self).channels },
                ..*old(self)
            }),
    {
        self.channels.quorum_store_msg = open;
    }

    /// Notes that the quorum store has started, if there was one to start.
    pub fn start_quorum_store(&mut self, started: bool)
        ensures
            *final(self) == (EpochManager {
                channels: Channels {
                    quorum_store_coordinator: old(self).channels.quorum_store_coordinator
                        || started,
                    batch_retrieval: old(self).channels.batch_retrieval || started,
                    ..old(self).channels
                },
                ..*old(self)
            }),
    {
        if started {
            self.channels.quorum_store_coordinator = true;
            self.channels.batch_retrieval = true;
        }
    }

    /// Notes that the manager of randomness can be sent messages.
    pub fn start_rand_manager(&mut self)
        ensures
            *final(self) == (EpochManager {
                channels: Channels { rand_manager: true, ..old(self).channels },
                ..*old(self)
            }),
    {
        self.channels.rand_manager = true;
    }

    /// Starts to take part in rounds, from `root_round` on.
    pub fn start_round_manager(
        &mut self,
        root_round: Round,
        consensus_config: &ConsensusConfig,
        enable_pipeline: bool,
    ) -> (start: RoundManagerStart)
        ensures
            start == (RoundManagerStart {
                root_round,
                with_pipeline_builder: enable_pipeline,
                with_validator_components: old(self).is_current_epoch_validator,
                order_vote_enabled: consensus_config.order_vote_enabled,
                is_validator: old(self).is_current_epoch_validator,
            }),
            *final(self) == (EpochManager {
                channels: Channels {
                    round_manager: true,
                    buffered_proposal: true,
                    round_manager_close: true,
                    block_retrieval: true,
                    sync_info_request: true,
                    ..old(self).channels
                },
                ..*old(self)
            }),
    {
        self.channels.round_manager = true;
        self.channels.buffered_proposal = true;
        self.channels.round_manager_close = true;
        self.channels.block_retrieval = true;
        self.channels.sync_info_request = true;
        RoundManagerStart {
            root_round,
            with_pipeline_builder: enable_pipeline,
            with_validator_components: self.is_current_epoch_validator,
            order_vote_enabled: consensus_config.order_vote_enabled,
            is_validator: self.is_current_epoch_validator,
        }
    }

    /// Starts to recover.
    pub fn start_recovery_manager(&mut self)
        ensures
            *final(self) == (EpochManager {
                channels: Channels {
                    round_manager: true,
                    round_manager_close: true,
                    ..old(self).channels
                },
                ..*old(self)
            }),
    {
        self.channels.round_manager = true;
        self.channels.round_manager_close = true;
    }

    /// Starts an epoch of rounds: with a round manager where storage holds all that it needs, and
    /// else with a recovery manager.
    pub fn start_new_epoch_with_joltean(
        &mut self,
        data: LivenessStorageData,
        consensus_config: &ConsensusConfig,
        enable_pipeline: bool,
    ) -> (start: JolteonStart)
        ensures
            match data {
                LivenessStorageData::FullRecoveryData { root_round } => {
                    &&& start == JolteonStart::RoundManager(
                        RoundManagerStart {
                            root_round,
                            with_pipeline_builder: enable_pipeline,
                            with_validator_components: old(self).is_current_epoch_validator,
                            order_vote_enabled: consensus_config.order_vote_enabled,
                            is_validator: old(self).is_current_epoch_validator,
                        },
                    )
                    &&& *final(self) == old(self).in_rounds()
                },
                LivenessStorageData::PartialRecoveryData { committed_round } => {
                    &&& start == (JolteonStart::RecoveryManager {
                        committed_round,
                        order_vote_enabled: consensus_config.order_vote_enabled,
                    })
                    &&& *final(self) == old(self).recovering()
                },
            },
    {
        match data {
            LivenessStorageData::FullRecoveryData { root_round } => {
                self.recovery_mode = false;
                JolteonStart::RoundManager(
                    self.start_round_manager(root_round, consensus_config, enable_pipeline),
                )
            },
            LivenessStorageData::PartialRecoveryData { committed_round } => {
                self.recovery_mode = true;
                self.start_recovery_manager();
                JolteonStart::RecoveryManager {
                    committed_round,
                    order_vote_enabled: consensus_config.order_vote_enabled,
                }
            },
        }
    }

    /// Starts an epoch of a graph of proposals. It orders blocks before it executes them, and may
    /// have to read the ends of the epochs that `causal_history_window` reaches back over; the
    /// window is also the number of rounds that their proposers are needed for. Counted in epochs,
    /// the window is cut to 32 bits.
    pub fn start_new_epoch_with_dag(
        &mut self,
        consensus_config: &ConsensusConfig,
        causal_history_window: usize,
    ) -> (request: Option<crate::proposer_election::HistoryRequest>)
        requires
            old(self).started(),
            consensus_config.decoupled_execution,
        ensures
            request == crate::proposer_election::history_request(
                old(self).current_epoch(),
                causal_history_window as u32,
                causal_history_window as u64,
            ),
            *final(self) == (EpochManager {
                channels: Channels { dag_rpc: true, dag_shutdown: true, ..old(self).channels },
                ..*old(self)
            }),
    {
        let epoch: u64 = self.epoch();
        self.channels.dag_rpc = true;
        self.channels.dag_shutdown = true;
        crate::proposer_election::epochs_to_read(
            epoch,
            causal_history_window as u32,
            causal_history_window as u64,
        )
    }

    /// Ends what runs in the epoch.
    pub fn shutdown_current_processor(&mut self) -> (shutdown: Shutdown)
        ensures
            shutdown == (Shutdown {
                close_round_manager: old(self).channels.round_manager_close,
                close_dag: old(self).channels.dag_shutdown,
                stop_quorum_store: old(self).channels.quorum_store_coordinator,
            }),
            *final(self) == old(self).shut_down(),
    {
        let shutdown = Shutdown {
            close_round_manager: self.channels.round_manager_close,
            close_dag: self.channels.dag_shutdown,
            stop_quorum_store: self.channels.quorum_store_coordinator,
        };
        self.channels.round_manager_close = false;
        self.channels.round_manager = false;
        self.channels.dag_shutdown = false;
        self.channels.rand_manager = false;
        self.channels.block_retrieval = false;
        self.channels.batch_retrieval = false;
        self.channels.quorum_store_coordinator = false;
        shutdown
    }
}

} // verus!
