//! The part of consensus that outlives an epoch: it starts and stops what runs within one, and
//! decides where messages go.

use crate::block_retriever::random_index;
use crate::consensus_types::Block;
use crate::types::{AccountAddress, Author, Round};
use crate::validators::EpochState;
use vstd::prelude::*;

verus! {

/// Which parts of the node can be sent messages.
#[derive(Debug, Clone, Copy, PartialEq, Eq, Structural)]
pub struct Channels {
    pub rand_manager: bool,
    pub round_manager: bool,
    pub round_manager_close: bool,
    pub buffered_proposal: bool,
    pub block_retrieval: bool,
    pub sync_info_request: bool,
    pub quorum_store_msg: bool,
    pub quorum_store_coordinator: bool,
    pub batch_retrieval: bool,
    pub dag_rpc: bool,
    pub dag_shutdown: bool,
}

impl Channels {
    /// No part of the node runs yet.
    pub open spec fn none() -> Channels {
        Channels {
            rand_manager: false,
            round_manager: false,
            round_manager_close: false,
            buffered_proposal: false,
            block_retrieval: false,
            sync_info_request: false,
            quorum_store_msg: false,
            quorum_store_coordinator: false,
            batch_retrieval: false,
            dag_rpc: false,
            dag_shutdown: false,
        }
    }
}

/// The state of the epoch manager.
pub struct EpochManager {
    pub author: Author,
    /// A local number that, where it is larger than the one on chain, switches randomness off.
    pub randomness_override_seq_num: u64,
    pub quorum_store_enabled: bool,
    /// Whether the node recovers instead of taking part in rounds.
    pub recovery_mode: bool,
    /// Whether the node is set up as a validator.
    pub is_validator: bool,
    /// Whether the node is a validator of the current epoch.
    pub is_current_epoch_validator: bool,
    pub epoch_state: Option<EpochState>,
    /// Whether an answer with a peer's sync info is awaited.
    pub inflight_request_sync_info: bool,
    pub channels: Channels,
}

/// Why a message is refused.
#[derive(Debug, PartialEq, Eq)]
pub enum EpochError {
    /// A failure was injected.
    Injected,
    /// A message of the current epoch was taken for one of another.
    SameEpoch,
    /// The epoch of the message cannot be told.
    UnknownEpoch(String),
    /// An epoch is asked for that has not begun here.
    EpochBeyondLocal,
    /// The message is of a kind that does not come this way.
    UnexpectedMessage,
    /// The quorum store is off, but a message for it came.
    QuorumStoreDisabled { peer: AccountAddress },
    /// The request says no epoch, though its kind has one.
    MissingEpoch,
    QuorumStoreNotStarted,
    DagNotBootstrapped,
    RandManagerNotStarted,
}

/// A kind of message that belongs to an epoch.
#[derive(Debug, Clone, Copy, PartialEq, Eq, Structural)]
pub enum EventKind {
    ProposalMsg,
    SyncInfo,
    VoteMsg,
    OrderVoteMsg,
    CommitVoteMsg,
    CommitDecisionMsg,
    BatchMsg,
    BatchRequestMsg,
    SignedBatchInfo,
    ProofOfStoreMsg,
}

/// A message from a peer, as far as it is looked at before it is verified.
#[derive(Debug)]
pub enum ConsensusMsg {
    /// A message that belongs to an epoch, if the epoch can be told.
    Event { kind: EventKind, epoch: Result<u64, String> },
    /// A proof that an epoch ended, if the epoch can be told.
    EpochChangeProof { epoch: Result<u64, String> },
    /// A request for proofs that epochs ended.
    EpochRetrievalRequest { start_epoch: u64, end_epoch: u64 },
    /// Any other message.
    Other,
}

/// What a message from another epoch leads to.
#[derive(Debug, Clone, Copy, PartialEq, Eq, Structural)]
pub enum DifferentEpoch {
    /// Nothing: the sender will catch up by itself.
    Ignore,
    /// The sender is sent the proofs that the epochs in `start_epoch..end_epoch` ended.
    SendProof { start_epoch: u64, end_epoch: u64 },
    /// The round manager is told that there is a later epoch than `epoch`.
    CatchUp { epoch: u64 },
}

/// What a message leads to, from the epoch that it is of.
#[derive(Debug, Clone, Copy, PartialEq, Eq, Structural)]
pub enum EpochCheck {
    /// The message is of this epoch.
    Deliver,
    /// The message is of another epoch.
    Different(DifferentEpoch),
    /// The message proves that this epoch ended.
    InitiateNewEpoch,
    /// The message proves that another epoch ended.
    IgnoreProof,
    /// The sender is sent the proofs that it asks for.
    SendProof { start_epoch: u64, end_epoch: u64 },
}

/// What a message leads to.
#[derive(Debug, Clone, Copy, PartialEq, Eq, Structural)]
pub enum MessageStep {
    /// Nothing: the role of the node does not take it.
    Filtered,
    /// Nothing: the node recovers without a quorum store.
    FilteredQuorumStore,
    /// What its epoch leads to.
    ByEpoch(EpochCheck),
    /// It is verified, and forwarded if that succeeds.
    Verify,
}

/// Where a verified message goes.
#[derive(Debug, Clone, Copy, PartialEq, Eq, Structural)]
pub enum Route {
    QuorumStore,
    BufferedProposal,
    RoundManager,
}

/// A step that a verified proposal takes before it is forwarded, whether or not it can be.
#[derive(Debug, Clone, Copy, PartialEq, Eq, Structural)]
pub enum ProposalStep {
    /// Prefetch its payload.
    PrefetchPayload,
    /// Keep its block until it is asked for.
    NotePending,
}

/// A kind of request from a peer.
#[derive(Debug, Clone, Copy, PartialEq, Eq, Structural)]
pub enum RpcKind {
    BlockRetrieval,
    BatchRetrieval,
    DAGRequest,
    CommitRequest,
    RandGenRequest,
    SyncInfoRequest,
}

/// What a request leads to.
#[derive(Debug, Clone, Copy, PartialEq, Eq, Structural)]
pub enum RpcStep {
    /// Nothing: the role of the node does not take it.
    Filtered,
    /// The request is of another epoch.
    Different(DifferentEpoch),
    /// Nothing: the round manager has not started.
    NotStarted,
    /// The request goes to the part of the node that serves its kind.
    Forward,
}

/// What a peer's sync info leads to.
#[derive(Debug, Clone, Copy, PartialEq, Eq, Structural)]
pub enum SyncAdvance {
    /// Nothing: a validator of the epoch learns of blocks by itself.
    IgnoredByValidator,
    /// The round manager is told that there is a later epoch than `epoch`.
    CatchUp { epoch: u64 },
    /// The round manager gets the sync info.
    Forward,
    /// Nothing: the peer is behind.
    PeerBehind,
}

/// What the answer to a request for sync info leads to.
#[derive(Debug, Clone, Copy, PartialEq, Eq, Structural)]
pub enum SyncInfoStep {
    /// The manager stops: there will be no more answers.
    Stop,
    /// Nothing: the peer did not send its sync info.
    Failed,
    /// What the sync info leads to.
    Advance(SyncAdvance),
}

/// What a timeout of a round leads to.
#[derive(Debug, Clone, Copy, PartialEq, Eq)]
pub enum TimeoutStep {
    /// Nothing: only a validator of the epoch times out.
    NotValidator,
    /// Nothing: there is no round manager.
    NoRoundManager,
    /// The round manager is told.
    Forward { peer: AccountAddress, round: Round },
}

/// A network of peers.
#[derive(Debug, Clone, Copy, PartialEq, Eq, Structural)]
pub enum NetworkId {
    Validator,
    Vfn,
    Public,
}

/// A peer on a network.
#[derive(Debug, Clone, Copy)]
pub struct PeerNetworkId {
    pub network_id: NetworkId,
    pub peer_id: AccountAddress,
}

/// Whether messages of `kind` are for the quorum store.
pub open spec fn is_quorum_store_kind(kind: EventKind) -> bool {
    kind is BatchMsg || kind is SignedBatchInfo || kind is ProofOfStoreMsg
}

/// The peers on the network of full nodes, in order.
pub open spec fn vfn_peers_of(peers: Seq<PeerNetworkId>) -> Seq<AccountAddress>
    decreases peers.len(),
{
    if peers.len() == 0 {
        Seq::empty()
    } else {
        let earlier = vfn_peers_of(peers.drop_last());
        if peers.last().network_id is Vfn {
            earlier.push(peers.last().peer_id)
        } else {
            earlier
        }
    }
}

fn collect_vfn_peers(peers: &Vec<PeerNetworkId>) -> (vfn_peers: Vec<AccountAddress>)
    ensures
        vfn_peers@ == vfn_peers_of(peers@),
{
    let mut vfn_peers: Vec<AccountAddress> = Vec::new();
    let mut i: usize = 0;
    while i < peers.len()
        invariant
            i <= peers.len(),
            vfn_peers@ == vfn_peers_of(peers@.take(i as int)),
        decreases peers.len() - i,
    {
        assert(peers@.take(i + 1).drop_last() =~= peers@.take(i as int));
        if peers[i].network_id == NetworkId::Vfn {
            vfn_peers.push(peers[i].peer_id);
        }
        i += 1;
    }
    assert(peers@.take(i as int) =~= peers@);
    vfn_peers
}

/// Whether the peer ids of all networks are that of `author`; a validator has a validator network.
pub open spec fn peer_ids_match(
    author: AccountAddress,
    is_validator: bool,
    validator_network: Option<AccountAddress>,
    full_node_networks: Seq<AccountAddress>,
) -> bool {
    &&& is_validator ==> validator_network == Some(author)
    &&& forall|i: int|
        0 <= i < full_node_networks.len() ==> #[trigger] full_node_networks[i] == author
}

/// Whether the peer ids of all networks are that of `author`.
pub fn check_peer_ids(
    author: AccountAddress,
    is_validator: bool,
    validator_network: Option<AccountAddress>,
    full_node_networks: &Vec<AccountAddress>,
) -> (matches: bool)
    ensures
        matches == peer_ids_match(
            author,
            is_validator,
            validator_network,
            full_node_networks@,
        ),
{
    if is_validator {
        match validator_network {
            Some(peer_id) => {
                if !(peer_id == author) {
                    return false;
                }
            },
            None => {
                return false;
            },
        }
    }
    let mut i: usize = 0;
    while i < full_node_networks.len()
        invariant
            i <= full_node_networks.len(),
            forall|j: int| 0 <= j < i ==> #[trigger] full_node_networks@[j] == author,
        decreases full_node_networks.len() - i,
    {
        if !(full_node_networks[i] == author) {
            assert(full_node_networks@[i as int] != author);
            return false;
        }
        i += 1;
    }
    true
}

impl EpochManager {
    /// An epoch manager before its first epoch.
    pub fn new(
        author: Author,
        is_validator: bool,
        validator_network: Option<AccountAddress>,
        full_node_networks: &Vec<AccountAddress>,
        randomness_override_seq_num: u64,
    ) -> (manager: Self)
        requires
            peer_ids_match(author, is_validator, validator_network, full_node_networks@),
        ensures
            manager.author == author,
            manager.randomness_override_seq_num == randomness_override_seq_num,
            manager.quorum_store_enabled,
            !manager.recovery_mode,
            manager.is_validator == is_validator,
            !manager.is_current_epoch_validator,
            manager.epoch_state is None,
            !manager.inflight_request_sync_info,
            manager.channels == Channels::none(),
    {
        EpochManager {
            author,
            randomness_override_seq_num,
            quorum_store_enabled: true,
            recovery_mode: false,
            is_validator,
            is_current_epoch_validator: false,
            epoch_state: None,
            inflight_request_sync_info: false,
            channels: Channels {
                rand_manager: false,
                round_manager: false,
                round_manager_close: false,
                buffered_proposal: false,
                block_retrieval: false,
                sync_info_request: false,
                quorum_store_msg: false,
                quorum_store_coordinator: false,
                batch_retrieval: false,
                dag_rpc: false,
                dag_shutdown: false,
            },
        }
    }

    /// Whether the manager is in an epoch.
    pub open spec fn started(&self) -> bool {
        self.epoch_state is Some
    }

    /// The epoch that the manager is in.
    pub open spec fn current_epoch(&self) -> u64 {
        self.epoch_state->0.epoch
    }

    pub fn epoch(&self) -> (epoch: u64)
        requires
            self.started(),
        ensures
            epoch == self.current_epoch(),
    {
        match &self.epoch_state {
            Some(state) => state.epoch,
            None => vstd::pervasive::unreached(),
        }
    }

    /// Whether the node is among the validators of the epoch.
    pub open spec fn in_validator_set(&self) -> bool {
        crate::validators::has_validator(
            self.epoch_state->0.verifier.validators@,
            self.author,
        )
    }

    /// What a message from `different_epoch` leads to. A validator leaves those behind to
    /// themselves; a node that is none sends them proofs, since it has no other way to tell them.
    pub open spec fn different_epoch(&self, different_epoch: u64) -> Result<
        DifferentEpoch,
        EpochError,
    > {
        if different_epoch < self.current_epoch() {
            if self.in_validator_set() {
                Ok(DifferentEpoch::Ignore)
            } else {
                Ok(
                    DifferentEpoch::SendProof {
                        start_epoch: different_epoch,
                        end_epoch: self.current_epoch(),
                    },
                )
            }
        } else if different_epoch > self.current_epoch() {
            Ok(DifferentEpoch::CatchUp { epoch: self.current_epoch() })
        } else {
            Err(EpochError::SameEpoch)
        }
    }

    /// Whether a message of `epoch` can be dealt with: the manager is in an epoch, and a later
    /// epoch takes a round manager.
    pub open spec fn can_handle(&self, epoch: u64) -> bool {
        self.started() && (epoch > self.current_epoch() ==> self.channels.round_manager)
    }

    pub fn can_handle_epoch(&self, epoch: u64) -> (can: bool)
        ensures
            can == self.can_handle(epoch),
    {
        match &self.epoch_state {
            Some(state) => epoch <= state.epoch || self.channels.round_manager,
            None => false,
        }
    }

    pub fn process_different_epoch(&self, different_epoch: u64) -> (step: Result<
        DifferentEpoch,
        EpochError,
    >)
        requires
            self.can_handle(different_epoch),
        ensures
            step == self.different_epoch(different_epoch),
    {
        let epoch: u64 = self.epoch();
        if different_epoch < epoch {
            let known = match &self.epoch_state {
                Some(state) => state.verifier.get_voting_power(&self.author).is_some(),
                None => vstd::pervasive::unreached(),
            };
            if known {
                Ok(DifferentEpoch::Ignore)
            } else {
                Ok(DifferentEpoch::SendProof { start_epoch: different_epoch, end_epoch: epoch })
            }
        } else if different_epoch > epoch {
            Ok(DifferentEpoch::CatchUp { epoch })
        } else {
            Err(EpochError::SameEpoch)
        }
    }

    /// Whether the role of the node takes `msg` from `peer_id`: the end of an epoch only from
    /// itself, and all else only as a validator of the epoch.
    pub open spec fn takes_msg(&self, peer_id: AccountAddress, msg: ConsensusMsg) -> bool {
        if msg is EpochChangeProof {
            peer_id == self.author
        } else {
            self.is_current_epoch_validator
        }
    }

    pub fn consensus_msg_filter(&self, peer_id: &AccountAddress, msg: &ConsensusMsg) -> (takes:
        bool)
        ensures
            takes == self.takes_msg(*peer_id, *msg),
    {
        match msg {
            ConsensusMsg::EpochChangeProof { .. } => *peer_id == self.author,
            _ => self.is_current_epoch_validator,
        }
    }

    /// What `msg` leads to, from the epoch that it is of.
    pub open spec fn epoch_check(&self, msg: ConsensusMsg) -> Result<EpochCheck, EpochError> {
        match msg {
            ConsensusMsg::Event { epoch, .. } => match epoch {
                Err(cause) => Err(EpochError::UnknownEpoch(cause)),
                Ok(epoch) => if epoch == self.current_epoch() {
                    Ok(EpochCheck::Deliver)
                } else {
                    match self.different_epoch(epoch) {
                        Ok(step) => Ok(EpochCheck::Different(step)),
                        Err(e) => Err(e),
                    }
                },
            },
            ConsensusMsg::EpochChangeProof { epoch } => match epoch {
                Err(cause) => Err(EpochError::UnknownEpoch(cause)),
                Ok(epoch) => if epoch == self.current_epoch() {
                    Ok(EpochCheck::InitiateNewEpoch)
                } else {
                    Ok(EpochCheck::IgnoreProof)
                },
            },
            ConsensusMsg::EpochRetrievalRequest { start_epoch, end_epoch } => {
                if end_epoch <= self.current_epoch() {
                    Ok(EpochCheck::SendProof { start_epoch, end_epoch })
                } else {
                    Err(EpochError::EpochBeyondLocal)
                }
            },
            ConsensusMsg::Other => Err(EpochError::UnexpectedMessage),
        }
    }

    /// Whether the epoch of `msg` can be dealt with, if it says one.
    pub open spec fn can_check(&self, msg: ConsensusMsg) -> bool {
        match msg {
            ConsensusMsg::Event { epoch: Ok(epoch), .. } => self.can_handle(epoch),
            ConsensusMsg::EpochChangeProof { epoch: Ok(_) } => self.started(),
            ConsensusMsg::EpochRetrievalRequest { .. } => self.started(),
            _ => true,
        }
    }

    pub fn can_check_epoch(&self, msg: &ConsensusMsg) -> (can: bool)
        ensures
            can == self.can_check(*msg),
    {
        match msg {
            ConsensusMsg::Event { epoch: Ok(epoch), kind: _ } => self.can_handle_epoch(*epoch),
            ConsensusMsg::EpochChangeProof { epoch: Ok(_) } => self.epoch_state.is_some(),
            ConsensusMsg::EpochRetrievalRequest { .. } => self.epoch_state.is_some(),
            _ => true,
        }
    }

    pub fn check_epoch(&self, msg: ConsensusMsg) -> (check: Result<EpochCheck, EpochError>)
        requires
            self.can_check(msg),
        ensures
            check == self.epoch_check(msg),
    {
        match msg {
            ConsensusMsg::Event { kind: _, epoch } => match epoch {
                Err(cause) => Err(EpochError::UnknownEpoch(cause)),
                Ok(epoch) => {
                    if epoch == self.epoch() {
                        return Ok(EpochCheck::Deliver);
                    }
                    match self.process_different_epoch(epoch) {
                        Ok(step) => Ok(EpochCheck::Different(step)),
                        Err(e) => Err(e),
                    }
                },
            },
            ConsensusMsg::EpochChangeProof { epoch } => match epoch {
                Err(cause) => Err(EpochError::UnknownEpoch(cause)),
                Ok(epoch) => if epoch == self.epoch() {
                    Ok(EpochCheck::InitiateNewEpoch)
                } else {
                    Ok(EpochCheck::IgnoreProof)
                },
            },
            ConsensusMsg::EpochRetrievalRequest { start_epoch, end_epoch } => {
                if end_epoch <= self.epoch() {
                    Ok(EpochCheck::SendProof { start_epoch, end_epoch })
                } else {
                    Err(EpochError::EpochBeyondLocal)
                }
            },
            ConsensusMsg::Other => Err(EpochError::UnexpectedMessage),
        }
    }

    /// Whether a message of `kind` from `peer` passes: one for the quorum store only where that is
    /// on; it is an error where it is off, but not while the node recovers.
    pub open spec fn quorum_store_filter(&self, peer: AccountAddress, kind: EventKind) -> Result<
        bool,
        EpochError,
    > {
        if !is_quorum_store_kind(kind) || self.quorum_store_enabled {
            Ok(true)
        } else if self.recovery_mode {
            Ok(false)
        } else {
            Err(EpochError::QuorumStoreDisabled { peer })
        }
    }

    pub fn filter_quorum_store_events(&self, peer_id: AccountAddress, kind: EventKind) -> (passes:
        Result<bool, EpochError>)
        ensures
            passes == self.quorum_store_filter(peer_id, kind),
    {
        match kind {
            EventKind::BatchMsg | EventKind::SignedBatchInfo | EventKind::ProofOfStoreMsg => {
                if self.quorum_store_enabled {
                    Ok(true)
                } else if self.recovery_mode {
                    Ok(false)
                } else {
                    Err(EpochError::QuorumStoreDisabled { peer: peer_id })
                }
            },
            _ => Ok(true),
        }
    }

    /// What `msg` from `peer_id` leads to.
    pub open spec fn message_step(
        &self,
        peer_id: AccountAddress,
        msg: ConsensusMsg,
        injected: bool,
    ) -> Result<MessageStep, EpochError> {
        if !self.takes_msg(peer_id, msg) {
            Ok(MessageStep::Filtered)
        } else if injected {
            Err(EpochError::Injected)
        } else {
            match self.epoch_check(msg) {
                Err(e) => Err(e),
                Ok(EpochCheck::Deliver) => match self.quorum_store_filter(peer_id, msg->kind) {
                    Ok(true) => Ok(MessageStep::Verify),
                    Ok(false) => Ok(MessageStep::FilteredQuorumStore),
                    Err(e) => Err(e),
                },
                Ok(check) => Ok(MessageStep::ByEpoch(check)),
            }
        }
    }

    pub fn process_message(&self, peer_id: AccountAddress, msg: ConsensusMsg, injected: bool) -> (
    step: Result<MessageStep, EpochError>)
        requires
            self.takes_msg(peer_id, msg) && !injected ==> self.can_check(msg),
        ensures
            step == self.message_step(peer_id, msg, injected),
    {
        if !self.consensus_msg_filter(&peer_id, &msg) {
            return Ok(MessageStep::Filtered);
        }
        if injected {
            return Err(EpochError::Injected);
        }
        let kind = match &msg {
            ConsensusMsg::Event { kind, epoch: _ } => Some(*kind),
            _ => None,
        };
        match self.check_epoch(msg) {
            Err(e) => Err(e),
            Ok(EpochCheck::Deliver) => match kind {
                Some(kind) => match self.filter_quorum_store_events(peer_id, kind) {
                    Ok(true) => Ok(MessageStep::Verify),
                    Ok(false) => Ok(MessageStep::FilteredQuorumStore),
                    Err(e) => Err(e),
                },
                None => vstd::pervasive::unreached(),
            },
            Ok(check) => Ok(MessageStep::ByEpoch(check)),
        }
    }

    /// Where a verified message of `kind` goes.
    pub open spec fn route_of(kind: EventKind) -> Route {
        if is_quorum_store_kind(kind) {
            Route::QuorumStore
        } else if kind is ProposalMsg {
            Route::BufferedProposal
        } else {
            Route::RoundManager
        }
    }

    /// Whether the part of the node that `route` leads to can be sent messages.
    pub open spec fn is_open(&self, route: Route) -> bool {
        match route {
            Route::QuorumStore => self.channels.quorum_store_msg,
            Route::BufferedProposal => self.channels.buffered_proposal,
            Route::RoundManager => self.channels.round_manager,
        }
    }

    /// Where a verified message of `kind` goes, and whether it can go there.
    pub fn forward_event(&self, kind: EventKind) -> (forward: (Route, bool))
        ensures
            forward.0 == Self::route_of(kind),
            forward.1 == self.is_open(Self::route_of(kind)),
            forward.0 == Route::BufferedProposal <==> kind == EventKind::ProposalMsg,
            forward.0 == Route::QuorumStore <==> kind == EventKind::BatchMsg || kind
                == EventKind::SignedBatchInfo || kind == EventKind::ProofOfStoreMsg,
            forward.1 == (match forward.0 {
                Route::QuorumStore => self.channels.quorum_store_msg,
                Route::BufferedProposal => self.channels.buffered_proposal,
                Route::RoundManager => self.channels.round_manager,
            }),
    {
        match kind {
            EventKind::SignedBatchInfo | EventKind::ProofOfStoreMsg | EventKind::BatchMsg => (
                Route::QuorumStore,
                self.channels.quorum_store_msg,
            ),
            EventKind::ProposalMsg => (Route::BufferedProposal, self.channels.buffered_proposal),
            _ => (Route::RoundManager, self.channels.round_manager),
        }
    }

    /// The steps that the verified proposal of `block` takes before it is forwarded.
    pub fn proposal_steps(block: &Block) -> (steps: Vec<ProposalStep>)
        ensures
            steps@ == (if block.payload is Some {
                seq![ProposalStep::PrefetchPayload, ProposalStep::NotePending]
            } else {
                seq![ProposalStep::NotePending]
            }),
    {
        let mut steps: Vec<ProposalStep> = Vec::new();
        if block.payload.is_some() {
            steps.push(ProposalStep::PrefetchPayload);
        }
        steps.push(ProposalStep::NotePending);
        steps
    }

    /// Whether the role of the node takes a request of `kind`: blocks and sync infos are served by
    /// every node, all else by validators of the epoch.
    pub open spec fn takes_rpc(&self, kind: RpcKind) -> bool {
        kind is BlockRetrieval || kind is SyncInfoRequest || self.is_current_epoch_validator
    }

    pub fn rpc_request_filter(&self, kind: RpcKind) -> (takes: bool)
        ensures
            takes == self.takes_rpc(kind),
    {
        match kind {
            RpcKind::BlockRetrieval | RpcKind::SyncInfoRequest => true,
            _ => self.is_current_epoch_validator,
        }
    }

    /// What a request of `kind` leads to once its epoch is known to fit.
    pub open spec fn serve_rpc(&self, kind: RpcKind) -> Result<RpcStep, EpochError> {
        match kind {
            RpcKind::BlockRetrieval => if self.channels.block_retrieval {
                Ok(RpcStep::Forward)
            } else {
                Ok(RpcStep::NotStarted)
            },
            RpcKind::BatchRetrieval => if self.channels.batch_retrieval {
                Ok(RpcStep::Forward)
            } else {
                Err(EpochError::QuorumStoreNotStarted)
            },
            RpcKind::DAGRequest => if self.channels.dag_rpc {
                Ok(RpcStep::Forward)
            } else {
                Err(EpochError::DagNotBootstrapped)
            },
            RpcKind::CommitRequest => Ok(RpcStep::Forward),
            RpcKind::RandGenRequest => if self.channels.rand_manager {
                Ok(RpcStep::Forward)
            } else {
                Err(EpochError::RandManagerNotStarted)
            },
            RpcKind::SyncInfoRequest => if self.channels.sync_info_request {
                Ok(RpcStep::Forward)
            } else {
                Ok(RpcStep::NotStarted)
            },
        }
    }

    /// What a request of `kind` and of `epoch`, if it says one, leads to.
    pub open spec fn rpc_step(&self, kind: RpcKind, epoch: Option<u64>, injected: bool) -> Result<
        RpcStep,
        EpochError,
    > {
        if !self.takes_rpc(kind) {
            Ok(RpcStep::Filtered)
        } else if injected {
            Err(EpochError::Injected)
        } else {
            match epoch {
                Some(epoch) => if epoch == self.current_epoch() {
                    self.serve_rpc(kind)
                } else {
                    match self.different_epoch(epoch) {
                        Ok(step) => Ok(RpcStep::Different(step)),
                        Err(e) => Err(e),
                    }
                },
                None => if kind is BlockRetrieval || kind is BatchRetrieval
                    || kind is SyncInfoRequest {
                    self.serve_rpc(kind)
                } else {
                    Err(EpochError::MissingEpoch)
                },
            }
        }
    }

    pub fn process_rpc_request(&self, kind: RpcKind, epoch: Option<u64>, injected: bool) -> (step:
        Result<RpcStep, EpochError>)
        requires
            self.takes_rpc(kind) && !injected ==> (epoch matches Some(e) ==> self.can_handle(e)),
        ensures
            step == self.rpc_step(kind, epoch, injected),
    {
        if !self.rpc_request_filter(kind) {
            return Ok(RpcStep::Filtered);
        }
        if injected {
            return Err(EpochError::Injected);
        }
        match epoch {
            Some(epoch) => {
                if epoch != self.epoch() {
                    return match self.process_different_epoch(epoch) {
                        Ok(step) => Ok(RpcStep::Different(step)),
                        Err(e) => Err(e),
                    };
                }
            },
            None => match kind {
                RpcKind::BlockRetrieval | RpcKind::BatchRetrieval | RpcKind::SyncInfoRequest => {},
                _ => {
                    return Err(EpochError::MissingEpoch);
                },
            },
        }
        match kind {
            RpcKind::BlockRetrieval => if self.channels.block_retrieval {
                Ok(RpcStep::Forward)
            } else {
                Ok(RpcStep::NotStarted)
            },
            RpcKind::BatchRetrieval => if self.channels.batch_retrieval {
                Ok(RpcStep::Forward)
            } else {
                Err(EpochError::QuorumStoreNotStarted)
            },
            RpcKind::DAGRequest => if self.channels.dag_rpc {
                Ok(RpcStep::Forward)
            } else {
                Err(EpochError::DagNotBootstrapped)
            },
            RpcKind::CommitRequest => Ok(RpcStep::Forward),
            RpcKind::RandGenRequest => if self.channels.rand_manager {
                Ok(RpcStep::Forward)
            } else {
                Err(EpochError::RandManagerNotStarted)
            },
            RpcKind::SyncInfoRequest => if self.channels.sync_info_request {
                Ok(RpcStep::Forward)
            } else {
                Ok(RpcStep::NotStarted)
            },
        }
    }

    /// Whether a request for `num_blocks` blocks is served.
    pub fn accepts_block_retrieval(num_blocks: u64, max_blocks_allowed: u64) -> (accepts: bool)
        ensures
            accepts == (num_blocks <= max_blocks_allowed),
    {
        num_blocks <= max_blocks_allowed
    }

    /// The peer to ask for its sync info, the one at `draw` among those on the network of full
    /// nodes: none while an answer is awaited, or where there is no such peer.
    pub fn request_sync_info_at(&mut self, vfn_peers: &Vec<AccountAddress>, draw: usize) -> (peer:
        Option<AccountAddress>)
        requires
            vfn_peers@.len() > 0 ==> draw < vfn_peers@.len(),
        ensures
            peer == (if old(self).inflight_request_sync_info || vfn_peers@.len() == 0 {
                None
            } else {
                Some(vfn_peers@[draw as int])
            }),
            *final(self) == (EpochManager {
                inflight_request_sync_info: old(self).inflight_request_sync_info || peer is Some,
                ..*old(self)
            }),
    {
        if self.inflight_request_sync_info || vfn_peers.len() == 0 {
            return None;
        }
        self.inflight_request_sync_info = true;
        Some(vfn_peers[draw])
    }

    /// The peer to ask for its sync info, a random one on the network of full nodes.
    pub fn request_sync_info(&mut self, peers: &Vec<PeerNetworkId>) -> (peer: Option<
        AccountAddress,
    >)
        requires
            !old(self).is_current_epoch_validator,
        ensures
            peer is Some <==> !old(self).inflight_request_sync_info && vfn_peers_of(peers@).len()
                > 0,
            peer matches Some(p) ==> vfn_peers_of(peers@).contains(p),
            *final(self) == (EpochManager {
                inflight_request_sync_info: old(self).inflight_request_sync_info || peer is Some,
                ..*old(self)
            }),
    {
        let vfn_peers = collect_vfn_peers(peers);
        let draw: usize = if vfn_peers.len() == 0 {
            0
        } else {
            random_index(vfn_peers.len())
        };
        self.request_sync_info_at(&vfn_peers, draw)
    }

    /// Whether the sync info of a peer in `sync_info_epoch` can be dealt with: it takes an epoch to
    /// compare with, and a round manager where the peer is not behind.
    pub open spec fn can_advance(&self, sync_info_epoch: u64) -> bool {
        self.is_current_epoch_validator || (self.started() && (sync_info_epoch
            >= self.current_epoch() ==> self.channels.round_manager))
    }

    /// What the sync info of a peer in `sync_info_epoch` leads to.
    pub open spec fn sync_advance(&self, sync_info_epoch: u64) -> SyncAdvance {
        if self.is_current_epoch_validator {
            SyncAdvance::IgnoredByValidator
        } else if sync_info_epoch > self.current_epoch() {
            SyncAdvance::CatchUp { epoch: self.current_epoch() }
        } else if sync_info_epoch == self.current_epoch() {
            SyncAdvance::Forward
        } else {
            SyncAdvance::PeerBehind
        }
    }

    pub fn can_advance_block_sync(&self, sync_info_epoch: u64) -> (can: bool)
        ensures
            can == self.can_advance(sync_info_epoch),
    {
        match &self.epoch_state {
            Some(state) => self.is_current_epoch_validator || sync_info_epoch < state.epoch
                || self.channels.round_manager,
            None => self.is_current_epoch_validator,
        }
    }

    /// What the sync info of a peer in `sync_info_epoch` leads to.
    pub fn advance_block_sync(&self, sync_info_epoch: u64) -> (step: SyncAdvance)
        requires
            self.can_advance(sync_info_epoch),
        ensures
            step == self.sync_advance(sync_info_epoch),
    {
        if self.is_current_epoch_validator {
            return SyncAdvance::IgnoredByValidator;
        }
        let epoch: u64 = self.epoch();
        if sync_info_epoch > epoch {
            SyncAdvance::CatchUp { epoch }
        } else if sync_info_epoch == epoch {
            SyncAdvance::Forward
        } else {
            SyncAdvance::PeerBehind
        }
    }

    /// Takes the answer to a request for sync info, after which another may be made: the epoch of
    /// the peer if it sent one, or the news that there will be no more answers.
    pub fn sync_info_received(&mut self, received: Option<Option<u64>>) -> (step: SyncInfoStep)
        requires
            received matches Some(Some(epoch)) ==> old(self).can_advance(epoch),
        ensures
            step == (match received {
                None => SyncInfoStep::Stop,
                Some(None) => SyncInfoStep::Failed,
                Some(Some(epoch)) => SyncInfoStep::Advance(old(self).sync_advance(epoch)),
            }),
            *final(self) == (EpochManager {
                inflight_request_sync_info: old(self).inflight_request_sync_info
                    && received is None,
                ..*old(self)
            }),
    {
        match received {
            None => SyncInfoStep::Stop,
            Some(answer) => {
                self.inflight_request_sync_info = false;
                match answer {
                    None => SyncInfoStep::Failed,
                    Some(epoch) => SyncInfoStep::Advance(self.advance_block_sync(epoch)),
                }
            },
        }
    }

    /// What the timeout of `round` leads to.
    pub fn process_local_timeout(&self, round: Round) -> (step: TimeoutStep)
        ensures
            step == (if !self.is_current_epoch_validator {
                TimeoutStep::NotValidator
            } else if !self.channels.round_manager {
                TimeoutStep::NoRoundManager
            } else {
                TimeoutStep::Forward { peer: self.author, round }
            }),
    {
        if !self.is_current_epoch_validator {
            return TimeoutStep::NotValidator;
        }
        if !self.channels.round_manager {
            return TimeoutStep::NoRoundManager;
        }
        TimeoutStep::Forward { peer: self.author, round }
    }
}

} // verus!
