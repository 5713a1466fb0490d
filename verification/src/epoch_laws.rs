//! What holds of the epoch manager as a whole.

use crate::epoch_manager::{
    Channels, ConsensusMsg, DifferentEpoch, EpochCheck, EpochError, EpochManager, EventKind,
    MessageStep, NetworkId, PeerNetworkId, Route, RpcKind, RpcStep, SyncAdvance,
};
use crate::epoch_start::{ConsensusConfig, EpochPayload, PayloadSource};
use crate::types::AccountAddress;
use vstd::prelude::*;

verus! {

/// A message is verified only where it is of the current epoch, and only by a validator of it.
pub proof fn only_the_current_epoch_is_verified(
    manager: EpochManager,
    peer_id: AccountAddress,
    msg: ConsensusMsg,
    injected: bool,
)
    requires
        manager.message_step(peer_id, msg, injected) matches Ok(step) && step is Verify,
    ensures
        manager.is_current_epoch_validator,
        msg matches ConsensusMsg::Event { epoch: Ok(epoch), .. } && epoch
            == manager.current_epoch(),
        !injected,
{
}

/// An epoch ends only through a proof that the node sends to itself, and only the current one.
pub proof fn only_the_node_itself_ends_its_epoch(
    manager: EpochManager,
    peer_id: AccountAddress,
    msg: ConsensusMsg,
    injected: bool,
)
    requires
        manager.message_step(peer_id, msg, injected) matches Ok(MessageStep::ByEpoch(check))
            && check is InitiateNewEpoch,
    ensures
        peer_id == manager.author,
        msg matches ConsensusMsg::EpochChangeProof { epoch: Ok(epoch) } && epoch
            == manager.current_epoch(),
{
}

/// A message for the quorum store passes to it only where it is on; where it is off, the message
/// is dropped in silence while the node recovers, and refused otherwise.
pub proof fn quorum_store_messages_need_the_quorum_store(
    manager: EpochManager,
    peer_id: AccountAddress,
    kind: EventKind,
)
    requires
        manager.is_current_epoch_validator,
        crate::epoch_manager::is_quorum_store_kind(kind),
    ensures
        ({
            let msg = ConsensusMsg::Event { kind, epoch: Ok(manager.current_epoch()) };
            let step = manager.message_step(peer_id, msg, false);
            &&& step == Ok::<MessageStep, EpochError>(MessageStep::Verify)
                <==> manager.quorum_store_enabled
            &&& step == Ok::<MessageStep, EpochError>(MessageStep::FilteredQuorumStore)
                <==> !manager.quorum_store_enabled && manager.recovery_mode
            &&& step is Err <==> !manager.quorum_store_enabled && !manager.recovery_mode
        }),
        EpochManager::route_of(kind) is QuorumStore,
{
}

/// No message and no request is ever refused as one that is wrongly taken for one of another
/// epoch.
pub proof fn same_epoch_is_never_mistaken(
    manager: EpochManager,
    msg: ConsensusMsg,
    kind: RpcKind,
    epoch: Option<u64>,
)
    ensures
        manager.epoch_check(msg) != Err::<EpochCheck, EpochError>(EpochError::SameEpoch),
        manager.rpc_step(kind, epoch, false) != Err::<RpcStep, EpochError>(EpochError::SameEpoch),
{
}

/// Blocks and sync infos are served by every node: a request for them is neither filtered nor
/// refused, and it is forwarded where it is of the current epoch, or of none, and its server runs.
pub proof fn blocks_are_served_in_every_role(
    manager: EpochManager,
    kind: RpcKind,
    epoch: Option<u64>,
)
    requires
        kind is BlockRetrieval || kind is SyncInfoRequest,
    ensures
        manager.rpc_step(kind, epoch, false) matches Ok(step) && !(step is Filtered),
        (epoch is None || epoch == Some(manager.current_epoch())) && manager.channels.block_retrieval
            && manager.channels.sync_info_request ==> manager.rpc_step(kind, epoch, false) == Ok::<
            RpcStep,
            EpochError,
        >(RpcStep::Forward),
{
}

/// A node that is no validator of the epoch serves nothing else, and hears of nothing but the end
/// of the epoch.
pub proof fn full_nodes_only_serve_blocks(
    manager: EpochManager,
    kind: RpcKind,
    epoch: Option<u64>,
    peer_id: AccountAddress,
    msg: ConsensusMsg,
    injected: bool,
)
    requires
        !manager.is_current_epoch_validator,
    ensures
        !(kind is BlockRetrieval) && !(kind is SyncInfoRequest) ==> manager.rpc_step(
            kind,
            epoch,
            injected,
        ) == Ok::<RpcStep, EpochError>(RpcStep::Filtered),
        !(msg is EpochChangeProof) ==> manager.message_step(peer_id, msg, injected) == Ok::<
            MessageStep,
            EpochError,
        >(MessageStep::Filtered),
{
}

/// A node is a validator of the epoch that it enters exactly where it is set up as a validator and
/// is one of the active ones, and whatever it was in the epoch before; what runs stays as it was.
pub proof fn entering_an_epoch_fixes_the_role(before: EpochManager, payload: EpochPayload)
    ensures
        ({
            let after = before.entered(payload);
            &&& after.started()
            &&& after.current_epoch() == payload.epoch
            &&& after.is_current_epoch_validator <==> before.is_validator
                && payload.active_validators@.contains(before.author)
            &&& after.in_validator_set() <==> crate::validators::has_validator(
                payload.verifier.validators@,
                before.author,
            )
            &&& after.is_validator == before.is_validator
            &&& after.channels == before.channels
        }),
{
}

/// After what ran in an epoch was ended, nothing of it is reached any more: no round manager, no
/// server of blocks or batches, no manager of randomness.
pub proof fn nothing_runs_after_shutdown(before: EpochManager)
    ensures
        ({
            let after = before.shut_down();
            &&& !after.is_open(Route::RoundManager)
            &&& after.serve_rpc(RpcKind::BlockRetrieval) == Ok::<RpcStep, EpochError>(
                RpcStep::NotStarted,
            )
            &&& after.serve_rpc(RpcKind::BatchRetrieval) is Err
            &&& after.serve_rpc(RpcKind::RandGenRequest) is Err
            &&& after.shut_down() == after
        }),
{
}

/// A verified message goes to the buffered proposals exactly where it is a proposal, to the quorum
/// store exactly where it is a batch, the signature of one or a proof of one, and all else, votes,
/// order votes, sync infos, commit votes and decisions, goes to the round manager.
pub proof fn verified_messages_go_to_their_part(manager: EpochManager, kind: EventKind)
    ensures
        EpochManager::route_of(kind) == Route::BufferedProposal <==> kind == EventKind::ProposalMsg,
        EpochManager::route_of(kind) == Route::QuorumStore <==> kind == EventKind::BatchMsg || kind
            == EventKind::SignedBatchInfo || kind == EventKind::ProofOfStoreMsg,
        EpochManager::route_of(kind) == Route::RoundManager <==> kind == EventKind::SyncInfo || kind
            == EventKind::VoteMsg || kind == EventKind::OrderVoteMsg || kind
            == EventKind::CommitVoteMsg || kind == EventKind::CommitDecisionMsg || kind
            == EventKind::BatchRequestMsg,
        manager.is_open(Route::BufferedProposal) == manager.channels.buffered_proposal,
        manager.is_open(Route::QuorumStore) == manager.channels.quorum_store_msg,
        manager.is_open(Route::RoundManager) == manager.channels.round_manager,
{
}

/// What a message of another epoch leads to: one of a later epoch tells the round manager to catch
/// up with it; one of an earlier epoch is left alone where the node is among the validators of the
/// epoch, and else answered with the proofs that the epochs from then until now ended.
pub proof fn other_epochs_are_caught_up_or_proven(manager: EpochManager, epoch: u64)
    ensures
        ({
            let current = manager.epoch_state->0.epoch;
            let known = exists|i: int|
                0 <= i < manager.epoch_state->0.verifier.validators@.len() && (
                #[trigger] manager.epoch_state->0.verifier.validators@[i]).address
                    == manager.author;
            let step = manager.different_epoch(epoch);
            &&& epoch > current ==> step == Ok::<DifferentEpoch, EpochError>(
                DifferentEpoch::CatchUp { epoch: current },
            )
            &&& epoch < current && known ==> step == Ok::<DifferentEpoch, EpochError>(
                DifferentEpoch::Ignore,
            )
            &&& epoch < current && !known ==> step == Ok::<DifferentEpoch, EpochError>(
                DifferentEpoch::SendProof { start_epoch: epoch, end_epoch: current },
            )
            &&& epoch == current ==> step == Err::<DifferentEpoch, EpochError>(
                EpochError::SameEpoch,
            )
        }),
{
}

/// A message can be dealt with where the manager is in an epoch, except that one of a later epoch
/// takes a round manager; what says no epoch can always be dealt with.
pub proof fn later_epochs_take_a_round_manager(manager: EpochManager, msg: ConsensusMsg, epoch: u64)
    ensures
        manager.can_handle(epoch) <==> (manager.epoch_state matches Some(state) && (epoch
            <= state.epoch || manager.channels.round_manager)),
        manager.can_check(msg) <==> match msg {
            ConsensusMsg::Event { epoch: Ok(epoch), .. } => manager.epoch_state
                matches Some(state) && (epoch <= state.epoch || manager.channels.round_manager),
            ConsensusMsg::EpochChangeProof { epoch: Ok(_) } => manager.epoch_state is Some,
            ConsensusMsg::EpochRetrievalRequest { .. } => manager.epoch_state is Some,
            ConsensusMsg::Event { epoch: Err(_), .. } => true,
            ConsensusMsg::EpochChangeProof { epoch: Err(_) } => true,
            ConsensusMsg::Other => true,
        },
{
}

/// A node takes the proof that an epoch ended from itself alone, and every other message as a
/// validator of the epoch, from whomever it comes.
pub proof fn messages_are_taken_by_validators(
    manager: EpochManager,
    peer_id: AccountAddress,
    msg: ConsensusMsg,
    injected: bool,
)
    ensures
        ({
            let taken = match msg {
                ConsensusMsg::EpochChangeProof { .. } => peer_id == manager.author,
                _ => manager.is_current_epoch_validator,
            };
            let step = manager.message_step(peer_id, msg, injected);
            &&& manager.takes_msg(peer_id, msg) <==> taken
            &&& step == Ok::<MessageStep, EpochError>(MessageStep::Filtered) <==> !taken
            &&& taken && injected ==> step == Err::<MessageStep, EpochError>(EpochError::Injected)
        }),
{
}

/// What a message that was taken leads to depends on its epoch: one of the current epoch goes on to
/// be verified, unless it is for a quorum store that is off; one whose epoch cannot be told is an
/// error; the proof that the current epoch ended starts the next, and the proof of another is
/// ignored; proofs are sent of epochs that have begun here, and a request for others is an error.
pub proof fn messages_are_judged_by_their_epoch(
    manager: EpochManager,
    peer_id: AccountAddress,
    msg: ConsensusMsg,
)
    requires
        manager.takes_msg(peer_id, msg),
    ensures
        ({
            let step = manager.message_step(peer_id, msg, false);
            let current = manager.epoch_state->0.epoch;
            match msg {
                ConsensusMsg::Event { kind, epoch: Ok(epoch) } => {
                    let for_store = kind == EventKind::BatchMsg || kind
                        == EventKind::SignedBatchInfo || kind == EventKind::ProofOfStoreMsg;
                    &&& epoch == current && (!for_store || manager.quorum_store_enabled)
                        ==> step == Ok::<MessageStep, EpochError>(MessageStep::Verify)
                    &&& epoch == current && for_store && !manager.quorum_store_enabled
                        && manager.recovery_mode ==> step == Ok::<MessageStep, EpochError>(
                        MessageStep::FilteredQuorumStore,
                    )
                    &&& epoch == current && for_store && !manager.quorum_store_enabled
                        && !manager.recovery_mode ==> step == Err::<MessageStep, EpochError>(
                        EpochError::QuorumStoreDisabled { peer: peer_id },
                    )
                    &&& epoch != current ==> (manager.different_epoch(epoch) matches Ok(other)
                        && step == Ok::<MessageStep, EpochError>(
                        MessageStep::ByEpoch(EpochCheck::Different(other)),
                    ))
                },
                ConsensusMsg::Event { epoch: Err(cause), .. } => step == Err::<
                    MessageStep,
                    EpochError,
                >(EpochError::UnknownEpoch(cause)),
                ConsensusMsg::EpochChangeProof { epoch: Ok(epoch) } => step == Ok::<
                    MessageStep,
                    EpochError,
                >(
                    MessageStep::ByEpoch(
                        if epoch == current {
                            EpochCheck::InitiateNewEpoch
                        } else {
                            EpochCheck::IgnoreProof
                        },
                    ),
                ),
                ConsensusMsg::EpochChangeProof { epoch: Err(cause) } => step == Err::<
                    MessageStep,
                    EpochError,
                >(EpochError::UnknownEpoch(cause)),
                ConsensusMsg::EpochRetrievalRequest { start_epoch, end_epoch } => {
                    &&& end_epoch <= current ==> step == Ok::<MessageStep, EpochError>(
                        MessageStep::ByEpoch(EpochCheck::SendProof { start_epoch, end_epoch }),
                    )
                    &&& end_epoch > current ==> step == Err::<MessageStep, EpochError>(
                        EpochError::EpochBeyondLocal,
                    )
                },
                ConsensusMsg::Other => step == Err::<MessageStep, EpochError>(
                    EpochError::UnexpectedMessage,
                ),
            }
        }),
{
}

/// A message that is judged apart from its sender is judged alike: its epoch leads to the same, and
/// it passes the quorum store exactly where it is not for it or the store is on.
pub proof fn parts_of_a_judgement_agree(
    manager: EpochManager,
    peer_id: AccountAddress,
    kind: EventKind,
    msg: ConsensusMsg,
)
    ensures
        ({
            let for_store = kind == EventKind::BatchMsg || kind == EventKind::SignedBatchInfo
                || kind == EventKind::ProofOfStoreMsg;
            let passes = manager.quorum_store_filter(peer_id, kind);
            &&& passes == Ok::<bool, EpochError>(true) <==> !for_store
                || manager.quorum_store_enabled
            &&& passes == Ok::<bool, EpochError>(false) <==> for_store
                && !manager.quorum_store_enabled && manager.recovery_mode
            &&& passes == Err::<bool, EpochError>(
                EpochError::QuorumStoreDisabled { peer: peer_id },
            ) <==> for_store && !manager.quorum_store_enabled && !manager.recovery_mode
        }),
        manager.epoch_check(msg) == Ok::<EpochCheck, EpochError>(EpochCheck::Deliver) <==> (msg
            matches ConsensusMsg::Event { epoch: Ok(epoch), .. } && epoch
            == manager.epoch_state->0.epoch),
        manager.takes_msg(peer_id, msg) && !(manager.epoch_check(msg) == Ok::<
            EpochCheck,
            EpochError,
        >(EpochCheck::Deliver)) ==> manager.message_step(peer_id, msg, false) == (
        match manager.epoch_check(msg) {
            Ok(check) => Ok::<MessageStep, EpochError>(MessageStep::ByEpoch(check)),
            Err(e) => Err(e),
        }),
{
}

/// A request is taken by every node where it is for blocks or a sync info, and else by validators of
/// the epoch. One that says another epoch is judged like a message of that epoch; one that says
/// none is served where it is for blocks, batches or a sync info, and an error otherwise.
pub proof fn requests_are_judged_by_their_epoch(
    manager: EpochManager,
    kind: RpcKind,
    epoch: Option<u64>,
    injected: bool,
)
    ensures
        ({
            let taken = kind == RpcKind::BlockRetrieval || kind == RpcKind::SyncInfoRequest
                || manager.is_current_epoch_validator;
            let no_epoch = kind == RpcKind::BlockRetrieval || kind == RpcKind::BatchRetrieval
                || kind == RpcKind::SyncInfoRequest;
            let current = manager.epoch_state->0.epoch;
            let step = manager.rpc_step(kind, epoch, injected);
            &&& manager.takes_rpc(kind) <==> taken
            &&& step == Ok::<RpcStep, EpochError>(RpcStep::Filtered) <==> !taken
            &&& taken && injected ==> step == Err::<RpcStep, EpochError>(EpochError::Injected)
            &&& taken && !injected ==> match epoch {
                Some(epoch) => {
                    &&& epoch == current ==> step == manager.serve_rpc(kind)
                    &&& epoch != current ==> (manager.different_epoch(epoch) matches Ok(other)
                        && step == Ok::<RpcStep, EpochError>(RpcStep::Different(other)))
                },
                None => {
                    &&& no_epoch ==> step == manager.serve_rpc(kind)
                    &&& !no_epoch ==> step == Err::<RpcStep, EpochError>(EpochError::MissingEpoch)
                },
            }
        }),
{
}

/// A request is forwarded exactly where the part of the node that serves its kind runs; requests to
/// commit are always forwarded. Where the part does not run, requests for blocks and sync infos lead
/// to nothing, and each other kind to its own error.
pub proof fn requests_go_to_the_part_that_serves_them(manager: EpochManager, kind: RpcKind)
    ensures
        ({
            let step = manager.serve_rpc(kind);
            let runs = match kind {
                RpcKind::BlockRetrieval => manager.channels.block_retrieval,
                RpcKind::BatchRetrieval => manager.channels.batch_retrieval,
                RpcKind::DAGRequest => manager.channels.dag_rpc,
                RpcKind::CommitRequest => true,
                RpcKind::RandGenRequest => manager.channels.rand_manager,
                RpcKind::SyncInfoRequest => manager.channels.sync_info_request,
            };
            &&& step == Ok::<RpcStep, EpochError>(RpcStep::Forward) <==> runs
            &&& step == Ok::<RpcStep, EpochError>(RpcStep::NotStarted) <==> !runs && (kind
                == RpcKind::BlockRetrieval || kind == RpcKind::SyncInfoRequest)
            &&& step == Err::<RpcStep, EpochError>(EpochError::QuorumStoreNotStarted) <==> !runs
                && kind == RpcKind::BatchRetrieval
            &&& step == Err::<RpcStep, EpochError>(EpochError::DagNotBootstrapped) <==> !runs
                && kind == RpcKind::DAGRequest
            &&& step == Err::<RpcStep, EpochError>(EpochError::RandManagerNotStarted) <==> !runs
                && kind == RpcKind::RandGenRequest
        }),
{
}

/// Every peer on the network of full nodes may be asked for its sync info, and no other, in the
/// order of the peers. `places` are where those peers stand.
pub proof fn full_nodes_are_asked_for_their_sync_info(peers: Seq<PeerNetworkId>) -> (places: Seq<
    int,
>)
    ensures
        crate::places::are_places(
            places,
            peers.len(),
            |i: int| peers[i].network_id == NetworkId::Vfn,
        ),
        crate::epoch_manager::vfn_peers_of(peers).len() == places.len(),
        forall|k: int|
            0 <= k < places.len() ==> crate::epoch_manager::vfn_peers_of(peers)[k]
                == peers[#[trigger] places[k]].peer_id,
{
    let places = lemma_vfn_peers(peers, peers.len());
    assert(peers.take(peers.len() as int) =~= peers);
    places
}

proof fn lemma_vfn_peers(peers: Seq<PeerNetworkId>, n: nat) -> (places: Seq<int>)
    requires
        n <= peers.len(),
    ensures
        crate::places::are_places(places, n, |i: int| peers[i].network_id == NetworkId::Vfn),
        crate::epoch_manager::vfn_peers_of(peers.take(n as int)).len() == places.len(),
        forall|k: int|
            0 <= k < places.len() ==> crate::epoch_manager::vfn_peers_of(peers.take(n as int))[k]
                == peers[#[trigger] places[k]].peer_id,
    decreases n,
{
    let wanted = |i: int| peers[i].network_id == NetworkId::Vfn;
    if n == 0 {
        crate::places::no_places(wanted);
        Seq::empty()
    } else {
        let last = (n - 1) as nat;
        let earlier = lemma_vfn_peers(peers, last);
        assert(peers.take(n as int).drop_last() =~= peers.take(last as int));
        assert(peers.take(n as int).last() == peers[last as int]);
        crate::places::next_place(earlier, last, wanted)
    }
}

/// The sync info of a peer is of no use to a validator of the epoch. Any other node forwards it
/// where the peer is in the same epoch, catches up where the peer is ahead, and drops it where the
/// peer is behind; the first two take a round manager.
pub proof fn sync_infos_are_judged_by_their_epoch(manager: EpochManager, epoch: u64)
    ensures
        ({
            let current = manager.epoch_state->0.epoch;
            let validator = manager.is_current_epoch_validator;
            let step = manager.sync_advance(epoch);
            &&& step == SyncAdvance::IgnoredByValidator <==> validator
            &&& step == (SyncAdvance::CatchUp { epoch: current }) <==> !validator && epoch > current
            &&& step == SyncAdvance::Forward <==> !validator && epoch == current
            &&& step == SyncAdvance::PeerBehind <==> !validator && epoch < current
            &&& manager.can_advance(epoch) <==> validator || manager.epoch_state is Some && (epoch
                < current || manager.channels.round_manager)
        }),
{
}

/// The peer ids of a node match where that of every full-node network is the author, and that of the
/// validator network too where the node is a validator, which then has such a network.
pub proof fn peer_ids_are_those_of_the_author(
    author: AccountAddress,
    is_validator: bool,
    validator_network: Option<AccountAddress>,
    full_node_networks: Seq<AccountAddress>,
)
    ensures
        crate::epoch_manager::peer_ids_match(
            author,
            is_validator,
            validator_network,
            full_node_networks,
        ) <==> (is_validator ==> validator_network == Some(author)) && forall|i: int|
            0 <= i < full_node_networks.len() ==> #[trigger] full_node_networks[i] == author,
{
}

/// No part of a new node runs.
pub proof fn nothing_runs_at_first()
    ensures
        ({
            let channels = Channels::none();
            &&& !channels.rand_manager && !channels.round_manager && !channels.round_manager_close
            &&& !channels.buffered_proposal && !channels.block_retrieval
            &&& !channels.sync_info_request && !channels.quorum_store_msg
            &&& !channels.quorum_store_coordinator && !channels.batch_retrieval
            &&& !channels.dag_rpc && !channels.dag_shutdown
        }),
{
}

/// A switch is on where it is not set or set to "true", off where it is set to "false", and neither
/// where it is set to anything else. An injected failure turns the quorum store off whatever the
/// switch says, and else the switch says.
pub proof fn switches_are_on_unless_set_otherwise(value: Option<String>, injected: bool)
    ensures
        ({
            let on = crate::epoch_start::switch_value(crate::epoch_start::text_of(value));
            let store = EpochManager::quorum_store_switch(
                injected,
                crate::epoch_start::text_of(value),
            );
            &&& on == Some(true) <==> value is None || value->0@ == "true"@
            &&& on == Some(false) <==> value is Some && value->0@ == "false"@
            &&& injected ==> store == Some(false)
            &&& !injected ==> store == on
        }),
{
    reveal_strlit("true");
    reveal_strlit("false");
    assert("true"@.len() != "false"@.len());
}

/// Transactions come from a quorum store of the epoch where it is on, over the network of validators
/// where the node is a validator of the epoch and over that of full nodes where it is none, for as
/// many validators as there are; it is set up as for a graph of proposals exactly where that runs,
/// and sends out proofs exactly where it does not. Where it is off they come from the mempool.
pub proof fn transactions_come_from_the_quorum_store(
    manager: EpochManager,
    quorum_store_enabled: bool,
    config: ConsensusConfig,
)
    ensures
        ({
            let source = manager.payload_source(quorum_store_enabled, config);
            let state = manager.epoch_state->0;
            &&& source == PayloadSource::DirectMempool <==> !quorum_store_enabled
            &&& source matches PayloadSource::QuorumStore {
                epoch,
                network,
                num_validators,
                dag_config,
                broadcast_proofs,
            } ==> {
                &&& epoch == state.epoch
                &&& network == NetworkId::Validator <==> manager.is_current_epoch_validator
                &&& network == NetworkId::Vfn <==> !manager.is_current_epoch_validator
                &&& num_validators == state.verifier.validators@.len()
                &&& dag_config == config.is_dag_enabled
                &&& broadcast_proofs == !config.is_dag_enabled
            }
        }),
{
    let len: usize = manager.epoch_state->0.verifier.validators.len();
    assert(len == manager.epoch_state->0.verifier.validators@.len());
}

/// The node keeps all else as it was when it enters an epoch, when what runs in one is ended, and
/// when it starts to take part in rounds or to recover: what changes is what belongs to the step.
pub proof fn steps_between_epochs_change_what_is_theirs(
    before: EpochManager,
    payload: EpochPayload,
)
    ensures
        ({
            let entered = before.entered(payload);
            let ended = before.shut_down();
            let rounds = before.in_rounds();
            let recovering = before.recovering();
            &&& entered == (EpochManager {
                is_current_epoch_validator: entered.is_current_epoch_validator,
                epoch_state: entered.epoch_state,
                ..before
            })
            &&& entered.epoch_state matches Some(state)
            &&& state.epoch == payload.epoch
            &&& *state.verifier == payload.verifier
            &&& entered.is_current_epoch_validator <==> before.is_validator && exists|i: int|
                0 <= i < payload.active_validators@.len() && #[trigger] payload.active_validators@[i]
                    == before.author
            &&& ended == (EpochManager { channels: ended.channels, ..before })
            &&& ended.channels.quorum_store_msg == before.channels.quorum_store_msg
            &&& ended.channels.buffered_proposal == before.channels.buffered_proposal
            &&& ended.channels.sync_info_request == before.channels.sync_info_request
            &&& ended.channels.dag_rpc == before.channels.dag_rpc
            &&& !ended.channels.round_manager && !ended.channels.round_manager_close
            &&& !ended.channels.dag_shutdown && !ended.channels.rand_manager
            &&& !ended.channels.block_retrieval && !ended.channels.batch_retrieval
            &&& !ended.channels.quorum_store_coordinator
            &&& rounds == (EpochManager {
                recovery_mode: false,
                channels: rounds.channels,
                ..before
            })
            &&& rounds.channels.round_manager && rounds.channels.round_manager_close
            &&& rounds.channels.buffered_proposal && rounds.channels.block_retrieval
            &&& rounds.channels.sync_info_request
            &&& rounds.channels.rand_manager == before.channels.rand_manager
            &&& rounds.channels.quorum_store_msg == before.channels.quorum_store_msg
            &&& rounds.channels.quorum_store_coordinator == before.channels.quorum_store_coordinator
            &&& rounds.channels.batch_retrieval == before.channels.batch_retrieval
            &&& rounds.channels.dag_rpc == before.channels.dag_rpc
            &&& rounds.channels.dag_shutdown == before.channels.dag_shutdown
            &&& recovering == (EpochManager {
                recovery_mode: true,
                channels: recovering.channels,
                ..before
            })
            &&& recovering.channels.round_manager && recovering.channels.round_manager_close
            &&& recovering.channels.buffered_proposal == before.channels.buffered_proposal
            &&& recovering.channels.block_retrieval == before.channels.block_retrieval
            &&& recovering.channels.sync_info_request == before.channels.sync_info_request
            &&& recovering.channels.rand_manager == before.channels.rand_manager
            &&& recovering.channels.quorum_store_msg == before.channels.quorum_store_msg
            &&& recovering.channels.quorum_store_coordinator
                == before.channels.quorum_store_coordinator
            &&& recovering.channels.batch_retrieval == before.channels.batch_retrieval
            &&& recovering.channels.dag_rpc == before.channels.dag_rpc
            &&& recovering.channels.dag_shutdown == before.channels.dag_shutdown
        }),
{
}

/// A node that takes part in rounds, whatever ran before, can be sent proposals and votes, and
/// serves blocks and sync infos; one that recovers takes no proposals that it did not take before.
pub proof fn rounds_open_the_routes(before: EpochManager)
    ensures
        before.in_rounds().is_open(Route::RoundManager),
        before.in_rounds().is_open(Route::BufferedProposal),
        before.in_rounds().serve_rpc(RpcKind::BlockRetrieval) == Ok::<RpcStep, EpochError>(
            RpcStep::Forward,
        ),
        before.in_rounds().serve_rpc(RpcKind::SyncInfoRequest) == Ok::<RpcStep, EpochError>(
            RpcStep::Forward,
        ),
        before.recovering().is_open(Route::RoundManager),
        before.recovering().is_open(Route::BufferedProposal) == before.is_open(
            Route::BufferedProposal,
        ),
{
}

} // verus!
