//! Reading what consensus needs from its database.

use crate::consensus_types::LedgerInfoWithSignatures;
use std::sync::Arc;
use vstd::prelude::*;

verus! {

/// What a value in the state of the chain is stored under.
#[derive(Debug)]
pub enum StateKey {
    /// A path to a resource.
    AccessPath(String),
    TableItem,
    Raw,
}

/// The resource that a path leads to.
#[derive(Debug, Clone, Copy, PartialEq, Eq, Structural)]
pub enum ConfigResource {
    /// The validators.
    ValidatorSet,
    /// The consensus configuration, with the switches of this node.
    Consensus,
    /// The configuration of the chain, in this epoch.
    Configuration { epoch: u64 },
}

/// Whether `part` stands somewhere in `text`.
pub open spec fn has_part(text: Seq<char>, part: Seq<char>) -> bool {
    exists|i: int|
        0 <= i <= text.len() - part.len() && #[trigger] text.subrange(i, i + part.len()) == part
}

/// `str::contains` with a string for its pattern: whether the string matches a part of the text.
#[verifier::external_body]
fn text_contains(text: &String, part: &str) -> (contains: bool)
    ensures
        contains == has_part(text@, part@),
{
    text.contains(part)
}

/// The resource that the path `path` leads to.
pub open spec fn resource_at(path: Seq<char>) -> ConfigResource {
    if has_part(path, "Validator"@) {
        ConfigResource::ValidatorSet
    } else if has_part(path, "consensus"@) {
        ConfigResource::Consensus
    } else {
        ConfigResource::Configuration { epoch: 1 }
    }
}

/// The resource whose value is read for `state_key`, which is a path.
pub fn get_state_value_by_version(state_key: &StateKey) -> (resource: ConfigResource)
    requires
        state_key is AccessPath,
    ensures
        resource == resource_at(state_key->AccessPath_0@),
{
    match state_key {
        StateKey::AccessPath(path) => {
            if text_contains(path, "Validator") {
                ConfigResource::ValidatorSet
            } else if text_contains(path, "consensus") {
                ConfigResource::Consensus
            } else {
                ConfigResource::Configuration { epoch: 1 }
            }
        },
        _ => vstd::pervasive::unreached(),
    }
}

/// How proposers are elected, for how many rounds at a time.
#[derive(Debug, Clone, Copy, PartialEq, Eq, Structural)]
pub enum ProposerChoice {
    FixedProposer(u32),
    RotatingProposer(u32),
    /// Any other way.
    Other,
}

/// The consensus protocol, and its switches.
#[derive(Debug, Clone, Copy, PartialEq, Eq, Structural)]
pub enum ConsensusAlgorithmConfig {
    Jolteon { proposer_election_type: ProposerChoice, quorum_store_enabled: bool },
    JolteonV2 {
        proposer_election_type: ProposerChoice,
        quorum_store_enabled: bool,
        order_vote_enabled: bool,
    },
}

/// A version of the consensus configuration on chain.
#[derive(Debug, Clone, Copy, PartialEq, Eq, Structural)]
pub enum OnChainConsensusConfig {
    V1,
    V2,
    V3,
    V4 { alg: ConsensusAlgorithmConfig },
}

/// `config` with the switches of this node: only the latest version has them.
pub open spec fn with_switches(
    config: OnChainConsensusConfig,
    fixed_proposer: bool,
    quorum_store_enabled: bool,
) -> OnChainConsensusConfig {
    let proposer_election_type = if fixed_proposer {
        ProposerChoice::FixedProposer(1)
    } else {
        ProposerChoice::RotatingProposer(1)
    };
    match config {
        OnChainConsensusConfig::V4 { alg } => OnChainConsensusConfig::V4 {
            alg: match alg {
                ConsensusAlgorithmConfig::Jolteon { .. } => ConsensusAlgorithmConfig::Jolteon {
                    proposer_election_type,
                    quorum_store_enabled,
                },
                ConsensusAlgorithmConfig::JolteonV2 { .. } => ConsensusAlgorithmConfig::JolteonV2 {
                    proposer_election_type,
                    quorum_store_enabled,
                    order_vote_enabled: false,
                },
            },
        },
        _ => config,
    }
}

/// The consensus configuration with the switches of this node.
pub fn apply_switches(
    config: OnChainConsensusConfig,
    fixed_proposer: bool,
    quorum_store_enabled: bool,
) -> (switched: OnChainConsensusConfig)
    ensures
        switched == with_switches(config, fixed_proposer, quorum_store_enabled),
{
    let proposer_election_type = if fixed_proposer {
        ProposerChoice::FixedProposer(1)
    } else {
        ProposerChoice::RotatingProposer(1)
    };
    match config {
        OnChainConsensusConfig::V4 { alg } => OnChainConsensusConfig::V4 {
            alg: match alg {
                ConsensusAlgorithmConfig::Jolteon { .. } => ConsensusAlgorithmConfig::Jolteon {
                    proposer_election_type,
                    quorum_store_enabled,
                },
                ConsensusAlgorithmConfig::JolteonV2 { .. } => ConsensusAlgorithmConfig::JolteonV2 {
                    proposer_election_type,
                    quorum_store_enabled,
                    order_vote_enabled: false,
                },
            },
        },
        other => other,
    }
}

/// The value of the consensus configuration, whose own encoding is `encoded`: it is stored as a
/// string of bytes, with its length before it. None where it is too long.
pub fn consensus_config_value(encoded: &Vec<u8>) -> (value: Option<Vec<u8>>)
    ensures
        value is Some <==> encoded@.len() <= crate::bcs_encoding::max_sequence_length(),
        value matches Some(bytes) ==> bytes@ == crate::bcs_encoding::encoded_bytes(encoded@),
{
    match crate::bcs_encoding::bytes_to_bytes(encoded) {
        Ok(bytes) => Some(bytes),
        Err(_) => None,
    }
}

/// The last ledger info: the one that is stored, or else the one of genesis.
pub fn get_latest_ledger_info(
    stored: Option<Arc<LedgerInfoWithSignatures>>,
    genesis: &Arc<LedgerInfoWithSignatures>,
) -> (info: Arc<LedgerInfoWithSignatures>)
    ensures
        info == (match stored {
            Some(info) => info,
            None => *genesis,
        }),
{
    match stored {
        Some(info) => info,
        None => genesis.clone(),
    }
}

/// A proof of the state of the chain.
pub struct StateProof {
    pub latest: Arc<LedgerInfoWithSignatures>,
    /// The ends of the epochs since the known version.
    pub epoch_changes: Vec<Arc<LedgerInfoWithSignatures>>,
    /// Whether there are more of them.
    pub more: bool,
}

/// The blocks of `table` from number `known_version` on, in order. The table gives the number of
/// each block that ends an epoch, and its epoch.
pub open spec fn ends_from(table: Seq<(u64, u64)>, known_version: u64) -> Seq<u64> {
    table.filter(|entry: (u64, u64)| entry.0 >= known_version).map_values(
        |entry: (u64, u64)| entry.0,
    )
}

/// The blocks that end an epoch, from number `known_version` on, in the order of `table`.
pub fn epoch_ends(table: &Vec<(u64, u64)>, known_version: u64) -> (block_numbers: Vec<u64>)
    ensures
        block_numbers@ == ends_from(table@, known_version),
{
    let ghost wanted = |entry: (u64, u64)| entry.0 >= known_version;
    let ghost number = |entry: (u64, u64)| entry.0;
    let mut block_numbers: Vec<u64> = Vec::new();
    let mut i: usize = 0;
    assert(ends_from(table@.take(0), known_version) =~= Seq::empty()) by {
        reveal(Seq::filter);
    }
    while i < table.len()
        invariant
            i <= table.len(),
            wanted == (|entry: (u64, u64)| entry.0 >= known_version),
            number == (|entry: (u64, u64)| entry.0),
            block_numbers@ == ends_from(table@.take(i as int), known_version),
        decreases table.len() - i,
    {
        let ghost earlier = table@.take(i as int).filter(wanted);
        proof {
            assert(table@.take(i + 1).drop_last() =~= table@.take(i as int));
            reveal(Seq::filter);
        }
        if table[i].0 >= known_version {
            block_numbers.push(table[i].0);
            assert(table@.take(i + 1).filter(wanted) =~= earlier.push(table@[i as int]));
            assert(block_numbers@ =~= ends_from(table@.take(i + 1), known_version));
        } else {
            assert(table@.take(i + 1).filter(wanted) =~= earlier);
        }
        i += 1;
    }
    assert(table@.take(i as int) =~= table@);
    block_numbers
}

/// The proof of the state for one who knows it at `known_version`: one who knows nothing starts
/// from genesis.
pub fn get_state_proof(
    known_version: u64,
    genesis: &Arc<LedgerInfoWithSignatures>,
    stored: Option<Arc<LedgerInfoWithSignatures>>,
    epoch_ends: Vec<Arc<LedgerInfoWithSignatures>>,
) -> (proof_: StateProof)
    ensures
        proof_.latest == (match stored {
            Some(info) => info,
            None => *genesis,
        }),
        proof_.epoch_changes@ == (if known_version == 0 {
            seq![*genesis] + epoch_ends@
        } else {
            epoch_ends@
        }),
        !proof_.more,
{
    let mut epoch_ends = epoch_ends;
    let mut epoch_changes: Vec<Arc<LedgerInfoWithSignatures>> = Vec::new();
    if known_version == 0 {
        epoch_changes.push(genesis.clone());
    }
    epoch_changes.append(&mut epoch_ends);
    StateProof {
        latest: get_latest_ledger_info(stored, genesis),
        epoch_changes,
        more: false,
    }
}

/// A path leads to the validators exactly where it speaks of a validator, and else to the consensus
/// configuration exactly where it speaks of consensus; every other path leads to the configuration
/// of the chain, in the first epoch.
pub proof fn paths_lead_to_what_they_speak_of(path: Seq<char>)
    ensures
        resource_at(path) == ConfigResource::ValidatorSet <==> has_part(path, "Validator"@),
        resource_at(path) == ConfigResource::Consensus <==> !has_part(path, "Validator"@)
            && has_part(path, "consensus"@),
        resource_at(path) == (ConfigResource::Configuration { epoch: 1 }) <==> !has_part(
            path,
            "Validator"@,
        ) && !has_part(path, "consensus"@),
{
}

/// The switches of a node go into the latest version of the configuration, whichever protocol it is
/// of: who proposes, one round at a time, and whether there is a quorum store; where nodes could
/// vote on the order, they do not. Earlier versions stay as they are.
pub proof fn switches_go_into_the_latest_version(
    config: OnChainConsensusConfig,
    fixed_proposer: bool,
    quorum_store_enabled: bool,
)
    ensures
        ({
            let switched = with_switches(config, fixed_proposer, quorum_store_enabled);
            match config {
                OnChainConsensusConfig::V4 { alg } => {
                    &&& switched matches OnChainConsensusConfig::V4 { alg: new }
                    &&& new is Jolteon <==> alg is Jolteon
                    &&& match new {
                        ConsensusAlgorithmConfig::Jolteon {
                            proposer_election_type,
                            quorum_store_enabled: on,
                        } => on == quorum_store_enabled && (if fixed_proposer {
                            proposer_election_type == ProposerChoice::FixedProposer(1)
                        } else {
                            proposer_election_type == ProposerChoice::RotatingProposer(1)
                        }),
                        ConsensusAlgorithmConfig::JolteonV2 {
                            proposer_election_type,
                            quorum_store_enabled: on,
                            order_vote_enabled,
                        } => on == quorum_store_enabled && !order_vote_enabled && (
                        if fixed_proposer {
                            proposer_election_type == ProposerChoice::FixedProposer(1)
                        } else {
                            proposer_election_type == ProposerChoice::RotatingProposer(1)
                        }),
                    }
                },
                _ => switched == config,
            }
        }),
{
}

/// The ends of epochs that are read are all those in the table that are not before the version that
/// is known, in the order of the table. `places` are where they stand.
pub proof fn every_later_end_is_read(table: Seq<(u64, u64)>, known_version: u64) -> (places: Seq<
    int,
>)
    ensures
        crate::places::are_places(places, table.len(), |i: int| table[i].0 >= known_version),
        ends_from(table, known_version).len() == places.len(),
        forall|k: int|
            0 <= k < places.len() ==> ends_from(table, known_version)[k]
                == table[#[trigger] places[k]].0,
{
    let places = lemma_ends(table, known_version, table.len());
    assert(table.take(table.len() as int) =~= table);
    places
}

proof fn lemma_ends(table: Seq<(u64, u64)>, known_version: u64, n: nat) -> (places: Seq<int>)
    requires
        n <= table.len(),
    ensures
        crate::places::are_places(places, n, |i: int| table[i].0 >= known_version),
        ends_from(table.take(n as int), known_version).len() == places.len(),
        forall|k: int|
            0 <= k < places.len() ==> ends_from(table.take(n as int), known_version)[k]
                == table[#[trigger] places[k]].0,
    decreases n,
{
    let wanted = |i: int| table[i].0 >= known_version;
    reveal(Seq::filter);
    if n == 0 {
        crate::places::no_places(wanted);
        Seq::empty()
    } else {
        let last = (n - 1) as nat;
        let earlier = lemma_ends(table, known_version, last);
        assert(table.take(n as int).drop_last() =~= table.take(last as int));
        assert(table.take(n as int).last() == table[last as int]);
        crate::places::next_place(earlier, last, wanted)
    }
}

} // verus!
