//! Who proposes in which round of an epoch.

use crate::types::{AccountAddress, Round};
use crate::validators::{EpochState, ValidatorVerifier};
use vstd::prelude::*;

verus! {

/// For how many rounds around the current one an election is kept in memory, beyond the history
/// of failed proposers.
pub const PROPOSER_ELECTION_CACHING_WINDOW_ADDITION: usize = 3;

/// By how many rounds storage may be ahead of the round that is elected for.
pub const PROPOSER_ROUND_BEHIND_STORAGE_BUFFER: usize = 10;

/// How proposers and voters of the past are weighed.
#[derive(Debug, Clone, Copy, PartialEq, Eq, Structural)]
pub struct ProposerAndVoterConfig {
    pub active_weight: u64,
    pub inactive_weight: u64,
    pub failed_weight: u64,
    pub failure_threshold_percent: u32,
    pub proposer_window_num_validators_multiplier: usize,
    pub voter_window_num_validators_multiplier: usize,
    pub weight_by_voting_power: bool,
    pub use_history_from_previous_epoch_max_count: u32,
    pub use_reputation_window_from_stale_end: bool,
    pub use_root_hash_for_seed: bool,
}

/// How proposers are elected.
#[derive(Debug)]
pub enum ProposerElectionType {
    /// One validator proposes, for this many rounds at a time.
    FixedProposer(u32),
    /// The validators take turns, for this many rounds each.
    RotatingProposer(u32),
    /// Validators are drawn by how they did in the past.
    LeaderReputation(ProposerAndVoterConfig),
    /// The proposer of some rounds is given.
    RoundProposer(Vec<(Round, AccountAddress)>),
}

/// The part of the configuration on chain that an election depends on.
#[derive(Debug)]
pub struct ElectionConfig {
    pub proposer_election_type: ProposerElectionType,
    pub leader_reputation_exclude_round: u64,
    pub max_failed_authors_to_store: usize,
}

/// An election of proposers that is to be set up.
#[derive(Debug)]
pub enum ElectionPlan {
    /// The leader chosen of `candidates` proposes in every round.
    Fixed { candidates: Vec<AccountAddress>, contiguous_rounds: u32 },
    Rotating { proposers: Vec<AccountAddress>, contiguous_rounds: u32 },
    Reputation(ReputationPlan),
    /// `proposers` propose in their rounds, and `default_proposer` in all others.
    Round { proposers: Vec<(Round, AccountAddress)>, default_proposer: AccountAddress },
}

/// An election by reputation that is to be set up.
#[derive(Debug)]
pub struct ReputationPlan {
    pub config: ProposerAndVoterConfig,
    /// How many rounds back proposers are weighed.
    pub proposer_window_size: usize,
    /// How many rounds back voters are weighed.
    pub voter_window_size: usize,
    /// How many rounds are read from storage.
    pub window_size: usize,
    /// How many more rounds are read to find those.
    pub seek_len: usize,
    /// For how many rounds the proposers of past epochs are needed.
    pub needed_rounds: u64,
    pub proposers: Vec<AccountAddress>,
    /// The weight of each of `proposers`.
    pub voting_powers: Vec<u64>,
    pub exclude_round: u64,
    /// How many rounds of the election are kept in memory.
    pub cache_window: usize,
}

/// The larger of two sizes.
pub open spec fn larger(a: int, b: int) -> int {
    if a > b {
        a
    } else {
        b
    }
}

impl ElectionConfig {
    /// How many rounds are read from storage to elect among `n` validators.
    pub open spec fn window_size(&self, n: nat) -> int
        recommends
            self.proposer_election_type is LeaderReputation,
    {
        let config = self.proposer_election_type->LeaderReputation_0;
        larger(
            n * config.proposer_window_num_validators_multiplier,
            n * config.voter_window_num_validators_multiplier,
        )
    }

    /// How many more rounds are read to find those.
    pub open spec fn seek_len(&self) -> int {
        self.leader_reputation_exclude_round + self.max_failed_authors_to_store
            + PROPOSER_ROUND_BEHIND_STORAGE_BUFFER
    }

    /// Whether an election among `n` validators can be set up: the sizes that it needs can be
    /// held, and there is a validator to fall back to where it needs one.
    pub open spec fn can_elect(&self, n: nat) -> bool {
        match self.proposer_election_type {
            ProposerElectionType::LeaderReputation(_) => {
                &&& self.window_size(n) + self.seek_len() <= usize::MAX
                &&& self.max_failed_authors_to_store + PROPOSER_ELECTION_CACHING_WINDOW_ADDITION
                    <= usize::MAX
            },
            ProposerElectionType::RoundProposer(_) => n > 0,
            _ => true,
        }
    }

    /// Whether an election among `n` validators can be set up.
    pub fn check_can_elect(&self, n: usize) -> (can: bool)
        ensures
            can == self.can_elect(n as nat),
    {
        match &self.proposer_election_type {
            ProposerElectionType::LeaderReputation(config) => {
                proof {
                    lemma_product_bound(n, config.proposer_window_num_validators_multiplier);
                    lemma_product_bound(n, config.voter_window_num_validators_multiplier);
                }
                let proposer_window: u128 = n as u128
                    * config.proposer_window_num_validators_multiplier as u128;
                let voter_window: u128 = n as u128
                    * config.voter_window_num_validators_multiplier as u128;
                let window: u128 = if proposer_window > voter_window {
                    proposer_window
                } else {
                    voter_window
                };
                let seek: u128 = self.leader_reputation_exclude_round as u128
                    + self.max_failed_authors_to_store as u128
                    + PROPOSER_ROUND_BEHIND_STORAGE_BUFFER as u128;
                let cache: u128 = self.max_failed_authors_to_store as u128
                    + PROPOSER_ELECTION_CACHING_WINDOW_ADDITION as u128;
                let most: u128 = usize::MAX as u128;
                seek <= most && window <= most - seek && cache <= most
            },
            ProposerElectionType::RoundProposer(_) => n > 0,
            _ => true,
        }
    }
}

proof fn lemma_product_bound(a: usize, b: usize)
    ensures
        0 <= a * b <= 0xffff_ffff_ffff_ffff * 0xffff_ffff_ffff_ffff,
{
    assert(0 <= a * b <= 0xffff_ffff_ffff_ffff * 0xffff_ffff_ffff_ffff) by (nonlinear_arith)
        requires
            0 <= a <= 0xffff_ffff_ffff_ffff,
            0 <= b <= 0xffff_ffff_ffff_ffff,
    ;
}

/// Whether each weight is that of the first validator with the same address.
pub open spec fn are_voting_powers(
    verifier: ValidatorVerifier,
    proposers: Seq<AccountAddress>,
    powers: Seq<u64>,
) -> bool {
    powers.len() == proposers.len() && forall|i: int|
        0 <= i < powers.len() ==> is_power_of(verifier, proposers[i], #[trigger] powers[i])
}

/// Whether `power` is the weight of the first validator with the address `address`.
pub open spec fn is_power_of(
    verifier: ValidatorVerifier,
    address: AccountAddress,
    power: u64,
) -> bool {
    exists|k: usize| #[trigger]
        crate::validators::first_index(verifier.validators@, address, Some(k)) && power
            == verifier.validators@[k as int].voting_power
}

/// Whether `plan` is the election by reputation that `config` asks for in an epoch of `verifier`.
pub open spec fn is_reputation_plan(
    verifier: ValidatorVerifier,
    config: ElectionConfig,
    plan: ReputationPlan,
) -> bool {
    let proposers = crate::validators::addresses_of(verifier.validators@);
    let n = proposers.len();
    &&& plan.config == config.proposer_election_type->LeaderReputation_0
    &&& plan.proposer_window_size == n * plan.config.proposer_window_num_validators_multiplier
    &&& plan.voter_window_size == n * plan.config.voter_window_num_validators_multiplier
    &&& plan.window_size == config.window_size(n)
    &&& plan.seek_len == config.seek_len()
    &&& plan.needed_rounds == config.window_size(n) + config.seek_len()
    &&& plan.proposers@ == proposers
    &&& if plan.config.weight_by_voting_power {
        are_voting_powers(verifier, proposers, plan.voting_powers@)
    } else {
        plan.voting_powers@ == Seq::new(n, |i: int| 1u64)
    }
    &&& plan.exclude_round == config.leader_reputation_exclude_round
    &&& plan.cache_window == config.max_failed_authors_to_store
        + PROPOSER_ELECTION_CACHING_WINDOW_ADDITION
}

/// The weights of the validators of an epoch.
fn collect_voting_powers(verifier: &ValidatorVerifier, proposers: &Vec<AccountAddress>) -> (powers:
    Vec<u64>)
    requires
        proposers@ == crate::validators::addresses_of(verifier.validators@),
    ensures
        are_voting_powers(*verifier, proposers@, powers@),
{
    let mut powers: Vec<u64> = Vec::new();
    let mut i: usize = 0;
    while i < proposers.len()
        invariant
            i <= proposers.len(),
            proposers@ == crate::validators::addresses_of(verifier.validators@),
            powers@.len() == i,
            forall|j: int|
                0 <= j < i ==> is_power_of(*verifier, proposers@[j], #[trigger] powers@[j]),
        decreases proposers.len() - i,
    {
        let power = verifier.get_voting_power(&proposers[i]);
        proof {
            assert(verifier.validators@[i as int].address == proposers@[i as int]);
            assert(power is Some);
            let k = choose|k: usize| #[trigger]
                crate::validators::first_index(
                    verifier.validators@,
                    proposers@[i as int],
                    Some(k),
                ) && power->0 == verifier.validators@[k as int].voting_power;
            assert(is_power_of(*verifier, proposers@[i as int], power->0));
        }
        match power {
            Some(power) => powers.push(power),
            None => vstd::pervasive::unreached(),
        }
        i += 1;
    }
    powers
}

fn ones(n: usize) -> (weights: Vec<u64>)
    ensures
        weights@ == Seq::new(n as nat, |i: int| 1u64),
{
    let mut weights: Vec<u64> = Vec::new();
    let mut i: usize = 0;
    while i < n
        invariant
            i <= n,
            weights@ == Seq::new(i as nat, |i: int| 1u64),
        decreases n - i,
    {
        weights.push(1);
        i += 1;
        assert(weights@ =~= Seq::new(i as nat, |i: int| 1u64));
    }
    weights
}

/// The election that `config` asks for in the epoch `epoch_state`.
pub fn create_proposer_election(epoch_state: &EpochState, config: &ElectionConfig) -> (plan:
    ElectionPlan)
    requires
        config.can_elect(epoch_state.verifier.validators@.len()),
    ensures
        ({
            let proposers = crate::validators::addresses_of(epoch_state.verifier.validators@);
            match config.proposer_election_type {
                ProposerElectionType::RotatingProposer(rounds) => plan
                    matches ElectionPlan::Rotating { proposers: p, contiguous_rounds } && p@
                    == proposers && contiguous_rounds == rounds,
                ProposerElectionType::FixedProposer(rounds) => plan
                    matches ElectionPlan::Fixed { candidates, contiguous_rounds } && candidates@
                    == proposers && contiguous_rounds == rounds,
                ProposerElectionType::LeaderReputation(_) => plan
                    matches ElectionPlan::Reputation(reputation) && is_reputation_plan(
                    *epoch_state.verifier,
                    *config,
                    reputation,
                ),
                ProposerElectionType::RoundProposer(rounds) => plan
                    matches ElectionPlan::Round { proposers: p, default_proposer } && p@
                    == rounds@ && default_proposer == proposers[0],
            }
        }),
{
    let proposers = epoch_state.verifier.get_ordered_account_addresses();
    match &config.proposer_election_type {
        ProposerElectionType::RotatingProposer(contiguous_rounds) => ElectionPlan::Rotating {
            proposers,
            contiguous_rounds: *contiguous_rounds,
        },
        ProposerElectionType::FixedProposer(contiguous_rounds) => ElectionPlan::Fixed {
            candidates: proposers,
            contiguous_rounds: *contiguous_rounds,
        },
        ProposerElectionType::LeaderReputation(reputation) => {
            let n: usize = proposers.len();
            proof {
                lemma_product_bound(n, reputation.proposer_window_num_validators_multiplier);
                lemma_product_bound(n, reputation.voter_window_num_validators_multiplier);
            }
            let proposer_window_size: usize = n
                * reputation.proposer_window_num_validators_multiplier;
            let voter_window_size: usize = n * reputation.voter_window_num_validators_multiplier;
            let window_size: usize = if proposer_window_size > voter_window_size {
                proposer_window_size
            } else {
                voter_window_size
            };
            let seek_len: usize = config.leader_reputation_exclude_round as usize
                + config.max_failed_authors_to_store + PROPOSER_ROUND_BEHIND_STORAGE_BUFFER;
            let voting_powers = if reputation.weight_by_voting_power {
                collect_voting_powers(&epoch_state.verifier, &proposers)
            } else {
                ones(n)
            };
            ElectionPlan::Reputation(
                ReputationPlan {
                    config: *reputation,
                    proposer_window_size,
                    voter_window_size,
                    window_size,
                    seek_len,
                    needed_rounds: (window_size + seek_len) as u64,
                    proposers,
                    voting_powers,
                    exclude_round: config.leader_reputation_exclude_round,
                    cache_window: config.max_failed_authors_to_store
                        + PROPOSER_ELECTION_CACHING_WINDOW_ADDITION,
                },
            )
        },
        ProposerElectionType::RoundProposer(round_proposers) => {
            let default_proposer = proposers[0];
            let mut rounds: Vec<(Round, AccountAddress)> = Vec::new();
            let mut i: usize = 0;
            while i < round_proposers.len()
                invariant
                    i <= round_proposers.len(),
                    rounds@ == round_proposers@.take(i as int),
                decreases round_proposers.len() - i,
            {
                rounds.push(round_proposers[i]);
                assert(rounds@ =~= round_proposers@.take(i + 1));
                i += 1;
            }
            assert(rounds@ =~= round_proposers@);
            ElectionPlan::Round { proposers: rounds, default_proposer }
        },
    }
}

/// The election in which `leader`, the one chosen of the candidates of a fixed election, proposes:
/// it takes turns with nobody.
pub fn fixed_election(leader: AccountAddress, contiguous_rounds: u32) -> (plan: ElectionPlan)
    ensures
        plan matches ElectionPlan::Rotating { proposers, contiguous_rounds: rounds } && proposers@
            == seq![leader] && rounds == contiguous_rounds,
{
    let mut proposers: Vec<AccountAddress> = Vec::new();
    proposers.push(leader);
    assert(proposers@ =~= seq![leader]);
    ElectionPlan::Rotating { proposers, contiguous_rounds }
}

/// In a fixed election nobody but the chosen leader ever proposes: whichever rule picks the one
/// whose turn it is, and for however many rounds each turn lasts, there is no other to pick.
pub proof fn fixed_proposer_never_changes(
    leader: AccountAddress,
    proposers: Seq<AccountAddress>,
    turn: spec_fn(Round) -> int,
)
    requires
        proposers == seq![leader],
        forall|round: Round| 0 <= #[trigger] turn(round) < proposers.len(),
    ensures
        forall|round: Round| proposers[#[trigger] turn(round)] == leader,
{
}

/// The first epoch whose proposers count in `epoch` when up to `max_count` earlier epochs do: the
/// first block after genesis is the only one in its epoch, and counts only there.
pub open spec fn first_epoch_to_consider(epoch: u64, max_count: u32) -> int {
    larger(
        if epoch == 1 {
            1int
        } else {
            2
        },
        if epoch >= max_count {
            epoch - max_count
        } else {
            0int
        },
    )
}

/// What has to be read, and from what, to know the proposers of past epochs.
#[derive(Debug, Clone, Copy, PartialEq, Eq, Structural)]
pub struct HistoryRequest {
    /// The first epoch whose end is read.
    pub start_epoch: u64,
    /// The epoch after the last one whose end is read: the current one.
    pub end_epoch: u64,
    /// For how many rounds the proposers are needed.
    pub needed_rounds: u64,
}

/// What has to be read to know the proposers that count in `epoch` for `needed_rounds` rounds when
/// up to `max_count` earlier epochs do: nothing where only `epoch` itself counts.
pub open spec fn history_request(epoch: u64, max_count: u32, needed_rounds: u64) -> Option<
    HistoryRequest,
> {
    let first = first_epoch_to_consider(epoch, max_count);
    if epoch > first {
        Some(
            HistoryRequest { start_epoch: (first - 1) as u64, end_epoch: epoch, needed_rounds },
        )
    } else {
        None
    }
}

/// What has to be read to know the proposers that count in `epoch` for `needed_rounds` rounds; none
/// where only `epoch` itself counts.
pub fn epochs_to_read(
    epoch: u64,
    use_history_from_previous_epoch_max_count: u32,
    needed_rounds: u64,
) -> (request: Option<HistoryRequest>)
    ensures
        request == history_request(
            epoch,
            use_history_from_previous_epoch_max_count,
            needed_rounds,
        ),
{
    let lowest: u64 = if epoch == 1 {
        1
    } else {
        2
    };
    let history: u64 = if epoch >= use_history_from_previous_epoch_max_count as u64 {
        epoch - use_history_from_previous_epoch_max_count as u64
    } else {
        0
    };
    let first: u64 = if lowest > history {
        lowest
    } else {
        history
    };
    if epoch > first {
        Some(HistoryRequest { start_epoch: first - 1, end_epoch: epoch, needed_rounds })
    } else {
        None
    }
}

/// What was read of earlier epochs.
#[derive(Debug)]
pub struct EpochHistory {
    /// How many ends of epochs were read.
    pub ledger_infos: u64,
    /// The proposers of each epoch that counts, or why they cannot be told.
    pub proposers: Result<Vec<(u64, Vec<AccountAddress>)>, String>,
}

/// Whether `history` covers all epochs that had to be read.
pub open spec fn covers(request: Option<HistoryRequest>, history: Option<EpochHistory>) -> bool {
    match (request, history) {
        (Some(request), Some(history)) => history.ledger_infos == request.end_epoch
            - request.start_epoch && history.proposers is Ok,
        _ => false,
    }
}

/// The proposers of each epoch that counts in `epoch` for `needed_rounds` rounds: those of the
/// history where it was read whole, and else those of `epoch` alone.
pub fn extract_epoch_proposers(
    epoch: u64,
    use_history_from_previous_epoch_max_count: u32,
    proposers: Vec<AccountAddress>,
    needed_rounds: u64,
    history: Option<EpochHistory>,
) -> (by_epoch: Vec<(u64, Vec<AccountAddress>)>)
    ensures
        ({
            let request = history_request(
                epoch,
                use_history_from_previous_epoch_max_count,
                needed_rounds,
            );
            if covers(request, history) {
                by_epoch == history->0.proposers->Ok_0
            } else {
                by_epoch@ == seq![(epoch, proposers)]
            }
        }),
{
    match (
        epochs_to_read(epoch, use_history_from_previous_epoch_max_count, needed_rounds),
        history,
    ) {
        (Some(request), Some(history)) => {
            if history.ledger_infos == request.end_epoch - request.start_epoch {
                if let Ok(by_epoch) = history.proposers {
                    return by_epoch;
                }
            }
        },
        _ => {},
    }
    let mut by_epoch: Vec<(u64, Vec<AccountAddress>)> = Vec::new();
    by_epoch.push((epoch, proposers));
    assert(by_epoch@ =~= seq![(epoch, proposers)]);
    by_epoch
}

/// The history of an election never reaches back before the second epoch, except in the first, and
/// never over more epochs than it may.
pub proof fn history_is_bounded(epoch: u64, max_count: u32)
    ensures
        ({
            let first = first_epoch_to_consider(epoch, max_count);
            &&& first >= 1
            &&& first == 1 ==> epoch == 1
            &&& epoch - first <= max_count
        }),
{
}

/// An election by reputation reads as many rounds as the longer of its two windows, which are each
/// their multiple of the number of validators, and ten more than it excludes and stores failed
/// authors for; it keeps three more rounds than that in memory. All validators may propose.
pub proof fn reputation_windows_are_multiples_of_the_validators(
    verifier: ValidatorVerifier,
    config: ElectionConfig,
    plan: ReputationPlan,
)
    requires
        config.proposer_election_type is LeaderReputation,
        is_reputation_plan(verifier, config, plan),
    ensures
        ({
            let n = verifier.validators@.len();
            let reputation = config.proposer_election_type->LeaderReputation_0;
            &&& plan.config == reputation
            &&& plan.proposer_window_size == n
                * reputation.proposer_window_num_validators_multiplier
            &&& plan.voter_window_size == n * reputation.voter_window_num_validators_multiplier
            &&& plan.window_size >= plan.proposer_window_size
            &&& plan.window_size >= plan.voter_window_size
            &&& plan.window_size == plan.proposer_window_size || plan.window_size
                == plan.voter_window_size
            &&& plan.seek_len == config.leader_reputation_exclude_round
                + config.max_failed_authors_to_store + 10
            &&& plan.needed_rounds == plan.window_size + plan.seek_len
            &&& plan.exclude_round == config.leader_reputation_exclude_round
            &&& plan.cache_window == config.max_failed_authors_to_store + 3
            &&& plan.proposers@.len() == n
            &&& forall|i: int|
                0 <= i < n ==> #[trigger] plan.proposers@[i] == verifier.validators@[i].address
        }),
{
}

/// The weights of an election are those of the validators where it goes by their votes and no two
/// validators have the same address, each at its index, and else one for each validator.
pub proof fn proposers_are_weighed_by_their_votes(
    verifier: ValidatorVerifier,
    config: ElectionConfig,
    plan: ReputationPlan,
)
    requires
        is_reputation_plan(verifier, config, plan),
        forall|i: int, j: int|
            0 <= i < j < verifier.validators@.len() ==> (
            #[trigger] verifier.validators@[i]).address != (
            #[trigger] verifier.validators@[j]).address,
    ensures
        plan.voting_powers@.len() == verifier.validators@.len(),
        forall|i: int|
            0 <= i < plan.voting_powers@.len() ==> #[trigger] plan.voting_powers@[i] == (
            if plan.config.weight_by_voting_power {
                verifier.validators@[i].voting_power
            } else {
                1
            }),
{
    let proposers = crate::validators::addresses_of(verifier.validators@);
    if plan.config.weight_by_voting_power {
        assert forall|i: int| 0 <= i < plan.voting_powers@.len() implies #[trigger] plan.voting_powers@[i]
            == verifier.validators@[i].voting_power by {
            assert(is_power_of(verifier, proposers[i], plan.voting_powers@[i]));
            let k = choose|k: usize| #[trigger]
                crate::validators::first_index(verifier.validators@, proposers[i], Some(k))
                    && plan.voting_powers@[i] == verifier.validators@[k as int].voting_power;
            if k < i {
                assert(verifier.validators@[k as int].address != verifier.validators@[i].address);
            }
            if i < k {
                assert(verifier.validators@[i].address != verifier.validators@[k as int].address);
            }
        }
    }
}

/// An election by reputation can be set up exactly where all rounds that it reads, and all that it
/// keeps in memory, can be counted; one whose rounds are given takes a validator for the others, and
/// every other can be set up.
pub proof fn elections_can_be_set_up_where_rounds_can_be_counted(config: ElectionConfig, n: nat)
    ensures
        config.can_elect(n) <==> match config.proposer_election_type {
            ProposerElectionType::LeaderReputation(reputation) => {
                let rest = config.leader_reputation_exclude_round
                    + config.max_failed_authors_to_store + 10;
                &&& n * reputation.proposer_window_num_validators_multiplier + rest <= usize::MAX
                &&& n * reputation.voter_window_num_validators_multiplier + rest <= usize::MAX
                &&& config.max_failed_authors_to_store + 3 <= usize::MAX
            },
            ProposerElectionType::RoundProposer(_) => n > 0,
            ProposerElectionType::FixedProposer(_) => true,
            ProposerElectionType::RotatingProposer(_) => true,
        },
{
}

/// Earlier epochs count exactly from the third epoch on, where any may. What is read are the ends of
/// the epochs from the one before the first that counts: up to `max_count` before this one, and
/// never the first.
pub proof fn earlier_epochs_count_from_the_third_on(
    epoch: u64,
    max_count: u32,
    needed_rounds: u64,
)
    ensures
        history_request(epoch, max_count, needed_rounds) is Some <==> epoch > 2 && max_count > 0,
        history_request(epoch, max_count, needed_rounds) matches Some(request) ==> {
            &&& request.start_epoch == (if epoch - max_count > 2 {
                epoch - max_count - 1
            } else {
                1
            })
            &&& request.end_epoch == epoch
            &&& request.needed_rounds == needed_rounds
        },
{
}

/// A history is used exactly where one was asked for and read, an end of an epoch was read for each
/// epoch that was asked for, and the proposers can be told.
pub proof fn histories_are_used_where_they_are_whole(
    request: Option<HistoryRequest>,
    history: Option<EpochHistory>,
)
    ensures
        covers(request, history) <==> {
            &&& request matches Some(asked)
            &&& history matches Some(read)
            &&& asked.start_epoch + read.ledger_infos == asked.end_epoch
            &&& read.proposers is Ok
        },
{
}

} // verus!
