//! Handing blocks to execution, committing them, and syncing past them.

use crate::consensus_types::{
    Block, LedgerInfoWithSignatures, ObservedJWK, ProviderJWKs, ValidatorTransaction,
};
use crate::external::{
    ExternalBlock, ExternalBlockMeta, ExtraDataType, GravityEvent, Random, StateComputeResult,
    TxnStatus, VerifiedTxn,
};
use crate::pipelined_block::{PipelinedBlock, SignedTransaction};
use crate::types::{AccountAddress, BlockId, HashValue, Round};
use crate::validators::EpochState;
use std::sync::Arc;
use vstd::prelude::*;

verus! {

/// The name of RSA keys towards the execution layer.
pub const JWK_TYPE_RSA: &'static str = "0x1::jwks::RSA_JWK";

/// The name of all other keys towards the execution layer.
pub const JWK_TYPE_UNSUPPORTED: &'static str = "0x1::jwks::Unsupported_JWK";

/// A point in the history of the chain.
#[derive(Debug, Clone, Copy, PartialEq, Eq, Structural)]
pub struct LogicalTime {
    pub epoch: u64,
    pub round: Round,
}

impl LogicalTime {
    pub fn new(epoch: u64, round: Round) -> (time: Self)
        ensures
            time == (LogicalTime { epoch, round }),
    {
        LogicalTime { epoch, round }
    }

    /// Whether this point is not before `other`: its epoch is later, or the same and its round not
    /// earlier.
    pub open spec fn not_before(self, other: LogicalTime) -> bool {
        self.epoch > other.epoch || self.epoch == other.epoch && self.round >= other.round
    }

    pub fn is_at_least(&self, other: &LogicalTime) -> (not_before: bool)
        ensures
            not_before == self.not_before(*other),
    {
        self.epoch > other.epoch || self.epoch == other.epoch && self.round >= other.round
    }

    /// The point that `info` commits.
    pub open spec fn of(info: LedgerInfoWithSignatures) -> LogicalTime {
        LogicalTime { epoch: info.commit_info.epoch, round: info.commit_info.round }
    }
}

/// What is fixed for an epoch.
pub struct MutableState {
    /// The validators of the epoch, in the order that gives each its index.
    pub validators: Arc<Vec<AccountAddress>>,
    pub is_randomness_enabled: bool,
}

/// What consensus knows of the execution layer.
pub struct ExecutionProxy {
    /// The last point that was committed or synced to.
    pub latest_logical_time: LogicalTime,
    /// What is fixed for the epoch, within one.
    pub state: Option<MutableState>,
}

/// The name and the data of each key that can be passed on, in order: keys that could not be read
/// or written are left out.
pub open spec fn passed_on(jwks: Seq<ObservedJWK>) -> Seq<(Seq<char>, Seq<u8>)>
    decreases jwks.len(),
{
    if jwks.len() == 0 {
        Seq::empty()
    } else {
        let earlier = passed_on(jwks.drop_last());
        match jwks.last() {
            ObservedJWK::RSA(Some(json)) => earlier.push((JWK_TYPE_RSA@, json@)),
            ObservedJWK::Unsupported(payload) => earlier.push((JWK_TYPE_UNSUPPORTED@, payload@)),
            _ => earlier,
        }
    }
}

/// The bytes of the name, and the data, of each key that can be passed on.
pub open spec fn passed_on_bytes(jwks: Seq<ObservedJWK>) -> Seq<(Seq<u8>, Seq<u8>)> {
    passed_on(jwks).map_values(
        |jwk: (Seq<char>, Seq<u8>)| (vstd::utf8::encode_utf8(jwk.0), jwk.1),
    )
}

/// The encoded update, if it can be encoded.
pub open spec fn encoded_update(update: ProviderJWKs) -> Option<Seq<u8>> {
    let jwks = passed_on_bytes(update.jwks@);
    if crate::bcs_encoding::provider_fits(update.issuer@, jwks) {
        Some(crate::bcs_encoding::encoded_provider(update.issuer@, update.version, jwks))
    } else {
        None
    }
}

/// The names and the data of the keys that can be passed on.
fn convert_jwks(jwks: &Vec<ObservedJWK>) -> (converted: Vec<(String, Vec<u8>)>)
    ensures
        crate::bcs_encoding::pairs_of(converted@) == passed_on_bytes(jwks@),
{
    let mut converted: Vec<(String, Vec<u8>)> = Vec::new();
    let mut i: usize = 0;
    assert(crate::bcs_encoding::pairs_of(converted@) =~= passed_on_bytes(jwks@.take(0)));
    while i < jwks.len()
        invariant
            i <= jwks.len(),
            crate::bcs_encoding::pairs_of(converted@) == passed_on_bytes(jwks@.take(i as int)),
        decreases jwks.len() - i,
    {
        let ghost before = converted@;
        assert(jwks@.take(i + 1).drop_last() =~= jwks@.take(i as int));
        match &jwks[i] {
            ObservedJWK::RSA(Some(json)) => {
                let data = json.clone();
                assert(data@ =~= json@);
                converted.push((JWK_TYPE_RSA.to_owned(), data));
            },
            ObservedJWK::Unsupported(payload) => {
                let data = payload.clone();
                assert(data@ =~= payload@);
                converted.push((JWK_TYPE_UNSUPPORTED.to_owned(), data));
            },
            _ => {},
        }
        proof {
            let pairs = crate::bcs_encoding::pairs_of(before);
            if converted@.len() > before.len() {
                let (name, data) = converted@.last();
                let pair = (vstd::utf8::encode_utf8(name@), data@);
                assert(crate::bcs_encoding::pairs_of(converted@) =~= pairs.push(pair));
                assert(passed_on_bytes(jwks@.take(i + 1)) =~= passed_on_bytes(
                    jwks@.take(i as int),
                ).push(pair));
            }
        }
        i += 1;
    }
    assert(jwks@.take(i as int) =~= jwks@);
    converted
}

/// The bytes that tell the execution layer of new keys of an identity provider, if the keys can be
/// encoded.
pub fn process_jwk_update_util(update: &ProviderJWKs) -> (bytes: Option<Vec<u8>>)
    ensures
        match encoded_update(*update) {
            Some(encoded) => bytes matches Some(b) && b@ == encoded,
            None => bytes is None,
        },
{
    let jwks = convert_jwks(&update.jwks);
    match crate::bcs_encoding::provider_to_bytes(&update.issuer, update.version, &jwks) {
        Ok(bytes) => Some(bytes),
        Err(_) => None,
    }
}

/// The bytes that tell the execution layer of `txn`, if it can be encoded.
pub open spec fn encoded_txn(txn: ValidatorTransaction) -> Option<Seq<u8>> {
    match txn {
        ValidatorTransaction::DKGResult(transcript) => {
            if transcript.transcript_bytes@.len() <= crate::bcs_encoding::max_sequence_length() {
                Some(
                    crate::bcs_encoding::encoded_transcript(
                        transcript.metadata.epoch,
                        transcript.metadata.author.0@,
                        transcript.transcript_bytes@,
                    ),
                )
            } else {
                None
            }
        },
        ValidatorTransaction::ObservedJWKUpdate(update) => encoded_update(update),
    }
}

/// Whether `data` tells the execution layer of `txn`.
pub open spec fn tells_of(data: ExtraDataType, txn: ValidatorTransaction) -> bool {
    match data {
        ExtraDataType::DKG(bytes) => txn is DKGResult && encoded_txn(txn) == Some(bytes@),
        ExtraDataType::JWK(bytes) => txn is ObservedJWKUpdate && encoded_txn(txn) == Some(bytes@),
    }
}

/// What tells the execution layer of `txn`, if it can be encoded.
pub fn process_single_validator_transaction_util(txn: &ValidatorTransaction) -> (data: Option<
    ExtraDataType,
>)
    ensures
        data is Some <==> encoded_txn(*txn) is Some,
        data matches Some(d) ==> tells_of(d, *txn),
{
    match txn {
        ValidatorTransaction::DKGResult(transcript) => {
            match crate::bcs_encoding::transcript_to_bytes(
                transcript.metadata.epoch,
                transcript.metadata.author.0,
                &transcript.transcript_bytes,
            ) {
                Ok(bytes) => Some(ExtraDataType::DKG(bytes)),
                Err(_) => None,
            }
        },
        ValidatorTransaction::ObservedJWKUpdate(update) => {
            match process_jwk_update_util(update) {
                Some(bytes) => Some(ExtraDataType::JWK(bytes)),
                None => None,
            }
        },
    }
}

/// The transactions that can be encoded, in order.
pub open spec fn encodable(txns: Seq<ValidatorTransaction>) -> Seq<ValidatorTransaction> {
    txns.filter(|txn: ValidatorTransaction| encoded_txn(txn) is Some)
}

/// Whether `data` tells the execution layer of `txns`, one for one.
pub open spec fn tells_of_all(
    data: Seq<ExtraDataType>,
    txns: Seq<ValidatorTransaction>,
) -> bool {
    data.len() == txns.len() && forall|i: int|
        0 <= i < data.len() ==> tells_of(#[trigger] data[i], txns[i])
}

/// The transactions in `txns`, none where there is no list.
pub open spec fn txns_or_none(txns: Option<&Vec<ValidatorTransaction>>) -> Seq<
    ValidatorTransaction,
> {
    match txns {
        Some(txns) => txns@,
        None => Seq::empty(),
    }
}

/// What tells the execution layer of the validator transactions of a block: those that cannot be
/// encoded are left out.
pub fn process_validator_transactions_util(
    validator_txns: Option<&Vec<ValidatorTransaction>>,
) -> (data: Vec<ExtraDataType>)
    ensures
        tells_of_all(data@, encodable(txns_or_none(validator_txns))),
{
    let mut data: Vec<ExtraDataType> = Vec::new();
    match validator_txns {
        Some(txns) => {
            let mut i: usize = 0;
            assert(encodable(txns@.take(0)) =~= Seq::empty()) by {
                reveal(Seq::filter);
            }
            while i < txns.len()
                invariant
                    i <= txns.len(),
                    tells_of_all(data@, encodable(txns@.take(i as int))),
                decreases txns.len() - i,
            {
                let ghost before = data@;
                proof {
                    assert(txns@.take(i + 1).drop_last() =~= txns@.take(i as int));
                    reveal(Seq::filter);
                }
                if let Some(d) = process_single_validator_transaction_util(&txns[i]) {
                    data.push(d);
                    assert(encodable(txns@.take(i + 1)) =~= encodable(txns@.take(i as int)).push(
                        txns@[i as int],
                    ));
                } else {
                    assert(encodable(txns@.take(i + 1)) =~= encodable(txns@.take(i as int)));
                }
                i += 1;
            }
            assert(txns@.take(i as int) =~= txns@);
        },
        None => {
            assert(encodable(Seq::empty()) =~= Seq::empty()) by {
                reveal(Seq::filter);
            }
        },
    }
    data
}

/// Why a transaction is rejected.
#[derive(Debug, Clone, Copy, PartialEq, Eq, Structural)]
pub enum DiscardReason {
    SequenceNonceInvalid,
}

/// A transaction that execution rejected.
#[derive(Debug, Clone, Copy, PartialEq, Eq)]
pub struct RejectedTransactionSummary {
    pub sender: AccountAddress,
    pub sequence_number: u64,
    pub hash: HashValue,
    pub reason: DiscardReason,
}

/// What is told of a transaction that was discarded.
pub open spec fn rejection_of(status: TxnStatus) -> RejectedTransactionSummary {
    RejectedTransactionSummary {
        sender: AccountAddress(status.sender),
        sequence_number: status.nonce,
        hash: HashValue(status.txn_hash),
        reason: DiscardReason::SequenceNonceInvalid,
    }
}

/// What is told of the transactions that were discarded, in order.
pub open spec fn rejections_of(status: Seq<TxnStatus>) -> Seq<RejectedTransactionSummary>
    decreases status.len(),
{
    if status.len() == 0 {
        Seq::empty()
    } else {
        let earlier = rejections_of(status.drop_last());
        if status.last().is_discarded {
            earlier.push(rejection_of(status.last()))
        } else {
            earlier
        }
    }
}

/// The transactions that execution discarded, where it says what became of each.
pub fn rejected_transactions(result: &StateComputeResult) -> (rejected: Option<
    Vec<RejectedTransactionSummary>,
>)
    ensures
        match *result.execution_output.txn_status {
            Some(status) => rejected matches Some(r) && r@ == rejections_of(status@),
            None => rejected is None,
        },
{
    match &*result.execution_output.txn_status {
        Some(status) => {
            let mut rejected: Vec<RejectedTransactionSummary> = Vec::new();
            let mut i: usize = 0;
            while i < status.len()
                invariant
                    i <= status.len(),
                    rejected@ == rejections_of(status@.take(i as int)),
                decreases status.len() - i,
            {
                assert(status@.take(i + 1).drop_last() =~= status@.take(i as int));
                if status[i].is_discarded {
                    rejected.push(
                        RejectedTransactionSummary {
                            sender: AccountAddress(status[i].sender),
                            sequence_number: status[i].nonce,
                            hash: HashValue(status[i].txn_hash),
                            reason: DiscardReason::SequenceNonceInvalid,
                        },
                    );
                }
                i += 1;
            }
            assert(status@.take(i as int) =~= status@);
            Some(rejected)
        },
        None => None,
    }
}

/// Whether `index` is the place of the author of `block` among `validators`; a block without an
/// author, or with one that is not among them, has none.
pub open spec fn is_proposer_index(
    validators: Seq<AccountAddress>,
    author: Option<AccountAddress>,
    index: Option<u64>,
) -> bool {
    match (author, index) {
        (Some(author), Some(i)) => {
            &&& i < validators.len()
            &&& validators[i as int] == author
            &&& forall|j: int| 0 <= j < i ==> #[trigger] validators[j] != author
        },
        (Some(author), None) => !validators.contains(author),
        (None, Some(_)) => false,
        (None, None) => true,
    }
}

fn find_proposer_index(validators: &Vec<AccountAddress>, proposer: Option<AccountAddress>) -> (
index: Option<u64>)
    ensures
        is_proposer_index(validators@, proposer, index),
{
    match proposer {
        Some(author) => {
            let mut i: usize = 0;
            while i < validators.len()
                invariant
                    proposer == Some(author),
                    i <= validators.len(),
                    forall|j: int| 0 <= j < i ==> #[trigger] validators@[j] != author,
                decreases validators.len() - i,
            {
                if validators[i] == author {
                    return Some(i as u64);
                }
                i += 1;
            }
            None
        },
        None => None,
    }
}

/// The transactions of a block: none where they could not be had.
pub fn get_block_txns(fetched: Result<Vec<VerifiedTxn>, String>) -> (txns: Vec<VerifiedTxn>)
    ensures
        match fetched {
            Ok(fetched) => txns == fetched,
            Err(_) => txns@.len() == 0,
        },
{
    match fetched {
        Ok(txns) => txns,
        Err(_) => Vec::new(),
    }
}

/// The transactions that are committed with a block.
#[derive(Debug)]
pub enum CommitTransaction {
    /// The metadata of the block in an epoch of the validators, without a word on randomness.
    BlockMetadata { block: Arc<Block>, validators: Arc<Vec<AccountAddress>> },
    /// The metadata of the block in an epoch of the validators, with its random seed if it has one.
    BlockMetadataWithRandomness {
        block: Arc<Block>,
        validators: Arc<Vec<AccountAddress>>,
        randomness: Option<Arc<Vec<u8>>>,
    },
    /// A transaction of a user.
    User(Arc<SignedTransaction>),
}

/// The transactions that are committed with `block` in an epoch of `validators`: its metadata and
/// those of users, none where the block only carries over a change of epoch.
pub open spec fn commit_transactions(
    block: crate::pipelined_block::PipelinedView,
    validators: Arc<Vec<AccountAddress>>,
    randomness_enabled: bool,
) -> Seq<CommitTransaction> {
    if block.state_compute_result.is_suffix() {
        Seq::empty()
    } else {
        seq![
            if randomness_enabled {
                CommitTransaction::BlockMetadataWithRandomness {
                    block: block.block,
                    validators,
                    randomness: block.randomness,
                }
            } else {
                CommitTransaction::BlockMetadata { block: block.block, validators }
            },
        ] + block.input_transactions.map_values(
            |txn: Arc<SignedTransaction>| CommitTransaction::User(txn),
        )
    }
}

/// The transactions that are committed with a block in an epoch of `validators`.
pub fn transactions_to_commit(
    executed_block: &PipelinedBlock,
    validators: &Arc<Vec<AccountAddress>>,
    randomness_enabled: bool,
) -> (txns: Vec<CommitTransaction>)
    ensures
        txns@ == commit_transactions(executed_block@, *validators, randomness_enabled),
        executed_block@.state_compute_result.has_reconfiguration
            && executed_block@.state_compute_result.txn_num == 0 ==> txns@.len() == 0,
        !(executed_block@.state_compute_result.has_reconfiguration
            && executed_block@.state_compute_result.txn_num == 0) ==> {
            &&& txns@.len() == executed_block@.input_transactions.len() + 1
            &&& forall|i: int|
                0 <= i < executed_block@.input_transactions.len() ==> txns@[i + 1]
                    == CommitTransaction::User(#[trigger] executed_block@.input_transactions[i])
        },
{
    let mut txns: Vec<CommitTransaction> = Vec::new();
    if executed_block.is_reconfiguration_suffix() {
        return txns;
    }
    if randomness_enabled {
        txns.push(
            CommitTransaction::BlockMetadataWithRandomness {
                block: executed_block.block().clone(),
                validators: validators.clone(),
                randomness: executed_block.randomness(),
            },
        );
    } else {
        txns.push(
            CommitTransaction::BlockMetadata {
                block: executed_block.block().clone(),
                validators: validators.clone(),
            },
        );
    }
    let user_txns = executed_block.input_transactions();
    let ghost all = commit_transactions(executed_block@, *validators, randomness_enabled);
    let mut i: usize = 0;
    while i < user_txns.len()
        invariant
            user_txns@ == executed_block@.input_transactions,
            !executed_block@.state_compute_result.is_suffix(),
            all == commit_transactions(executed_block@, *validators, randomness_enabled),
            i <= user_txns.len(),
            txns@ == all.take(i + 1),
        decreases user_txns.len() - i,
    {
        txns.push(CommitTransaction::User(user_txns[i].clone()));
        assert(txns@ =~= all.take(i + 2));
        i += 1;
    }
    assert(txns@ =~= all);
    txns
}

/// What a commit does.
pub struct CommitPlan {
    /// The blocks to commit.
    pub block_ids: Vec<HashValue>,
    /// The numbers and random seeds to save with them.
    pub randomness_data: Vec<(u64, Arc<Vec<u8>>)>,
    /// The blocks whose payloads are committed with them.
    pub payload_blocks: Vec<Arc<Block>>,
    /// The transactions to tell state sync of.
    pub txns: Vec<CommitTransaction>,
    /// The events to tell state sync of.
    pub subscribable_events: Vec<Arc<GravityEvent>>,
    /// The number of the last block, if there is a block: state sync is told of it.
    pub block_number: Option<u64>,
    /// When the last block was proposed.
    pub block_timestamp: u64,
}

/// What committing some blocks comes to.
#[verifier::ext_equal]
pub struct CommitView {
    pub block_ids: Seq<HashValue>,
    pub randomness_data: Seq<(u64, Arc<Vec<u8>>)>,
    pub payload_blocks: Seq<Arc<Block>>,
    pub txns: Seq<CommitTransaction>,
    pub subscribable_events: Seq<Arc<GravityEvent>>,
}

/// What committing `blocks` in order, in an epoch of `validators`, comes to: every block is committed, a block's seed is saved
/// where it has a seed and a number, and its payload, transactions and events count where it has
/// some.
pub open spec fn commit_of(
    blocks: Seq<Arc<PipelinedBlock>>,
    validators: Arc<Vec<AccountAddress>>,
    randomness_enabled: bool,
) -> CommitView
    decreases blocks.len(),
{
    if blocks.len() == 0 {
        CommitView {
            block_ids: Seq::empty(),
            randomness_data: Seq::empty(),
            payload_blocks: Seq::empty(),
            txns: Seq::empty(),
            subscribable_events: Seq::empty(),
        }
    } else {
        let earlier = commit_of(blocks.drop_last(), validators, randomness_enabled);
        let block = blocks.last()@;
        CommitView {
            block_ids: earlier.block_ids.push(block.block.id),
            randomness_data: match (block.randomness, block.block.block_number) {
                (Some(seed), Some(number)) => earlier.randomness_data.push((number, seed)),
                _ => earlier.randomness_data,
            },
            payload_blocks: if block.block.payload is Some {
                earlier.payload_blocks.push(block.block)
            } else {
                earlier.payload_blocks
            },
            txns: earlier.txns + commit_transactions(block, validators, randomness_enabled),
            subscribable_events: earlier.subscribable_events
                + block.state_compute_result.events@,
        }
    }
}

impl CommitPlan {
    pub open spec fn contents(self) -> CommitView {
        CommitView {
            block_ids: self.block_ids@,
            randomness_data: self.randomness_data@,
            payload_blocks: self.payload_blocks@,
            txns: self.txns@,
            subscribable_events: self.subscribable_events@,
        }
    }
}

/// What syncing to a commit takes.
#[derive(Debug, Clone, Copy, PartialEq, Eq, Structural)]
pub enum SyncStep {
    /// The node has committed beyond the target: nothing.
    AlreadyCommitted,
    /// A failure was injected, after the payload manager was told of the target within an epoch.
    Injected { notify_payload_manager: bool },
    /// State sync, after the payload manager was told of the target within an epoch.
    Sync { notify_payload_manager: bool },
}

impl ExecutionProxy {
    pub fn new() -> (proxy: Self)
        ensures
            proxy.latest_logical_time == (LogicalTime { epoch: 0, round: 0 }),
            proxy.state is None,
    {
        ExecutionProxy { latest_logical_time: LogicalTime::new(0, 0), state: None }
    }

    /// Begins an epoch.
    pub fn new_epoch(&mut self, epoch_state: &EpochState, randomness_enabled: bool)
        ensures
            final(self).latest_logical_time == old(self).latest_logical_time,
            final(self).state matches Some(state) && state.validators@
                == crate::validators::addresses_of(epoch_state.verifier.validators@)
                && state.is_randomness_enabled == randomness_enabled,
    {
        self.state = Some(
            MutableState {
                validators: Arc::new(epoch_state.verifier.get_ordered_account_addresses()),
                is_randomness_enabled: randomness_enabled,
            },
        );
    }

    /// Ends an epoch. Until the next one begins, the node can only sync.
    pub fn end_epoch(&mut self)
        ensures
            final(self).latest_logical_time == old(self).latest_logical_time,
            final(self).state is None,
    {
        self.state = None;
    }

    /// What is handed to execution for `block`, whose transactions are `txns`.
    pub fn schedule_compute(
        &self,
        block: &Block,
        txns: Vec<VerifiedTxn>,
        randomness: Option<Random>,
    ) -> (external: ExternalBlock)
        requires
            self.state is Some,
            block.block_number is Some,
        ensures
            external.block_meta == (ExternalBlockMeta {
                block_id: BlockId(block.id.0),
                block_number: block.block_number->0,
                usecs: block.timestamp_usecs,
                epoch: block.epoch,
                randomness,
                block_hash: None,
                proposer_index: external.block_meta.proposer_index,
            }),
            is_proposer_index(
                self.state->0.validators@,
                block.author,
                external.block_meta.proposer_index,
            ),
            external.txns == txns,
            tells_of_all(
                external.extra_data@,
                encodable(
                    match block.validator_txns {
                        Some(txns) => txns@,
                        None => Seq::empty(),
                    },
                ),
            ),
            external.enable_randomness == self.state->0.is_randomness_enabled,
    {
        let extra_data = match &block.validator_txns {
            Some(txns) => process_validator_transactions_util(Some(txns)),
            None => process_validator_transactions_util(None),
        };
        let block_number: u64 = match block.block_number {
            Some(number) => number,
            None => vstd::pervasive::unreached(),
        };
        let (proposer_index, enable_randomness) = match &self.state {
            Some(state) => (
                find_proposer_index(&state.validators, block.author),
                state.is_randomness_enabled,
            ),
            None => vstd::pervasive::unreached(),
        };
        ExternalBlock {
            block_meta: ExternalBlockMeta {
                block_id: BlockId(block.id.0),
                block_number,
                usecs: block.timestamp_usecs,
                epoch: block.epoch,
                randomness,
                block_hash: None,
                proposer_index,
            },
            txns,
            extra_data,
            enable_randomness,
        }
    }

    /// Commits `blocks`, which `finality_proof` proves final. There may be no block at all.
    pub fn commit(
        &mut self,
        blocks: &Vec<Arc<PipelinedBlock>>,
        finality_proof: &LedgerInfoWithSignatures,
    ) -> (plan: CommitPlan)
        requires
            old(self).state is Some,
            blocks@.len() > 0 ==> blocks@.last()@.block.block_number is Some,
        ensures
            plan.contents() == commit_of(
                blocks@,
                old(self).state->0.validators,
                old(self).state->0.is_randomness_enabled,
            ),
            plan.block_ids@ == Seq::new(blocks@.len(), |i: int| blocks@[i]@.block.id),
            plan.randomness_data@ == plan.contents().randomness_data,
            plan.payload_blocks@ == plan.contents().payload_blocks,
            plan.txns@ == plan.contents().txns,
            plan.subscribable_events@ == plan.contents().subscribable_events,
            plan.block_number == (if blocks@.len() > 0 {
                blocks@.last()@.block.block_number
            } else {
                None
            }),
            plan.block_timestamp == finality_proof.commit_info.timestamp_usecs,
            final(self).latest_logical_time == LogicalTime::of(*finality_proof),
            final(self).latest_logical_time.epoch == finality_proof.commit_info.epoch,
            final(self).latest_logical_time.round == finality_proof.commit_info.round,
            final(self).state == old(self).state,
    {
        let (validators, randomness_enabled) = match &self.state {
            Some(state) => (state.validators.clone(), state.is_randomness_enabled),
            None => vstd::pervasive::unreached(),
        };
        let mut plan = CommitPlan {
            block_ids: Vec::new(),
            randomness_data: Vec::new(),
            payload_blocks: Vec::new(),
            txns: Vec::new(),
            subscribable_events: Vec::new(),
            block_number: None,
            block_timestamp: finality_proof.commit_info.timestamp_usecs,
        };
        let mut i: usize = 0;
        assert(plan.contents() =~= commit_of(blocks@.take(0), validators, randomness_enabled));
        while i < blocks.len()
            invariant
                i <= blocks.len(),
                plan.contents() == commit_of(
                    blocks@.take(i as int),
                    validators,
                    randomness_enabled,
                ),
                plan.block_number == (if i > 0 {
                    blocks@[i - 1]@.block.block_number
                } else {
                    None
                }),
                plan.block_timestamp == finality_proof.commit_info.timestamp_usecs,
            decreases blocks.len() - i,
        {
            assert(blocks@.take(i + 1).drop_last() =~= blocks@.take(i as int));
            let block = &blocks[i];
            if block.payload().is_some() {
                plan.payload_blocks.push(block.block().clone());
            }
            plan.block_ids.push(block.id());
            let mut txns = transactions_to_commit(block, &validators, randomness_enabled);
            plan.txns.append(&mut txns);
            let mut events = block.subscribable_events();
            plan.subscribable_events.append(&mut events);
            match (block.randomness(), block.block().block_number) {
                (Some(seed), Some(number)) => {
                    plan.randomness_data.push((number, seed));
                },
                _ => {},
            }
            plan.block_number = block.block().block_number;
            assert(plan.contents() =~= commit_of(
                blocks@.take(i + 1),
                validators,
                randomness_enabled,
            ));
            i += 1;
        }
        assert(blocks@.take(i as int) =~= blocks@);
        self.latest_logical_time = LogicalTime::new(
            finality_proof.commit_info.epoch,
            finality_proof.commit_info.round,
        );
        proof {
            commit_takes_every_block(blocks@, validators, randomness_enabled);
        }
        plan
    }

    /// What syncing to `target` takes: nothing where the node has got at least as far.
    pub open spec fn sync_step(
        &self,
        target: LedgerInfoWithSignatures,
        injected: bool,
    ) -> SyncStep {
        if self.latest_logical_time.not_before(LogicalTime::of(target)) {
            SyncStep::AlreadyCommitted
        } else if injected {
            SyncStep::Injected { notify_payload_manager: self.state is Some }
        } else {
            SyncStep::Sync { notify_payload_manager: self.state is Some }
        }
    }

    /// What syncing to `target` takes.
    pub fn sync_to(&self, target: &LedgerInfoWithSignatures, injected: bool) -> (step: SyncStep)
        ensures
            step == self.sync_step(*target, injected),
    {
        let logical_time = LogicalTime::new(target.commit_info.epoch, target.commit_info.round);
        if self.latest_logical_time.is_at_least(&logical_time) {
            return SyncStep::AlreadyCommitted;
        }
        let notify_payload_manager = self.state.is_some();
        if injected {
            SyncStep::Injected { notify_payload_manager }
        } else {
            SyncStep::Sync { notify_payload_manager }
        }
    }

    /// Notes that state sync went to `target`, whether it got there or not.
    pub fn synced(&mut self, target: &LedgerInfoWithSignatures)
        ensures
            final(self).latest_logical_time == LogicalTime::of(*target),
            final(self).latest_logical_time.epoch == target.commit_info.epoch,
            final(self).latest_logical_time.round == target.commit_info.round,
            final(self).state == old(self).state,
    {
        self.latest_logical_time = LogicalTime::new(
            target.commit_info.epoch,
            target.commit_info.round,
        );
    }
}

/// Points in history are ordered: one of two is not before the other, and if neither is before the
/// other they are the same.
pub proof fn logical_time_is_ordered(a: LogicalTime, b: LogicalTime, c: LogicalTime)
    ensures
        a.not_before(b) || b.not_before(a),
        a.not_before(b) && b.not_before(a) ==> a == b,
        a.not_before(b) && b.not_before(c) ==> a.not_before(c),
{
}

/// A sync never goes back: once a node has committed or synced to `reached`, it does not sync to
/// a target that is not after it, and it does sync to any target that is.
pub proof fn sync_never_goes_back(
    proxy: ExecutionProxy,
    reached: LedgerInfoWithSignatures,
    target: LedgerInfoWithSignatures,
)
    requires
        proxy.latest_logical_time == LogicalTime::of(reached),
    ensures
        LogicalTime::of(reached).not_before(LogicalTime::of(target)) ==> proxy.sync_step(
            target,
            false,
        ) is AlreadyCommitted,
        !LogicalTime::of(reached).not_before(LogicalTime::of(target)) ==> proxy.sync_step(
            target,
            false,
        ) is Sync,
        proxy.sync_step(reached, false) is AlreadyCommitted,
{
}

/// A block is committed with its own metadata, and with every transaction of a user in it, in order;
/// only a block that carries over a change of epoch and has no transaction is committed with none.
pub proof fn every_user_transaction_is_committed(
    block: crate::pipelined_block::PipelinedView,
    validators: Arc<Vec<AccountAddress>>,
    randomness_enabled: bool,
)
    ensures
        ({
            let txns = commit_transactions(block, validators, randomness_enabled);
            if block.state_compute_result.has_reconfiguration && block.state_compute_result.txn_num
                == 0 {
                txns.len() == 0
            } else {
                &&& txns.len() == block.input_transactions.len() + 1
                &&& randomness_enabled ==> txns[0]
                    == (CommitTransaction::BlockMetadataWithRandomness {
                    block: block.block,
                    validators,
                    randomness: block.randomness,
                })
                &&& !randomness_enabled ==> txns[0] == (CommitTransaction::BlockMetadata {
                    block: block.block,
                    validators,
                })
                &&& forall|i: int|
                    0 <= i < block.input_transactions.len() ==> txns[i + 1]
                        == CommitTransaction::User(#[trigger] block.input_transactions[i])
            }
        }),
{
}

/// A commit takes every block once, in order, and tells of the transactions of all blocks but
/// those that only carry over a change of epoch: each other block comes with its own metadata and
/// all its transactions, the block that changes the epoch among them.
pub proof fn commit_takes_every_block(
    blocks: Seq<Arc<PipelinedBlock>>,
    validators: Arc<Vec<AccountAddress>>,
    randomness_enabled: bool,
)
    ensures
        ({
            let commit = commit_of(blocks, validators, randomness_enabled);
            &&& commit.block_ids == Seq::new(blocks.len(), |i: int| blocks[i]@.block.id)
            &&& commit.txns == blocks.map_values(
                |block: Arc<PipelinedBlock>|
                    commit_transactions(block@, validators, randomness_enabled),
            ).flatten()
            &&& commit.payload_blocks.len() <= blocks.len()
            &&& commit.randomness_data.len() <= blocks.len()
        }),
        forall|i: int|
            0 <= i < blocks.len() ==> ((#[trigger] commit_transactions(
                blocks[i]@,
                validators,
                randomness_enabled,
            )).len() == 0 <==> blocks[i]@.state_compute_result.has_reconfiguration
                && blocks[i]@.state_compute_result.txn_num == 0),
    decreases blocks.len(),
{
    let of_block = |block: Arc<PipelinedBlock>|
        commit_transactions(block@, validators, randomness_enabled);
    if blocks.len() > 0 {
        let earlier = blocks.drop_last();
        commit_takes_every_block(earlier, validators, randomness_enabled);
        let all = blocks.map_values(of_block);
        assert(all =~= earlier.map_values(of_block).push(of_block(blocks.last())));
        earlier.map_values(of_block).lemma_flatten_push(of_block(blocks.last()));
    }
    assert(commit_of(blocks, validators, randomness_enabled).block_ids =~= Seq::new(
        blocks.len(),
        |i: int| blocks[i]@.block.id,
    ));
}

} // verus!
