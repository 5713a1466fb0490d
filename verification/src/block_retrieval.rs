//! Serving requests for blocks.
//!
//! A request is served by a [`BlockRetrieval`], which says what it has to read from the database
//! next and is told what was read, until it has an answer.

use crate::block_store::BlockStore;
use crate::consensus_types::{
    Block, BlockRetrievalRequest, BlockRetrievalResponse, BlockRetrievalStatus,
    BlockWithRandomness, LedgerInfoWithSignatures, QuorumCert,
};
use crate::types::HashValue;
use std::sync::Arc;
use vstd::prelude::*;

verus! {

/// Why a request for blocks is not answered.
#[derive(Debug, PartialEq, Eq)]
pub enum RetrievalError {
    /// A failure was injected.
    Injected,
    /// The table of epochs could not be read.
    EpochTable(String),
    /// The table of epochs does not hold the epoch.
    EpochNotFound { epoch: u64 },
    /// The ledger info of a block could not be read.
    LedgerInfo { block_number: u64, cause: String },
    /// There is no ledger info for a block.
    LedgerInfoNotFound { block_number: u64 },
    /// The certificates of the epoch could not be read.
    QuorumCerts { epoch: u64, cause: String },
    /// No certificate of the epoch commits its last block.
    QuorumCertNotFound { end_block_id: HashValue, epoch: u64 },
    /// The last certified block of the epoch could not be read.
    Block { id: HashValue, cause: String },
    /// The last certified block of the epoch is missing.
    BlockNotFound { id: HashValue },
    /// The random seed of the last certified block of the epoch could not be read.
    Randomness { block_number: u64, cause: String },
    /// The ledger info that the chain starts from could not be read.
    StartLedgerInfo(String),
    /// There is no ledger info for the chain to start from.
    StartLedgerInfoNotFound,
}

/// What is to be done next for a request.
#[derive(Debug)]
pub enum RetrievalAction {
    /// Read the whole table from block numbers to epochs.
    ReadEpochTable,
    /// Read the ledger info of a block.
    ReadLedgerInfo { block_number: u64 },
    /// Read every certificate of an epoch.
    ReadQuorumCerts { epoch: u64 },
    /// Read a block.
    ReadBlock { epoch: u64, id: HashValue },
    /// Read the certificate of a block.
    ReadQuorumCert { epoch: u64, id: HashValue },
    /// Read the random seed of a block.
    ReadRandomness { block_number: u64 },
    /// Read the ledger infos of the blocks numbered `lower..upper`.
    ReadLedgerInfos { lower: u64, upper: u64 },
    /// Send the answer.
    Respond(BlockRetrievalResponse),
    /// Give up.
    Fail(RetrievalError),
}

/// What was read.
#[derive(Debug)]
pub enum RetrievalEvent {
    EpochTable(Result<Vec<(u64, u64)>, String>),
    LedgerInfo(Result<Option<Arc<LedgerInfoWithSignatures>>, String>),
    QuorumCerts(Result<Vec<Arc<QuorumCert>>, String>),
    Block(Result<Option<Arc<Block>>, String>),
    QuorumCert(Result<Option<Arc<QuorumCert>>, String>),
    Randomness(Result<Option<Arc<Vec<u8>>>, String>),
    LedgerInfos(Vec<Arc<LedgerInfoWithSignatures>>),
}

/// What a request waits for.
pub enum Stage {
    EpochTable,
    EndLedgerInfo { block_number: u64 },
    EndQuorumCert { block_number: u64, end_block_id: HashValue },
    EndBlock { block_number: u64, qc: Arc<QuorumCert> },
    EndRandomness { block_number: u64, qc: Arc<QuorumCert>, block: Arc<Block>, own_number: u64 },
    StartLedgerInfo { block_number: u64 },
    ChainBlock,
    ChainQuorumCert { block: Arc<Block> },
    ChainRandomness { block: Arc<Block>, qc: Arc<QuorumCert>, own_number: u64 },
    LedgerInfos { status: BlockRetrievalStatus, lower: u64, upper: u64 },
    Finished,
}

/// A request that is being served.
pub struct BlockRetrieval {
    pub request: BlockRetrievalRequest,
    /// The epoch that the chain is in.
    pub epoch: u64,
    /// The next block of the chain.
    pub id: HashValue,
    pub blocks: Vec<BlockWithRandomness>,
    pub quorum_certs: Vec<Arc<QuorumCert>>,
    pub stage: Stage,
}

/// What the database gives for each read.
pub struct Database {
    pub epoch_table: Result<Vec<(u64, u64)>, String>,
    pub ledger_info: spec_fn(u64) -> Result<Option<Arc<LedgerInfoWithSignatures>>, String>,
    pub quorum_certs: spec_fn(u64) -> Result<Vec<Arc<QuorumCert>>, String>,
    pub block: spec_fn(u64, HashValue) -> Result<Option<Arc<Block>>, String>,
    pub quorum_cert: spec_fn(u64, HashValue) -> Result<Option<Arc<QuorumCert>>, String>,
    pub randomness: spec_fn(u64) -> Result<Option<Arc<Vec<u8>>>, String>,
    pub ledger_infos: spec_fn(u64, u64) -> Vec<Arc<LedgerInfoWithSignatures>>,
}

/// The blocks that were collected, and a certificate for each.
#[verifier::ext_equal]
pub struct Chain {
    pub blocks: Seq<BlockWithRandomness>,
    pub quorum_certs: Seq<Arc<QuorumCert>>,
}

/// An answer.
#[verifier::ext_equal]
pub struct Answer {
    pub status: BlockRetrievalStatus,
    pub chain: Chain,
    pub ledger_infos: Seq<Arc<LedgerInfoWithSignatures>>,
}

/// Everything that the answer to a request depends on.
pub struct Context {
    pub request: BlockRetrievalRequest,
    pub store: BlockStore,
    pub db: Database,
}

impl Chain {
    pub open spec fn empty() -> Chain {
        Chain { blocks: Seq::empty(), quorum_certs: Seq::empty() }
    }

    /// The chain with one more block.
    pub open spec fn with(
        self,
        block: Arc<Block>,
        randomness: Option<Arc<Vec<u8>>>,
        qc: Arc<QuorumCert>,
    ) -> Chain {
        Chain {
            blocks: self.blocks.push((block, randomness)),
            quorum_certs: self.quorum_certs.push(qc),
        }
    }
}

/// The block number that stands first in `table` for `epoch`.
pub open spec fn block_number_of(table: Seq<(u64, u64)>, epoch: u64) -> Option<u64>
    decreases table.len(),
{
    if table.len() == 0 {
        None
    } else if table[0].1 == epoch {
        Some(table[0].0)
    } else {
        block_number_of(table.skip(1), epoch)
    }
}

/// The first of `quorum_certs` that commits the block `id`.
pub open spec fn cert_committing(quorum_certs: Seq<Arc<QuorumCert>>, id: HashValue) -> Option<
    Arc<QuorumCert>,
>
    decreases quorum_certs.len(),
{
    if quorum_certs.len() == 0 {
        None
    } else if quorum_certs[0].signed_ledger_info.commit_info.id == id {
        Some(quorum_certs[0])
    } else {
        cert_committing(quorum_certs.skip(1), id)
    }
}

/// Whether the block that `qc` certifies is the first of its epoch.
pub open spec fn extends_genesis(qc: QuorumCert) -> bool {
    !qc.vote_data.parent.id.is_zero_spec() && qc.vote_data.parent.round == 0
}

/// The lowest and the highest-plus-one block number of a chain that runs from newer to older
/// blocks, the latter modulo 2^64; zero where no block has a number.
pub open spec fn number_range(blocks: Seq<BlockWithRandomness>) -> (u64, u64)
    decreases blocks.len(),
{
    if blocks.len() == 0 {
        (0, 0)
    } else {
        let (lower, upper) = number_range(blocks.drop_last());
        match blocks.last().0.block_number {
            Some(number) => (
                number,
                if upper == 0 {
                    if number == u64::MAX {
                        0
                    } else {
                        (number + 1) as u64
                    }
                } else {
                    upper
                },
            ),
            None => (lower, upper),
        }
    }
}

/// Those of `infos` that are of `epoch`, last first.
pub open spec fn of_epoch_reversed(
    infos: Seq<Arc<LedgerInfoWithSignatures>>,
    epoch: u64,
) -> Seq<Arc<LedgerInfoWithSignatures>>
    decreases infos.len(),
{
    if infos.len() == 0 {
        Seq::empty()
    } else {
        let rest = of_epoch_reversed(infos.skip(1), epoch);
        if infos[0].commit_info.epoch == epoch {
            rest.push(infos[0])
        } else {
            rest
        }
    }
}

/// The answer, once the chain is collected.
pub open spec fn answer_with(
    cx: Context,
    epoch: u64,
    chain: Chain,
    status: BlockRetrievalStatus,
) -> Result<Answer, RetrievalError> {
    let (lower, upper) = number_range(chain.blocks);
    Ok(
        Answer {
            status,
            chain,
            ledger_infos: if upper == 0 {
                Seq::empty()
            } else {
                of_epoch_reversed((cx.db.ledger_infos)(lower, upper)@, epoch)
            },
        },
    )
}

/// The random seed of `block`, if it can be read.
pub open spec fn seed_of(db: Database, block: Arc<Block>) -> Option<Arc<Vec<u8>>> {
    match block.block_number {
        Some(number) => match (db.randomness)(number) {
            Ok(seed) => seed,
            Err(_) => None,
        },
        None => None,
    }
}

/// How many more blocks the chain may get.
pub open spec fn blocks_left(cx: Context, chain: Chain) -> int {
    if chain.blocks.len() < cx.request.num_blocks {
        cx.request.num_blocks - chain.blocks.len()
    } else {
        0
    }
}

/// The answer, when `chain` is collected and goes on with the block `id`. The block is looked for
/// in memory first, and its certificate where the block was found.
pub open spec fn walk(cx: Context, epoch: u64, id: HashValue, chain: Chain) -> Result<
    Answer,
    RetrievalError,
>
    decreases blocks_left(cx, chain), 3int,
{
    if chain.blocks.len() >= cx.request.num_blocks {
        answer_with(cx, epoch, chain, BlockRetrievalStatus::Succeeded)
    } else {
        match crate::block_store::find_block(cx.store.blocks@, id) {
            Some(block) => match crate::block_store::find_cert(cx.store.quorum_certs@, id) {
                None => answer_with(cx, epoch, chain, BlockRetrievalStatus::QuorumCertNotFound),
                Some(qc) => walk_past(cx, epoch, id, chain, block, qc),
            },
            None => walk_in_db(cx, epoch, id, chain),
        }
    }
}

/// The answer, when the block `id` comes next in the chain and is not in memory.
pub open spec fn walk_in_db(cx: Context, epoch: u64, id: HashValue, chain: Chain) -> Result<
    Answer,
    RetrievalError,
>
    decreases blocks_left(cx, chain), 2int,
{
    match (cx.db.block)(epoch, id) {
        Ok(Some(block)) => walk_with_db_block(cx, epoch, id, chain, block),
        _ => answer_with(cx, epoch, chain, BlockRetrievalStatus::NotEnoughBlocks),
    }
}

/// The answer, when `block` comes next in the chain and was read from the database.
pub open spec fn walk_with_db_block(
    cx: Context,
    epoch: u64,
    id: HashValue,
    chain: Chain,
    block: Arc<Block>,
) -> Result<Answer, RetrievalError>
    decreases blocks_left(cx, chain), 1int,
{
    match (cx.db.quorum_cert)(epoch, id) {
        Ok(Some(qc)) => walk_past(cx, epoch, id, chain, block, qc),
        _ => answer_with(cx, epoch, chain, BlockRetrievalStatus::QuorumCertNotFound),
    }
}

/// The answer, when `block` comes next in the chain and `qc` certifies it.
pub open spec fn walk_past(
    cx: Context,
    epoch: u64,
    id: HashValue,
    chain: Chain,
    block: Arc<Block>,
    qc: Arc<QuorumCert>,
) -> Result<Answer, RetrievalError>
    decreases blocks_left(cx, chain), 0int,
{
    let longer = chain.with(block, seed_of(cx.db, block), qc);
    if cx.request.target_block_id == Some(id) || extends_genesis(*qc) {
        answer_with(cx, epoch, longer, BlockRetrievalStatus::SucceededWithTarget)
    } else if longer.blocks.len() >= cx.request.num_blocks {
        answer_with(cx, epoch, longer, BlockRetrievalStatus::Succeeded)
    } else {
        walk(cx, epoch, block.parent(), longer)
    }
}

/// The answer, when the last certified block of the epoch is collected.
pub open spec fn walk_from_end(cx: Context, epoch: u64, block_number: u64, chain: Chain) -> Result<
    Answer,
    RetrievalError,
> {
    match (cx.db.ledger_info)(block_number) {
        Err(cause) => Err(RetrievalError::StartLedgerInfo(cause)),
        Ok(None) => Err(RetrievalError::StartLedgerInfoNotFound),
        Ok(Some(info)) => walk(cx, epoch, info.commit_info.id, chain),
    }
}

/// The answer, when `block` is the last certified block of the epoch.
pub open spec fn answer_from_block(
    cx: Context,
    epoch: u64,
    block_number: u64,
    qc: Arc<QuorumCert>,
    block: Arc<Block>,
) -> Result<Answer, RetrievalError> {
    match block.block_number {
        None => walk_from_end(cx, epoch, block_number, Chain::empty().with(block, None, qc)),
        Some(own_number) => match (cx.db.randomness)(own_number) {
            Err(cause) => Err(RetrievalError::Randomness { block_number: own_number, cause }),
            Ok(seed) => walk_from_end(
                cx,
                epoch,
                block_number,
                Chain::empty().with(block, seed, qc),
            ),
        },
    }
}

/// The answer, when `qc` commits the last block of the epoch.
pub open spec fn answer_from_cert(
    cx: Context,
    epoch: u64,
    block_number: u64,
    qc: Arc<QuorumCert>,
) -> Result<Answer, RetrievalError> {
    let id = qc.vote_data.proposed.id;
    match (cx.db.block)(epoch, id) {
        Err(cause) => Err(RetrievalError::Block { id, cause }),
        Ok(None) => Err(RetrievalError::BlockNotFound { id }),
        Ok(Some(block)) => answer_from_block(cx, epoch, block_number, qc, block),
    }
}

/// The answer, when the last block of the epoch is `end_block_id`.
pub open spec fn answer_from_end(
    cx: Context,
    epoch: u64,
    block_number: u64,
    end_block_id: HashValue,
) -> Result<Answer, RetrievalError> {
    match (cx.db.quorum_certs)(epoch) {
        Err(cause) => Err(RetrievalError::QuorumCerts { epoch, cause }),
        Ok(certs) => match cert_committing(certs@, end_block_id) {
            None => Err(RetrievalError::QuorumCertNotFound { end_block_id, epoch }),
            Some(qc) => answer_from_cert(cx, epoch, block_number, qc),
        },
    }
}

/// The answer, when the last block of the epoch has the number `block_number`.
pub open spec fn answer_from_number(cx: Context, epoch: u64, block_number: u64) -> Result<
    Answer,
    RetrievalError,
> {
    match (cx.db.ledger_info)(block_number) {
        Err(cause) => Err(RetrievalError::LedgerInfo { block_number, cause }),
        Ok(None) => Err(RetrievalError::LedgerInfoNotFound { block_number }),
        Ok(Some(info)) => answer_from_end(cx, epoch, block_number, info.commit_info.id),
    }
}

/// The answer for a whole epoch, from its last block on.
pub open spec fn answer_for_epoch(cx: Context, epoch: u64) -> Result<Answer, RetrievalError> {
    match cx.db.epoch_table {
        Err(cause) => Err(RetrievalError::EpochTable(cause)),
        Ok(table) => match block_number_of(table@, epoch) {
            None => Err(RetrievalError::EpochNotFound { epoch }),
            Some(block_number) => answer_from_number(cx, epoch, block_number),
        },
    }
}

/// The answer to a request: the chain from the block that it names, in the epoch that it names or
/// else in that of the last ordered block; the chain from the last block of the epoch where it
/// names an epoch and the zero block.
pub open spec fn retrieval(cx: Context, injected: bool) -> Result<Answer, RetrievalError> {
    if injected {
        Err(RetrievalError::Injected)
    } else {
        match cx.request.epoch {
            Some(epoch) => if cx.request.block_id.is_zero_spec() {
                answer_for_epoch(cx, epoch)
            } else {
                walk(cx, epoch, cx.request.block_id, Chain::empty())
            },
            None => walk(cx, cx.store.ordered_root.epoch, cx.request.block_id, Chain::empty()),
        }
    }
}

impl BlockRetrieval {
    /// What was collected so far.
    pub open spec fn chain(self) -> Chain {
        Chain { blocks: self.blocks@, quorum_certs: self.quorum_certs@ }
    }

    /// Whether what the request waits for fits what it has collected.
    pub open spec fn wf(self) -> bool {
        match self.stage {
            Stage::EpochTable | Stage::EndLedgerInfo { .. } | Stage::EndQuorumCert { .. }
            | Stage::EndBlock { .. } => self.chain() == Chain::empty(),
            Stage::EndRandomness { block, own_number, .. } => {
                &&& self.chain() == Chain::empty()
                &&& block.block_number == Some(own_number)
            },
            Stage::ChainRandomness { block, own_number, .. } => {
                &&& self.blocks@.len() < self.request.num_blocks
                &&& block.block_number == Some(own_number)
            },
            Stage::ChainBlock | Stage::ChainQuorumCert { .. } => self.blocks@.len()
                < self.request.num_blocks,
            Stage::LedgerInfos { lower, upper, .. } => {
                &&& number_range(self.blocks@) == (lower, upper)
                &&& upper != 0
            },
            Stage::StartLedgerInfo { .. } | Stage::Finished => true,
        }
    }

    /// The answer that the request will get from a database that gives what `db` says.
    pub open spec fn rest(self, store: BlockStore, db: Database) -> Result<
        Answer,
        RetrievalError,
    > {
        let cx = Context { request: self.request, store, db };
        match self.stage {
            Stage::EpochTable => answer_for_epoch(cx, self.epoch),
            Stage::EndLedgerInfo { block_number } => answer_from_number(
                cx,
                self.epoch,
                block_number,
            ),
            Stage::EndQuorumCert { block_number, end_block_id } => answer_from_end(
                cx,
                self.epoch,
                block_number,
                end_block_id,
            ),
            Stage::EndBlock { block_number, qc } => answer_from_cert(
                cx,
                self.epoch,
                block_number,
                qc,
            ),
            Stage::EndRandomness { block_number, qc, block, .. } => answer_from_block(
                cx,
                self.epoch,
                block_number,
                qc,
                block,
            ),
            Stage::StartLedgerInfo { block_number } => walk_from_end(
                cx,
                self.epoch,
                block_number,
                self.chain(),
            ),
            Stage::ChainBlock => walk_in_db(cx, self.epoch, self.id, self.chain()),
            Stage::ChainQuorumCert { block } => walk_with_db_block(
                cx,
                self.epoch,
                self.id,
                self.chain(),
                block,
            ),
            Stage::ChainRandomness { block, qc, .. } => walk_past(
                cx,
                self.epoch,
                self.id,
                self.chain(),
                block,
                qc,
            ),
            Stage::LedgerInfos { status, .. } => answer_with(
                cx,
                self.epoch,
                self.chain(),
                status,
            ),
            Stage::Finished => arbitrary(),
        }
    }

    /// The read that the request waits for.
    pub open spec fn pending(self) -> Option<RetrievalAction> {
        match self.stage {
            Stage::EpochTable => Some(RetrievalAction::ReadEpochTable),
            Stage::EndLedgerInfo { block_number } => Some(
                RetrievalAction::ReadLedgerInfo { block_number },
            ),
            Stage::EndQuorumCert { .. } => Some(
                RetrievalAction::ReadQuorumCerts { epoch: self.epoch },
            ),
            Stage::EndBlock { qc, .. } => Some(
                RetrievalAction::ReadBlock { epoch: self.epoch, id: qc.vote_data.proposed.id },
            ),
            Stage::EndRandomness { own_number, .. } => Some(
                RetrievalAction::ReadRandomness { block_number: own_number },
            ),
            Stage::StartLedgerInfo { block_number } => Some(
                RetrievalAction::ReadLedgerInfo { block_number },
            ),
            Stage::ChainBlock => Some(
                RetrievalAction::ReadBlock { epoch: self.epoch, id: self.id },
            ),
            Stage::ChainQuorumCert { .. } => Some(
                RetrievalAction::ReadQuorumCert { epoch: self.epoch, id: self.id },
            ),
            Stage::ChainRandomness { own_number, .. } => Some(
                RetrievalAction::ReadRandomness { block_number: own_number },
            ),
            Stage::LedgerInfos { lower, upper, .. } => Some(
                RetrievalAction::ReadLedgerInfos { lower, upper },
            ),
            Stage::Finished => None,
        }
    }

    /// An upper bound on the number of reads to come.
    pub open spec fn reads_left(self) -> int {
        10 * blocks_left_of(self) + match self.stage {
            Stage::EpochTable => 10int,
            Stage::EndLedgerInfo { .. } => 9,
            Stage::EndQuorumCert { .. } => 8,
            Stage::EndBlock { .. } => 7,
            Stage::EndRandomness { .. } => 6,
            Stage::StartLedgerInfo { .. } => 5,
            Stage::ChainBlock => 4,
            Stage::ChainQuorumCert { .. } => 3,
            Stage::ChainRandomness { .. } => 2,
            Stage::LedgerInfos { .. } => 1,
            Stage::Finished => 0,
        }
    }

    /// Whether `action` is right where the answer is to be `answer`: it is the answer, or the
    /// read that the request waits for, after which the answer will still be `answer`.
    pub open spec fn leads_to(
        self,
        action: RetrievalAction,
        store: BlockStore,
        db: Database,
        answer: Result<Answer, RetrievalError>,
    ) -> bool {
        match action {
            RetrievalAction::Respond(response) => answer == Ok::<Answer, RetrievalError>(
                answer_of(response),
            ),
            RetrievalAction::Fail(error) => answer == Err::<Answer, RetrievalError>(error),
            _ => self.pending() == Some(action) && self.rest(store, db) == answer,
        }
    }
}

/// The answer that a response carries.
pub open spec fn answer_of(response: BlockRetrievalResponse) -> Answer {
    Answer {
        status: response.status,
        chain: Chain { blocks: response.blocks@, quorum_certs: response.quorum_certs@ },
        ledger_infos: response.ledger_infos@,
    }
}

/// Whether `event` can come of the read `action`.
pub open spec fn event_fits(action: RetrievalAction, event: RetrievalEvent) -> bool {
    match action {
        RetrievalAction::ReadEpochTable => event is EpochTable,
        RetrievalAction::ReadLedgerInfo { .. } => event is LedgerInfo,
        RetrievalAction::ReadQuorumCerts { .. } => event is QuorumCerts,
        RetrievalAction::ReadBlock { .. } => event is Block,
        RetrievalAction::ReadQuorumCert { .. } => event is QuorumCert,
        RetrievalAction::ReadRandomness { .. } => event is Randomness,
        RetrievalAction::ReadLedgerInfos { .. } => event is LedgerInfos,
        _ => false,
    }
}

impl Database {
    /// Whether the read `action` gives `event`.
    pub open spec fn gives(self, action: RetrievalAction, event: RetrievalEvent) -> bool {
        match (action, event) {
            (RetrievalAction::ReadEpochTable, RetrievalEvent::EpochTable(table)) => table
                == self.epoch_table,
            (
                RetrievalAction::ReadLedgerInfo { block_number },
                RetrievalEvent::LedgerInfo(info),
            ) => info == (self.ledger_info)(block_number),
            (
                RetrievalAction::ReadQuorumCerts { epoch },
                RetrievalEvent::QuorumCerts(certs),
            ) => certs == (self.quorum_certs)(epoch),
            (RetrievalAction::ReadBlock { epoch, id }, RetrievalEvent::Block(block)) => block == (
            self.block)(epoch, id),
            (
                RetrievalAction::ReadQuorumCert { epoch, id },
                RetrievalEvent::QuorumCert(qc),
            ) => qc == (self.quorum_cert)(epoch, id),
            (
                RetrievalAction::ReadRandomness { block_number },
                RetrievalEvent::Randomness(seed),
            ) => seed == (self.randomness)(block_number),
            (
                RetrievalAction::ReadLedgerInfos { lower, upper },
                RetrievalEvent::LedgerInfos(infos),
            ) => infos == (self.ledger_infos)(lower, upper),
            _ => false,
        }
    }
}

/// The block number that stands first in `table` for `epoch`.
fn find_block_number(table: &Vec<(u64, u64)>, epoch: u64) -> (number: Option<u64>)
    ensures
        number == block_number_of(table@, epoch),
{
    let mut i: usize = 0;
    assert(table@.skip(0) =~= table@);
    while i < table.len()
        invariant
            i <= table.len(),
            block_number_of(table@, epoch) == block_number_of(table@.skip(i as int), epoch),
        decreases table.len() - i,
    {
        assert(table@.skip(i as int).skip(1) =~= table@.skip(i + 1));
        if table[i].1 == epoch {
            return Some(table[i].0);
        }
        i += 1;
    }
    None
}

/// The first of `quorum_certs` that commits the block `id`.
fn find_committing(quorum_certs: &Vec<Arc<QuorumCert>>, id: HashValue) -> (cert: Option<
    Arc<QuorumCert>,
>)
    ensures
        cert == cert_committing(quorum_certs@, id),
{
    let mut i: usize = 0;
    assert(quorum_certs@.skip(0) =~= quorum_certs@);
    while i < quorum_certs.len()
        invariant
            i <= quorum_certs.len(),
            cert_committing(quorum_certs@, id) == cert_committing(
                quorum_certs@.skip(i as int),
                id,
            ),
        decreases quorum_certs.len() - i,
    {
        assert(quorum_certs@.skip(i as int).skip(1) =~= quorum_certs@.skip(i + 1));
        if quorum_certs[i].commit_info().id == id {
            return Some(quorum_certs[i].clone());
        }
        i += 1;
    }
    None
}

/// The lowest and the highest-plus-one block number of a chain.
fn find_number_range(blocks: &Vec<BlockWithRandomness>) -> (range: (u64, u64))
    ensures
        range == number_range(blocks@),
{
    let mut lower: u64 = 0;
    let mut upper: u64 = 0;
    let mut i: usize = 0;
    while i < blocks.len()
        invariant
            i <= blocks.len(),
            (lower, upper) == number_range(blocks@.take(i as int)),
        decreases blocks.len() - i,
    {
        assert(blocks@.take(i + 1).drop_last() =~= blocks@.take(i as int));
        if let Some(number) = blocks[i].0.block_number {
            if upper == 0 {
                upper = number.wrapping_add(1);
            }
            lower = number;
        }
        i += 1;
    }
    assert(blocks@.take(i as int) =~= blocks@);
    (lower, upper)
}

/// Those of `infos` that are of `epoch`, last first.
fn keep_epoch_reversed(infos: Vec<Arc<LedgerInfoWithSignatures>>, epoch: u64) -> (kept: Vec<
    Arc<LedgerInfoWithSignatures>,
>)
    ensures
        kept@ == of_epoch_reversed(infos@, epoch),
{
    let mut kept: Vec<Arc<LedgerInfoWithSignatures>> = Vec::new();
    let mut i: usize = infos.len();
    assert(infos@.skip(infos.len() as int) =~= Seq::empty());
    while i > 0
        invariant
            i <= infos.len(),
            kept@ == of_epoch_reversed(infos@.skip(i as int), epoch),
        decreases i,
    {
        i -= 1;
        assert(infos@.skip(i as int).skip(1) =~= infos@.skip(i + 1));
        if infos[i].commit_info.epoch == epoch {
            kept.push(infos[i].clone());
        }
    }
    assert(infos@.skip(0) =~= infos@);
    kept
}

impl BlockRetrieval {
    /// Hands the chain out in an answer.
    fn respond(
        &mut self,
        status: BlockRetrievalStatus,
        ledger_infos: Vec<Arc<LedgerInfoWithSignatures>>,
    ) -> (action: RetrievalAction)
        ensures
            final(self).wf(),
            final(self).pending() is None,
            action matches RetrievalAction::Respond(response) && answer_of(response) == (Answer {
                status,
                chain: old(self).chain(),
                ledger_infos: ledger_infos@,
            }),
    {
        let mut blocks: Vec<BlockWithRandomness> = Vec::new();
        std::mem::swap(&mut blocks, &mut self.blocks);
        let mut quorum_certs: Vec<Arc<QuorumCert>> = Vec::new();
        std::mem::swap(&mut quorum_certs, &mut self.quorum_certs);
        self.stage = Stage::Finished;
        RetrievalAction::Respond(
            BlockRetrievalResponse { status, blocks, quorum_certs, ledger_infos },
        )
    }

    /// Goes on when the chain is collected.
    fn finish(&mut self, status: BlockRetrievalStatus) -> (action: RetrievalAction)
        ensures
            final(self).wf(),
            final(self).pending() is None <==> action is Respond || action is Fail,
            final(self).pending() is Some ==> final(self).request == old(self).request
                && final(self).blocks == old(self).blocks && final(self).stage is LedgerInfos,
            forall|store: BlockStore, db: Database| #[trigger]
                final(self).leads_to(
                    action,
                    store,
                    db,
                    answer_with(
                        Context { request: old(self).request, store, db },
                        old(self).epoch,
                        old(self).chain(),
                        status,
                    ),
                ),
    {
        let (lower, upper) = find_number_range(&self.blocks);
        if upper == 0 {
            let action = self.respond(status, Vec::new());
            assert forall|store: BlockStore, db: Database| #[trigger]
                self.leads_to(
                    action,
                    store,
                    db,
                    answer_with(
                        Context { request: old(self).request, store, db },
                        old(self).epoch,
                        old(self).chain(),
                        status,
                    ),
                ) by {
                assert(answer_of(action->Respond_0).ledger_infos =~= Seq::empty());
            }
            action
        } else {
            self.stage = Stage::LedgerInfos { status, lower, upper };
            RetrievalAction::ReadLedgerInfos { lower, upper }
        }
    }

    /// Takes one more block into the chain. Whether the chain ends with it.
    fn take_block(
        &mut self,
        block: Arc<Block>,
        seed: Option<Arc<Vec<u8>>>,
        qc: Arc<QuorumCert>,
    ) -> (ended: bool)
        ensures
            final(self).request == old(self).request,
            final(self).epoch == old(self).epoch,
            final(self).stage == old(self).stage,
            final(self).chain() == old(self).chain().with(block, seed, qc),
            ended == (old(self).request.target_block_id == Some(old(self).id) || extends_genesis(
                *qc,
            )),
            !ended ==> final(self).id == block.parent(),
    {
        let genesis = !qc.vote_data.parent.id.is_zero() && qc.vote_data.parent.round == 0;
        let parent_id = block.parent_id();
        self.quorum_certs.push(qc);
        self.blocks.push((block, seed));
        let ended = self.request.match_target_id(self.id) || genesis;
        if !ended {
            self.id = parent_id;
        }
        ended
    }

    /// Goes on along the chain, as far as the blocks are in memory.
    fn walk_on(&mut self, store: &BlockStore) -> (action: RetrievalAction)
        ensures
            final(self).wf(),
            final(self).pending() is None <==> action is Respond || action is Fail,
            final(self).pending() is Some ==> final(self).reads_left() <= 10 * blocks_left_of(
                *old(self),
            ) + 4,
            forall|db: Database| #[trigger]
                final(self).leads_to(
                    action,
                    *store,
                    db,
                    walk(
                        Context { request: old(self).request, store: *store, db },
                        old(self).epoch,
                        old(self).id,
                        old(self).chain(),
                    ),
                ),
    {
        let ghost start = *self;
        let ghost request = self.request;
        let ghost epoch = self.epoch;
        while (self.blocks.len() as u64) < self.request.num_blocks
            invariant
                start == *old(self),
                self.request == request,
                self.epoch == epoch,
                request == start.request,
                epoch == start.epoch,
                blocks_left_of(*self) <= blocks_left_of(start),
                forall|db: Database|
                    #![trigger walk(Context { request, store: *store, db }, epoch, self.id, self.chain())]
                    #![trigger walk(Context { request, store: *store, db }, epoch, start.id, start.chain())]
                    walk(
                        Context { request, store: *store, db },
                        epoch,
                        self.id,
                        self.chain(),
                    ) == walk(
                        Context { request, store: *store, db },
                        epoch,
                        start.id,
                        start.chain(),
                    ),
            decreases blocks_left_of(*self),
        {
            let ghost before = *self;
            match store.get_block(self.id) {
                Some(block) => match store.get_quorum_cert_for_block(self.id) {
                    None => {
                        return self.finish(BlockRetrievalStatus::QuorumCertNotFound);
                    },
                    Some(qc) => match block.block_number {
                        Some(own_number) => {
                            self.stage = Stage::ChainRandomness { block, qc, own_number };
                            return RetrievalAction::ReadRandomness { block_number: own_number };
                        },
                        None => {
                            let ended = self.take_block(block, None, qc);
                            if ended {
                                return self.finish(BlockRetrievalStatus::SucceededWithTarget);
                            }
                        },
                    },
                },
                None => {
                    self.stage = Stage::ChainBlock;
                    return RetrievalAction::ReadBlock { epoch: self.epoch, id: self.id };
                },
            }
        }
        self.finish(BlockRetrievalStatus::Succeeded)
    }

    /// Gives up.
    fn fail(&mut self, error: RetrievalError) -> (action: RetrievalAction)
        ensures
            final(self).wf(),
            final(self).pending() is None,
            action == RetrievalAction::Fail(error),
    {
        self.stage = Stage::Finished;
        RetrievalAction::Fail(error)
    }

    /// Goes on with what was read.
    pub fn advance(&mut self, store: &BlockStore, event: RetrievalEvent) -> (action:
        RetrievalAction)
        requires
            old(self).wf(),
            old(self).pending() matches Some(read) && event_fits(read, event),
        ensures
            final(self).wf(),
            final(self).pending() is None <==> action is Respond || action is Fail,
            final(self).pending() is Some ==> final(self).reads_left() < old(self).reads_left(),
            forall|db: Database|
                #[trigger] db.gives(old(self).pending()->0, event) ==> final(self).leads_to(
                    action,
                    *store,
                    db,
                    old(self).rest(*store, db),
                ),
    {
        let mut stage = Stage::Finished;
        std::mem::swap(&mut stage, &mut self.stage);
        match (stage, event) {
            (Stage::EpochTable, RetrievalEvent::EpochTable(table)) => match table {
                Err(cause) => self.fail(RetrievalError::EpochTable(cause)),
                Ok(table) => match find_block_number(&table, self.epoch) {
                    None => self.fail(RetrievalError::EpochNotFound { epoch: self.epoch }),
                    Some(block_number) => {
                        self.stage = Stage::EndLedgerInfo { block_number };
                        RetrievalAction::ReadLedgerInfo { block_number }
                    },
                },
            },
            (Stage::EndLedgerInfo { block_number }, RetrievalEvent::LedgerInfo(info)) => match info {
                Err(cause) => self.fail(RetrievalError::LedgerInfo { block_number, cause }),
                Ok(None) => self.fail(RetrievalError::LedgerInfoNotFound { block_number }),
                Ok(Some(info)) => {
                    self.stage = Stage::EndQuorumCert {
                        block_number,
                        end_block_id: info.commit_info.id,
                    };
                    RetrievalAction::ReadQuorumCerts { epoch: self.epoch }
                },
            },
            (
                Stage::EndQuorumCert { block_number, end_block_id },
                RetrievalEvent::QuorumCerts(certs),
            ) => match certs {
                Err(cause) => self.fail(RetrievalError::QuorumCerts { epoch: self.epoch, cause }),
                Ok(certs) => match find_committing(&certs, end_block_id) {
                    None => self.fail(
                        RetrievalError::QuorumCertNotFound { end_block_id, epoch: self.epoch },
                    ),
                    Some(qc) => {
                        let id = qc.vote_data.proposed.id;
                        self.stage = Stage::EndBlock { block_number, qc };
                        RetrievalAction::ReadBlock { epoch: self.epoch, id }
                    },
                },
            },
            (Stage::EndBlock { block_number, qc }, RetrievalEvent::Block(block)) => {
                let id = qc.vote_data.proposed.id;
                match block {
                    Err(cause) => self.fail(RetrievalError::Block { id, cause }),
                    Ok(None) => self.fail(RetrievalError::BlockNotFound { id }),
                    Ok(Some(block)) => match block.block_number {
                        Some(own_number) => {
                            self.stage = Stage::EndRandomness {
                                block_number,
                                qc,
                                block,
                                own_number,
                            };
                            RetrievalAction::ReadRandomness { block_number: own_number }
                        },
                        None => {
                            self.quorum_certs.push(qc);
                            self.blocks.push((block, None));
                            self.stage = Stage::StartLedgerInfo { block_number };
                            assert(self.chain() =~= Chain::empty().with(block, None, qc));
                            RetrievalAction::ReadLedgerInfo { block_number }
                        },
                    },
                }
            },
            (
                Stage::EndRandomness { block_number, qc, block, own_number },
                RetrievalEvent::Randomness(seed),
            ) => match seed {
                Err(cause) => self.fail(
                    RetrievalError::Randomness { block_number: own_number, cause },
                ),
                Ok(seed) => {
                    self.quorum_certs.push(qc);
                    self.blocks.push((block, seed));
                    self.stage = Stage::StartLedgerInfo { block_number };
                    assert(self.chain() =~= Chain::empty().with(block, seed, qc));
                    RetrievalAction::ReadLedgerInfo { block_number }
                },
            },
            (
                Stage::StartLedgerInfo { block_number: _ },
                RetrievalEvent::LedgerInfo(info),
            ) => match info {
                Err(cause) => self.fail(RetrievalError::StartLedgerInfo(cause)),
                Ok(None) => self.fail(RetrievalError::StartLedgerInfoNotFound),
                Ok(Some(info)) => {
                    self.id = info.commit_info.id;
                    self.walk_on(store)
                },
            },
            (Stage::ChainBlock, RetrievalEvent::Block(block)) => match block {
                Ok(Some(block)) => {
                    self.stage = Stage::ChainQuorumCert { block };
                    RetrievalAction::ReadQuorumCert { epoch: self.epoch, id: self.id }
                },
                _ => self.finish(BlockRetrievalStatus::NotEnoughBlocks),
            },
            (Stage::ChainQuorumCert { block }, RetrievalEvent::QuorumCert(qc)) => match qc {
                Ok(Some(qc)) => match block.block_number {
                    Some(own_number) => {
                        self.stage = Stage::ChainRandomness { block, qc, own_number };
                        RetrievalAction::ReadRandomness { block_number: own_number }
                    },
                    None => self.step_past(store, block, None, qc),
                },
                _ => self.finish(BlockRetrievalStatus::QuorumCertNotFound),
            },
            (
                Stage::ChainRandomness { block, qc, own_number: _ },
                RetrievalEvent::Randomness(seed),
            ) => {
                let seed = match seed {
                    Ok(seed) => seed,
                    Err(_) => None,
                };
                self.step_past(store, block, seed, qc)
            },
            (
                Stage::LedgerInfos { status, lower: _, upper: _ },
                RetrievalEvent::LedgerInfos(infos),
            ) => {
                let kept = keep_epoch_reversed(infos, self.epoch);
                self.respond(status, kept)
            },
            _ => vstd::pervasive::unreached(),
        }
    }

    /// Takes one more block into the chain, and goes on.
    fn step_past(
        &mut self,
        store: &BlockStore,
        block: Arc<Block>,
        seed: Option<Arc<Vec<u8>>>,
        qc: Arc<QuorumCert>,
    ) -> (action: RetrievalAction)
        requires
            old(self).blocks@.len() < old(self).request.num_blocks,
        ensures
            final(self).wf(),
            final(self).pending() is None <==> action is Respond || action is Fail,
            final(self).pending() is Some ==> final(self).reads_left() < 10 * blocks_left_of(
                *old(self),
            ),
            forall|db: Database|
                seed == #[trigger] seed_of(db, block) ==> final(self).leads_to(
                    action,
                    *store,
                    db,
                    walk_past(
                        Context { request: old(self).request, store: *store, db },
                        old(self).epoch,
                        old(self).id,
                        old(self).chain(),
                        block,
                        qc,
                    ),
                ),
    {
        let ended = self.take_block(block, seed, qc);
        let ghost taken = *self;
        let action = if ended {
            self.finish(BlockRetrievalStatus::SucceededWithTarget)
        } else {
            self.walk_on(store)
        };
        assert forall|db: Database| seed == #[trigger] seed_of(db, block) implies self.leads_to(
            action,
            *store,
            db,
            walk_past(
                Context { request: old(self).request, store: *store, db },
                old(self).epoch,
                old(self).id,
                old(self).chain(),
                block,
                qc,
            ),
        ) by {
            let cx = Context { request: taken.request, store: *store, db };
            if ended {
                assert(self.leads_to(
                    action,
                    *store,
                    db,
                    answer_with(
                        cx,
                        taken.epoch,
                        taken.chain(),
                        BlockRetrievalStatus::SucceededWithTarget,
                    ),
                ));
            } else {
                assert(self.leads_to(
                    action,
                    *store,
                    db,
                    walk(cx, taken.epoch, taken.id, taken.chain()),
                ));
            }
        }
        action
    }
}

impl BlockStore {
    /// Begins to serve a request for blocks.
    pub fn process_block_retrieval(
        &self,
        request: BlockRetrievalRequest,
        injected: bool,
    ) -> (started: (BlockRetrieval, RetrievalAction))
        ensures
            started.0.wf(),
            started.0.pending() is None <==> started.1 is Respond || started.1 is Fail,
            forall|db: Database| #[trigger]
                started.0.leads_to(
                    started.1,
                    *self,
                    db,
                    retrieval(Context { request, store: *self, db }, injected),
                ),
    {
        let epoch: u64 = match request.epoch {
            Some(epoch) => epoch,
            None => self.ordered_root.epoch,
        };
        let mut retrieval = BlockRetrieval {
            request,
            epoch,
            id: request.block_id,
            blocks: Vec::new(),
            quorum_certs: Vec::new(),
            stage: Stage::Finished,
        };
        assert(retrieval.chain() =~= Chain::empty());
        if injected {
            let action = retrieval.fail(RetrievalError::Injected);
            return (retrieval, action);
        }
        if request.epoch.is_some() && request.block_id.is_zero() {
            retrieval.stage = Stage::EpochTable;
            return (retrieval, RetrievalAction::ReadEpochTable);
        }
        let action = retrieval.walk_on(self);
        (retrieval, action)
    }
}

/// How many more blocks a request may collect.
pub open spec fn blocks_left_of(retrieval: BlockRetrieval) -> int {
    if retrieval.blocks@.len() < retrieval.request.num_blocks {
        retrieval.request.num_blocks - retrieval.blocks@.len()
    } else {
        0
    }
}

} // verus!
