//! Fetching blocks from peers.

use crate::consensus_types::{
    BlockRetrievalRequest, BlockRetrievalResponse, BlockRetrievalStatus, BlockWithRandomness,
    LedgerInfoWithSignatures, QuorumCert,
};
use crate::types::{AccountAddress, Author, HashValue};
use rand::Rng;
use std::sync::Arc;
use vstd::prelude::*;

verus! {

/// A random index below `n`, from `rand::Rng::gen_range` on the generator of the thread. Nothing
/// is claimed of it but that it is below `n`.
#[verifier::external_body]
pub(crate) fn random_index(n: usize) -> (index: usize)
    requires
        0 < n,
    ensures
        index < n,
{
    rand::thread_rng().gen_range(0, n)
}

/// Whom to ask for blocks, and for how many at a time.
pub struct BlockRetriever {
    /// The peer that is asked first.
    pub preferred_peer: Author,
    pub available_peers: Vec<AccountAddress>,
    pub max_blocks_to_request: u64,
}

/// How often, and how widely, a request is repeated.
#[derive(Debug, Clone, Copy)]
pub struct RetryPolicy {
    /// How many times peers are asked.
    pub num_retries: usize,
    /// How many peers are asked each time but the first.
    pub num_peers_per_retry: usize,
}

impl BlockRetriever {
    pub fn new(
        preferred_peer: Author,
        available_peers: Vec<AccountAddress>,
        max_blocks_to_request: u64,
    ) -> (retriever: Self)
        ensures
            retriever == (BlockRetriever {
                preferred_peer,
                available_peers,
                max_blocks_to_request,
            }),
    {
        BlockRetriever { preferred_peer, available_peers, max_blocks_to_request }
    }

    /// Takes a peer to ask out of `peers`: the preferred one on the first attempt, even where it
    /// is not among them, and else the one at `draw`.
    pub fn pick_peer_at(
        &self,
        first_attempt: bool,
        peers: &mut Vec<AccountAddress>,
        draw: usize,
    ) -> (peer: AccountAddress)
        requires
            !first_attempt ==> draw < old(peers)@.len(),
        ensures
            peer == (if first_attempt {
                self.preferred_peer
            } else {
                old(peers)@[draw as int]
            }),
            final(peers)@ == (if first_attempt {
                old(peers)@.remove_value(self.preferred_peer)
            } else {
                old(peers)@.remove(draw as int)
            }),
    {
        if first_attempt {
            let mut i: usize = 0;
            while i < peers.len()
                invariant
                    first_attempt,
                    i <= peers.len(),
                    peers@ == old(peers)@,
                    forall|j: int| 0 <= j < i ==> #[trigger] peers@[j] != self.preferred_peer,
                decreases peers.len() - i,
            {
                if peers[i] == self.preferred_peer {
                    proof {
                        lemma_remove_value(peers@, self.preferred_peer, i as int);
                    }
                    peers.remove(i);
                    return self.preferred_peer;
                }
                i += 1;
            }
            proof {
                lemma_keep_value(peers@, self.preferred_peer);
            }
            return self.preferred_peer;
        }
        peers.remove(draw)
    }

    /// Takes a peer to ask out of `peers`: the preferred one on the first attempt, and else a
    /// random one.
    pub fn pick_peer(&self, first_attempt: bool, peers: &mut Vec<AccountAddress>) -> (peer:
        AccountAddress)
        requires
            old(peers)@.len() > 0,
        ensures
            first_attempt ==> peer == self.preferred_peer,
            first_attempt ==> final(peers)@ == old(peers)@.remove_value(self.preferred_peer),
            !first_attempt ==> exists|draw: int| #[trigger]
                is_draw(old(peers)@, draw, peer, final(peers)@),
    {
        let draw: usize = if first_attempt {
            0
        } else {
            random_index(peers.len())
        };
        let ghost before = peers@;
        let peer = self.pick_peer_at(first_attempt, peers, draw);
        assert(!first_attempt ==> is_draw(before, draw as int, peer, peers@));
        peer
    }
}

/// Whether `peer` is the one at `draw` among `before`, and `after` are the others.
pub open spec fn is_draw(
    before: Seq<AccountAddress>,
    draw: int,
    peer: AccountAddress,
    after: Seq<AccountAddress>,
) -> bool {
    0 <= draw < before.len() && peer == before[draw] && after == before.remove(draw)
}

proof fn lemma_remove_value(peers: Seq<AccountAddress>, peer: AccountAddress, i: int)
    requires
        0 <= i < peers.len(),
        peers[i] == peer,
        forall|j: int| 0 <= j < i ==> #[trigger] peers[j] != peer,
    ensures
        peers.remove_value(peer) == peers.remove(i),
{
    assert(peers.contains(peers[i]));
    peers.index_of_first_ensures(peer);
    let first = peers.index_of_first(peer);
    assert(first is Some);
}

proof fn lemma_keep_value(peers: Seq<AccountAddress>, peer: AccountAddress)
    requires
        forall|j: int| 0 <= j < peers.len() ==> #[trigger] peers[j] != peer,
    ensures
        peers.remove_value(peer) == peers,
{
    peers.index_of_first_ensures(peer);
}

/// The peers that are asked before any is drawn, and those to draw from.
pub open spec fn before_draws(
    preferred: AccountAddress,
    first_attempt: bool,
    peers: Seq<AccountAddress>,
    request_num_peers: nat,
) -> (Seq<AccountAddress>, Seq<AccountAddress>) {
    if first_attempt && peers.len() > 0 && request_num_peers > 0 {
        (seq![preferred], peers.remove_value(preferred))
    } else {
        (Seq::empty(), peers)
    }
}

/// Whether `picked` are `request_num_peers` peers, or as many as there are, and `left` the others:
/// the preferred one comes first on the first attempt, and every other was among `peers`.
pub open spec fn picked_from(
    preferred: AccountAddress,
    first_attempt: bool,
    peers: Seq<AccountAddress>,
    request_num_peers: nat,
    picked: Seq<AccountAddress>,
    left: Seq<AccountAddress>,
) -> bool {
    let (fixed, rest) = before_draws(preferred, first_attempt, peers, request_num_peers);
    &&& fixed.len() <= picked.len() <= request_num_peers
    &&& picked.take(fixed.len() as int) == fixed
    &&& picked.skip(fixed.len() as int).to_multiset().add(left.to_multiset())
        == rest.to_multiset()
    &&& picked.len() == request_num_peers || left.len() == 0
}

impl BlockRetriever {
    /// Takes up to `request_num_peers` peers to ask out of `peers`, the preferred one first on the
    /// first attempt.
    pub fn pick_peers(
        &self,
        first_attempt: bool,
        peers: &mut Vec<AccountAddress>,
        request_num_peers: usize,
    ) -> (picked: Vec<AccountAddress>)
        ensures
            picked_from(
                self.preferred_peer,
                first_attempt,
                old(peers)@,
                request_num_peers as nat,
                picked@,
                final(peers)@,
            ),
    {
        broadcast use vstd::seq_lib::group_to_multiset_ensures;

        let mut result: Vec<AccountAddress> = Vec::new();
        let ghost (fixed, rest) = before_draws(
            self.preferred_peer,
            first_attempt,
            old(peers)@,
            request_num_peers as nat,
        );
        if first_attempt && peers.len() > 0 && request_num_peers > 0 {
            result.push(self.pick_peer(true, peers));
        }
        assert(result@ =~= fixed);
        assert(peers@ == rest);
        assert(result@.skip(fixed.len() as int) =~= Seq::<AccountAddress>::empty());
        assert(result@.skip(fixed.len() as int).to_multiset().add(peers@.to_multiset())
            =~= rest.to_multiset());
        while peers.len() > 0 && result.len() < request_num_peers
            invariant
                fixed.len() <= result@.len() <= request_num_peers,
                result@.take(fixed.len() as int) == fixed,
                result@.skip(fixed.len() as int).to_multiset().add(peers@.to_multiset())
                    == rest.to_multiset(),
            decreases request_num_peers - result@.len(),
        {
            let ghost drawn = result@.skip(fixed.len() as int);
            let ghost before = peers@;
            let peer = self.pick_peer(false, peers);
            result.push(peer);
            proof {
                let draw = choose|draw: int| #[trigger] is_draw(before, draw, peer, peers@);
                assert(result@.skip(fixed.len() as int) =~= drawn.push(peer));
                assert(result@.take(fixed.len() as int) =~= fixed);
                lemma_draw(before, draw, peer, drawn);
            }
        }
        result
    }
}

proof fn lemma_draw(
    before: Seq<AccountAddress>,
    draw: int,
    peer: AccountAddress,
    drawn: Seq<AccountAddress>,
)
    requires
        0 <= draw < before.len(),
        peer == before[draw],
    ensures
        drawn.push(peer).to_multiset().add(before.remove(draw).to_multiset())
            == drawn.to_multiset().add(before.to_multiset()),
{
    broadcast use vstd::seq_lib::group_to_multiset_ensures;

    before.to_multiset_ensures();
    drawn.to_multiset_ensures();
    assert(before.contains(before[draw]));
    assert(before.remove(draw).to_multiset() =~= before.to_multiset().remove(peer));
    assert(drawn.push(peer).to_multiset() =~= drawn.to_multiset().insert(peer));
    assert(drawn.push(peer).to_multiset().add(before.remove(draw).to_multiset())
        =~= drawn.to_multiset().add(before.to_multiset()));
}

/// A request for one chunk of blocks that is being sent to peers.
pub struct ChunkFetch {
    pub request: BlockRetrievalRequest,
    /// The peers that were not asked yet.
    pub peers: Vec<AccountAddress>,
    /// How many times peers were asked.
    pub retries: usize,
    /// How many answers are awaited.
    pub in_flight: u128,
}

/// What to do when it is time to ask again.
#[derive(Debug)]
pub enum ChunkStep {
    /// No peer is left to ask, and no answer is awaited.
    GiveUp,
    /// Send the request to these peers; there may be none.
    Ask(Vec<AccountAddress>),
}

impl ChunkFetch {
    /// Whether the count of awaited answers is one that the peers allow for.
    pub open spec fn wf(self) -> bool {
        self.in_flight + self.peers@.len() + (if self.retries == 0 {
            1int
        } else {
            0
        }) <= usize::MAX + 1
    }

    /// Asks further peers: one on the first attempt, and as many as `policy` says on each later
    /// one, as long as attempts and peers are left.
    pub fn on_tick(&mut self, retriever: &BlockRetriever, policy: RetryPolicy) -> (step: ChunkStep)
        requires
            old(self).wf(),
        ensures
            final(self).wf(),
            final(self).request == old(self).request,
            old(self).retries >= policy.num_retries ==> final(self).retries == old(self).retries
                && final(self).peers == old(self).peers,
            old(self).retries < policy.num_retries ==> final(self).retries == old(self).retries + 1,
            match step {
                ChunkStep::GiveUp => {
                    &&& old(self).in_flight == 0
                    &&& old(self).retries >= policy.num_retries || old(self).peers@.len() == 0 || (
                    old(self).retries > 0 && policy.num_peers_per_retry == 0)
                    &&& final(self).in_flight == 0
                    &&& final(self).peers@.to_multiset() == old(self).peers@.to_multiset()
                },
                ChunkStep::Ask(asked) => {
                    &&& final(self).in_flight == old(self).in_flight + asked@.len()
                    &&& final(self).in_flight > 0
                    &&& old(self).retries >= policy.num_retries ==> asked@.len() == 0
                    &&& old(self).retries < policy.num_retries ==> picked_from(
                        retriever.preferred_peer,
                        old(self).retries == 0,
                        old(self).peers@,
                        if old(self).retries == 0 {
                            1
                        } else {
                            policy.num_peers_per_retry as nat
                        },
                        asked@,
                        final(self).peers@,
                    )
                },
            },
    {
        broadcast use vstd::seq_lib::group_to_multiset_ensures;

        let next_peers = if self.retries < policy.num_retries {
            let first_attempt = self.retries == 0;
            self.retries += 1;
            let wanted: usize = if first_attempt {
                1
            } else {
                policy.num_peers_per_retry
            };
            let picked = retriever.pick_peers(first_attempt, &mut self.peers, wanted);
            proof {
                lemma_picked_lens(
                    retriever.preferred_peer,
                    first_attempt,
                    old(self).peers@,
                    wanted as nat,
                    picked@,
                    self.peers@,
                );
            }
            picked
        } else {
            Vec::new()
        };
        if next_peers.len() == 0 && self.in_flight == 0 {
            assert(self.peers@.to_multiset() =~= old(self).peers@.to_multiset());
            return ChunkStep::GiveUp;
        }
        self.in_flight = self.in_flight + next_peers.len() as u128;
        ChunkStep::Ask(next_peers)
    }

    /// Takes the answer of a peer. Gives the blocks, where the peer sent some.
    pub fn on_response(&mut self, response: Result<BlockRetrievalResponse, String>) -> (chunk:
        Option<BlockRetrievalResponse>)
        requires
            old(self).wf(),
            old(self).in_flight > 0,
        ensures
            final(self).wf(),
            final(self).request == old(self).request,
            final(self).peers == old(self).peers,
            final(self).retries == old(self).retries,
            final(self).in_flight == old(self).in_flight - 1,
            chunk == (match response {
                Ok(response) => Some(response),
                Err(_) => None,
            }),
    {
        self.in_flight = self.in_flight - 1;
        match response {
            Ok(response) => Some(response),
            Err(_) => None,
        }
    }
}

/// How many peers are picked, and how many are left: on the first attempt one more may be asked
/// than was among the peers.
proof fn lemma_picked_lens(
    preferred: AccountAddress,
    first_attempt: bool,
    peers: Seq<AccountAddress>,
    request_num_peers: nat,
    picked: Seq<AccountAddress>,
    left: Seq<AccountAddress>,
)
    requires
        picked_from(preferred, first_attempt, peers, request_num_peers, picked, left),
    ensures
        picked.len() + left.len() <= peers.len() + (if first_attempt {
            1int
        } else {
            0
        }),
        picked.len() == 0 ==> peers.len() == 0 || request_num_peers == 0,
{
    broadcast use vstd::seq_lib::group_to_multiset_ensures;

    let (fixed, rest) = before_draws(preferred, first_attempt, peers, request_num_peers);
    let drawn = picked.skip(fixed.len() as int);
    assert(drawn.to_multiset().add(left.to_multiset()).len() == drawn.len() + left.len());
    assert(rest.len() == rest.to_multiset().len());
    peers.index_of_first_ensures(preferred);
    assert(rest.len() <= peers.len());
}

/// Why blocks could not be fetched.
#[derive(Debug, PartialEq, Eq)]
pub enum FetchError {
    /// There is nobody to ask.
    NoPeers { block_id: HashValue },
    /// No peer sent the blocks.
    Failed { last_block_id: HashValue, block_id: HashValue },
    /// No peer sent the blocks of the epoch.
    EpochFailed { epoch: u64 },
}

/// A chain of blocks that is being fetched chunk by chunk.
pub struct BlockFetch {
    /// Where the chain starts.
    pub block_id: HashValue,
    /// Where the chain may end.
    pub target_block_id: HashValue,
    /// How many blocks are wanted.
    pub num_blocks: u64,
    pub epoch: Option<u64>,
    /// How many blocks are asked for at a time.
    pub retrieve_batch_size: u64,
    /// The next block of the chain.
    pub last_block_id: HashValue,
    /// How many of `blocks` were there before.
    pub prior: usize,
    pub blocks: Vec<BlockWithRandomness>,
    pub quorum_certs: Vec<Arc<QuorumCert>>,
    pub ledger_infos: Vec<Arc<LedgerInfoWithSignatures>>,
    /// Whether the chain has reached its target.
    pub target_found: bool,
}

impl BlockFetch {
    /// How many blocks were fetched.
    pub open spec fn progress(self) -> int {
        self.blocks@.len() - self.prior
    }

    /// Whether the chain goes on at the parent of the last block.
    pub open spec fn wf(self) -> bool {
        &&& self.prior <= self.blocks@.len()
        &&& self.blocks@.len() > 0 && !self.target_found ==> self.last_block_id
            == self.blocks@.last().0.parent()
    }

    /// Whether another chunk has to be asked for.
    pub open spec fn wants_more(self) -> bool {
        !self.target_found && self.progress() < self.num_blocks
    }

    /// The next chunk to ask for, if the chain is not complete.
    pub fn next_request(&mut self) -> (request: Option<BlockRetrievalRequest>)
        requires
            old(self).wf(),
        ensures
            final(self).wf(),
            *final(self) == (BlockFetch {
                retrieve_batch_size: final(self).retrieve_batch_size,
                ..*old(self)
            }),
            match request {
                None => {
                    &&& !old(self).wants_more()
                    &&& final(self).retrieve_batch_size == old(self).retrieve_batch_size
                },
                Some(request) => {
                    let wanted = old(self).num_blocks - old(self).progress();
                    &&& old(self).wants_more()
                    &&& final(self).retrieve_batch_size == (if wanted
                        < old(self).retrieve_batch_size {
                        wanted
                    } else {
                        old(self).retrieve_batch_size as int
                    })
                    &&& request == (BlockRetrievalRequest {
                        block_id: old(self).last_block_id,
                        num_blocks: final(self).retrieve_batch_size,
                        target_block_id: Some(old(self).target_block_id),
                        epoch: old(self).epoch,
                    })
                },
            },
    {
        let progress: u64 = (self.blocks.len() - self.prior) as u64;
        if self.target_found || progress >= self.num_blocks {
            return None;
        }
        let wanted: u64 = self.num_blocks - progress;
        if wanted < self.retrieve_batch_size {
            self.retrieve_batch_size = wanted;
        }
        match self.epoch {
            Some(epoch) => Some(
                BlockRetrievalRequest::new_with_epoch(
                    self.last_block_id,
                    self.retrieve_batch_size,
                    self.target_block_id,
                    epoch,
                ),
            ),
            None => Some(
                BlockRetrievalRequest::new_with_target_block_id(
                    self.last_block_id,
                    self.retrieve_batch_size,
                    self.target_block_id,
                ),
            ),
        }
    }

    /// The fetch with the contents of `chunk` appended.
    pub open spec fn appended(
        self,
        after: BlockFetch,
        chunk: BlockRetrievalResponse,
    ) -> bool {
        &&& after.blocks@ == self.blocks@ + chunk.blocks@
        &&& after.quorum_certs@ == self.quorum_certs@ + chunk.quorum_certs@
        &&& after.ledger_infos@ == self.ledger_infos@ + chunk.ledger_infos@
        &&& after.prior == self.prior
        &&& after.block_id == self.block_id
        &&& after.target_block_id == self.target_block_id
        &&& after.num_blocks == self.num_blocks
        &&& after.epoch == self.epoch
        &&& after.retrieve_batch_size == self.retrieve_batch_size
    }

    /// Takes the chunk that was asked for; `None` where no peer sent it.
    pub fn on_chunk(&mut self, chunk: Option<BlockRetrievalResponse>) -> (taken: Result<
        (),
        FetchError,
    >)
        requires
            old(self).wf(),
            old(self).wants_more(),
            chunk matches Some(c) ==> c.status is Succeeded ==> c.blocks@.len() > 0,
        ensures
            match chunk {
                Some(c) => if c.status is Succeeded {
                    &&& taken is Ok
                    &&& final(self).wf()
                    &&& old(self).appended(*final(self), c)
                    &&& final(self).last_block_id == c.blocks@.last().0.parent()
                    &&& !final(self).target_found
                    &&& final(self).progress() == old(self).progress() + c.blocks@.len()
                } else if c.status is SucceededWithTarget {
                    &&& taken is Ok
                    &&& final(self).wf()
                    &&& old(self).appended(*final(self), c)
                    &&& final(self).target_found
                    &&& !final(self).wants_more()
                } else {
                    &&& taken == Err::<(), FetchError>(
                        FetchError::Failed {
                            last_block_id: old(self).last_block_id,
                            block_id: old(self).block_id,
                        },
                    )
                    &&& *final(self) == *old(self)
                },
                None => {
                    &&& taken == Err::<(), FetchError>(
                        FetchError::Failed {
                            last_block_id: old(self).last_block_id,
                            block_id: old(self).block_id,
                        },
                    )
                    &&& *final(self) == *old(self)
                },
            },
    {
        match chunk {
            Some(mut c) => {
                let with_target = match c.status {
                    BlockRetrievalStatus::Succeeded => false,
                    BlockRetrievalStatus::SucceededWithTarget => true,
                    _ => {
                        return Err(
                            FetchError::Failed {
                                last_block_id: self.last_block_id,
                                block_id: self.block_id,
                            },
                        );
                    },
                };
                if with_target {
                    self.target_found = true;
                } else {
                    self.last_block_id = c.blocks[c.blocks.len() - 1].0.parent_id();
                }
                self.blocks.append(&mut c.blocks);
                self.quorum_certs.append(&mut c.quorum_certs);
                self.ledger_infos.append(&mut c.ledger_infos);
                Ok(())
            },
            None => Err(
                FetchError::Failed { last_block_id: self.last_block_id, block_id: self.block_id },
            ),
        }
    }
}

impl BlockRetriever {
    /// Begins to ask peers for one chunk of blocks.
    pub fn retrieve_block_for_id_chunk(
        &self,
        block_id: HashValue,
        target_block_id: HashValue,
        retrieve_batch_size: u64,
        peers: Vec<AccountAddress>,
        epoch: Option<u64>,
    ) -> (fetch: ChunkFetch)
        ensures
            fetch.wf(),
            fetch.request == (BlockRetrievalRequest {
                block_id,
                num_blocks: retrieve_batch_size,
                target_block_id: Some(target_block_id),
                epoch,
            }),
            fetch.peers == peers,
            fetch.retries == 0,
            fetch.in_flight == 0,
    {
        let request = match epoch {
            Some(epoch) => BlockRetrievalRequest::new_with_epoch(
                block_id,
                retrieve_batch_size,
                target_block_id,
                epoch,
            ),
            None => BlockRetrievalRequest::new_with_target_block_id(
                block_id,
                retrieve_batch_size,
                target_block_id,
            ),
        };
        assert(peers.len() <= usize::MAX);
        ChunkFetch { request, peers, retries: 0, in_flight: 0 }
    }

    /// Begins to fetch `num_blocks` blocks from `block_id` on, or fewer where the chain reaches
    /// `target_block_id` before.
    pub fn retrieve_block_for_id(
        &self,
        block_id: HashValue,
        target_block_id: HashValue,
        peers: &Vec<AccountAddress>,
        num_blocks: u64,
        epoch: Option<u64>,
    ) -> (fetch: Result<BlockFetch, FetchError>)
        ensures
            match fetch {
                Err(e) => peers@.len() == 0 && e == (FetchError::NoPeers { block_id }),
                Ok(fetch) => {
                    &&& peers@.len() > 0
                    &&& fetch.wf()
                    &&& fetch.block_id == block_id
                    &&& fetch.target_block_id == target_block_id
                    &&& fetch.num_blocks == num_blocks
                    &&& fetch.epoch == epoch
                    &&& fetch.retrieve_batch_size == self.max_blocks_to_request
                    &&& fetch.last_block_id == block_id
                    &&& fetch.prior == 0
                    &&& fetch.blocks@.len() == 0
                    &&& fetch.quorum_certs@.len() == 0
                    &&& fetch.ledger_infos@.len() == 0
                    &&& !fetch.target_found
                },
            },
    {
        if peers.len() == 0 {
            return Err(FetchError::NoPeers { block_id });
        }
        Ok(
            BlockFetch {
                block_id,
                target_block_id,
                num_blocks,
                epoch,
                retrieve_batch_size: self.max_blocks_to_request,
                last_block_id: block_id,
                prior: 0,
                blocks: Vec::new(),
                quorum_certs: Vec::new(),
                ledger_infos: Vec::new(),
                target_found: false,
            },
        )
    }

    /// Begins to fetch the chain of `num_blocks` blocks from `initial_block_id` on, of no
    /// particular epoch.
    pub fn retrieve_blocks_in_range(
        &self,
        initial_block_id: HashValue,
        num_blocks: u64,
        target_block_id: HashValue,
        peers: &Vec<AccountAddress>,
    ) -> (fetch: Result<BlockFetch, FetchError>)
        ensures
            match fetch {
                Err(e) => peers@.len() == 0 && e == (FetchError::NoPeers {
                    block_id: initial_block_id,
                }),
                Ok(fetch) => {
                    &&& peers@.len() > 0
                    &&& fetch.wf()
                    &&& fetch.block_id == initial_block_id
                    &&& fetch.target_block_id == target_block_id
                    &&& fetch.num_blocks == num_blocks
                    &&& fetch.epoch is None
                    &&& fetch.retrieve_batch_size == self.max_blocks_to_request
                    &&& fetch.last_block_id == initial_block_id
                    &&& fetch.prior == 0
                    &&& fetch.blocks@.len() == 0
                    &&& fetch.quorum_certs@.len() == 0
                    &&& fetch.ledger_infos@.len() == 0
                    &&& !fetch.target_found
                },
            },
    {
        self.retrieve_block_for_id(initial_block_id, target_block_id, peers, num_blocks, None)
    }

    /// The first chunk to ask for when all blocks of `epoch` are wanted: it starts at the last
    /// block of the epoch, which the zero block stands for.
    pub fn retrieve_block_by_epoch(
        &self,
        epoch: u64,
        target_block_id: HashValue,
        peers: Vec<AccountAddress>,
    ) -> (fetch: ChunkFetch)
        ensures
            fetch.wf(),
            fetch.request.block_id.is_zero_spec(),
            fetch.request.num_blocks == self.max_blocks_to_request,
            fetch.request.target_block_id == Some(target_block_id),
            fetch.request.epoch == Some(epoch),
            fetch.peers == peers,
            fetch.retries == 0,
            fetch.in_flight == 0,
    {
        self.retrieve_block_for_id_chunk(
            HashValue::zero(),
            target_block_id,
            self.max_blocks_to_request,
            peers,
            Some(epoch),
        )
    }

    /// Goes on after the first chunk of `epoch`: with the rest of the chain, or with nothing where
    /// the chunk has reached the target.
    pub fn continue_by_epoch(
        &self,
        epoch: u64,
        target_block_id: HashValue,
        peers: &Vec<AccountAddress>,
        first: Option<BlockRetrievalResponse>,
    ) -> (fetch: Result<BlockFetch, FetchError>)
        requires
            first matches Some(c) ==> c.status is Succeeded ==> c.blocks@.len() > 0,
        ensures
            match first {
                Some(c) => if c.status is Succeeded {
                    if peers@.len() == 0 {
                        fetch == Err::<BlockFetch, FetchError>(
                            FetchError::NoPeers { block_id: c.blocks@.last().0.parent() },
                        )
                    } else {
                        fetch matches Ok(fetch) && {
                            &&& fetch.wf()
                            &&& holds_chunk(fetch, c)
                            &&& fetch.prior == c.blocks@.len()
                            &&& fetch.block_id == c.blocks@.last().0.parent()
                            &&& fetch.last_block_id == c.blocks@.last().0.parent()
                            &&& fetch.target_block_id == target_block_id
                            &&& fetch.num_blocks == u64::MAX
                            &&& fetch.epoch == Some(epoch)
                            &&& fetch.retrieve_batch_size == self.max_blocks_to_request
                            &&& !fetch.target_found
                        }
                    }
                } else if c.status is SucceededWithTarget {
                    fetch matches Ok(fetch) && {
                        &&& fetch.wf()
                        &&& holds_chunk(fetch, c)
                        &&& fetch.target_found
                        &&& !fetch.wants_more()
                    }
                } else {
                    fetch == Err::<BlockFetch, FetchError>(FetchError::EpochFailed { epoch })
                },
                None => fetch == Err::<BlockFetch, FetchError>(FetchError::EpochFailed { epoch }),
            },
    {
        match first {
            Some(c) => {
                let target_found = match c.status {
                    BlockRetrievalStatus::Succeeded => false,
                    BlockRetrievalStatus::SucceededWithTarget => true,
                    _ => {
                        return Err(FetchError::EpochFailed { epoch });
                    },
                };
                let next = if target_found {
                    HashValue::zero()
                } else {
                    c.blocks[c.blocks.len() - 1].0.parent_id()
                };
                if !target_found && peers.len() == 0 {
                    return Err(FetchError::NoPeers { block_id: next });
                }
                Ok(
                    BlockFetch {
                        block_id: next,
                        target_block_id,
                        num_blocks: u64::MAX,
                        epoch: Some(epoch),
                        retrieve_batch_size: self.max_blocks_to_request,
                        last_block_id: next,
                        prior: c.blocks.len(),
                        blocks: c.blocks,
                        quorum_certs: c.quorum_certs,
                        ledger_infos: c.ledger_infos,
                        target_found,
                    },
                )
            },
            None => Err(FetchError::EpochFailed { epoch }),
        }
    }
}

/// Whether `fetch` holds what came with `chunk`, and nothing else.
pub open spec fn holds_chunk(fetch: BlockFetch, chunk: BlockRetrievalResponse) -> bool {
    &&& fetch.blocks == chunk.blocks
    &&& fetch.quorum_certs == chunk.quorum_certs
    &&& fetch.ledger_infos == chunk.ledger_infos
}

/// Peers are picked until there are as many as wanted or none is left. On the first attempt the
/// preferred peer comes first, whether or not it is one of the peers, and it is not left to be asked
/// again where it was there once; all others that are picked, and all that are left, are the peers,
/// each as often as it was there.
pub proof fn picks_are_the_preferred_peer_and_others(
    preferred: AccountAddress,
    first_attempt: bool,
    peers: Seq<AccountAddress>,
    wanted: nat,
    picked: Seq<AccountAddress>,
    left: Seq<AccountAddress>,
)
    requires
        picked_from(preferred, first_attempt, peers, wanted, picked, left),
    ensures
        picked.len() <= wanted,
        picked.len() < wanted ==> left.len() == 0,
        picked.len() == 0 <==> peers.len() == 0 || wanted == 0,
        first_attempt && picked.len() > 0 ==> {
            &&& picked[0] == preferred
            &&& picked.skip(1).to_multiset().add(left.to_multiset()) == peers.remove_value(
                preferred,
            ).to_multiset()
        },
        !first_attempt ==> picked.to_multiset().add(left.to_multiset()) == peers.to_multiset(),
{
    broadcast use vstd::seq_lib::group_to_multiset_ensures;

    let (fixed, rest) = before_draws(preferred, first_attempt, peers, wanted);
    lemma_picked_lens(preferred, first_attempt, peers, wanted, picked, left);
    let drawn = picked.skip(fixed.len() as int);
    assert(drawn.to_multiset().add(left.to_multiset()).len() == drawn.len() + left.len());
    assert(rest.len() == rest.to_multiset().len());
    if fixed.len() > 0 {
        assert(picked.take(1)[0] == picked[0]);
    } else {
        assert(picked.skip(0) =~= picked);
    }
}

/// The peer that is drawn leaves the peers, and no other does.
pub proof fn draws_take_one_peer(
    before: Seq<AccountAddress>,
    draw: int,
    peer: AccountAddress,
    after: Seq<AccountAddress>,
)
    requires
        is_draw(before, draw, peer, after),
    ensures
        before.contains(peer),
        after.len() == before.len() - 1,
        forall|i: int| 0 <= i < draw ==> #[trigger] after[i] == before[i],
        forall|i: int| draw <= i < after.len() ==> #[trigger] after[i] == before[i + 1],
{
    assert(before[draw] == peer);
}

/// A fetch asks for more exactly as long as it has not reached its target and has fetched fewer
/// blocks than are wanted, not counting those that were there before.
pub proof fn fetches_want_more_until_they_have_enough(fetch: BlockFetch)
    ensures
        fetch.wants_more() <==> !fetch.target_found && fetch.blocks@.len() < fetch.num_blocks
            + fetch.prior,
{
}

/// A chunk is appended whole: what was there stays where it was, and the blocks, certificates and
/// ledger infos of the chunk follow in their order. What is wanted does not change.
pub proof fn chunks_are_appended_whole(
    before: BlockFetch,
    after: BlockFetch,
    chunk: BlockRetrievalResponse,
)
    requires
        before.appended(after, chunk),
    ensures
        after.blocks@ == before.blocks@ + chunk.blocks@,
        after.quorum_certs@ == before.quorum_certs@ + chunk.quorum_certs@,
        after.ledger_infos@ == before.ledger_infos@ + chunk.ledger_infos@,
        after.progress() == before.progress() + chunk.blocks@.len(),
        after.block_id == before.block_id,
        after.target_block_id == before.target_block_id,
        after.num_blocks == before.num_blocks,
        after.epoch == before.epoch,
        after.prior == before.prior,
        after.retrieve_batch_size == before.retrieve_batch_size,
{
}

/// A fetch that holds a chunk holds all its blocks, certificates and ledger infos.
pub proof fn first_chunks_are_kept_whole(fetch: BlockFetch, chunk: BlockRetrievalResponse)
    requires
        holds_chunk(fetch, chunk),
    ensures
        fetch.blocks@ == chunk.blocks@,
        fetch.quorum_certs@ == chunk.quorum_certs@,
        fetch.ledger_infos@ == chunk.ledger_infos@,
{
}

} // verus!
