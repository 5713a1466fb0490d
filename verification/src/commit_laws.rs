//! What holds of handing blocks to execution, of committing them and of syncing past them.

use crate::consensus_types::{LedgerInfoWithSignatures, ObservedJWK, ValidatorTransaction};
use crate::external::{ExtraDataType, TxnStatus};
use crate::pipelined_block::PipelinedBlock;
use crate::state_computer::{DiscardReason, ExecutionProxy, SyncStep};
use crate::types::AccountAddress;
use std::sync::Arc;
use vstd::prelude::*;

verus! {

/// What a commit saves of seeds is the number and the seed of every block that has both, in the
/// order of the blocks, and nothing else. `places` are where those blocks stand.
pub proof fn commits_save_every_seed(
    blocks: Seq<Arc<PipelinedBlock>>,
    validators: Arc<Vec<AccountAddress>>,
    randomness_enabled: bool,
) -> (places: Seq<int>)
    ensures
        crate::places::are_places(
            places,
            blocks.len(),
            |i: int| blocks[i]@.randomness is Some && blocks[i]@.block.block_number is Some,
        ),
        ({
            let saved = crate::state_computer::commit_of(
                blocks,
                validators,
                randomness_enabled,
            ).randomness_data;
            &&& saved.len() == places.len()
            &&& forall|k: int|
                0 <= k < places.len() ==> blocks[#[trigger] places[k]]@.randomness == Some(
                    saved[k].1,
                ) && blocks[places[k]]@.block.block_number == Some(saved[k].0)
        }),
{
    let places = lemma_saved_seeds(blocks, validators, randomness_enabled, blocks.len());
    assert(blocks.take(blocks.len() as int) =~= blocks);
    places
}

proof fn lemma_saved_seeds(
    blocks: Seq<Arc<PipelinedBlock>>,
    validators: Arc<Vec<AccountAddress>>,
    randomness_enabled: bool,
    n: nat,
) -> (places: Seq<int>)
    requires
        n <= blocks.len(),
    ensures
        crate::places::are_places(
            places,
            n,
            |i: int| blocks[i]@.randomness is Some && blocks[i]@.block.block_number is Some,
        ),
        ({
            let saved = crate::state_computer::commit_of(
                blocks.take(n as int),
                validators,
                randomness_enabled,
            ).randomness_data;
            &&& saved.len() == places.len()
            &&& forall|k: int|
                0 <= k < places.len() ==> blocks[#[trigger] places[k]]@.randomness == Some(
                    saved[k].1,
                ) && blocks[places[k]]@.block.block_number == Some(saved[k].0)
        }),
    decreases n,
{
    let wanted = |i: int| blocks[i]@.randomness is Some && blocks[i]@.block.block_number is Some;
    if n == 0 {
        crate::places::no_places(wanted);
        Seq::empty()
    } else {
        let last = (n - 1) as nat;
        let earlier = lemma_saved_seeds(blocks, validators, randomness_enabled, last);
        assert(blocks.take(n as int).drop_last() =~= blocks.take(last as int));
        assert(blocks.take(n as int).last() == blocks[last as int]);
        crate::places::next_place(earlier, last, wanted)
    }
}

/// The payloads that are committed are those of every block that has one, in the order of the
/// blocks, and no other. `places` are where those blocks stand.
pub proof fn commits_take_every_payload(
    blocks: Seq<Arc<PipelinedBlock>>,
    validators: Arc<Vec<AccountAddress>>,
    randomness_enabled: bool,
) -> (places: Seq<int>)
    ensures
        crate::places::are_places(
            places,
            blocks.len(),
            |i: int| blocks[i]@.block.payload is Some,
        ),
        ({
            let taken = crate::state_computer::commit_of(
                blocks,
                validators,
                randomness_enabled,
            ).payload_blocks;
            &&& taken.len() == places.len()
            &&& forall|k: int|
                0 <= k < places.len() ==> blocks[#[trigger] places[k]]@.block == taken[k]
        }),
{
    let places = lemma_payloads(blocks, validators, randomness_enabled, blocks.len());
    assert(blocks.take(blocks.len() as int) =~= blocks);
    places
}

proof fn lemma_payloads(
    blocks: Seq<Arc<PipelinedBlock>>,
    validators: Arc<Vec<AccountAddress>>,
    randomness_enabled: bool,
    n: nat,
) -> (places: Seq<int>)
    requires
        n <= blocks.len(),
    ensures
        crate::places::are_places(places, n, |i: int| blocks[i]@.block.payload is Some),
        ({
            let taken = crate::state_computer::commit_of(
                blocks.take(n as int),
                validators,
                randomness_enabled,
            ).payload_blocks;
            &&& taken.len() == places.len()
            &&& forall|k: int|
                0 <= k < places.len() ==> blocks[#[trigger] places[k]]@.block == taken[k]
        }),
    decreases n,
{
    let wanted = |i: int| blocks[i]@.block.payload is Some;
    if n == 0 {
        crate::places::no_places(wanted);
        Seq::empty()
    } else {
        let last = (n - 1) as nat;
        let earlier = lemma_payloads(blocks, validators, randomness_enabled, last);
        assert(blocks.take(n as int).drop_last() =~= blocks.take(last as int));
        assert(blocks.take(n as int).last() == blocks[last as int]);
        crate::places::next_place(earlier, last, wanted)
    }
}

/// The events that a commit tells of are all events of all blocks, in order.
pub proof fn commits_tell_of_every_event(
    blocks: Seq<Arc<PipelinedBlock>>,
    validators: Arc<Vec<AccountAddress>>,
    randomness_enabled: bool,
)
    ensures
        crate::state_computer::commit_of(
            blocks,
            validators,
            randomness_enabled,
        ).subscribable_events == blocks.map_values(
            |block: Arc<PipelinedBlock>| block@.state_compute_result.events@,
        ).flatten(),
    decreases blocks.len(),
{
    let of_block = |block: Arc<PipelinedBlock>| block@.state_compute_result.events@;
    if blocks.len() > 0 {
        let earlier = blocks.drop_last();
        commits_tell_of_every_event(earlier, validators, randomness_enabled);
        assert(blocks.map_values(of_block) =~= earlier.map_values(of_block).push(
            of_block(blocks.last()),
        ));
        earlier.map_values(of_block).lemma_flatten_push(of_block(blocks.last()));
    }
}

/// Committing some blocks and then others comes to the same as committing all of them at once.
pub proof fn commits_can_be_split(
    blocks: Seq<Arc<PipelinedBlock>>,
    more: Seq<Arc<PipelinedBlock>>,
    validators: Arc<Vec<AccountAddress>>,
    randomness_enabled: bool,
)
    ensures
        ({
            let all = crate::state_computer::commit_of(
                blocks + more,
                validators,
                randomness_enabled,
            );
            let first = crate::state_computer::commit_of(blocks, validators, randomness_enabled);
            let second = crate::state_computer::commit_of(more, validators, randomness_enabled);
            &&& all.block_ids == first.block_ids + second.block_ids
            &&& all.randomness_data == first.randomness_data + second.randomness_data
            &&& all.payload_blocks == first.payload_blocks + second.payload_blocks
            &&& all.txns == first.txns + second.txns
            &&& all.subscribable_events == first.subscribable_events + second.subscribable_events
        }),
    decreases more.len(),
{
    let first = crate::state_computer::commit_of(blocks, validators, randomness_enabled);
    if more.len() == 0 {
        assert(blocks + more =~= blocks);
    } else {
        let earlier = more.drop_last();
        commits_can_be_split(blocks, earlier, validators, randomness_enabled);
        assert((blocks + more).drop_last() =~= blocks + earlier);
        let mid = crate::state_computer::commit_of(earlier, validators, randomness_enabled);
        let own = crate::state_computer::commit_transactions(
            more.last()@,
            validators,
            randomness_enabled,
        );
        let events = more.last()@.state_compute_result.events@;
        assert((first.txns + mid.txns) + own =~= first.txns + (mid.txns + own));
        assert((first.subscribable_events + mid.subscribable_events) + events
            =~= first.subscribable_events + (mid.subscribable_events + events));
    }
}

/// Every key of an identity provider that could be read and written is passed on, in order, under
/// the name of its kind: RSA keys in their JSON form, and all others as they came. `places` are
/// where those keys stand.
pub proof fn every_readable_key_is_passed_on(jwks: Seq<ObservedJWK>) -> (places: Seq<int>)
    ensures
        crate::places::are_places(
            places,
            jwks.len(),
            |i: int|
                match jwks[i] {
                    ObservedJWK::Unreadable => false,
                    ObservedJWK::RSA(json) => json is Some,
                    ObservedJWK::Unsupported(_) => true,
                },
        ),
        crate::state_computer::passed_on_bytes(jwks).len() == places.len(),
        forall|k: int|
            0 <= k < places.len() ==> {
                let (name, data) = crate::state_computer::passed_on_bytes(jwks)[k];
                match jwks[#[trigger] places[k]] {
                    ObservedJWK::Unreadable => false,
                    ObservedJWK::RSA(json) => name == vstd::utf8::encode_utf8(
                        "0x1::jwks::RSA_JWK"@,
                    ) && data == json->0@,
                    ObservedJWK::Unsupported(payload) => name == vstd::utf8::encode_utf8(
                        "0x1::jwks::Unsupported_JWK"@,
                    ) && data == payload@,
                }
            },
{
    let places = lemma_passed_on(jwks, jwks.len());
    assert(jwks.take(jwks.len() as int) =~= jwks);
    places
}

proof fn lemma_passed_on(jwks: Seq<ObservedJWK>, n: nat) -> (places: Seq<int>)
    requires
        n <= jwks.len(),
    ensures
        crate::places::are_places(
            places,
            n,
            |i: int|
                match jwks[i] {
                    ObservedJWK::Unreadable => false,
                    ObservedJWK::RSA(json) => json is Some,
                    ObservedJWK::Unsupported(_) => true,
                },
        ),
        crate::state_computer::passed_on(jwks.take(n as int)).len() == places.len(),
        forall|k: int|
            0 <= k < places.len() ==> {
                let (name, data) = crate::state_computer::passed_on(jwks.take(n as int))[k];
                match jwks[#[trigger] places[k]] {
                    ObservedJWK::Unreadable => false,
                    ObservedJWK::RSA(json) => name == "0x1::jwks::RSA_JWK"@ && data == json->0@,
                    ObservedJWK::Unsupported(payload) => name == "0x1::jwks::Unsupported_JWK"@
                        && data == payload@,
                }
            },
    decreases n,
{
    let wanted = |i: int|
        match jwks[i] {
            ObservedJWK::Unreadable => false,
            ObservedJWK::RSA(json) => json is Some,
            ObservedJWK::Unsupported(_) => true,
        };
    if n == 0 {
        crate::places::no_places(wanted);
        Seq::empty()
    } else {
        let last = (n - 1) as nat;
        let earlier = lemma_passed_on(jwks, last);
        assert(jwks.take(n as int).drop_last() =~= jwks.take(last as int));
        assert(jwks.take(n as int).last() == jwks[last as int]);
        crate::places::next_place(earlier, last, wanted)
    }
}

/// The execution layer is told of every validator transaction that can be encoded, one for one and
/// in order, under its kind: of results of key generation with their epoch, their author and the
/// whole transcript, and of new keys with their issuer, their version and all keys that are passed
/// on. `places` are where those transactions stand.
pub proof fn every_encodable_transaction_is_told_of(
    data: Seq<ExtraDataType>,
    txns: Seq<ValidatorTransaction>,
) -> (places: Seq<int>)
    requires
        crate::state_computer::tells_of_all(data, crate::state_computer::encodable(txns)),
    ensures
        crate::places::are_places(
            places,
            txns.len(),
            |i: int|
                match txns[i] {
                    ValidatorTransaction::DKGResult(transcript) => transcript.transcript_bytes@.len()
                        <= 0x7fff_ffff,
                    ValidatorTransaction::ObservedJWKUpdate(update) =>
                        crate::bcs_encoding::provider_fits(
                        update.issuer@,
                        crate::state_computer::passed_on_bytes(update.jwks@),
                    ),
                },
        ),
        data.len() == places.len(),
        forall|k: int|
            0 <= k < places.len() ==> match txns[#[trigger] places[k]] {
                ValidatorTransaction::DKGResult(transcript) => data[k] matches ExtraDataType::DKG(
                    bytes,
                ) && bytes@ == crate::bcs_encoding::encoded_transcript(
                    transcript.metadata.epoch,
                    transcript.metadata.author.0@,
                    transcript.transcript_bytes@,
                ),
                ValidatorTransaction::ObservedJWKUpdate(update) => data[k]
                    matches ExtraDataType::JWK(bytes) && bytes@
                    == crate::bcs_encoding::encoded_provider(
                    update.issuer@,
                    update.version,
                    crate::state_computer::passed_on_bytes(update.jwks@),
                ),
            },
{
    let places = lemma_encodable(txns, txns.len());
    assert(txns.take(txns.len() as int) =~= txns);
    let told = crate::state_computer::encodable(txns);
    assert forall|k: int| 0 <= k < places.len() implies match txns[#[trigger] places[k]] {
        ValidatorTransaction::DKGResult(transcript) => data[k] matches ExtraDataType::DKG(bytes)
            && bytes@ == crate::bcs_encoding::encoded_transcript(
            transcript.metadata.epoch,
            transcript.metadata.author.0@,
            transcript.transcript_bytes@,
        ),
        ValidatorTransaction::ObservedJWKUpdate(update) => data[k] matches ExtraDataType::JWK(bytes)
            && bytes@ == crate::bcs_encoding::encoded_provider(
            update.issuer@,
            update.version,
            crate::state_computer::passed_on_bytes(update.jwks@),
        ),
    } by {
        assert(told[k] == txns[places[k]]);
        assert(crate::state_computer::tells_of(data[k], told[k]));
    }
    places
}

proof fn lemma_encodable(txns: Seq<ValidatorTransaction>, n: nat) -> (places: Seq<int>)
    requires
        n <= txns.len(),
    ensures
        crate::places::are_places(
            places,
            n,
            |i: int|
                match txns[i] {
                    ValidatorTransaction::DKGResult(transcript) => transcript.transcript_bytes@.len()
                        <= 0x7fff_ffff,
                    ValidatorTransaction::ObservedJWKUpdate(update) =>
                        crate::bcs_encoding::provider_fits(
                        update.issuer@,
                        crate::state_computer::passed_on_bytes(update.jwks@),
                    ),
                },
        ),
        crate::state_computer::encodable(txns.take(n as int)).len() == places.len(),
        forall|k: int|
            0 <= k < places.len() ==> crate::state_computer::encodable(txns.take(n as int))[k]
                == txns[#[trigger] places[k]],
    decreases n,
{
    let wanted = |i: int|
        match txns[i] {
            ValidatorTransaction::DKGResult(transcript) => transcript.transcript_bytes@.len()
                <= 0x7fff_ffff,
            ValidatorTransaction::ObservedJWKUpdate(update) => crate::bcs_encoding::provider_fits(
                update.issuer@,
                crate::state_computer::passed_on_bytes(update.jwks@),
            ),
        };
    reveal(Seq::filter);
    if n == 0 {
        crate::places::no_places(wanted);
        Seq::empty()
    } else {
        let last = (n - 1) as nat;
        let earlier = lemma_encodable(txns, last);
        assert(txns.take(n as int).drop_last() =~= txns.take(last as int));
        assert(txns.take(n as int).last() == txns[last as int]);
        assert(wanted(last as int) <==> crate::state_computer::encoded_txn(txns[last as int])
            is Some);
        crate::places::next_place(earlier, last, wanted)
    }
}

/// Every transaction that execution discarded is told of, in order, with its sender, its number and
/// its hash, and no other is. `places` are where those transactions stand.
pub proof fn every_discarded_transaction_is_rejected(status: Seq<TxnStatus>) -> (places: Seq<int>)
    ensures
        crate::places::are_places(places, status.len(), |i: int| status[i].is_discarded),
        crate::state_computer::rejections_of(status).len() == places.len(),
        forall|k: int|
            0 <= k < places.len() ==> {
                let rejected = crate::state_computer::rejections_of(status)[k];
                let discarded = status[#[trigger] places[k]];
                &&& rejected.sender.0 == discarded.sender
                &&& rejected.sequence_number == discarded.nonce
                &&& rejected.hash.0 == discarded.txn_hash
                &&& rejected.reason == DiscardReason::SequenceNonceInvalid
            },
{
    let places = lemma_rejections(status, status.len());
    assert(status.take(status.len() as int) =~= status);
    places
}

proof fn lemma_rejections(status: Seq<TxnStatus>, n: nat) -> (places: Seq<int>)
    requires
        n <= status.len(),
    ensures
        crate::places::are_places(places, n, |i: int| status[i].is_discarded),
        crate::state_computer::rejections_of(status.take(n as int)).len() == places.len(),
        forall|k: int|
            0 <= k < places.len() ==> {
                let rejected = crate::state_computer::rejections_of(status.take(n as int))[k];
                let discarded = status[#[trigger] places[k]];
                &&& rejected.sender.0 == discarded.sender
                &&& rejected.sequence_number == discarded.nonce
                &&& rejected.hash.0 == discarded.txn_hash
                &&& rejected.reason == DiscardReason::SequenceNonceInvalid
            },
    decreases n,
{
    let wanted = |i: int| status[i].is_discarded;
    if n == 0 {
        crate::places::no_places(wanted);
        Seq::empty()
    } else {
        let last = (n - 1) as nat;
        let earlier = lemma_rejections(status, last);
        assert(status.take(n as int).drop_last() =~= status.take(last as int));
        assert(status.take(n as int).last() == status[last as int]);
        crate::places::next_place(earlier, last, wanted)
    }
}

/// A proposer has the index of the first validator that it is, and none exactly where it is none of
/// them or there is no proposer; so it has one index at most.
pub proof fn proposers_have_one_index(
    validators: Seq<AccountAddress>,
    author: Option<AccountAddress>,
    index: Option<u64>,
    other: Option<u64>,
)
    requires
        crate::state_computer::is_proposer_index(validators, author, index),
        crate::state_computer::is_proposer_index(validators, author, other),
    ensures
        index == other,
        index is Some <==> (author matches Some(a) && validators.contains(a)),
        index matches Some(i) ==> author == Some(validators[i as int]) && forall|j: int|
            0 <= j < i ==> author != Some(#[trigger] validators[j]),
{
    if let (Some(a), Some(i)) = (author, index) {
        assert(validators[i as int] == a);
        assert(validators.contains(a));
        if let Some(j) = other {
            if i < j {
                assert(validators[i as int] != a);
            }
            if j < i {
                assert(validators[j as int] != a);
            }
        }
    }
    if let (Some(a), Some(j)) = (author, other) {
        assert(validators[j as int] == a);
    }
}

/// A node syncs to a target exactly where the target is of a later epoch than the last point that it
/// reached, or of the same epoch and a later round; a failure is injected only there, and the
/// payload manager is told of the target only within an epoch.
pub proof fn nodes_sync_to_later_points(
    proxy: ExecutionProxy,
    target: LedgerInfoWithSignatures,
    injected: bool,
)
    ensures
        ({
            let reached = proxy.latest_logical_time;
            let wanted = target.commit_info;
            let later = wanted.epoch > reached.epoch || wanted.epoch == reached.epoch
                && wanted.round > reached.round;
            let notify_payload_manager = proxy.state is Some;
            let step = proxy.sync_step(target, injected);
            &&& step == SyncStep::AlreadyCommitted <==> !later
            &&& step == (SyncStep::Injected { notify_payload_manager }) <==> later && injected
            &&& step == (SyncStep::Sync { notify_payload_manager }) <==> later && !injected
        }),
{
}

} // verus!
