//! What holds of the states of the wrapper, whatever happens to it.

use crate::batch::{encodings_of, lemma_taken_accepts, summaries_of};
use crate::entries::{
    entries_to_map, has_key, lemma_push_map, lemma_without_key_map, lemma_without_key_subset,
    lemma_without_keys_contents, lemma_without_keys_distinct, lemma_without_keys_twice, without_key,
};
use crate::event_loop::{mempool_keeps_to_filter, run, WrapperEvent};
use crate::logical_time::LogicalTime;
use crate::model::{eligible_proofs, not_excluded, superseding, WrapperState};
use crate::types::{HashValue, ProofOfStoreView, TransactionSummary, VerifiedEvent, WrapperCommand};
use vstd::prelude::*;

verus! {

/// The state at the start of an epoch meets the invariant, with no
/// transaction in two batches.
pub proof fn lemma_init_keeps_invariants(
    epoch: u64,
    mempool_txn_pull_max_count: u64,
    quorum_store_max_batch_bytes: u64,
)
    ensures
        WrapperState::init(epoch, mempool_txn_pull_max_count, quorum_store_max_batch_bytes).inv(),
        WrapperState::init(
            epoch,
            mempool_txn_pull_max_count,
            quorum_store_max_batch_bytes,
        ).filter_disjoint(),
{
}

/// A pull keeps the invariant: the open batch stays within the byte limit.
/// Where none of the pulled transactions is in a closed batch, which the
/// mempool owes, no transaction is in the open batch and in a closed one
/// afterwards either.
pub proof fn lemma_pull_keeps_invariants(
    state: WrapperState,
    summaries: Seq<TransactionSummary>,
    encodings: Seq<Option<Seq<u8>>>,
)
    requires
        state.inv(),
        summaries.len() == encodings.len(),
    ensures
        state.pull(summaries, encodings).inv(),
        state.pull(summaries, encodings).bytes_in_progress
            <= state.quorum_store_max_batch_bytes,
        state.filter_disjoint() && (forall|i: int|
            0 <= i < summaries.len() ==> !state.is_filtered(#[trigger] summaries[i]))
            ==> state.pull(summaries, encodings).filter_disjoint(),
{
    lemma_taken_accepts(
        encodings,
        state.bytes_in_progress,
        state.quorum_store_max_batch_bytes as nat,
    );
}

/// Closing the batch keeps the invariant, and leaves no transaction in the
/// open batch and in a closed one, the open batch being empty.
pub proof fn lemma_close_batch_keeps_invariants(state: WrapperState, digest: HashValue)
    requires
        state.inv(),
    ensures
        state.close_batch(digest).inv(),
        state.close_batch(digest).filter_disjoint(),
        state.close_batch(digest).filtered_batch(digest) == Some(state.batch_in_progress),
{
    lemma_without_key_map(state.batches_to_filter, digest);
    lemma_push_map(
        without_key(state.batches_to_filter, digest),
        digest,
        state.batch_in_progress,
    );
    let after = state.close_batch(digest).batches_to_filter;
    assert(entries_to_map(after).dom().contains(digest));
}

/// A clean request keeps the invariant, and puts no transaction into two
/// batches.
pub proof fn lemma_clean_keeps_invariants(
    state: WrapperState,
    logical_time: LogicalTime,
    digests: Seq<HashValue>,
)
    requires
        state.inv(),
    ensures
        state.clean(logical_time, digests).inv(),
        state.filter_disjoint() ==> state.clean(logical_time, digests).filter_disjoint(),
{
    lemma_without_keys_distinct(state.batches_to_filter, digests);
    lemma_without_keys_distinct(state.batches_for_consensus, digests);
    lemma_without_keys_contents(state.batches_to_filter, digests);
    lemma_without_keys_contents(state.batches_for_consensus, digests);
}

/// What storing a proof does to what is stored: the proof that is kept is
/// stored for its digest, every other digest keeps its proof, and the
/// invariant of the state is kept.
pub proof fn lemma_insert_proof_stored(state: WrapperState, new_proof: ProofOfStoreView)
    requires
        state.inv(),
    ensures
        state.insert_proof(new_proof).inv(),
        state.filter_disjoint() ==> state.insert_proof(new_proof).filter_disjoint(),
        state.insert_proof(new_proof).stored_proof(new_proof.digest) == Some(
            superseding(state.stored_proof(new_proof.digest), new_proof),
        ),
        forall|digest: HashValue|
            digest != new_proof.digest ==> state.insert_proof(new_proof).stored_proof(digest)
                == state.stored_proof(digest),
{
    let before = state.batches_for_consensus;
    let digest = new_proof.digest;
    let kept = superseding(state.stored_proof(digest), new_proof);
    let rest = without_key(before, digest);
    let after = state.insert_proof(new_proof).batches_for_consensus;
    lemma_without_key_map(before, digest);
    lemma_without_key_subset(before, digest);
    lemma_push_map(rest, digest, kept);
    assert forall|other: HashValue| other != digest implies state.insert_proof(
        new_proof,
    ).stored_proof(other) == state.stored_proof(other) by {
        assert(entries_to_map(after).dom().contains(other) == entries_to_map(
            before,
        ).dom().contains(other));
    }
    assert(entries_to_map(after).dom().contains(digest));
}

/// The later of the expirations of a stored proof, if there is one, and of
/// two new proofs.
pub open spec fn latest_expiration(
    stored: Option<ProofOfStoreView>,
    first: ProofOfStoreView,
    second: ProofOfStoreView,
) -> LogicalTime {
    match stored {
        Some(kept) => kept.expiration.later_of(first.expiration).later_of(second.expiration),
        None => first.expiration.later_of(second.expiration),
    }
}

/// Two proofs for one digest can come in either order: afterwards the proof
/// stored for the digest expires at the latest of the expirations of the two
/// and of the proof that was stored before, if there was one.
pub proof fn lemma_insert_proof_keeps_latest(
    state: WrapperState,
    first: ProofOfStoreView,
    second: ProofOfStoreView,
)
    requires
        state.inv(),
        first.digest == second.digest,
    ensures
        state.insert_proof(first).insert_proof(second).stored_proof(first.digest) is Some,
        state.insert_proof(second).insert_proof(first).stored_proof(first.digest) is Some,
        state.insert_proof(first).insert_proof(second).stored_proof(
            first.digest,
        ).unwrap().expiration == latest_expiration(
            state.stored_proof(first.digest),
            first,
            second,
        ),
        state.insert_proof(second).insert_proof(first).stored_proof(
            first.digest,
        ).unwrap().expiration == latest_expiration(
            state.stored_proof(first.digest),
            first,
            second,
        ),
{
    lemma_insert_proof_stored(state, first);
    lemma_insert_proof_stored(state.insert_proof(first), second);
    lemma_insert_proof_stored(state, second);
    lemma_insert_proof_stored(state.insert_proof(second), first);
}

/// Where no proof that expires later than both is stored for their digest,
/// two proofs for one digest leave behind a proof that expires at the later
/// of their two expirations, in whichever order they come.
pub proof fn lemma_insert_proof_order(
    state: WrapperState,
    first: ProofOfStoreView,
    second: ProofOfStoreView,
)
    requires
        state.inv(),
        first.digest == second.digest,
        state.stored_proof(first.digest) matches Some(kept) ==> !first.expiration.later_of(
            second.expiration,
        ).precedes(kept.expiration),
    ensures
        state.insert_proof(first).insert_proof(second).stored_proof(
            first.digest,
        ).unwrap().expiration == first.expiration.later_of(second.expiration),
        state.insert_proof(second).insert_proof(first).stored_proof(
            first.digest,
        ).unwrap().expiration == first.expiration.later_of(second.expiration),
{
    lemma_insert_proof_keeps_latest(state, first, second);
}

/// The answer to a request for a block holds no more proofs than were asked
/// for, none whose digest is excluded, and only proofs that are stored.
pub proof fn lemma_block_proofs(state: WrapperState, max_block_size: u64, excluded: Seq<HashValue>)
    requires
        state.inv(),
    ensures
        state.block_proofs(max_block_size, excluded).len() <= max_block_size,
        forall|i: int|
            0 <= i < state.block_proofs(max_block_size, excluded).len() ==> !excluded.contains(
                (#[trigger] state.block_proofs(max_block_size, excluded)[i]).digest,
            ),
        forall|i: int|
            0 <= i < state.block_proofs(max_block_size, excluded).len() ==> state.stored_proof(
                (#[trigger] state.block_proofs(max_block_size, excluded)[i]).digest,
            ) == Some(state.block_proofs(max_block_size, excluded)[i]),
{
    let stored = state.proofs();
    let eligible = eligible_proofs(stored, excluded);
    let block = state.block_proofs(max_block_size, excluded);
    assert forall|i: int| 0 <= i < block.len() implies !excluded.contains(
        (#[trigger] block[i]).digest,
    ) && state.stored_proof(block[i].digest) == Some(block[i]) by {
        stored.lemma_filter_contains_rev(not_excluded(excluded), eligible[i]);
    }
}

/// After a clean request nothing is stored under any of its digests, in
/// either mapping, and the clock stands at its logical time.
pub proof fn lemma_clean_removes(
    state: WrapperState,
    logical_time: LogicalTime,
    digests: Seq<HashValue>,
)
    ensures
        state.clean(logical_time, digests).latest_logical_time == logical_time,
        forall|digest: HashValue|
            digests.contains(digest) ==> !has_key(
                state.clean(logical_time, digests).batches_to_filter,
                digest,
            ),
        forall|digest: HashValue|
            digests.contains(digest) ==> !has_key(
                state.clean(logical_time, digests).batches_for_consensus,
                digest,
            ),
        forall|digest: HashValue|
            digests.contains(digest) ==> state.clean(logical_time, digests).stored_proof(digest)
                is None,
{
}

/// A clean request carried out twice leaves the state that it leaves when
/// carried out once.
pub proof fn lemma_clean_idempotent(
    state: WrapperState,
    logical_time: LogicalTime,
    digests: Seq<HashValue>,
)
    ensures
        state.clean(logical_time, digests).clean(logical_time, digests) == state.clean(
            logical_time,
            digests,
        ),
{
    lemma_without_keys_twice(state.batches_to_filter, digests);
    lemma_without_keys_twice(state.batches_for_consensus, digests);
}

/// Every event keeps the invariant of the state. An event in which the
/// mempool kept to the exclusion list, if it is a pull, leaves no
/// transaction in the open batch and in a closed one, where none was.
pub proof fn lemma_event_keeps_invariants(state: WrapperState, event: WrapperEvent)
    requires
        state.inv(),
    ensures
        event.effect(state).inv(),
        state.filter_disjoint() && event.keeps_to_filter(state) ==> event.effect(
            state,
        ).filter_disjoint(),
{
    match event {
        WrapperEvent::Pulled(Some(pulled_txns)) => {
            lemma_pull_keeps_invariants(
                state,
                summaries_of(pulled_txns@),
                encodings_of(pulled_txns@),
            );
        },
        WrapperEvent::BatchDigest(Some(Ok(digest))) => {
            lemma_close_batch_keeps_invariants(state, digest);
        },
        WrapperEvent::LocalProof(Some(Ok(made))) => {
            lemma_insert_proof_stored(state, made@);
        },
        WrapperEvent::ConsensusRequest(WrapperCommand::CleanRequest(logical_time, digests)) => {
            lemma_clean_keeps_invariants(state, logical_time, digests@);
        },
        WrapperEvent::NetworkMessage(Some(VerifiedEvent::ProofOfStoreBroadcast(received))) => {
            lemma_insert_proof_stored(state, received@);
        },
        _ => {},
    }
}

/// In every state that the wrapper reaches from the start of an epoch, the
/// open batch is within the byte limit. Where the mempool kept to the
/// exclusion list in every pull, no transaction is in the open batch and in
/// a closed one.
pub proof fn lemma_reachable_states(
    epoch: u64,
    mempool_txn_pull_max_count: u64,
    quorum_store_max_batch_bytes: u64,
    events: Seq<WrapperEvent>,
)
    ensures
        ({
            let start = WrapperState::init(
                epoch,
                mempool_txn_pull_max_count,
                quorum_store_max_batch_bytes,
            );
            &&& run(start, events).inv()
            &&& run(start, events).bytes_in_progress <= quorum_store_max_batch_bytes
            &&& run(start, events).quorum_store_max_batch_bytes == quorum_store_max_batch_bytes
            &&& mempool_keeps_to_filter(start, events) ==> run(start, events).filter_disjoint()
        }),
    decreases events.len(),
{
    let start = WrapperState::init(epoch, mempool_txn_pull_max_count, quorum_store_max_batch_bytes);
    if events.len() > 0 {
        let before = events.drop_last();
        lemma_reachable_states(
            epoch,
            mempool_txn_pull_max_count,
            quorum_store_max_batch_bytes,
            before,
        );
        lemma_event_keeps_invariants(run(start, before), events.last());
        if mempool_keeps_to_filter(start, events) {
            assert forall|k: int| 0 <= k < before.len() implies (#[trigger] before[k])
                .keeps_to_filter(run(start, before.take(k))) by {
                assert(before.take(k) =~= events.take(k));
            }
        }
    }
}

} // verus!
