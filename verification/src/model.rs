//! The state of the wrapper and its transitions, in mathematical terms.

use crate::batch::{taken, total_len, txn_data_prefix};
use crate::entries::{has_key, keys_distinct, position_of, without_key, without_keys};
use crate::logical_time::LogicalTime;
use crate::types::{
    HashValue, ProofOfStoreView, QuorumStoreCommandView, TransactionSummary, WrapperError,
};
use vstd::prelude::*;

verus! {

/// How many rounds after the latest known round a closed batch expires.
pub const EXPIRATION_ROUND_OFFSET: u64 = 20;

/// Of a stored proof and a new one for the same digest, the one that is
/// kept: the stored one if it expires strictly later, else the new one.
pub open spec fn superseding(
    stored: Option<ProofOfStoreView>,
    new_proof: ProofOfStoreView,
) -> ProofOfStoreView {
    match stored {
        Some(kept) => if new_proof.expiration.precedes(kept.expiration) {
            kept
        } else {
            new_proof
        },
        None => new_proof,
    }
}

/// The test for a proof not to be excluded.
pub open spec fn not_excluded(excluded: Seq<HashValue>) -> spec_fn(ProofOfStoreView) -> bool {
    |p: ProofOfStoreView| !excluded.contains(p.digest)
}

/// Those of the proofs whose digest is not excluded, in order.
pub open spec fn eligible_proofs(proofs: Seq<ProofOfStoreView>, excluded: Seq<HashValue>) -> Seq<
    ProofOfStoreView,
> {
    proofs.filter(not_excluded(excluded))
}

/// Looking at one more proof adds it to the eligible ones unless its digest
/// is excluded.
pub proof fn lemma_eligible_step(proofs: Seq<ProofOfStoreView>, excluded: Seq<HashValue>, i: int)
    requires
        0 <= i < proofs.len(),
    ensures
        eligible_proofs(proofs.take(i + 1), excluded) == if excluded.contains(proofs[i].digest) {
            eligible_proofs(proofs.take(i), excluded)
        } else {
            eligible_proofs(proofs.take(i), excluded).push(proofs[i])
        },
{
    reveal(Seq::filter);
    assert(proofs.take(i + 1).drop_last() =~= proofs.take(i));
}

/// The eligible ones among the first proofs come first among all eligible
/// ones.
pub proof fn lemma_eligible_prefix(proofs: Seq<ProofOfStoreView>, excluded: Seq<HashValue>, i: int)
    requires
        0 <= i <= proofs.len(),
    ensures
        eligible_proofs(proofs.take(i), excluded).len() <= eligible_proofs(proofs, excluded).len(),
        eligible_proofs(proofs, excluded).take(
            eligible_proofs(proofs.take(i), excluded).len() as int,
        ) == eligible_proofs(proofs.take(i), excluded),
{
    assert(proofs.take(i) + proofs.skip(i) =~= proofs);
}

/// The batches without their digests, in order.
pub open spec fn batches_of(entries: Seq<(HashValue, Seq<TransactionSummary>)>) -> Seq<
    Seq<TransactionSummary>,
> {
    Seq::new(entries.len(), |i: int| entries[i].1)
}

/// Whether `summary` belongs to one of the batches.
pub open spec fn in_some_batch(
    batches: Seq<(HashValue, Seq<TransactionSummary>)>,
    summary: TransactionSummary,
) -> bool {
    exists|i: int| 0 <= i < batches.len() && (#[trigger] batches[i]).1.contains(summary)
}

/// Whether none of `summaries` belongs to one of the batches.
pub open spec fn none_in_batches(
    summaries: Seq<TransactionSummary>,
    batches: Seq<(HashValue, Seq<TransactionSummary>)>,
) -> bool {
    forall|i: int| 0 <= i < summaries.len() ==> !in_some_batch(batches, #[trigger] summaries[i])
}

/// The state of the wrapper, as mathematics.
///
/// The two mappings are given as sequences of entries, oldest first, in
/// which no digest occurs twice.
pub struct WrapperState {
    /// The closed batches that are not committed yet, by digest.
    pub batches_to_filter: Seq<(HashValue, Seq<TransactionSummary>)>,
    /// The transactions of the open batch.
    pub batch_in_progress: Seq<TransactionSummary>,
    /// The running byte count of the open batch.
    pub bytes_in_progress: nat,
    /// The high-water mark of the clean requests.
    pub latest_logical_time: LogicalTime,
    /// The known proofs, by digest.
    pub batches_for_consensus: Seq<(HashValue, ProofOfStoreView)>,
    /// How many transactions a pull asks for.
    pub mempool_txn_pull_max_count: u64,
    /// How many bytes a batch may hold.
    pub quorum_store_max_batch_bytes: u64,
}

impl WrapperState {
    /// What holds of every state: the open batch is within the byte limit,
    /// no digest is stored twice, and every proof is stored under its own
    /// digest.
    pub open spec fn inv(self) -> bool {
        &&& self.bytes_in_progress <= self.quorum_store_max_batch_bytes
        &&& keys_distinct(self.batches_to_filter)
        &&& keys_distinct(self.batches_for_consensus)
        &&& forall|i: int|
            0 <= i < self.batches_for_consensus.len() ==> {
                let entry = #[trigger] self.batches_for_consensus[i];
                entry.0 == entry.1.digest
            }
    }

    /// Whether `summary` belongs to a closed batch that is not committed.
    pub open spec fn is_filtered(self, summary: TransactionSummary) -> bool {
        in_some_batch(self.batches_to_filter, summary)
    }

    /// Whether no transaction is both in the open batch and in a closed one.
    pub open spec fn filter_disjoint(self) -> bool {
        none_in_batches(self.batch_in_progress, self.batches_to_filter)
    }

    /// The state at the start of an epoch.
    pub open spec fn init(
        epoch: u64,
        mempool_txn_pull_max_count: u64,
        quorum_store_max_batch_bytes: u64,
    ) -> WrapperState {
        WrapperState {
            batches_to_filter: Seq::empty(),
            batch_in_progress: Seq::empty(),
            bytes_in_progress: 0,
            latest_logical_time: LogicalTime { epoch, round: 0 },
            batches_for_consensus: Seq::empty(),
            mempool_txn_pull_max_count,
            quorum_store_max_batch_bytes,
        }
    }

    /// The transactions that a pull must leave out: those of the closed
    /// batches, oldest batch first, then those of the open batch.
    pub open spec fn excluded_txns(self) -> Seq<TransactionSummary> {
        batches_of(self.batches_to_filter).flatten() + self.batch_in_progress
    }

    /// The number of pulled transactions that go into the open batch.
    pub open spec fn pull_taken(self, encodings: Seq<Option<Seq<u8>>>) -> int {
        taken(encodings, self.bytes_in_progress, self.quorum_store_max_batch_bytes as nat)
    }

    /// Whether a pull ends the open batch: a transaction with a
    /// serialization is left over.
    pub open spec fn pull_ends_batch(self, encodings: Seq<Option<Seq<u8>>>) -> bool {
        let k = self.pull_taken(encodings);
        k < encodings.len() && encodings[k] is Some
    }

    /// Whether a pull fails: the first transaction that is not taken has no
    /// serialization.
    pub open spec fn pull_fails(self, encodings: Seq<Option<Seq<u8>>>) -> bool {
        let k = self.pull_taken(encodings);
        k < encodings.len() && encodings[k] is None
    }

    /// The state after a pull of transactions with the given summaries and
    /// serializations: those taken are in the open batch, and the byte count
    /// has grown by their sizes, or is back at 0 where the batch ends.
    pub open spec fn pull(
        self,
        summaries: Seq<TransactionSummary>,
        encodings: Seq<Option<Seq<u8>>>,
    ) -> WrapperState {
        let k = self.pull_taken(encodings);
        WrapperState {
            batch_in_progress: self.batch_in_progress + summaries.take(k),
            bytes_in_progress: if self.pull_ends_batch(encodings) {
                0
            } else {
                self.bytes_in_progress + total_len(encodings.take(k))
            },
            ..self
        }
    }

    /// What a pull hands to the backend: the data of the transactions taken,
    /// to append where all were taken, to end the batch where one is left
    /// over; or the failure.
    pub open spec fn pull_command(self, encodings: Seq<Option<Seq<u8>>>) -> Result<
        QuorumStoreCommandView,
        WrapperError,
    > {
        let data = txn_data_prefix(encodings, self.pull_taken(encodings));
        if self.pull_fails(encodings) {
            Err(WrapperError::Serialization)
        } else if self.pull_ends_batch(encodings) {
            Ok(QuorumStoreCommandView::EndBatch(data, self.batch_expiration()))
        } else {
            Ok(QuorumStoreCommandView::AppendToBatch(data))
        }
    }

    /// The state after the backend has named the digest of the batch that
    /// was ended: the open batch is stored under that digest, in place of
    /// whatever was, and a new batch is open.
    pub open spec fn close_batch(self, digest: HashValue) -> WrapperState {
        WrapperState {
            batches_to_filter: without_key(self.batches_to_filter, digest).push(
                (digest, self.batch_in_progress),
            ),
            batch_in_progress: Seq::empty(),
            ..self
        }
    }

    /// The closed batch that is stored under `digest`, if there is one.
    pub open spec fn filtered_batch(self, digest: HashValue) -> Option<Seq<TransactionSummary>> {
        if has_key(self.batches_to_filter, digest) {
            Some(self.batches_to_filter[position_of(self.batches_to_filter, digest)].1)
        } else {
            None
        }
    }

    /// The proof that is stored for `digest`, if there is one.
    pub open spec fn stored_proof(self, digest: HashValue) -> Option<ProofOfStoreView> {
        if has_key(self.batches_for_consensus, digest) {
            Some(self.batches_for_consensus[position_of(self.batches_for_consensus, digest)].1)
        } else {
            None
        }
    }

    /// The state after a proof has come in: it is stored under its digest as
    /// the newest proof, unless a proof with a strictly later expiration is
    /// stored for that digest, which then stays and becomes the newest.
    pub open spec fn insert_proof(self, new_proof: ProofOfStoreView) -> WrapperState {
        WrapperState {
            batches_for_consensus: without_key(self.batches_for_consensus, new_proof.digest).push(
                (new_proof.digest, superseding(self.stored_proof(new_proof.digest), new_proof)),
            ),
            ..self
        }
    }

    /// The state after consensus has asked to clean up: the clock stands at
    /// `logical_time`, and nothing is stored under any of `digests`.
    pub open spec fn clean(
        self,
        logical_time: LogicalTime,
        digests: Seq<HashValue>,
    ) -> WrapperState {
        WrapperState {
            latest_logical_time: logical_time,
            batches_to_filter: without_keys(self.batches_to_filter, digests),
            batches_for_consensus: without_keys(self.batches_for_consensus, digests),
            ..self
        }
    }

    /// The stored proofs, oldest first.
    pub open spec fn proofs(self) -> Seq<ProofOfStoreView> {
        Seq::new(self.batches_for_consensus.len(), |i: int| self.batches_for_consensus[i].1)
    }

    /// The proofs that answer a request for a block: in the order in which
    /// they are stored, those whose digest is not excluded, as many as the
    /// block may hold.
    pub open spec fn block_proofs(self, max_block_size: u64, excluded: Seq<HashValue>) -> Seq<
        ProofOfStoreView,
    > {
        let eligible = eligible_proofs(self.proofs(), excluded);
        if eligible.len() <= max_block_size {
            eligible
        } else {
            eligible.take(max_block_size as int)
        }
    }

    /// The expiration of a batch that is closed now: the latest known round
    /// plus the offset, in the current epoch (the last round there is, where
    /// the sum is no round).
    pub open spec fn batch_expiration(self) -> LogicalTime {
        LogicalTime {
            epoch: self.latest_logical_time.epoch,
            round: if self.latest_logical_time.round + EXPIRATION_ROUND_OFFSET <= u64::MAX {
                (self.latest_logical_time.round + EXPIRATION_ROUND_OFFSET) as u64
            } else {
                u64::MAX
            },
        }
    }
}

} // verus!
