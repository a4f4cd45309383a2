//! The wrapper: its state and what each event does to it.

use crate::batch::{
    accepts, encodings_of, lemma_taken_is, lemma_total_len_step, serialized_encodings,
    serialized_summaries, summaries_of, total_len, txn_data_prefix,
};
use crate::codec::{encoding_of, serialize_transaction, txn_data_hash, MAX_SEQUENCE_LENGTH};
use crate::digest_map::DigestMap;
use crate::entries::{
    entry_views, lemma_entry_views_keys, lemma_entry_views_without_key,
    lemma_entry_views_without_keys, lemma_without_key_absent, lemma_without_key_map,
    lemma_without_key_subset, lemma_without_keys_contents, lemma_without_keys_none,
    lemma_without_keys_step, without_key, without_keys,
};
use crate::event_loop::{WrapperAction, WrapperEvent};
use crate::laws::{lemma_block_proofs, lemma_clean_keeps_invariants};
use crate::logical_time::LogicalTime;
use crate::model::{
    batches_of, eligible_proofs, lemma_eligible_prefix, lemma_eligible_step, WrapperState,
    EXPIRATION_ROUND_OFFSET,
};
use crate::types::{
    contains_digest, proof_views, txn_data_views, ConsensusMsg, ConsensusResponse, HashValue,
    Payload, PayloadFilter, ProofOfStore, QuorumStoreCommand, QuorumStoreCommandView,
    QuorumStoreError, SerializedTransaction, Transaction, TransactionSummary, TxnData,
    VerifiedEvent, WrapperCommand, WrapperError,
};
use vstd::prelude::*;

verus! {

/// The coordinator between the mempool and consensus: it packs pulled
/// transactions into batches within a byte limit, remembers which
/// transactions are in flight, and keeps the best proof known for each batch.
///
/// It holds no channel and does no waiting: whoever drives it hands it what
/// arrived and carries out what it returns.
pub struct QuorumStoreWrapper {
    batches_to_filter: DigestMap<Vec<TransactionSummary>>,
    batch_in_progress: Vec<TransactionSummary>,
    bytes_in_progress: u64,
    latest_logical_time: LogicalTime,
    batches_for_consensus: DigestMap<ProofOfStore>,
    mempool_txn_pull_max_count: u64,
    quorum_store_max_batch_bytes: u64,
}

/// Appends the summaries of `batch` to `list`.
fn append_summaries(list: &mut Vec<TransactionSummary>, batch: &Vec<TransactionSummary>)
    ensures
        final(list)@ == old(list)@ + batch@,
{
    let mut j: usize = 0;
    while j < batch.len()
        invariant
            j <= batch@.len(),
            list@ == old(list)@ + batch@.take(j as int),
        decreases batch@.len() - j,
    {
        list.push(batch[j]);
        j += 1;
    }
}

impl View for QuorumStoreWrapper {
    type V = WrapperState;

    closed spec fn view(&self) -> WrapperState {
        WrapperState {
            batches_to_filter: self.batches_to_filter.model(),
            batch_in_progress: self.batch_in_progress@,
            bytes_in_progress: self.bytes_in_progress as nat,
            latest_logical_time: self.latest_logical_time,
            batches_for_consensus: self.batches_for_consensus.model(),
            mempool_txn_pull_max_count: self.mempool_txn_pull_max_count,
            quorum_store_max_batch_bytes: self.quorum_store_max_batch_bytes,
        }
    }
}

impl QuorumStoreWrapper {
    #[verifier::type_invariant]
    closed spec fn well_formed(&self) -> bool {
        &&& self.bytes_in_progress <= self.quorum_store_max_batch_bytes
        &&& forall|i: int|
            0 <= i < self.batches_for_consensus.entries().len() ==> {
                let entry = #[trigger] self.batches_for_consensus.entries()[i];
                entry.0 == entry.1.digest
            }
    }

    /// A wrapper for the given epoch, with nothing in flight.
    pub fn new(
        epoch: u64,
        mempool_txn_pull_max_count: u64,
        quorum_store_max_batch_bytes: u64,
    ) -> (wrapper: Self)
        ensures
            wrapper@ == WrapperState::init(
                epoch,
                mempool_txn_pull_max_count,
                quorum_store_max_batch_bytes,
            ),
            wrapper@.inv(),
            wrapper@.filter_disjoint(),
    {
        let wrapper = Self {
            batches_to_filter: DigestMap::new(),
            batch_in_progress: Vec::new(),
            bytes_in_progress: 0,
            latest_logical_time: LogicalTime::new(epoch, 0),
            batches_for_consensus: DigestMap::new(),
            mempool_txn_pull_max_count,
            quorum_store_max_batch_bytes,
        };
        proof {
            assert(wrapper@.batches_to_filter =~= Seq::empty());
            assert(wrapper@.batches_for_consensus =~= Seq::empty());
        }
        wrapper
    }

    /// The running byte count of the open batch, which never exceeds the
    /// byte limit.
    pub fn bytes_in_progress(&self) -> (bytes: u64)
        ensures
            bytes == self@.bytes_in_progress,
            bytes <= self@.quorum_store_max_batch_bytes,
            self@.inv(),
    {
        proof {
            use_type_invariant(self);
            use_type_invariant(&self.batches_to_filter);
            use_type_invariant(&self.batches_for_consensus);
        }
        self.bytes_in_progress
    }

    /// The transactions of the open batch.
    pub fn batch_in_progress(&self) -> (batch: &Vec<TransactionSummary>)
        ensures
            batch@ == self@.batch_in_progress,
    {
        &self.batch_in_progress
    }

    /// The logical time of the latest clean request, or the start of the
    /// epoch where there was none.
    pub fn latest_logical_time(&self) -> (time: LogicalTime)
        ensures
            time == self@.latest_logical_time,
    {
        self.latest_logical_time
    }

    /// How many transactions a pull asks for.
    pub fn mempool_txn_pull_max_count(&self) -> (count: u64)
        ensures
            count == self@.mempool_txn_pull_max_count,
    {
        self.mempool_txn_pull_max_count
    }

    /// How many bytes a batch may hold.
    pub fn quorum_store_max_batch_bytes(&self) -> (bytes: u64)
        ensures
            bytes == self@.quorum_store_max_batch_bytes,
    {
        self.quorum_store_max_batch_bytes
    }

    /// The transactions of the closed batch with this digest, if it is one
    /// that has not been cleaned.
    pub fn filtered_batch(&self, digest: &HashValue) -> (batch: Option<&Vec<TransactionSummary>>)
        ensures
            match batch {
                Some(summaries) => self@.filtered_batch(*digest) == Some(summaries@),
                None => self@.filtered_batch(*digest) is None,
            },
    {
        proof {
            use_type_invariant(&self.batches_to_filter);
            lemma_entry_views_keys(self.batches_to_filter.entries());
        }
        self.batches_to_filter.get(digest)
    }

    /// The proof that is stored for this digest, if there is one.
    pub fn stored_proof(&self, digest: &HashValue) -> (stored: Option<&ProofOfStore>)
        ensures
            match stored {
                Some(p) => self@.stored_proof(*digest) == Some(p@),
                None => self@.stored_proof(*digest) is None,
            },
    {
        proof {
            use_type_invariant(&self.batches_for_consensus);
            lemma_entry_views_keys(self.batches_for_consensus.entries());
        }
        self.batches_for_consensus.get(digest)
    }

    /// The number of closed batches that have not been cleaned.
    pub fn num_batches_to_filter(&self) -> (n: usize)
        ensures
            n == self@.batches_to_filter.len(),
    {
        self.batches_to_filter.len()
    }

    /// The number of stored proofs.
    pub fn num_batches_for_consensus(&self) -> (n: usize)
        ensures
            n == self@.batches_for_consensus.len(),
    {
        self.batches_for_consensus.len()
    }

    /// Takes one serialized transaction of `num_bytes` bytes into the open
    /// batch if the batch stays within its byte limit, and says whether it
    /// did. Nothing changes where it did not.
    pub fn try_add_to_batch(
        &mut self,
        summary: TransactionSummary,
        num_bytes: usize,
    ) -> (added: bool)
        ensures
            added == (old(self)@.bytes_in_progress + num_bytes
                <= old(self)@.quorum_store_max_batch_bytes),
            added ==> final(self)@ == (WrapperState {
                batch_in_progress: old(self)@.batch_in_progress.push(summary),
                bytes_in_progress: old(self)@.bytes_in_progress + num_bytes as nat,
                ..old(self)@
            }),
            !added ==> final(self)@ == old(self)@,
            final(self)@.inv(),
    {
        proof {
            use_type_invariant(&*self);
            use_type_invariant(&self.batches_to_filter);
            use_type_invariant(&self.batches_for_consensus);
        }
        let room = self.quorum_store_max_batch_bytes - self.bytes_in_progress;
        if num_bytes as u64 > room {
            return false;
        }
        let mut batch = Vec::new();
        std::mem::swap(&mut batch, &mut self.batch_in_progress);
        batch.push(summary);
        self.batch_in_progress = batch;
        self.bytes_in_progress = self.bytes_in_progress + num_bytes as u64;
        true
    }

    /// The transactions that the next pull must leave out: those of the
    /// closed batches, oldest batch first, then those of the open batch.
    pub fn exclude_txns(&self) -> (exclude: Vec<TransactionSummary>)
        ensures
            exclude@ == self@.excluded_txns(),
    {
        let mut exclude: Vec<TransactionSummary> = Vec::new();
        let ghost batches = batches_of(self@.batches_to_filter);
        let n = self.batches_to_filter.len();
        let mut i: usize = 0;
        while i < n
            invariant
                i <= n == self.batches_to_filter.entries().len(),
                batches == batches_of(self@.batches_to_filter),
                exclude@ == batches.take(i as int).flatten(),
            decreases n - i,
        {
            let batch = self.batches_to_filter.value_at(i);
            append_summaries(&mut exclude, batch);
            proof {
                assert(batches.take(i + 1) =~= batches.take(i as int).push(batch@));
                batches.take(i as int).lemma_flatten_push(batch@);
            }
            i += 1;
        }
        assert(batches.take(n as int) =~= batches);
        append_summaries(&mut exclude, &self.batch_in_progress);
        exclude
    }

    /// The expiration of a batch that is closed now.
    fn batch_expiration(&self) -> (expiration: LogicalTime)
        ensures
            expiration == self@.batch_expiration(),
    {
        let round = self.latest_logical_time.round();
        let expire_round = if round <= u64::MAX - EXPIRATION_ROUND_OFFSET {
            round + EXPIRATION_ROUND_OFFSET
        } else {
            u64::MAX
        };
        LogicalTime::new(self.latest_logical_time.epoch(), expire_round)
    }

    /// Packs the transactions of a pull, serialized already, into the open
    /// batch.
    ///
    /// The transactions are taken in order for as long as each one has a
    /// serialization and the batch stays within its byte limit. Where all are
    /// taken, the command appends them to the batch at the backend. Where one
    /// is left over that would not fit, the command ends the batch, and the
    /// byte count starts again at 0: the transactions of the batch stay in
    /// the open batch until `handle_batch_digest` stores them under the
    /// digest that the backend answers with. The transaction that did not fit
    /// is not taken, and neither are those after it.
    ///
    /// Where the first transaction that is not taken has no serialization,
    /// the call fails; the transactions before that one stay taken.
    ///
    /// Where the mempool kept to the exclusion list that it was given, no
    /// transaction is in the open batch and in a closed one afterwards.
    pub fn handle_serialized_pull(
        &mut self,
        pulled: Vec<SerializedTransaction>,
    ) -> (r: Result<QuorumStoreCommand, WrapperError>)
        ensures
            final(self)@ == old(self)@.pull(
                serialized_summaries(pulled@),
                serialized_encodings(pulled@),
            ),
            match r {
                Ok(command) => old(self)@.pull_command(serialized_encodings(pulled@)) == Ok::<
                    _,
                    WrapperError,
                >(command@),
                Err(e) => old(self)@.pull_command(serialized_encodings(pulled@)) == Err::<
                    QuorumStoreCommandView,
                    _,
                >(e),
            },
            (forall|i: int| 0 <= i < pulled@.len() ==> (#[trigger] pulled@[i]).txn_bytes is Some)
                ==> r is Ok,
            final(self)@.inv(),
            old(self)@.filter_disjoint() && (forall|i: int|
                0 <= i < pulled@.len() ==> !old(self)@.is_filtered((#[trigger] pulled@[i]).summary))
                ==> final(self)@.filter_disjoint(),
    {
        let ghost start = self@;
        let ghost summaries = serialized_summaries(pulled@);
        let ghost encodings = serialized_encodings(pulled@);
        let ghost max = self.quorum_store_max_batch_bytes as nat;
        let mut txns_data: Vec<TxnData> = Vec::new();
        let n = pulled.len();
        let mut i: usize = 0;
        proof {
            use_type_invariant(&*self);
            use_type_invariant(&self.batches_to_filter);
            use_type_invariant(&self.batches_for_consensus);
        }
        while i < n
            invariant
                i <= n == pulled@.len(),
                summaries == serialized_summaries(pulled@),
                encodings == serialized_encodings(pulled@),
                max == start.quorum_store_max_batch_bytes,
                start == old(self)@,
                start.inv(),
                accepts(encodings, start.bytes_in_progress, max, i as int),
                self@ == (WrapperState {
                    batch_in_progress: start.batch_in_progress + summaries.take(i as int),
                    bytes_in_progress: start.bytes_in_progress + total_len(
                        encodings.take(i as int),
                    ),
                    ..start
                }),
                self@.inv(),
                txns_data@.len() == i,
                txn_data_views(txns_data@) == txn_data_prefix(encodings, i as int),
            decreases n - i,
        {
            proof {
                lemma_total_len_step(encodings, i as int);
            }
            match &pulled[i].txn_bytes {
                None => {
                    proof {
                        lemma_taken_is(encodings, start.bytes_in_progress, max, i as int);
                    }
                    return Err(WrapperError::Serialization);
                },
                Some(bytes) => {
                    if !self.try_add_to_batch(pulled[i].summary, bytes.len()) {
                        let expiration = self.batch_expiration();
                        proof {
                            use_type_invariant(&*self);
                        }
                        self.bytes_in_progress = 0;
                        proof {
                            lemma_taken_is(encodings, start.bytes_in_progress, max, i as int);
                        }
                        return Ok(QuorumStoreCommand::EndBatch(txns_data, expiration));
                    }
                    let txn_bytes = bytes.clone();
                    let hash = txn_data_hash(&txn_bytes);
                    let ghost data_before = txns_data@;
                    txns_data.push(TxnData { txn_bytes, hash });
                    proof {
                        assert(summaries.take(i + 1) =~= summaries.take(i as int).push(
                            pulled@[i as int].summary,
                        ));
                        assert(txn_data_views(txns_data@) =~= txn_data_views(data_before).push(
                            txn_data_prefix(encodings, i + 1)[i as int],
                        ));
                    }
                    i += 1;
                },
            }
        }
        proof {
            lemma_taken_is(encodings, start.bytes_in_progress, max, n as int);
        }
        Ok(QuorumStoreCommand::AppendToBatch(txns_data))
    }

    /// Packs the transactions that a pull returned into the open batch:
    /// serializes each of them and goes on as `handle_serialized_pull` does.
    ///
    /// A transaction has no serialization only where its payload is longer
    /// than `MAX_SEQUENCE_LENGTH` bytes, so that the call succeeds where no
    /// payload is.
    pub fn handle_scheduled_pull(
        &mut self,
        pulled_txns: Vec<Transaction>,
    ) -> (r: Result<QuorumStoreCommand, WrapperError>)
        ensures
            final(self)@ == old(self)@.pull(
                summaries_of(pulled_txns@),
                encodings_of(pulled_txns@),
            ),
            match r {
                Ok(command) => old(self)@.pull_command(encodings_of(pulled_txns@)) == Ok::<
                    _,
                    WrapperError,
                >(command@),
                Err(e) => old(self)@.pull_command(encodings_of(pulled_txns@)) == Err::<
                    QuorumStoreCommandView,
                    _,
                >(e),
            },
            (forall|i: int|
                0 <= i < pulled_txns@.len() ==> (#[trigger] pulled_txns@[i]).payload@.len()
                    <= MAX_SEQUENCE_LENGTH) ==> r is Ok,
            final(self)@.inv(),
            old(self)@.filter_disjoint() && (forall|i: int|
                0 <= i < pulled_txns@.len() ==> !old(self)@.is_filtered(
                    #[trigger] pulled_txns@[i].spec_summary(),
                )) ==> final(self)@.filter_disjoint(),
    {
        let mut serialized: Vec<SerializedTransaction> = Vec::new();
        let mut i: usize = 0;
        while i < pulled_txns.len()
            invariant
                i <= pulled_txns@.len(),
                serialized@.len() == i,
                forall|j: int|
                    0 <= j < i ==> (#[trigger] serialized@[j]).summary
                        == pulled_txns@[j].spec_summary() && serialized@[j].encoding()
                        == encoding_of(pulled_txns@[j]) && (serialized@[j].txn_bytes is None
                        <==> pulled_txns@[j].payload@.len() > MAX_SEQUENCE_LENGTH),
            decreases pulled_txns@.len() - i,
        {
            let txn = &pulled_txns[i];
            let txn_bytes = serialize_transaction(txn);
            serialized.push(SerializedTransaction { summary: txn.summary(), txn_bytes });
            i += 1;
        }
        proof {
            assert(serialized_summaries(serialized@) =~= summaries_of(pulled_txns@));
            assert(serialized_encodings(serialized@) =~= encodings_of(pulled_txns@));
        }
        self.handle_serialized_pull(serialized)
    }

    /// Takes the answer of the backend to a command that ended the batch;
    /// `None` stands for an answer that never came.
    ///
    /// On a digest, the transactions of the batch that was ended are stored
    /// under it, to be left out of pulls until they are cleaned, and a new
    /// batch is open; `Ok(true)` says that the proof of the batch is now to
    /// be waited for. Without an answer nothing changes and there is no proof
    /// to wait for. An error of the backend changes nothing and is fatal.
    pub fn handle_batch_digest(
        &mut self,
        reply: Option<Result<HashValue, QuorumStoreError>>,
    ) -> (r: Result<bool, WrapperError>)
        ensures
            match reply {
                Some(Ok(digest)) => r == Ok::<bool, WrapperError>(true) && final(self)@ == old(
                    self,
                )@.close_batch(digest),
                Some(Err(QuorumStoreError::BatchSizeLimit)) => r == Err::<bool, WrapperError>(
                    WrapperError::BatchSizeLimit,
                ) && final(self)@ == old(self)@,
                Some(Err(QuorumStoreError::Timeout(_))) => r == Err::<bool, WrapperError>(
                    WrapperError::UnexpectedBackendError,
                ) && final(self)@ == old(self)@,
                None => r == Ok::<bool, WrapperError>(false) && final(self)@ == old(self)@,
            },
            final(self)@.inv(),
            old(self)@.filter_disjoint() ==> final(self)@.filter_disjoint(),
    {
        proof {
            use_type_invariant(&*self);
            use_type_invariant(&self.batches_to_filter);
            use_type_invariant(&self.batches_for_consensus);
        }
        match reply {
            Some(Ok(digest)) => {
                let ghost filter_before = self.batches_to_filter.entries();
                let mut last_batch: Vec<TransactionSummary> = Vec::new();
                std::mem::swap(&mut last_batch, &mut self.batch_in_progress);
                let mut filter: DigestMap<Vec<TransactionSummary>> = DigestMap::new();
                std::mem::swap(&mut filter, &mut self.batches_to_filter);
                filter.insert(digest, last_batch);
                proof {
                    lemma_entry_views_without_key(filter_before, digest);
                    assert(entry_views(filter.entries()) =~= without_key(
                        entry_views(filter_before),
                        digest,
                    ).push((digest, last_batch@)));
                }
                self.batches_to_filter = filter;
                proof {
                    use_type_invariant(&self.batches_to_filter);
                }
                Ok(true)
            },
            Some(Err(QuorumStoreError::BatchSizeLimit)) => Err(WrapperError::BatchSizeLimit),
            Some(Err(QuorumStoreError::Timeout(_))) => Err(WrapperError::UnexpectedBackendError),
            None => Ok(false),
        }
    }

    /// Stores a proof, made here or by another validator, as the newest one,
    /// unless a proof with a strictly later expiration is stored for the
    /// same digest: then that one stays, and becomes the newest.
    pub fn insert_proof(&mut self, new_proof: ProofOfStore)
        ensures
            final(self)@ == old(self)@.insert_proof(new_proof@),
            final(self)@.inv(),
            old(self)@.filter_disjoint() ==> final(self)@.filter_disjoint(),
    {
        proof {
            use_type_invariant(&*self);
            use_type_invariant(&self.batches_to_filter);
            use_type_invariant(&self.batches_for_consensus);
        }
        let ghost before = self.batches_for_consensus.entries();
        let mut proofs: DigestMap<ProofOfStore> = DigestMap::new();
        std::mem::swap(&mut proofs, &mut self.batches_for_consensus);
        let digest = new_proof.digest;
        let mut kept = new_proof;
        proof {
            lemma_entry_views_keys(before);
            lemma_without_key_map(before, digest);
            lemma_without_key_subset(before, digest);
            lemma_entry_views_without_key(before, digest);
        }
        if let Some(existing) = proofs.remove(&digest) {
            if existing.expiration().is_after(&kept.expiration()) {
                kept = existing;
            }
        }
        proof {
            lemma_without_key_absent(without_key(before, digest), digest);
        }
        proofs.insert(digest, kept);
        proof {
            assert(entry_views(proofs.entries()) =~= without_key(entry_views(before), digest).push(
                (digest, kept@),
            ));
        }
        self.batches_for_consensus = proofs;
    }

    /// Takes the outcome of waiting for the proof of a batch made here.
    ///
    /// A proof is stored as `insert_proof` stores it, and the message that
    /// carries it to the other validators is returned. Where the backend ran
    /// out of time nothing changes: the transactions of the batch stay
    /// excluded from pulls, and there is nothing to send. Any other error is
    /// fatal.
    pub fn handle_local_proof(
        &mut self,
        msg: Result<ProofOfStore, QuorumStoreError>,
    ) -> (r: Result<Option<ConsensusMsg>, WrapperError>)
        ensures
            match msg {
                Ok(made) => final(self)@ == old(self)@.insert_proof(made@) && (r matches Ok(
                    Some(ConsensusMsg::ProofOfStoreBroadcastMsg(sent)),
                ) && *sent == made),
                Err(QuorumStoreError::Timeout(_)) => final(self)@ == old(self)@ && r matches Ok(
                    None,
                ),
                Err(QuorumStoreError::BatchSizeLimit) => final(self)@ == old(self)@ && r
                    == Err::<Option<ConsensusMsg>, WrapperError>(
                    WrapperError::UnexpectedBackendError,
                ),
            },
            final(self)@.inv(),
            old(self)@.filter_disjoint() ==> final(self)@.filter_disjoint(),
    {
        proof {
            use_type_invariant(&*self);
            use_type_invariant(&self.batches_to_filter);
            use_type_invariant(&self.batches_for_consensus);
        }
        match msg {
            Ok(made) => {
                self.insert_proof(made.clone());
                Ok(Some(ConsensusMsg::ProofOfStoreBroadcastMsg(Box::new(made))))
            },
            Err(QuorumStoreError::Timeout(_)) => Ok(None),
            Err(QuorumStoreError::BatchSizeLimit) => Err(WrapperError::UnexpectedBackendError),
        }
    }

    /// Moves the logical clock to `logical_time` and forgets the batches
    /// with the given digests: their transactions are no longer left out of
    /// pulls, and their proofs are no longer offered to consensus.
    pub fn clean(&mut self, logical_time: LogicalTime, digests: &Vec<HashValue>)
        ensures
            final(self)@ == old(self)@.clean(logical_time, digests@),
            final(self)@.inv(),
            old(self)@.filter_disjoint() ==> final(self)@.filter_disjoint(),
    {
        proof {
            use_type_invariant(&*self);
            use_type_invariant(&self.batches_to_filter);
            use_type_invariant(&self.batches_for_consensus);
        }
        let ghost filter_before = self.batches_to_filter.entries();
        let ghost proofs_before = self.batches_for_consensus.entries();
        self.latest_logical_time = logical_time;
        let mut filter: DigestMap<Vec<TransactionSummary>> = DigestMap::new();
        std::mem::swap(&mut filter, &mut self.batches_to_filter);
        let mut proofs: DigestMap<ProofOfStore> = DigestMap::new();
        std::mem::swap(&mut proofs, &mut self.batches_for_consensus);
        proof {
            lemma_without_keys_none(filter_before);
            lemma_without_keys_none(proofs_before);
            assert(digests@.take(0) =~= Seq::<HashValue>::empty());
        }
        let mut i: usize = 0;
        while i < digests.len()
            invariant
                i <= digests@.len(),
                filter.entries() == without_keys(filter_before, digests@.take(i as int)),
                proofs.entries() == without_keys(proofs_before, digests@.take(i as int)),
            decreases digests@.len() - i,
        {
            proof {
                lemma_without_keys_step(filter_before, digests@.take(i as int), digests@[i as int]);
                lemma_without_keys_step(proofs_before, digests@.take(i as int), digests@[i as int]);
                assert(digests@.take(i + 1) =~= digests@.take(i as int).push(digests@[i as int]));
            }
            filter.remove(&digests[i]);
            proofs.remove(&digests[i]);
            i += 1;
        }
        proof {
            assert(digests@.take(i as int) =~= digests@);
            lemma_entry_views_without_keys(filter_before, digests@);
            lemma_entry_views_without_keys(proofs_before, digests@);
            lemma_without_keys_contents(proofs_before, digests@);
            lemma_clean_keeps_invariants(old(self)@, logical_time, digests@);
        }
        self.batches_to_filter = filter;
        self.batches_for_consensus = proofs;
    }

    /// The proofs for a block of at most `max_block_size` proofs: the
    /// stored proofs, oldest first, without those that `excluded` names.
    ///
    /// No more are returned than were asked for, none of them is excluded,
    /// and each of them is stored.
    pub fn get_block(
        &self,
        max_block_size: u64,
        excluded: &Vec<HashValue>,
    ) -> (batch: Vec<ProofOfStore>)
        ensures
            proof_views(batch@) == self@.block_proofs(max_block_size, excluded@),
            batch@.len() <= max_block_size,
            forall|i: int|
                0 <= i < batch@.len() ==> !excluded@.contains(#[trigger] batch@[i].digest),
            forall|i: int|
                0 <= i < batch@.len() ==> self@.stored_proof((#[trigger] batch@[i]).digest)
                    == Some(batch@[i]@),
    {
        proof {
            use_type_invariant(self);
            use_type_invariant(&self.batches_to_filter);
            use_type_invariant(&self.batches_for_consensus);
        }
        let ghost all = self@.proofs();
        let n = self.batches_for_consensus.len();
        let mut batch: Vec<ProofOfStore> = Vec::new();
        let mut i: usize = 0;
        while i < n && (batch.len() as u64) < max_block_size
            invariant
                i <= n == self.batches_for_consensus.entries().len(),
                all == self@.proofs(),
                proof_views(batch@) == eligible_proofs(all.take(i as int), excluded@),
                batch@.len() <= max_block_size,
            decreases n - i,
        {
            let candidate = self.batches_for_consensus.value_at(i);
            proof {
                lemma_eligible_step(all, excluded@, i as int);
            }
            if !contains_digest(excluded, candidate.digest()) {
                batch.push(candidate.clone());
            }
            i += 1;
        }
        proof {
            lemma_eligible_prefix(all, excluded@, i as int);
            if i == n {
                assert(all.take(i as int) =~= all);
            }
            lemma_block_proofs(self@, max_block_size, excluded@);
            assert forall|k: int| 0 <= k < batch@.len() implies !excluded@.contains(
                #[trigger] batch@[k].digest,
            ) && self@.stored_proof(batch@[k].digest) == Some(batch@[k]@) by {
                assert(proof_views(batch@)[k] == batch@[k]@);
            }
        }
        batch
    }

    /// Answers a request of consensus.
    ///
    /// A request for a block is answered with the proofs that `get_block`
    /// selects, and changes nothing; one that excludes transactions in place
    /// of proofs does not belong here and is fatal. A request to clean is
    /// carried out as `clean` does it, and has no answer.
    pub fn handle_consensus_request(
        &mut self,
        msg: WrapperCommand,
    ) -> (r: Result<Option<ConsensusResponse>, WrapperError>)
        ensures
            match msg {
                WrapperCommand::GetBlockRequest(max_block_size, filter) => {
                    &&& final(self)@ == old(self)@
                    &&& if filter is DirectMempool {
                        r == Err::<Option<ConsensusResponse>, WrapperError>(
                            WrapperError::InvalidFilter,
                        )
                    } else {
                        &&& r matches Ok(
                            Some(
                                ConsensusResponse::GetBlockResponse(Payload::InQuorumStore(batch)),
                            ),
                        )
                        &&& proof_views(batch@) == old(self)@.block_proofs(
                            max_block_size,
                            filter.excluded(),
                        )
                    }
                },
                WrapperCommand::CleanRequest(logical_time, digests) => {
                    &&& final(self)@ == old(self)@.clean(logical_time, digests@)
                    &&& r matches Ok(None)
                },
            },
            final(self)@.inv(),
            old(self)@.filter_disjoint() ==> final(self)@.filter_disjoint(),
    {
        proof {
            use_type_invariant(&*self);
            use_type_invariant(&self.batches_to_filter);
            use_type_invariant(&self.batches_for_consensus);
        }
        match msg {
            WrapperCommand::GetBlockRequest(max_block_size, filter) => {
                let excluded_proofs: Vec<HashValue> = match filter {
                    PayloadFilter::Empty => Vec::new(),
                    PayloadFilter::DirectMempool(_) => {
                        return Err(WrapperError::InvalidFilter);
                    },
                    PayloadFilter::InQuorumStore(proofs) => proofs,
                };
                let batch = self.get_block(max_block_size, &excluded_proofs);
                Ok(Some(ConsensusResponse::GetBlockResponse(Payload::InQuorumStore(batch))))
            },
            WrapperCommand::CleanRequest(logical_time, digests) => {
                self.clean(logical_time, &digests);
                Ok(None)
            },
        }
    }

    /// One turn of the event loop: takes what happened, updates the state
    /// and says what is to be done.
    ///
    /// A pull that the mempool did not answer is skipped and a lost digest is
    /// passed over, with no change; so are a proof that was given up and a
    /// message that is no proof. An error is fatal.
    pub fn handle_event(&mut self, event: WrapperEvent) -> (r: Result<WrapperAction, WrapperError>)
        ensures
            final(self)@ == event.effect(old(self)@),
            event.asks_for(old(self)@, r),
            final(self)@.inv(),
            old(self)@.filter_disjoint() && event.keeps_to_filter(old(self)@)
                ==> final(self)@.filter_disjoint(),
    {
        proof {
            use_type_invariant(&*self);
            use_type_invariant(&self.batches_to_filter);
            use_type_invariant(&self.batches_for_consensus);
        }
        match event {
            WrapperEvent::Pulled(Some(pulled_txns)) => {
                match self.handle_scheduled_pull(pulled_txns) {
                    Ok(command) => Ok(WrapperAction::SendToBackend(command)),
                    Err(e) => Err(e),
                }
            },
            WrapperEvent::BatchDigest(Some(reply)) => {
                match self.handle_batch_digest(Some(reply)) {
                    Ok(_) => Ok(WrapperAction::AwaitProof),
                    Err(e) => Err(e),
                }
            },
            WrapperEvent::LocalProof(Some(msg)) => {
                match self.handle_local_proof(msg) {
                    Ok(Some(message)) => Ok(WrapperAction::Broadcast(message)),
                    Ok(None) => Ok(WrapperAction::Idle),
                    Err(e) => Err(e),
                }
            },
            WrapperEvent::ConsensusRequest(msg) => {
                match self.handle_consensus_request(msg) {
                    Ok(Some(response)) => Ok(WrapperAction::Reply(response)),
                    Ok(None) => Ok(WrapperAction::Idle),
                    Err(e) => Err(e),
                }
            },
            WrapperEvent::NetworkMessage(Some(VerifiedEvent::ProofOfStoreBroadcast(received))) => {
                self.insert_proof(*received);
                Ok(WrapperAction::Idle)
            },
            WrapperEvent::Shutdown => Ok(WrapperAction::Stop),
            _ => Ok(WrapperAction::Idle),
        }
    }
}

} // verus!
