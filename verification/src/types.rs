//! The values that the wrapper exchanges with its surroundings.

use crate::logical_time::LogicalTime;
use vstd::prelude::*;

verus! {

/// A 256-bit cryptographic hash; identifies a closed batch.
#[derive(Clone, Copy, Debug, PartialEq, Eq, Hash)]
pub struct HashValue {
    pub hash: [u8; 32],
}

impl HashValue {
    /// The hash with these bytes.
    pub fn new(hash: [u8; 32]) -> (h: Self)
        ensures
            h.hash == hash,
    {
        Self { hash }
    }

    /// Byte-wise comparison of two hashes.
    pub fn equals(&self, other: &HashValue) -> (b: bool)
        ensures
            b == (*self == *other),
    {
        let mut i: usize = 0;
        while i < 32
            invariant
                i <= 32,
                forall|j: int| 0 <= j < i ==> self.hash[j] == other.hash[j],
            decreases 32 - i,
        {
            if self.hash[i] != other.hash[i] {
                return false;
            }
            i += 1;
        }
        assert(self.hash =~= other.hash);
        true
    }
}

/// Whether `digest` is one of `digests`.
pub fn contains_digest(digests: &Vec<HashValue>, digest: &HashValue) -> (b: bool)
    ensures
        b == digests@.contains(*digest),
{
    let mut i: usize = 0;
    while i < digests.len()
        invariant
            i <= digests@.len(),
            forall|j: int| 0 <= j < i ==> digests@[j] != *digest,
        decreases digests@.len() - i,
    {
        if digests[i].equals(digest) {
            return true;
        }
        i += 1;
    }
    false
}

/// The address of an account; identifies the sender of a transaction.
#[derive(Clone, Copy, Debug, PartialEq, Eq, Hash)]
pub struct AccountAddress {
    pub bytes: [u8; 32],
}

impl AccountAddress {
    /// The address with these bytes.
    pub fn new(bytes: [u8; 32]) -> (a: Self)
        ensures
            a.bytes == bytes,
    {
        Self { bytes }
    }
}

/// Identifies a transaction without carrying its payload.
#[derive(Clone, Copy, Debug, PartialEq, Eq, Hash)]
pub struct TransactionSummary {
    pub sender: AccountAddress,
    pub sequence_number: u64,
}

/// A transaction as the mempool hands it out.
#[derive(Debug, PartialEq, Eq)]
pub struct Transaction {
    pub sender: AccountAddress,
    pub sequence_number: u64,
    pub payload: Vec<u8>,
}

impl Transaction {
    pub fn new(sender: AccountAddress, sequence_number: u64, payload: Vec<u8>) -> (t: Self)
        ensures
            t.sender == sender,
            t.sequence_number == sequence_number,
            t.payload == payload,
    {
        Self { sender, sequence_number, payload }
    }

    pub fn sender(&self) -> (a: AccountAddress)
        ensures
            a == self.sender,
    {
        self.sender
    }

    pub fn sequence_number(&self) -> (n: u64)
        ensures
            n == self.sequence_number,
    {
        self.sequence_number
    }

    pub open spec fn spec_summary(&self) -> TransactionSummary {
        TransactionSummary { sender: self.sender, sequence_number: self.sequence_number }
    }

    /// The summary under which this transaction is filtered.
    pub fn summary(&self) -> (s: TransactionSummary)
        ensures
            s == self.spec_summary(),
    {
        TransactionSummary { sender: self.sender, sequence_number: self.sequence_number }
    }
}

/// A pulled transaction after serialization: its summary, and its bytes
/// where it has a serialization.
#[derive(Debug, PartialEq, Eq)]
pub struct SerializedTransaction {
    pub summary: TransactionSummary,
    pub txn_bytes: Option<Vec<u8>>,
}

impl SerializedTransaction {
    /// The bytes as a sequence, if there are any.
    pub open spec fn encoding(self) -> Option<Seq<u8>> {
        match self.txn_bytes {
            Some(bytes) => Some(bytes@),
            None => None,
        }
    }
}

/// Serialized transaction bytes together with their content hash.
#[derive(Debug, PartialEq, Eq)]
pub struct TxnData {
    pub txn_bytes: Vec<u8>,
    pub hash: HashValue,
}

/// What a `TxnData` stands for: its bytes and the bytes of its hash.
pub struct TxnDataView {
    pub txn_bytes: Seq<u8>,
    pub hash: Seq<u8>,
}

impl View for TxnData {
    type V = TxnDataView;

    open spec fn view(&self) -> TxnDataView {
        TxnDataView { txn_bytes: self.txn_bytes@, hash: self.hash.hash@ }
    }
}

/// An attestation that a quorum of validators stores the batch with the
/// given digest until the given logical time.
///
/// The signature is carried along and never looked into.
#[derive(Debug, PartialEq, Eq)]
pub struct ProofOfStore {
    pub digest: HashValue,
    pub expiration: LogicalTime,
    pub multi_signature: Vec<u8>,
}

/// What a `ProofOfStore` stands for.
pub struct ProofOfStoreView {
    pub digest: HashValue,
    pub expiration: LogicalTime,
    pub multi_signature: Seq<u8>,
}

impl View for ProofOfStore {
    type V = ProofOfStoreView;

    open spec fn view(&self) -> ProofOfStoreView {
        ProofOfStoreView {
            digest: self.digest,
            expiration: self.expiration,
            multi_signature: self.multi_signature@,
        }
    }
}

impl Clone for ProofOfStore {
    fn clone(&self) -> (copy: Self)
        ensures
            copy@ == self@,
    {
        ProofOfStore {
            digest: self.digest,
            expiration: self.expiration,
            multi_signature: self.multi_signature.clone(),
        }
    }
}

impl ProofOfStore {
    pub fn new(digest: HashValue, expiration: LogicalTime, multi_signature: Vec<u8>) -> (p: Self)
        ensures
            p.digest == digest,
            p.expiration == expiration,
            p.multi_signature == multi_signature,
    {
        Self { digest, expiration, multi_signature }
    }

    pub fn digest(&self) -> (d: &HashValue)
        ensures
            *d == self.digest,
    {
        &self.digest
    }

    pub fn expiration(&self) -> (t: LogicalTime)
        ensures
            t == self.expiration,
    {
        self.expiration
    }
}

/// What a sequence of transaction data stands for.
pub open spec fn txn_data_views(txns: Seq<TxnData>) -> Seq<TxnDataView> {
    Seq::new(txns.len(), |i: int| txns[i]@)
}

/// A command for the certification backend.
///
/// The two reply channels that go with `EndBatch` are made by whoever sends
/// the command.
#[derive(Debug, PartialEq, Eq)]
pub enum QuorumStoreCommand {
    /// Add these transactions to the open batch.
    AppendToBatch(Vec<TxnData>),
    /// Add these transactions, then close the batch with this expiration.
    EndBatch(Vec<TxnData>, LogicalTime),
}

/// What a `QuorumStoreCommand` stands for.
pub enum QuorumStoreCommandView {
    AppendToBatch(Seq<TxnDataView>),
    EndBatch(Seq<TxnDataView>, LogicalTime),
}

impl View for QuorumStoreCommand {
    type V = QuorumStoreCommandView;

    open spec fn view(&self) -> QuorumStoreCommandView {
        match self {
            QuorumStoreCommand::AppendToBatch(txns) => QuorumStoreCommandView::AppendToBatch(
                txn_data_views(txns@),
            ),
            QuorumStoreCommand::EndBatch(txns, expiration) => QuorumStoreCommandView::EndBatch(
                txn_data_views(txns@),
                *expiration,
            ),
        }
    }
}

/// What a sequence of proofs stands for.
pub open spec fn proof_views(proofs: Seq<ProofOfStore>) -> Seq<ProofOfStoreView> {
    Seq::new(proofs.len(), |i: int| proofs[i]@)
}

/// What consensus asks to be left out of a block.
#[derive(Debug, PartialEq, Eq)]
pub enum PayloadFilter {
    /// Nothing.
    Empty,
    /// These transactions. Consensus sends this only where blocks hold
    /// transactions, never to the wrapper.
    DirectMempool(Vec<TransactionSummary>),
    /// The proofs of the batches with these digests.
    InQuorumStore(Vec<HashValue>),
}

impl PayloadFilter {
    /// The digests that the filter excludes.
    pub open spec fn excluded(self) -> Seq<HashValue> {
        match self {
            PayloadFilter::InQuorumStore(digests) => digests@,
            _ => Seq::empty(),
        }
    }
}

/// What a block holds.
#[derive(Debug, PartialEq, Eq)]
pub enum Payload {
    /// Transactions.
    DirectMempool(Vec<Transaction>),
    /// Proofs of stored batches.
    InQuorumStore(Vec<ProofOfStore>),
}

/// An answer to consensus.
#[derive(Debug, PartialEq, Eq)]
pub enum ConsensusResponse {
    GetBlockResponse(Payload),
}

/// A request of consensus. The channel on which the answer to a
/// `GetBlockRequest` goes back is kept by whoever received the request.
#[derive(Debug, PartialEq, Eq)]
pub enum WrapperCommand {
    /// Asks for at most so many proofs, none of them under the filter.
    GetBlockRequest(u64, PayloadFilter),
    /// Says that the logical clock has reached this time and that the
    /// batches with these digests are committed or expired.
    CleanRequest(LogicalTime, Vec<HashValue>),
}

/// A message to the other validators.
#[derive(Debug, PartialEq, Eq)]
pub enum ConsensusMsg {
    ProofOfStoreBroadcastMsg(Box<ProofOfStore>),
}

/// A verified message of another validator.
#[derive(Debug, PartialEq, Eq)]
pub enum VerifiedEvent {
    /// A proof that the sender gathered.
    ProofOfStoreBroadcast(Box<ProofOfStore>),
    /// Anything that does not concern the wrapper.
    Other,
}

/// An error that the certification backend reports.
#[derive(Clone, Copy, Debug, PartialEq, Eq)]
pub enum QuorumStoreError {
    /// No proof was gathered in time for the batch with this digest.
    Timeout(HashValue),
    /// The batch is larger than the backend accepts.
    BatchSizeLimit,
}

/// Why the wrapper cannot go on. Each of these is fatal to the process that
/// runs the wrapper.
#[derive(Clone, Copy, Debug, PartialEq, Eq)]
pub enum WrapperError {
    /// A pulled transaction has no serialization.
    Serialization,
    /// The backend refused to close a batch as too large, which the byte
    /// limit of the batch builder is there to rule out.
    BatchSizeLimit,
    /// The backend reported an error that it never reports at this point.
    UnexpectedBackendError,
    /// Consensus sent a filter of transactions where one of proofs is due.
    InvalidFilter,
}

} // verus!
