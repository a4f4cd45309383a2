//! How many of the transactions of a pull a batch takes.

use crate::codec::{encoding_of, txn_data_hash_of};
use crate::types::{SerializedTransaction, Transaction, TransactionSummary, TxnDataView};
use vstd::prelude::*;

verus! {

/// The summaries of the transactions, in order.
pub open spec fn summaries_of(txns: Seq<Transaction>) -> Seq<TransactionSummary> {
    Seq::new(txns.len(), |i: int| txns[i].spec_summary())
}

/// The serializations of the transactions, in order.
pub open spec fn encodings_of(txns: Seq<Transaction>) -> Seq<Option<Seq<u8>>> {
    Seq::new(txns.len(), |i: int| encoding_of(txns[i]))
}

/// The summaries of the serialized transactions, in order.
pub open spec fn serialized_summaries(
    pulled: Seq<SerializedTransaction>,
) -> Seq<TransactionSummary> {
    Seq::new(pulled.len(), |i: int| pulled[i].summary)
}

/// The serializations of the serialized transactions, in order.
pub open spec fn serialized_encodings(pulled: Seq<SerializedTransaction>) -> Seq<Option<Seq<u8>>> {
    Seq::new(pulled.len(), |i: int| pulled[i].encoding())
}

/// The transaction data made of serialized bytes: the bytes and their hash.
pub open spec fn txn_data_of(txn_bytes: Seq<u8>) -> TxnDataView {
    TxnDataView { txn_bytes, hash: txn_data_hash_of(txn_bytes) }
}

/// The transaction data of the first `k` serializations.
pub open spec fn txn_data_prefix(encodings: Seq<Option<Seq<u8>>>, k: int) -> Seq<TxnDataView> {
    Seq::new(k as nat, |i: int| txn_data_of(encodings[i].unwrap()))
}

/// The serialized size of a transaction, 0 where it has no serialization.
pub open spec fn encoded_len(encoding: Option<Seq<u8>>) -> nat {
    match encoding {
        Some(bytes) => bytes.len(),
        None => 0,
    }
}

/// The sum of the serialized sizes.
pub open spec fn total_len(encodings: Seq<Option<Seq<u8>>>) -> nat
    decreases encodings.len(),
{
    if encodings.len() == 0 {
        0
    } else {
        total_len(encodings.drop_last()) + encoded_len(encodings.last())
    }
}

/// Whether the first `k` transactions can all be taken into a batch that
/// holds `in_progress` bytes already and may hold `max` bytes: each of them
/// has a serialization, and together they fit.
pub open spec fn accepts(
    encodings: Seq<Option<Seq<u8>>>,
    in_progress: nat,
    max: nat,
    k: int,
) -> bool {
    &&& 0 <= k <= encodings.len()
    &&& forall|i: int| 0 <= i < k ==> (#[trigger] encodings[i]) is Some
    &&& in_progress + total_len(encodings.take(k)) <= max
}

/// Whether the first `k` transactions are accepted and no longer prefix is.
pub open spec fn accepts_longest(
    encodings: Seq<Option<Seq<u8>>>,
    in_progress: nat,
    max: nat,
    k: int,
) -> bool {
    &&& accepts(encodings, in_progress, max, k)
    &&& k == encodings.len() || !accepts(encodings, in_progress, max, k + 1)
}

/// The number of transactions taken from the front of a pull: the length of
/// the longest prefix that the batch accepts.
pub open spec fn taken(encodings: Seq<Option<Seq<u8>>>, in_progress: nat, max: nat) -> int {
    choose|k: int| #[trigger] accepts_longest(encodings, in_progress, max, k)
}

/// One more transaction adds its serialized size to the total.
pub proof fn lemma_total_len_step(encodings: Seq<Option<Seq<u8>>>, k: int)
    requires
        0 <= k < encodings.len(),
    ensures
        total_len(encodings.take(k + 1)) == total_len(encodings.take(k)) + encoded_len(
            encodings[k],
        ),
        total_len(encodings.take(0)) == 0,
{
    assert(encodings.take(k + 1).drop_last() =~= encodings.take(k));
}

/// A prefix of an accepted prefix is accepted.
pub proof fn lemma_accepts_prefix(
    encodings: Seq<Option<Seq<u8>>>,
    in_progress: nat,
    max: nat,
    k: int,
    j: int,
)
    requires
        accepts(encodings, in_progress, max, k),
        0 <= j <= k,
    ensures
        accepts(encodings, in_progress, max, j),
    decreases k - j,
{
    if j < k {
        lemma_accepts_prefix(encodings, in_progress, max, k, j + 1);
        lemma_total_len_step(encodings, j);
    }
}

/// The longest accepted prefix is unique: a length that is accepted, and
/// that is the whole pull or cannot be extended, is the number taken.
pub proof fn lemma_taken_is(encodings: Seq<Option<Seq<u8>>>, in_progress: nat, max: nat, k: int)
    requires
        accepts_longest(encodings, in_progress, max, k),
    ensures
        taken(encodings, in_progress, max) == k,
{
    let t = taken(encodings, in_progress, max);
    if t < k {
        lemma_accepts_prefix(encodings, in_progress, max, k, t + 1);
    } else if k < t {
        lemma_accepts_prefix(encodings, in_progress, max, t, k + 1);
    }
}

/// Some prefix is the longest one that the batch accepts: from an accepted
/// prefix on there is one that is accepted and cannot be extended.
pub proof fn lemma_longest_exists(
    encodings: Seq<Option<Seq<u8>>>,
    in_progress: nat,
    max: nat,
    from: int,
) -> (k: int)
    requires
        accepts(encodings, in_progress, max, from),
    ensures
        from <= k,
        accepts_longest(encodings, in_progress, max, k),
    decreases encodings.len() - from,
{
    if from < encodings.len() && accepts(encodings, in_progress, max, from + 1) {
        lemma_longest_exists(encodings, in_progress, max, from + 1)
    } else {
        from
    }
}

/// The number taken is the length of an accepted prefix that cannot be
/// extended, whenever the batch is within its limit to begin with.
pub proof fn lemma_taken_accepts(encodings: Seq<Option<Seq<u8>>>, in_progress: nat, max: nat)
    requires
        in_progress <= max,
    ensures
        accepts_longest(encodings, in_progress, max, taken(encodings, in_progress, max)),
{
    let k = lemma_longest_exists(encodings, in_progress, max, 0);
}

} // verus!
