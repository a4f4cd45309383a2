//! Serialization and hashing of transactions.

use crate::types::{HashValue, Transaction};
use vstd::prelude::*;

verus! {

/// The longest byte sequence that BCS serializes: 2^31 - 1 elements.
pub const MAX_SEQUENCE_LENGTH: usize = 0x7fff_ffff;

/// The error of `bcs::to_bytes`.
#[verifier::external_type_specification]
#[verifier::external_body]
pub struct ExBcsError(bcs::Error);

/// The BCS serialization of a transaction, given by its sender's address,
/// its sequence number and its payload; `None` where BCS refuses the value.
pub uninterp spec fn bcs_encoding(
    sender: Seq<u8>,
    sequence_number: u64,
    payload: Seq<u8>,
) -> Option<Seq<u8>>;

/// The SHA3-256 digest of a byte sequence.
pub uninterp spec fn sha3_256(input: Seq<u8>) -> Seq<u8>;

/// Calls `bcs::to_bytes` on the triple of the sender's address (a fixed
/// array of 32 bytes), the sequence number and the payload.
///
/// Trusted: the result is the BCS serialization of the triple, and the call
/// fails exactly when the payload is longer than BCS allows a sequence to be,
/// which is the only failure that the serializer has for these types.
#[verifier::external_body]
pub(crate) fn bcs_to_bytes(txn: &Transaction) -> (r: Result<Vec<u8>, bcs::Error>)
    ensures
        match r {
            Ok(bytes) => bcs_encoding(txn.sender.bytes@, txn.sequence_number, txn.payload@)
                == Some(bytes@),
            Err(_) => bcs_encoding(txn.sender.bytes@, txn.sequence_number, txn.payload@)
                is None,
        },
        r is Err <==> txn.payload@.len() > MAX_SEQUENCE_LENGTH,
{
    bcs::to_bytes(&(&txn.sender.bytes, txn.sequence_number, &txn.payload))
}

/// Feeds `input` to a fresh `tiny_keccak::Sha3::v256()` hasher with
/// `Hasher::update` and reads the digest with `Hasher::finalize`.
///
/// Trusted: the 32 bytes that come out are the SHA3-256 digest of `input`.
#[verifier::external_body]
pub(crate) fn sha3_256_digest(input: &Vec<u8>) -> (digest: [u8; 32])
    ensures
        digest@ == sha3_256(input@),
{
    let mut hasher = tiny_keccak::Sha3::v256();
    tiny_keccak::Hasher::update(&mut hasher, input.as_slice());
    let mut digest = [0u8; 32];
    tiny_keccak::Hasher::finalize(hasher, &mut digest);
    digest
}

/// The serialization of a transaction, if it has one.
pub open spec fn encoding_of(txn: Transaction) -> Option<Seq<u8>> {
    bcs_encoding(txn.sender.bytes@, txn.sequence_number, txn.payload@)
}

/// The domain tag of transaction data: the ASCII bytes of `TxnData`.
pub open spec fn txn_data_tag() -> Seq<u8> {
    seq![0x54u8, 0x78u8, 0x6eu8, 0x44u8, 0x61u8, 0x74u8, 0x61u8]
}

/// The content hash of serialized transaction bytes: the digest of the
/// domain tag followed by the bytes.
pub open spec fn txn_data_hash_of(txn_bytes: Seq<u8>) -> Seq<u8> {
    sha3_256(txn_data_tag() + txn_bytes)
}

/// Serializes a transaction.
///
/// Returns `None` exactly when the transaction has no serialization, which
/// is when its payload is longer than `MAX_SEQUENCE_LENGTH`.
pub fn serialize_transaction(txn: &Transaction) -> (r: Option<Vec<u8>>)
    ensures
        match r {
            Some(bytes) => encoding_of(*txn) == Some(bytes@),
            None => encoding_of(*txn) is None,
        },
        r is None <==> txn.payload@.len() > MAX_SEQUENCE_LENGTH,
{
    match bcs_to_bytes(txn) {
        Ok(bytes) => Some(bytes),
        Err(_) => None,
    }
}

/// Hashes serialized transaction bytes under the `TxnData` domain tag.
pub fn txn_data_hash(txn_bytes: &Vec<u8>) -> (h: HashValue)
    ensures
        h.hash@ == txn_data_hash_of(txn_bytes@),
{
    let mut input: Vec<u8> = Vec::new();
    input.push(0x54u8);
    input.push(0x78u8);
    input.push(0x6eu8);
    input.push(0x44u8);
    input.push(0x61u8);
    input.push(0x74u8);
    input.push(0x61u8);
    input.extend_from_slice(txn_bytes.as_slice());
    assert(input@ =~= txn_data_tag() + txn_bytes@);
    HashValue::new(sha3_256_digest(&input))
}

} // verus!
