use quorum_store::codec::{serialize_transaction, txn_data_hash, MAX_SEQUENCE_LENGTH};
use quorum_store::quorum_store_wrapper::QuorumStoreWrapper;
use quorum_store::types::{AccountAddress, HashValue, Transaction, WrapperError};

#[test]
fn serialization_is_address_number_length_payload() {
    let txn = Transaction::new(AccountAddress::new([7; 32]), 0x0102030405060708, vec![1, 2, 3]);
    let bytes = serialize_transaction(&txn).unwrap();
    let mut expected = vec![7u8; 32];
    expected.extend_from_slice(&[8, 7, 6, 5, 4, 3, 2, 1]);
    expected.push(3);
    expected.extend_from_slice(&[1, 2, 3]);
    assert_eq!(bytes, expected);
    assert_eq!(bytes.len(), 44);
}

#[test]
fn serialization_of_a_longer_payload_has_a_longer_prefix() {
    let txn = Transaction::new(AccountAddress::new([0; 32]), 0, vec![9; 200]);
    let bytes = serialize_transaction(&txn).unwrap();
    assert_eq!(bytes.len(), 32 + 8 + 2 + 200);
    assert_eq!(&bytes[40..42], &[0xc8, 0x01]);
}

#[test]
fn serialization_of_an_empty_payload() {
    let txn = Transaction::new(AccountAddress::new([0; 32]), u64::MAX, Vec::new());
    let bytes = serialize_transaction(&txn).unwrap();
    assert_eq!(bytes.len(), 41);
    assert_eq!(&bytes[32..40], &[0xff; 8]);
    assert_eq!(bytes[40], 0);
}

#[test]
fn payload_longer_than_a_sequence_may_be_has_no_serialization() {
    let txn = Transaction::new(AccountAddress::new([0; 32]), 0, vec![0; MAX_SEQUENCE_LENGTH + 1]);
    assert_eq!(serialize_transaction(&txn), None);
    let mut wrapper = QuorumStoreWrapper::new(1, 10, u64::MAX);
    let first = Transaction::new(AccountAddress::new([0; 32]), 0, vec![0; 59]);
    assert_eq!(
        wrapper.handle_scheduled_pull(vec![first, txn]),
        Err(WrapperError::Serialization)
    );
    // What was taken before the failure stays taken.
    assert_eq!(wrapper.batch_in_progress().len(), 1);
    assert_eq!(wrapper.bytes_in_progress(), 100);
}

#[test]
fn hash_is_sha3_256_of_tag_and_bytes() {
    let expected_empty = HashValue::new([
        0x5f, 0x4d, 0x17, 0x98, 0x52, 0x74, 0x7e, 0x99, 0x73, 0x73, 0xce, 0x0a, 0xb9, 0x81, 0x5e,
        0xc0, 0x04, 0xd5, 0x9d, 0x76, 0x6d, 0x39, 0xc1, 0xac, 0x8d, 0xef, 0xce, 0x5b, 0xe8, 0x77,
        0xcf, 0xaf,
    ]);
    assert_eq!(txn_data_hash(&Vec::new()), expected_empty);
    let expected_abc = HashValue::new([
        0xba, 0x19, 0xf5, 0xd9, 0xd4, 0x88, 0x70, 0x3a, 0xa7, 0x5a, 0x05, 0x8e, 0x60, 0x26, 0x94,
        0x75, 0xf7, 0x09, 0x0b, 0xed, 0xf2, 0xad, 0xe2, 0x0d, 0xcb, 0x8c, 0xfd, 0xe7, 0x52, 0xda,
        0xb3, 0x2a,
    ]);
    assert_eq!(txn_data_hash(&b"abc".to_vec()), expected_abc);
}

#[test]
fn hash_of_a_serialized_transaction() {
    let txn = Transaction::new(AccountAddress::new([7; 32]), 0x0102030405060708, vec![1, 2, 3]);
    let bytes = serialize_transaction(&txn).unwrap();
    let expected = HashValue::new([
        0x48, 0x58, 0xb4, 0xbf, 0x91, 0xc5, 0x8c, 0xa4, 0xe0, 0xc0, 0x9a, 0xd0, 0x55, 0x04, 0x66,
        0x60, 0x74, 0xb2, 0xfb, 0xe7, 0x79, 0x75, 0x0b, 0x10, 0x10, 0xda, 0x7a, 0x00, 0xf8, 0x2e,
        0x92, 0x0f,
    ]);
    assert_eq!(txn_data_hash(&bytes), expected);
}

#[test]
fn hash_value_equals_compares_all_bytes() {
    let a = HashValue::new([1; 32]);
    let mut other = [1u8; 32];
    assert!(a.equals(&HashValue::new(other)));
    other[31] = 2;
    assert!(!a.equals(&HashValue::new(other)));
    other[31] = 1;
    other[0] = 0;
    assert!(!a.equals(&HashValue::new(other)));
}
