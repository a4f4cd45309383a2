use quorum_store::logical_time::LogicalTime;
use quorum_store::quorum_store_wrapper::QuorumStoreWrapper;
use quorum_store::types::{
    AccountAddress, ConsensusMsg, ConsensusResponse, HashValue, Payload, PayloadFilter,
    ProofOfStore, QuorumStoreError, Transaction, TransactionSummary, WrapperCommand, WrapperError,
};

fn digest(byte: u8) -> HashValue {
    HashValue::new([byte; 32])
}

fn proof_of(digest_byte: u8, epoch: u64, round: u64) -> ProofOfStore {
    ProofOfStore::new(digest(digest_byte), LogicalTime::new(epoch, round), vec![digest_byte])
}

fn signed(digest_byte: u8, epoch: u64, round: u64, signature: u8) -> ProofOfStore {
    ProofOfStore::new(digest(digest_byte), LogicalTime::new(epoch, round), vec![signature])
}

fn block(response: Option<ConsensusResponse>) -> Vec<ProofOfStore> {
    match response {
        Some(ConsensusResponse::GetBlockResponse(Payload::InQuorumStore(batch))) => batch,
        other => panic!("no block of proofs: {:?}", other),
    }
}

fn digests_of(batch: &Vec<ProofOfStore>) -> Vec<HashValue> {
    batch.iter().map(|p| *p.digest()).collect()
}

#[test]
fn proof_supersede() {
    let mut wrapper = QuorumStoreWrapper::new(1, 10, 1000);
    wrapper.insert_proof(proof_of(1, 1, 10));
    wrapper.insert_proof(proof_of(1, 1, 5));
    assert_eq!(wrapper.stored_proof(&digest(1)).unwrap().expiration(), LogicalTime::new(1, 10));
    assert_eq!(wrapper.num_batches_for_consensus(), 1);
}

#[test]
fn proof_with_later_expiration_replaces_the_stored_one() {
    let mut wrapper = QuorumStoreWrapper::new(1, 10, 1000);
    wrapper.insert_proof(proof_of(1, 1, 5));
    wrapper.insert_proof(proof_of(1, 1, 10));
    assert_eq!(wrapper.stored_proof(&digest(1)).unwrap().expiration(), LogicalTime::new(1, 10));
    wrapper.insert_proof(proof_of(1, 2, 0));
    assert_eq!(wrapper.stored_proof(&digest(1)).unwrap().expiration(), LogicalTime::new(2, 0));
    wrapper.insert_proof(proof_of(1, 1, 999));
    assert_eq!(wrapper.stored_proof(&digest(1)).unwrap().expiration(), LogicalTime::new(2, 0));
}

#[test]
fn proof_with_equal_expiration_replaces_the_stored_one() {
    let mut wrapper = QuorumStoreWrapper::new(1, 10, 1000);
    wrapper.insert_proof(signed(1, 1, 10, 0xaa));
    wrapper.insert_proof(signed(1, 1, 10, 0xbb));
    assert_eq!(wrapper.stored_proof(&digest(1)).unwrap().multi_signature, vec![0xbb]);
    wrapper.insert_proof(signed(1, 1, 9, 0xcc));
    assert_eq!(wrapper.stored_proof(&digest(1)).unwrap().multi_signature, vec![0xbb]);
}

#[test]
fn stored_expiration_is_the_maximum_in_either_order() {
    let expirations = [(1u64, 10u64), (1, 5), (2, 0), (0, 99), (1, 10)];
    for a in expirations.iter() {
        for b in expirations.iter() {
            let expected = std::cmp::max(LogicalTime::new(a.0, a.1), LogicalTime::new(b.0, b.1));
            let mut first = QuorumStoreWrapper::new(1, 10, 1000);
            first.insert_proof(proof_of(3, a.0, a.1));
            first.insert_proof(proof_of(3, b.0, b.1));
            let mut second = QuorumStoreWrapper::new(1, 10, 1000);
            second.insert_proof(proof_of(3, b.0, b.1));
            second.insert_proof(proof_of(3, a.0, a.1));
            assert_eq!(first.stored_proof(&digest(3)).unwrap().expiration(), expected);
            assert_eq!(second.stored_proof(&digest(3)).unwrap().expiration(), expected);
        }
    }
}

#[test]
fn proofs_for_other_digests_are_untouched() {
    let mut wrapper = QuorumStoreWrapper::new(1, 10, 1000);
    wrapper.insert_proof(proof_of(1, 1, 10));
    wrapper.insert_proof(proof_of(2, 1, 3));
    wrapper.insert_proof(proof_of(1, 1, 11));
    assert_eq!(wrapper.num_batches_for_consensus(), 2);
    assert_eq!(wrapper.stored_proof(&digest(2)).unwrap(), &proof_of(2, 1, 3));
    assert_eq!(wrapper.stored_proof(&digest(1)).unwrap(), &proof_of(1, 1, 11));
    assert!(wrapper.stored_proof(&digest(3)).is_none());
}

#[test]
fn consensus_block_with_exclusion() {
    let mut wrapper = QuorumStoreWrapper::new(1, 10, 1000);
    wrapper.insert_proof(proof_of(0xa, 1, 10));
    wrapper.insert_proof(proof_of(0xb, 1, 10));
    wrapper.insert_proof(proof_of(0xc, 1, 10));
    let request =
        WrapperCommand::GetBlockRequest(2, PayloadFilter::InQuorumStore(vec![digest(0xb)]));
    let batch = block(wrapper.handle_consensus_request(request).unwrap());
    assert_eq!(batch.len(), 2);
    assert!(digests_of(&batch).contains(&digest(0xa)));
    assert!(digests_of(&batch).contains(&digest(0xc)));
    assert_eq!(batch, vec![proof_of(0xa, 1, 10), proof_of(0xc, 1, 10)]);
    assert_eq!(wrapper.num_batches_for_consensus(), 3);
}

#[test]
fn consensus_block_is_cut_at_the_size_asked_for() {
    let mut wrapper = QuorumStoreWrapper::new(1, 10, 1000);
    for byte in 0..10u8 {
        wrapper.insert_proof(proof_of(byte, 1, 10));
    }
    for max in 0..12u64 {
        let request = WrapperCommand::GetBlockRequest(max, PayloadFilter::Empty);
        let batch = block(wrapper.handle_consensus_request(request).unwrap());
        assert_eq!(batch.len() as u64, std::cmp::min(max, 10));
        for (i, p) in batch.iter().enumerate() {
            assert_eq!(*p, proof_of(i as u8, 1, 10));
        }
    }
    let request = WrapperCommand::GetBlockRequest(u64::MAX, PayloadFilter::Empty);
    assert_eq!(block(wrapper.handle_consensus_request(request).unwrap()).len(), 10);
}

#[test]
fn consensus_block_holds_stored_proofs_that_are_not_excluded() {
    let mut wrapper = QuorumStoreWrapper::new(1, 10, 1000);
    for byte in 0..20u8 {
        wrapper.insert_proof(proof_of(byte, 1, byte as u64));
    }
    let excluded: Vec<HashValue> = vec![digest(0), digest(3), digest(4), digest(19), digest(77)];
    for max in [0u64, 1, 5, 15, 16, 100] {
        let batch = wrapper.get_block(max, &excluded);
        assert!(batch.len() as u64 <= max);
        assert_eq!(batch.len() as u64, std::cmp::min(max, 16));
        for p in batch.iter() {
            assert!(!excluded.contains(p.digest()));
            assert_eq!(wrapper.stored_proof(p.digest()), Some(p));
        }
    }
}

#[test]
fn consensus_block_comes_in_the_order_of_storing() {
    let mut wrapper = QuorumStoreWrapper::new(1, 10, 1000);
    wrapper.insert_proof(proof_of(1, 1, 10));
    wrapper.insert_proof(proof_of(2, 1, 10));
    wrapper.insert_proof(proof_of(3, 1, 10));
    // A proof that comes again counts as the newest, whichever of the two is kept.
    wrapper.insert_proof(proof_of(1, 1, 4));
    let batch = wrapper.get_block(3, &Vec::new());
    assert_eq!(batch, vec![proof_of(2, 1, 10), proof_of(3, 1, 10), proof_of(1, 1, 10)]);
}

#[test]
fn consensus_block_of_an_empty_registry_is_empty() {
    let mut wrapper = QuorumStoreWrapper::new(1, 10, 1000);
    let request = WrapperCommand::GetBlockRequest(5, PayloadFilter::Empty);
    assert_eq!(
        wrapper.handle_consensus_request(request),
        Ok(Some(ConsensusResponse::GetBlockResponse(Payload::InQuorumStore(Vec::new()))))
    );
}

#[test]
fn filter_of_transactions_is_invalid() {
    let mut wrapper = QuorumStoreWrapper::new(1, 10, 1000);
    wrapper.insert_proof(proof_of(1, 1, 10));
    let filter = PayloadFilter::DirectMempool(vec![TransactionSummary {
        sender: AccountAddress::new([1; 32]),
        sequence_number: 0,
    }]);
    assert_eq!(
        wrapper.handle_consensus_request(WrapperCommand::GetBlockRequest(5, filter)),
        Err(WrapperError::InvalidFilter)
    );
    assert_eq!(
        wrapper
            .handle_consensus_request(WrapperCommand::GetBlockRequest(
                5,
                PayloadFilter::DirectMempool(Vec::new())
            )),
        Err(WrapperError::InvalidFilter)
    );
    assert_eq!(wrapper.num_batches_for_consensus(), 1);
}

#[test]
fn clean_removes_both_maps() {
    let mut wrapper = QuorumStoreWrapper::new(1, 10, 150);
    let d = digest(0xd);
    let txn = |n: u64| Transaction::new(AccountAddress::new([1; 32]), n, vec![0; 59]);
    wrapper.handle_scheduled_pull(vec![txn(0), txn(1)]).unwrap();
    wrapper.handle_batch_digest(Some(Ok(d))).unwrap();
    wrapper.insert_proof(proof_of(0xd, 1, 20));
    assert!(wrapper.filtered_batch(&d).is_some());
    assert!(wrapper.stored_proof(&d).is_some());

    let request = WrapperCommand::CleanRequest(LogicalTime::new(2, 0), vec![d]);
    assert_eq!(wrapper.handle_consensus_request(request), Ok(None));
    assert!(wrapper.filtered_batch(&d).is_none());
    assert!(wrapper.stored_proof(&d).is_none());
    assert_eq!(wrapper.num_batches_to_filter(), 0);
    assert_eq!(wrapper.num_batches_for_consensus(), 0);
    assert_eq!(wrapper.latest_logical_time(), LogicalTime::new(2, 0));
}

#[test]
fn clean_leaves_other_digests_and_sets_the_time() {
    let mut wrapper = QuorumStoreWrapper::new(1, 10, 1000);
    for byte in 0..6u8 {
        wrapper.insert_proof(proof_of(byte, 1, 10));
    }
    wrapper.clean(LogicalTime::new(1, 44), &vec![digest(1), digest(4), digest(4), digest(9)]);
    assert_eq!(wrapper.latest_logical_time(), LogicalTime::new(1, 44));
    assert_eq!(
        wrapper.get_block(10, &Vec::new()),
        vec![proof_of(0, 1, 10), proof_of(2, 1, 10), proof_of(3, 1, 10), proof_of(5, 1, 10)]
    );
    for byte in [1u8, 4, 9] {
        assert!(wrapper.stored_proof(&digest(byte)).is_none());
    }
}

#[test]
fn clean_twice_is_clean_once() {
    let mut once = QuorumStoreWrapper::new(1, 10, 150);
    let mut twice = QuorumStoreWrapper::new(1, 10, 150);
    let txn = |n: u64| Transaction::new(AccountAddress::new([1; 32]), n, vec![0; 59]);
    for wrapper in [&mut once, &mut twice] {
        for byte in 0..4u8 {
            wrapper.handle_scheduled_pull(vec![txn(byte as u64), txn(100)]).unwrap();
            wrapper.handle_batch_digest(Some(Ok(digest(byte)))).unwrap();
            wrapper.insert_proof(proof_of(byte, 1, 30));
        }
    }
    let digests = vec![digest(0), digest(2)];
    once.clean(LogicalTime::new(1, 9), &digests);
    twice.clean(LogicalTime::new(1, 9), &digests);
    twice.clean(LogicalTime::new(1, 9), &digests);
    assert_eq!(once.latest_logical_time(), twice.latest_logical_time());
    assert_eq!(once.exclude_txns(), twice.exclude_txns());
    assert_eq!(once.get_block(10, &Vec::new()), twice.get_block(10, &Vec::new()));
    assert_eq!(once.num_batches_to_filter(), 2);
    assert_eq!(twice.num_batches_to_filter(), 2);
    assert_eq!(twice.num_batches_for_consensus(), 2);
}

#[test]
fn clean_may_move_the_clock_backwards() {
    let mut wrapper = QuorumStoreWrapper::new(5, 10, 150);
    wrapper.clean(LogicalTime::new(3, 2), &Vec::new());
    assert_eq!(wrapper.latest_logical_time(), LogicalTime::new(3, 2));
}

#[test]
fn local_proof_is_stored_and_broadcast() {
    let mut wrapper = QuorumStoreWrapper::new(1, 10, 1000);
    let message = wrapper.handle_local_proof(Ok(proof_of(1, 1, 10))).unwrap();
    assert_eq!(message, Some(ConsensusMsg::ProofOfStoreBroadcastMsg(Box::new(proof_of(1, 1, 10)))));
    assert_eq!(wrapper.stored_proof(&digest(1)).unwrap(), &proof_of(1, 1, 10));
}

#[test]
fn local_proof_that_is_superseded_is_still_broadcast() {
    let mut wrapper = QuorumStoreWrapper::new(1, 10, 1000);
    wrapper.insert_proof(proof_of(1, 1, 30));
    let message = wrapper.handle_local_proof(Ok(proof_of(1, 1, 10))).unwrap();
    assert_eq!(message, Some(ConsensusMsg::ProofOfStoreBroadcastMsg(Box::new(proof_of(1, 1, 10)))));
    assert_eq!(wrapper.stored_proof(&digest(1)).unwrap(), &proof_of(1, 1, 30));
}

#[test]
fn local_proof_timeout_keeps_the_filter_entry() {
    let mut wrapper = QuorumStoreWrapper::new(1, 10, 150);
    let txn = |n: u64| Transaction::new(AccountAddress::new([1; 32]), n, vec![0; 59]);
    wrapper.handle_scheduled_pull(vec![txn(0), txn(1)]).unwrap();
    wrapper.handle_batch_digest(Some(Ok(digest(1)))).unwrap();
    assert_eq!(wrapper.handle_local_proof(Err(QuorumStoreError::Timeout(digest(1)))), Ok(None));
    assert_eq!(wrapper.filtered_batch(&digest(1)).unwrap().len(), 1);
    assert_eq!(wrapper.num_batches_for_consensus(), 0);
}

#[test]
fn local_proof_batch_size_limit_is_unexpected() {
    let mut wrapper = QuorumStoreWrapper::new(1, 10, 150);
    assert_eq!(
        wrapper.handle_local_proof(Err(QuorumStoreError::BatchSizeLimit)),
        Err(WrapperError::UnexpectedBackendError)
    );
}
