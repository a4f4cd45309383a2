use quorum_store::event_loop::{WrapperAction, WrapperEvent};
use quorum_store::logical_time::LogicalTime;
use quorum_store::quorum_store_wrapper::QuorumStoreWrapper;
use quorum_store::types::{
    AccountAddress, ConsensusMsg, ConsensusResponse, HashValue, Payload, PayloadFilter,
    ProofOfStore, QuorumStoreCommand, QuorumStoreError, Transaction, VerifiedEvent,
    WrapperCommand, WrapperError,
};

fn txn(sequence_number: u64) -> Transaction {
    Transaction::new(AccountAddress::new([1; 32]), sequence_number, vec![0; 59])
}

fn a_digest(byte: u8) -> HashValue {
    HashValue::new([byte; 32])
}

fn a_proof(digest_byte: u8, round: u64) -> ProofOfStore {
    ProofOfStore::new(a_digest(digest_byte), LogicalTime::new(1, round), Vec::new())
}

#[test]
fn event_pull_under_the_limit_sends_an_append() {
    let mut wrapper = QuorumStoreWrapper::new(1, 10, 1000);
    let action = wrapper.handle_event(WrapperEvent::Pulled(Some(vec![txn(0), txn(1)]))).unwrap();
    match action {
        WrapperAction::SendToBackend(QuorumStoreCommand::AppendToBatch(txns)) => {
            assert_eq!(txns.len(), 2)
        }
        other => panic!("unexpected action {:?}", other),
    }
    assert_eq!(wrapper.bytes_in_progress(), 200);
}

#[test]
fn event_pull_over_the_limit_ends_the_batch_and_waits_for_the_proof() {
    let mut wrapper = QuorumStoreWrapper::new(1, 10, 250);
    let pulled = vec![txn(0), txn(1), txn(2)];
    let action = wrapper.handle_event(WrapperEvent::Pulled(Some(pulled))).unwrap();
    match action {
        WrapperAction::SendToBackend(QuorumStoreCommand::EndBatch(txns, expiration)) => {
            assert_eq!(txns.len(), 2);
            assert_eq!(expiration, LogicalTime::new(1, 20));
        }
        other => panic!("unexpected action {:?}", other),
    }
    let action = wrapper.handle_event(WrapperEvent::BatchDigest(Some(Ok(a_digest(1)))));
    assert_eq!(action, Ok(WrapperAction::AwaitProof));
    assert_eq!(wrapper.filtered_batch(&a_digest(1)).unwrap().len(), 2);
    assert!(wrapper.batch_in_progress().is_empty());
    assert_eq!(wrapper.bytes_in_progress(), 0);
}

#[test]
fn event_mempool_unavailable_skips_the_tick() {
    let mut wrapper = QuorumStoreWrapper::new(1, 10, 1000);
    wrapper.handle_event(WrapperEvent::Pulled(Some(vec![txn(0)]))).unwrap();
    assert_eq!(wrapper.handle_event(WrapperEvent::Pulled(None)), Ok(WrapperAction::Idle));
    assert_eq!(wrapper.batch_in_progress().len(), 1);
    assert_eq!(wrapper.bytes_in_progress(), 100);
    assert_eq!(wrapper.num_batches_to_filter(), 0);
}

#[test]
fn event_lost_digest_is_passed_over() {
    let mut wrapper = QuorumStoreWrapper::new(1, 10, 150);
    wrapper.handle_event(WrapperEvent::Pulled(Some(vec![txn(0), txn(1)]))).unwrap();
    assert_eq!(wrapper.handle_event(WrapperEvent::BatchDigest(None)), Ok(WrapperAction::Idle));
    assert_eq!(wrapper.batch_in_progress().len(), 1);
}

#[test]
fn event_backend_errors_are_fatal() {
    let mut wrapper = QuorumStoreWrapper::new(1, 10, 150);
    assert_eq!(
        wrapper
            .handle_event(WrapperEvent::BatchDigest(Some(Err(QuorumStoreError::BatchSizeLimit)))),
        Err(WrapperError::BatchSizeLimit)
    );
    assert_eq!(
        wrapper.handle_event(WrapperEvent::BatchDigest(Some(Err(QuorumStoreError::Timeout(
            a_digest(1)
        ))))),
        Err(WrapperError::UnexpectedBackendError)
    );
    assert_eq!(
        wrapper.handle_event(WrapperEvent::LocalProof(Some(Err(QuorumStoreError::BatchSizeLimit)))),
        Err(WrapperError::UnexpectedBackendError)
    );
}

#[test]
fn event_local_proof_is_stored_and_broadcast() {
    let mut wrapper = QuorumStoreWrapper::new(1, 10, 150);
    let action = wrapper.handle_event(WrapperEvent::LocalProof(Some(Ok(a_proof(1, 10)))));
    assert_eq!(
        action,
        Ok(WrapperAction::Broadcast(ConsensusMsg::ProofOfStoreBroadcastMsg(Box::new(a_proof(
            1, 10
        )))))
    );
    assert_eq!(wrapper.stored_proof(&a_digest(1)), Some(&a_proof(1, 10)));
}

#[test]
fn event_local_proof_timeout_or_nothing_is_idle() {
    let mut wrapper = QuorumStoreWrapper::new(1, 10, 150);
    let timeout = WrapperEvent::LocalProof(Some(Err(QuorumStoreError::Timeout(a_digest(1)))));
    assert_eq!(wrapper.handle_event(timeout), Ok(WrapperAction::Idle));
    assert_eq!(wrapper.handle_event(WrapperEvent::LocalProof(None)), Ok(WrapperAction::Idle));
    assert_eq!(wrapper.num_batches_for_consensus(), 0);
}

#[test]
fn event_gossiped_proof_is_stored_and_not_sent_on() {
    let mut wrapper = QuorumStoreWrapper::new(1, 10, 150);
    let message = VerifiedEvent::ProofOfStoreBroadcast(Box::new(a_proof(1, 10)));
    assert_eq!(
        wrapper.handle_event(WrapperEvent::NetworkMessage(Some(message))),
        Ok(WrapperAction::Idle)
    );
    assert_eq!(wrapper.stored_proof(&a_digest(1)), Some(&a_proof(1, 10)));
    let message = VerifiedEvent::ProofOfStoreBroadcast(Box::new(a_proof(1, 5)));
    wrapper.handle_event(WrapperEvent::NetworkMessage(Some(message))).unwrap();
    assert_eq!(wrapper.stored_proof(&a_digest(1)), Some(&a_proof(1, 10)));
}

#[test]
fn event_other_network_messages_are_ignored() {
    let mut wrapper = QuorumStoreWrapper::new(1, 10, 150);
    assert_eq!(
        wrapper.handle_event(WrapperEvent::NetworkMessage(Some(VerifiedEvent::Other))),
        Ok(WrapperAction::Idle)
    );
    assert_eq!(wrapper.handle_event(WrapperEvent::NetworkMessage(None)), Ok(WrapperAction::Idle));
    assert_eq!(wrapper.num_batches_for_consensus(), 0);
}

#[test]
fn event_consensus_request_is_answered() {
    let mut wrapper = QuorumStoreWrapper::new(1, 10, 150);
    wrapper.insert_proof(a_proof(1, 10));
    wrapper.insert_proof(a_proof(2, 10));
    let filter = PayloadFilter::InQuorumStore(vec![a_digest(1)]);
    let request = WrapperCommand::GetBlockRequest(5, filter);
    assert_eq!(
        wrapper.handle_event(WrapperEvent::ConsensusRequest(request)),
        Ok(WrapperAction::Reply(ConsensusResponse::GetBlockResponse(Payload::InQuorumStore(vec![
            a_proof(2, 10)
        ]))))
    );
    let request = WrapperCommand::CleanRequest(LogicalTime::new(1, 12), vec![a_digest(2)]);
    assert_eq!(
        wrapper.handle_event(WrapperEvent::ConsensusRequest(request)),
        Ok(WrapperAction::Idle)
    );
    assert_eq!(wrapper.latest_logical_time(), LogicalTime::new(1, 12));
    assert_eq!(wrapper.num_batches_for_consensus(), 1);
    let request = WrapperCommand::GetBlockRequest(5, PayloadFilter::DirectMempool(Vec::new()));
    assert_eq!(
        wrapper.handle_event(WrapperEvent::ConsensusRequest(request)),
        Err(WrapperError::InvalidFilter)
    );
}

#[test]
fn event_shutdown_stops_the_loop() {
    let mut wrapper = QuorumStoreWrapper::new(1, 10, 150);
    wrapper.insert_proof(a_proof(1, 10));
    assert_eq!(wrapper.handle_event(WrapperEvent::Shutdown), Ok(WrapperAction::Stop));
    assert_eq!(wrapper.num_batches_for_consensus(), 1);
}
