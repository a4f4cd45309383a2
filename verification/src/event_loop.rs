//! The events that drive the wrapper and the actions that it asks for.

use crate::batch::{encodings_of, summaries_of};
use crate::model::WrapperState;
use crate::types::{
    proof_views, ConsensusMsg, ConsensusResponse, HashValue, Payload, ProofOfStore,
    QuorumStoreCommand, QuorumStoreCommandView, QuorumStoreError, Transaction, VerifiedEvent,
    WrapperCommand, WrapperError,
};
use vstd::prelude::*;

verus! {

/// What can happen to the wrapper. Each value stands for something that
/// whoever drives the wrapper has waited for.
#[derive(Debug, PartialEq, Eq)]
pub enum WrapperEvent {
    /// A scheduled pull was made: the transactions that the mempool
    /// returned, or `None` where it did not answer in time.
    Pulled(Option<Vec<Transaction>>),
    /// The backend answered a command that ended the batch, or `None` where
    /// its answer was lost.
    BatchDigest(Option<Result<HashValue, QuorumStoreError>>),
    /// The wait for the proof of a batch made here is over, or `None` where
    /// the backend gave it up without a word.
    LocalProof(Option<Result<ProofOfStore, QuorumStoreError>>),
    /// Consensus sent a request.
    ConsensusRequest(WrapperCommand),
    /// Another validator sent a message, or `None` where the network has
    /// nothing more to deliver.
    NetworkMessage(Option<VerifiedEvent>),
    /// The wrapper is told to stop.
    Shutdown,
}

/// What whoever drives the wrapper has to do after an event.
#[derive(Debug, PartialEq, Eq)]
pub enum WrapperAction {
    /// Nothing.
    Idle,
    /// Send this command to the backend; where it ends the batch, wait for
    /// the digest and hand it in as `WrapperEvent::BatchDigest`.
    SendToBackend(QuorumStoreCommand),
    /// Wait for the proof of the batch that was just closed.
    AwaitProof,
    /// Send this message to all other validators.
    Broadcast(ConsensusMsg),
    /// Answer the request of consensus with this.
    Reply(ConsensusResponse),
    /// Leave the event loop.
    Stop,
}

impl WrapperEvent {
    /// Whether the mempool kept to the exclusion list, where the event is a
    /// pull: none of the pulled transactions is in a closed batch of `state`.
    pub open spec fn keeps_to_filter(self, state: WrapperState) -> bool {
        self matches WrapperEvent::Pulled(Some(pulled_txns)) ==> forall|i: int|
            0 <= i < pulled_txns@.len() ==> !state.is_filtered(
                #[trigger] pulled_txns@[i].spec_summary(),
            )
    }

    /// The state that the event leaves behind. A pull that was answered
    /// packs the batch, a digest closes it, a proof is stored wherever it was
    /// made, and a clean request is carried out; nothing else changes the
    /// state.
    pub open spec fn effect(self, state: WrapperState) -> WrapperState {
        match self {
            WrapperEvent::Pulled(Some(pulled_txns)) => state.pull(
                summaries_of(pulled_txns@),
                encodings_of(pulled_txns@),
            ),
            WrapperEvent::BatchDigest(Some(Ok(digest))) => state.close_batch(digest),
            WrapperEvent::LocalProof(Some(Ok(made))) => state.insert_proof(made@),
            WrapperEvent::ConsensusRequest(WrapperCommand::CleanRequest(logical_time, digests)) => {
                state.clean(logical_time, digests@)
            },
            WrapperEvent::NetworkMessage(Some(VerifiedEvent::ProofOfStoreBroadcast(received))) => {
                state.insert_proof(received@)
            },
            _ => state,
        }
    }

    /// Whether `r` is what the event asks for in `state`: the action that
    /// goes with the event, or the error that makes it fatal.
    pub open spec fn asks_for(
        self,
        state: WrapperState,
        r: Result<WrapperAction, WrapperError>,
    ) -> bool {
        let idle = Ok::<WrapperAction, WrapperError>(WrapperAction::Idle);
        match self {
            WrapperEvent::Pulled(Some(pulled_txns)) => match r {
                Ok(WrapperAction::SendToBackend(command)) => state.pull_command(
                    encodings_of(pulled_txns@),
                ) == Ok::<QuorumStoreCommandView, WrapperError>(command@),
                Ok(_) => false,
                Err(e) => state.pull_command(encodings_of(pulled_txns@)) == Err::<
                    QuorumStoreCommandView,
                    WrapperError,
                >(e),
            },
            WrapperEvent::BatchDigest(Some(Ok(_))) => r == Ok::<WrapperAction, WrapperError>(
                WrapperAction::AwaitProof,
            ),
            WrapperEvent::BatchDigest(Some(Err(QuorumStoreError::BatchSizeLimit))) => r == Err::<
                WrapperAction,
                WrapperError,
            >(WrapperError::BatchSizeLimit),
            WrapperEvent::BatchDigest(Some(Err(QuorumStoreError::Timeout(_)))) => r == Err::<
                WrapperAction,
                WrapperError,
            >(WrapperError::UnexpectedBackendError),
            WrapperEvent::LocalProof(Some(Ok(made))) => {
                &&& r matches Ok(
                    WrapperAction::Broadcast(ConsensusMsg::ProofOfStoreBroadcastMsg(sent)),
                )
                &&& *sent == made
            },
            WrapperEvent::LocalProof(Some(Err(QuorumStoreError::BatchSizeLimit))) => r == Err::<
                WrapperAction,
                WrapperError,
            >(WrapperError::UnexpectedBackendError),
            WrapperEvent::ConsensusRequest(
                WrapperCommand::GetBlockRequest(max_block_size, filter),
            ) => if filter is DirectMempool {
                r == Err::<WrapperAction, WrapperError>(WrapperError::InvalidFilter)
            } else {
                &&& r matches Ok(
                    WrapperAction::Reply(
                        ConsensusResponse::GetBlockResponse(Payload::InQuorumStore(batch)),
                    ),
                )
                &&& proof_views(batch@) == state.block_proofs(max_block_size, filter.excluded())
            },
            WrapperEvent::Shutdown => r == Ok::<WrapperAction, WrapperError>(WrapperAction::Stop),
            _ => r == idle,
        }
    }
}

/// The state after a sequence of events, the first of which finds `state`.
pub open spec fn run(state: WrapperState, events: Seq<WrapperEvent>) -> WrapperState
    decreases events.len(),
{
    if events.len() == 0 {
        state
    } else {
        events.last().effect(run(state, events.drop_last()))
    }
}

/// Whether the mempool kept to the exclusion list in every pull among the
/// events, each taken in the state that it found.
pub open spec fn mempool_keeps_to_filter(state: WrapperState, events: Seq<WrapperEvent>) -> bool {
    forall|k: int|
        0 <= k < events.len() ==> (#[trigger] events[k]).keeps_to_filter(
            run(state, events.take(k)),
        )
}

} // verus!
