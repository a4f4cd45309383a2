//! The rules of a quorum store wrapper, the coordinator of a validator that
//! sits between its mempool and its consensus, and of a background worker
//! that runs at most one task at a time.
//!
//! The wrapper is a state machine: `quorum_store_wrapper` holds its state and
//! the functions that carry out each event, `model` says in mathematical
//! terms what each of them does, and `laws` proves what holds of the model.
//! Whoever runs the wrapper does the waiting and the sending.

pub mod async_at_most_one;
pub mod batch;
pub mod codec;
pub mod digest_map;
pub mod entries;
pub mod event_loop;
pub mod laws;
pub mod logical_time;
pub mod model;
pub mod quorum_store_wrapper;
pub mod scheduled_pull;
pub mod types;
