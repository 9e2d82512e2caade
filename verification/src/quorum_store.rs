//! The quorum store: batches of transactions are disseminated as fragments,
//! stored by the validators that receive them, and referred to in blocks by
//! proofs that a quorum stores them.

pub mod batch_aggregator;
pub mod batch_store;
pub mod network_listener;
pub mod proof_builder;
pub mod quorum_store;
pub mod quorum_store_wrapper;
pub mod types;
