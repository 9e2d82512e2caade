//! Verified decision core of a BFT consensus node: the epoch supervisor, the
//! quorum-store dissemination plane, leader election and the commit bookkeeping
//! around them. Everything here is plain data in, plain data out; the channels,
//! timers and services that carry the decisions out live with the caller.

pub mod account_address;
pub mod data_manager;
pub mod epoch_manager;
pub mod logical_time;
pub mod mailbox;
pub mod network_interface;
pub mod onchain_config;
pub mod prometheus_push_metrics;
pub mod proposer_election;
pub mod quorum_store;
pub mod state_computer;
pub mod validator_verifier;
