//! Verified core of a validator's ingestion-to-broadcast transaction pipeline.
//!
//! The pipeline accepts raw transactions from several network transports,
//! filters and verifies them, hands them to a block-production engine under a
//! compute-budget reservation that protects bundle execution windows, and
//! forwards produced ledger entries to a broadcast stage. This crate holds the
//! decision logic of that pipeline: the block-cost reservation policy, the
//! heartbeat-driven interception protocol between direct and relayed
//! transaction flow, the account blacklist that keeps ordinary transactions
//! away from bundle-owned accounts, the queue topology, and the shutdown
//! protocol that aggregates the outcome of every stage. The surrounding
//! threads, sockets and channels live outside this crate and consume these
//! functions.

pub mod blacklist;
pub mod config;
pub mod errors;
pub mod gate;
pub mod reservation;
pub mod shutdown;
pub mod topology;
