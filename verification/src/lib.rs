//! Core state-machine-replication pipeline of a proof-of-stake blockchain
//! node: the era-scoped consensus supervisor and the deterministic
//! execute-commit pipeline that turns consensus output into an append-only
//! chain of executed blocks.

pub mod block;
pub mod block_executor;
pub mod encoding;
pub mod era_supervisor;
pub mod hashing;
pub mod keys;
pub mod queue_kind;
pub mod random;
pub mod timestamp;
