//! Routing and cross-shard coordination for a store that keeps many
//! deployments in a small set of storage shards.
//!
//! The library takes the decisions and leaves the work on the database to
//! its caller. [`sharded_store::ShardedStore`] holds the registry of shards
//! and resolves a deployment to its shard; [`affinity`] tells which records
//! live in the primary shard and which in a deployment's own;
//! [`coordinator::Coordinator`] leads the operations that touch two shards,
//! one [`protocol::Action`] at a time; [`runs`] states what holds of every
//! run of such an operation.

pub mod affinity;
pub mod block;
pub mod coordinator;
pub mod error;
pub mod event;
pub mod protocol;
pub mod runs;
pub mod sharded_store;
pub mod site;
pub mod test_support;
pub mod text;
