//! Scheduling data model shared by a scheduler and its executors: the
//! identity of partitions, the capacity and health of executors, the
//! statistics of computed partitions, and the envelopes that carry tasks
//! and results.

pub mod columnar;
pub mod error;
pub mod executor;
pub mod order;
pub mod partition;
pub mod protobuf;
pub mod stats;
pub mod task;
pub mod text;

pub use crate::error::BallistaError;
pub use crate::executor::{
    ExecutorData, ExecutorDataChange, ExecutorMetadata, ExecutorSpecification, ExecutorState,
};
pub use crate::partition::PartitionId;
pub use crate::stats::PartitionStats;
pub use crate::task::{Action, ExecutePartition, ExecutePartitionResult, PartitionLocation};
