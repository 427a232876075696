//! Envelopes that carry work to executors and results back.

use datafusion::physical_plan::Partitioning;
use std::collections::HashMap;
use vstd::prelude::*;
use vstd::string::StringExecFns;
use crate::executor::ExecutorMetadata;
use crate::partition::PartitionId;
use crate::stats::{PartitionStats, PartitionStatsView};
use crate::text::{debug_list, decimal, push_debug_list, push_decimal};

verus! {

#[verifier::external_type_specification]
#[verifier::external_body]
pub struct ExPartitioning(Partitioning);

/// Action that can be sent to an executor.
#[derive(Debug, Clone)]
pub enum Action {
    /// Collect a shuffle partition: stream what lies at `path` for a
    /// partition that was completed before.
    FetchPartition { job_id: String, stage_id: usize, partition_id: usize, path: String },
}

/// Where the output of a partition lies: on which executor, under which
/// path, and what is known of its size.
#[derive(Debug, Clone)]
pub struct PartitionLocation {
    pub partition_id: PartitionId,
    pub executor_meta: ExecutorMetadata,
    pub partition_stats: PartitionStats,
    pub path: String,
}

/// Task that can be sent to an executor to execute one stage of a query and
/// write results out to disk. The plan is shared between dispatches and
/// only ever handed on, so its type is left to the caller.
#[derive(Debug, Clone)]
pub struct ExecutePartition<P> {
    /// Unique ID representing this query execution.
    pub job_id: String,
    /// Unique ID representing this query stage within the overall query.
    pub stage_id: usize,
    /// The partitions to execute. The same plan could be sent to multiple
    /// executors, each of which executes a range of partitions.
    pub partition_id: Vec<usize>,
    /// The physical plan for this query stage.
    pub plan: P,
    /// Location of shuffle partitions that this query stage may depend on.
    pub shuffle_locations: HashMap<PartitionId, ExecutorMetadata>,
    /// Output partitioning for shuffle writes.
    pub output_partitioning: Option<Partitioning>,
}

impl<P> ExecutePartition<P> {
    pub fn new(
        job_id: String,
        stage_id: usize,
        partition_id: Vec<usize>,
        plan: P,
        shuffle_locations: HashMap<PartitionId, ExecutorMetadata>,
        output_partitioning: Option<Partitioning>,
    ) -> (task: ExecutePartition<P>)
        ensures
            task.job_id == job_id,
            task.stage_id == stage_id,
            task.partition_id == partition_id,
            task.plan == plan,
            task.shuffle_locations == shuffle_locations,
            task.output_partitioning == output_partitioning,
    {
        ExecutePartition {
            job_id,
            stage_id,
            partition_id,
            plan,
            shuffle_locations,
            output_partitioning,
        }
    }

    /// The label of a task: its job, its stage and the list of its
    /// partitions, with a dot between each two.
    pub open spec fn label(job_id: Seq<char>, stage_id: usize, partition_id: Seq<usize>) -> Seq<
        char,
    > {
        job_id + "."@ + decimal(stage_id as nat) + "."@ + debug_list(partition_id)
    }

    /// A label for logs and for telling tasks apart. Equal tasks get equal
    /// labels; it is no unique key across jobs.
    pub fn key(&self) -> (key: String)
        ensures
            key@ == Self::label(self.job_id@, self.stage_id, self.partition_id@),
    {
        let mut key = String::new();
        key.append(self.job_id.as_str());
        key.append(".");
        push_decimal(&mut key, self.stage_id as u64);
        key.append(".");
        push_debug_list(&mut key, &self.partition_id);
        key
    }
}

/// What an executor reports of a partition it has executed.
#[derive(Debug)]
pub struct ExecutePartitionResult {
    /// Path containing results for this partition.
    path: String,
    stats: PartitionStats,
}

/// What an [`ExecutePartitionResult`] holds.
pub ghost struct ExecutePartitionResultView {
    pub path: Seq<char>,
    pub stats: PartitionStatsView,
}

impl View for ExecutePartitionResult {
    type V = ExecutePartitionResultView;

    closed spec fn view(&self) -> ExecutePartitionResultView {
        ExecutePartitionResultView { path: self.path@, stats: self.stats@ }
    }
}

impl ExecutePartitionResult {
    pub fn new(path: &str, stats: PartitionStats) -> (result: ExecutePartitionResult)
        ensures
            result@ == (ExecutePartitionResultView { path: path@, stats: stats@ }),
    {
        ExecutePartitionResult { path: path.to_owned(), stats }
    }

    pub fn path(&self) -> (path: &str)
        ensures
            path@ == self@.path,
    {
        self.path.as_str()
    }

    pub fn statistics(&self) -> (stats: &PartitionStats)
        ensures
            stats@ == self@.stats,
    {
        &self.stats
    }
}

} // verus!
