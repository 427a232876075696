//! Wire messages exchanged between the scheduler and its executors.
//!
//! Capacity and health travel as growable lists of tagged entries rather
//! than as fixed fields, so that a newer peer can add kinds of entries
//! without breaking an older one. An entry whose tag the reader does not
//! know arrives with its payload absent.

use vstd::prelude::*;

verus! {

/// A resource that an executor offers.
#[derive(Debug, Clone, Copy, PartialEq, Eq, Structural)]
pub enum Resource {
    /// Number of tasks that can run at once.
    TaskSlots(u32),
}

/// One entry of a resource list. `resource` is absent when the entry was
/// empty or carried a tag unknown to this reader.
#[derive(Debug, Clone, Copy, PartialEq, Eq, Structural)]
pub struct ExecutorResource {
    pub resource: Option<Resource>,
}

impl ExecutorResource {
    /// The task slots this entry announces, if it announces any.
    pub open spec fn task_slots(self) -> Option<u32> {
        match self.resource {
            Some(Resource::TaskSlots(n)) => Some(n),
            None => None,
        }
    }
}

/// A resource as registered (`total`) and as currently free (`available`).
#[derive(Debug, Clone, Copy, PartialEq, Eq, Structural)]
pub struct ExecutorResourcePair {
    pub total: Option<ExecutorResource>,
    pub available: Option<ExecutorResource>,
}

impl ExecutorResourcePair {
    /// The registered task slots this pair announces, if any.
    pub open spec fn total_task_slots(self) -> Option<u32> {
        match self.total {
            Some(r) => r.task_slots(),
            None => None,
        }
    }

    /// The free task slots this pair announces, if any.
    pub open spec fn available_task_slots(self) -> Option<u32> {
        match self.available {
            Some(r) => r.task_slots(),
            None => None,
        }
    }
}

/// A measurement that an executor reports.
#[derive(Debug, Clone, Copy, PartialEq, Eq, Structural)]
pub enum Metric {
    /// Free memory, in bytes.
    AvailableMemory(u64),
}

/// One entry of a metric list. `metric` is absent when the entry was empty
/// or carried a tag unknown to this reader.
#[derive(Debug, Clone, Copy, PartialEq, Eq, Structural)]
pub struct ExecutorMetric {
    pub metric: Option<Metric>,
}

impl ExecutorMetric {
    /// The free memory this entry reports, if it reports any.
    pub open spec fn available_memory(self) -> Option<u64> {
        match self.metric {
            Some(Metric::AvailableMemory(n)) => Some(n),
            None => None,
        }
    }
}

/// Capacity of an executor, as a list of resources.
#[derive(Debug, Clone, PartialEq, Eq)]
pub struct ExecutorSpecification {
    pub resources: Vec<ExecutorResource>,
}

impl View for ExecutorSpecification {
    type V = Seq<ExecutorResource>;

    open spec fn view(&self) -> Seq<ExecutorResource> {
        self.resources@
    }
}

/// Health of an executor, as a list of metrics.
#[derive(Debug, Clone, PartialEq, Eq)]
pub struct ExecutorState {
    pub metrics: Vec<ExecutorMetric>,
}

impl View for ExecutorState {
    type V = Seq<ExecutorMetric>;

    open spec fn view(&self) -> Seq<ExecutorMetric> {
        self.metrics@
    }
}

/// Resource counters of one executor, as a list of total/available pairs.
#[derive(Debug, Clone, PartialEq, Eq)]
pub struct ExecutorData {
    pub executor_id: String,
    pub resources: Vec<ExecutorResourcePair>,
}

/// What an [`ExecutorData`] message holds.
pub ghost struct ExecutorDataView {
    pub executor_id: Seq<char>,
    pub resources: Seq<ExecutorResourcePair>,
}

impl View for ExecutorData {
    type V = ExecutorDataView;

    open spec fn view(&self) -> ExecutorDataView {
        ExecutorDataView { executor_id: self.executor_id@, resources: self.resources@ }
    }
}

/// Address and capacity of one executor. The protocol requires
/// `specification`; a message without it is malformed.
#[derive(Debug, Clone, PartialEq, Eq)]
pub struct ExecutorMetadata {
    pub id: String,
    pub host: String,
    pub port: u32,
    pub grpc_port: u32,
    pub specification: Option<ExecutorSpecification>,
}

/// What an [`ExecutorMetadata`] message holds.
pub ghost struct ExecutorMetadataView {
    pub id: Seq<char>,
    pub host: Seq<char>,
    pub port: u32,
    pub grpc_port: u32,
    pub specification: Option<Seq<ExecutorResource>>,
}

impl View for ExecutorMetadata {
    type V = ExecutorMetadataView;

    open spec fn view(&self) -> ExecutorMetadataView {
        ExecutorMetadataView {
            id: self.id@,
            host: self.host@,
            port: self.port,
            grpc_port: self.grpc_port,
            specification: match self.specification {
                Some(s) => Some(s@),
                None => None,
            },
        }
    }
}

/// The value of the last entry of `entries` that carries one. This is how a
/// reader folds a list in which later entries override earlier ones and
/// entries it does not recognise count for nothing.
pub open spec fn last_recognized<T>(entries: Seq<Option<T>>) -> Option<T>
    decreases entries.len(),
{
    if entries.len() == 0 {
        None
    } else if entries.last() is Some {
        entries.last()
    } else {
        last_recognized(entries.drop_last())
    }
}

/// Appending an entry that carries a value makes it the last one recognised;
/// appending one that carries none changes nothing.
pub proof fn lemma_last_recognized_push<T>(entries: Seq<Option<T>>, entry: Option<T>)
    ensures
        last_recognized(entries.push(entry)) == if entry is Some {
            entry
        } else {
            last_recognized(entries)
        },
{
    assert(entries.push(entry).drop_last() =~= entries);
}

} // verus!
