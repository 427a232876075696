//! Capacity and health of executors, and their wire encodings.

use vstd::prelude::*;
use vstd::std_specs::cmp::PartialEqSpecImpl;
use vstd::std_specs::convert::{FromSpecImpl, TryFromSpecImpl};
use crate::error::BallistaError;
use crate::protobuf;
use crate::protobuf::{
    last_recognized, lemma_last_recognized_push, ExecutorMetric, ExecutorResource,
    ExecutorResourcePair, Metric, Resource,
};

verus! {

/// Specification of an executor: the resources it registers with, such as
/// the number of tasks it runs at once.
#[derive(Debug, Clone, Copy, PartialEq, Eq, Structural)]
pub struct ExecutorSpecification {
    pub task_slots: u32,
}

impl ExecutorSpecification {
    /// The resource list that announces this specification.
    pub open spec fn encoded(self) -> Seq<ExecutorResource> {
        seq![ExecutorResource { resource: Some(Resource::TaskSlots(self.task_slots)) }]
    }

    /// The specification that a resource list announces: the task slots of
    /// its last entry that names any, and none at all where no entry does.
    pub open spec fn decoded(resources: Seq<ExecutorResource>) -> ExecutorSpecification {
        ExecutorSpecification {
            task_slots: match last_recognized(
                resources.map_values(|r: ExecutorResource| r.task_slots()),
            ) {
                Some(n) => n,
                None => 0,
            },
        }
    }

    /// A specification survives being encoded and decoded again.
    pub proof fn lemma_round_trip(self)
        ensures
            Self::decoded(self.encoded()) == self,
    {
    }
}

impl From<ExecutorSpecification> for protobuf::ExecutorSpecification {
    fn from(spec: ExecutorSpecification) -> (msg: protobuf::ExecutorSpecification)
        ensures
            msg@ == spec.encoded(),
    {
        let mut resources = Vec::new();
        resources.push(ExecutorResource { resource: Some(Resource::TaskSlots(spec.task_slots)) });
        protobuf::ExecutorSpecification { resources }
    }
}

/// A message holds a vector, which ghost code cannot build, so `from_spec`
/// cannot name the result: the contract of `from` states it through its
/// view.
impl FromSpecImpl<ExecutorSpecification> for protobuf::ExecutorSpecification {
    open spec fn obeys_from_spec() -> bool {
        false
    }

    open spec fn from_spec(spec: ExecutorSpecification) -> protobuf::ExecutorSpecification {
        arbitrary()
    }
}

impl From<protobuf::ExecutorSpecification> for ExecutorSpecification {
    fn from(input: protobuf::ExecutorSpecification) -> (ret: ExecutorSpecification)
        ensures
            ret == ExecutorSpecification::decoded(input@),
    {
        let mut ret = ExecutorSpecification { task_slots: 0 };
        let mut i: usize = 0;
        while i < input.resources.len()
            invariant
                i <= input.resources.len(),
                ret == ExecutorSpecification::decoded(input.resources@.take(i as int)),
            decreases input.resources.len() - i,
        {
            proof {
                let f = |r: ExecutorResource| r.task_slots();
                let seen = input.resources@.take(i as int);
                let next = input.resources@[i as int];
                assert(input.resources@.take(i + 1).map_values(f) =~= seen.map_values(f).push(
                    f(next),
                ));
                lemma_last_recognized_push(seen.map_values(f), f(next));
            }
            if let Some(Resource::TaskSlots(task_slots)) = input.resources[i].resource {
                ret.task_slots = task_slots;
            }
            i += 1;
        }
        proof {
            assert(input.resources@.take(i as int) =~= input.resources@);
        }
        ret
    }
}

impl FromSpecImpl<protobuf::ExecutorSpecification> for ExecutorSpecification {
    open spec fn obeys_from_spec() -> bool {
        true
    }

    open spec fn from_spec(input: protobuf::ExecutorSpecification) -> ExecutorSpecification {
        ExecutorSpecification::decoded(input@)
    }
}

/// Resource counters that the scheduler keeps for one executor. The free
/// slots fall when a task is assigned and rise when one ends.
#[derive(Debug, Clone)]
pub struct ExecutorData {
    pub executor_id: String,
    pub total_task_slots: u32,
    pub available_task_slots: u32,
}

/// What an [`ExecutorData`] holds.
pub ghost struct ExecutorDataView {
    pub executor_id: Seq<char>,
    pub total_task_slots: u32,
    pub available_task_slots: u32,
}

impl View for ExecutorData {
    type V = ExecutorDataView;

    open spec fn view(&self) -> ExecutorDataView {
        ExecutorDataView {
            executor_id: self.executor_id@,
            total_task_slots: self.total_task_slots,
            available_task_slots: self.available_task_slots,
        }
    }
}

/// A change to the free task slots of one executor: positive when slots
/// were freed, negative when they were taken.
#[derive(Debug, Clone)]
pub struct ExecutorDataChange {
    pub executor_id: String,
    pub task_slots: i32,
}

impl ExecutorDataView {
    /// No more slots are free than the executor has.
    pub open spec fn wf(self) -> bool {
        self.available_task_slots <= self.total_task_slots
    }

    /// The message that carries these counters: one pair of task slots.
    pub open spec fn encoded(self) -> protobuf::ExecutorDataView {
        protobuf::ExecutorDataView {
            executor_id: self.executor_id,
            resources: seq![
                ExecutorResourcePair {
                    total: Some(
                        ExecutorResource {
                            resource: Some(Resource::TaskSlots(self.total_task_slots)),
                        },
                    ),
                    available: Some(
                        ExecutorResource {
                            resource: Some(Resource::TaskSlots(self.available_task_slots)),
                        },
                    ),
                },
            ],
        }
    }

    /// The counters that a message carries. Totals and free slots are read
    /// independently of each other: each is the value of the last pair that
    /// names it, and zero where no pair does.
    pub open spec fn decoded(msg: protobuf::ExecutorDataView) -> ExecutorDataView {
        ExecutorDataView {
            executor_id: msg.executor_id,
            total_task_slots: match last_recognized(
                msg.resources.map_values(|p: ExecutorResourcePair| p.total_task_slots()),
            ) {
                Some(n) => n,
                None => 0,
            },
            available_task_slots: match last_recognized(
                msg.resources.map_values(|p: ExecutorResourcePair| p.available_task_slots()),
            ) {
                Some(n) => n,
                None => 0,
            },
        }
    }

    /// The free slots after `delta` slots were freed (or, if negative,
    /// taken), as a mathematical integer.
    pub open spec fn slots_after(self, delta: i32) -> int {
        self.available_task_slots + delta
    }

    /// Whether a change of `delta` slots keeps the free slots between zero
    /// and the total.
    pub open spec fn admits(self, delta: i32) -> bool {
        0 <= self.slots_after(delta) <= self.total_task_slots
    }

    /// Counters survive being encoded and decoded again, whatever they
    /// hold, and so in particular when no more slots are free than exist.
    pub proof fn lemma_round_trip(self)
        ensures
            Self::decoded(self.encoded()) == self,
            self.wf() ==> Self::decoded(self.encoded()).wf(),
    {
    }
}

impl ExecutorData {
    /// No more slots are free than the executor has.
    pub open spec fn wf(&self) -> bool {
        self@.wf()
    }

    /// Applies a change of free task slots. The change is refused, and the
    /// counters are left as they were, when it names another executor or
    /// would take the free slots below zero or above the total. Counters
    /// that were well formed stay so, and an accepted change leaves them
    /// well formed in any case.
    pub fn apply(&mut self, change: &ExecutorDataChange) -> (res: Result<(), BallistaError>)
        ensures
            res == if change.executor_id@ != old(self)@.executor_id {
                Err::<(), BallistaError>(BallistaError::ExecutorMismatch)
            } else if !old(self)@.admits(change.task_slots) {
                Err(BallistaError::SlotsOutOfRange)
            } else {
                Ok(())
            },
            final(self)@.executor_id == old(self)@.executor_id,
            final(self)@.total_task_slots == old(self)@.total_task_slots,
            res is Ok ==> final(self)@.available_task_slots == old(self)@.slots_after(
                change.task_slots,
            ),
            res is Err ==> final(self)@ == old(self)@,
            res is Ok || old(self).wf() ==> final(self).wf(),
    {
        if self.executor_id != change.executor_id {
            return Err(BallistaError::ExecutorMismatch);
        }
        let available: i64 = self.available_task_slots as i64 + change.task_slots as i64;
        if available < 0 || available > self.total_task_slots as i64 {
            return Err(BallistaError::SlotsOutOfRange);
        }
        self.available_task_slots = available as u32;
        Ok(())
    }
}

impl From<ExecutorData> for protobuf::ExecutorData {
    fn from(data: ExecutorData) -> (msg: protobuf::ExecutorData)
        ensures
            msg@ == data@.encoded(),
    {
        let mut resources = Vec::new();
        resources.push(
            ExecutorResourcePair {
                total: Some(
                    ExecutorResource { resource: Some(Resource::TaskSlots(data.total_task_slots)) },
                ),
                available: Some(
                    ExecutorResource {
                        resource: Some(Resource::TaskSlots(data.available_task_slots)),
                    },
                ),
            },
        );
        protobuf::ExecutorData { executor_id: data.executor_id, resources }
    }
}

/// A message holds a vector, which ghost code cannot build, so `from_spec`
/// cannot name the result: the contract of `from` states it through its
/// view.
impl FromSpecImpl<ExecutorData> for protobuf::ExecutorData {
    open spec fn obeys_from_spec() -> bool {
        false
    }

    open spec fn from_spec(data: ExecutorData) -> protobuf::ExecutorData {
        arbitrary()
    }
}

impl From<protobuf::ExecutorData> for ExecutorData {
    fn from(input: protobuf::ExecutorData) -> (ret: ExecutorData)
        ensures
            ret@ == ExecutorDataView::decoded(input@),
    {
        let mut total_task_slots: u32 = 0;
        let mut available_task_slots: u32 = 0;
        let ghost totals = |p: ExecutorResourcePair| p.total_task_slots();
        let ghost frees = |p: ExecutorResourcePair| p.available_task_slots();
        let mut i: usize = 0;
        while i < input.resources.len()
            invariant
                i <= input.resources.len(),
                totals == |p: ExecutorResourcePair| p.total_task_slots(),
                frees == |p: ExecutorResourcePair| p.available_task_slots(),
                total_task_slots == match last_recognized(
                    input.resources@.take(i as int).map_values(totals),
                ) {
                    Some(n) => n,
                    None => 0,
                },
                available_task_slots == match last_recognized(
                    input.resources@.take(i as int).map_values(frees),
                ) {
                    Some(n) => n,
                    None => 0,
                },
            decreases input.resources.len() - i,
        {
            proof {
                let seen = input.resources@.take(i as int);
                let next = input.resources@[i as int];
                let longer = input.resources@.take(i + 1);
                assert(longer.map_values(totals) =~= seen.map_values(totals).push(totals(next)));
                assert(longer.map_values(frees) =~= seen.map_values(frees).push(frees(next)));
                lemma_last_recognized_push(seen.map_values(totals), totals(next));
                lemma_last_recognized_push(seen.map_values(frees), frees(next));
            }
            let pair = &input.resources[i];
            if let Some(total) = pair.total {
                if let Some(Resource::TaskSlots(task_slots)) = total.resource {
                    total_task_slots = task_slots;
                }
            }
            if let Some(available) = pair.available {
                if let Some(Resource::TaskSlots(task_slots)) = available.resource {
                    available_task_slots = task_slots;
                }
            }
            i += 1;
        }
        proof {
            assert(input.resources@.take(i as int) =~= input.resources@);
        }
        ExecutorData { executor_id: input.executor_id, total_task_slots, available_task_slots }
    }
}

impl FromSpecImpl<protobuf::ExecutorData> for ExecutorData {
    open spec fn obeys_from_spec() -> bool {
        true
    }

    open spec fn from_spec(input: protobuf::ExecutorData) -> ExecutorData {
        let counters = ExecutorDataView::decoded(input@);
        ExecutorData {
            executor_id: input.executor_id,
            total_task_slots: counters.total_task_slots,
            available_task_slots: counters.available_task_slots,
        }
    }
}

/// The internal state of an executor, as it reports it with a heartbeat.
#[derive(Debug, Clone, Copy, PartialEq, Eq, Structural)]
pub struct ExecutorState {
    /// Free memory, in bytes.
    pub available_memory_size: u64,
}

impl ExecutorState {
    /// The metric list that reports this state.
    pub open spec fn encoded(self) -> Seq<ExecutorMetric> {
        seq![ExecutorMetric { metric: Some(Metric::AvailableMemory(self.available_memory_size)) }]
    }

    /// The state that a metric list reports: the free memory of its last
    /// entry that names any. Where no entry does, the memory counts as
    /// unconstrained, so that a missing metric never keeps work from an
    /// executor.
    pub open spec fn decoded(metrics: Seq<ExecutorMetric>) -> ExecutorState {
        ExecutorState {
            available_memory_size: match last_recognized(
                metrics.map_values(|m: ExecutorMetric| m.available_memory()),
            ) {
                Some(n) => n,
                None => u64::MAX,
            },
        }
    }

    /// A state survives being encoded and decoded again.
    pub proof fn lemma_round_trip(self)
        ensures
            Self::decoded(self.encoded()) == self,
    {
    }
}

impl From<ExecutorState> for protobuf::ExecutorState {
    fn from(state: ExecutorState) -> (msg: protobuf::ExecutorState)
        ensures
            msg@ == state.encoded(),
    {
        let mut metrics = Vec::new();
        metrics.push(
            ExecutorMetric { metric: Some(Metric::AvailableMemory(state.available_memory_size)) },
        );
        protobuf::ExecutorState { metrics }
    }
}

/// A message holds a vector, which ghost code cannot build, so `from_spec`
/// cannot name the result: the contract of `from` states it through its
/// view.
impl FromSpecImpl<ExecutorState> for protobuf::ExecutorState {
    open spec fn obeys_from_spec() -> bool {
        false
    }

    open spec fn from_spec(state: ExecutorState) -> protobuf::ExecutorState {
        arbitrary()
    }
}

impl From<protobuf::ExecutorState> for ExecutorState {
    fn from(input: protobuf::ExecutorState) -> (ret: ExecutorState)
        ensures
            ret == ExecutorState::decoded(input@),
    {
        let mut ret = ExecutorState { available_memory_size: u64::MAX };
        let mut i: usize = 0;
        while i < input.metrics.len()
            invariant
                i <= input.metrics.len(),
                ret == ExecutorState::decoded(input.metrics@.take(i as int)),
            decreases input.metrics.len() - i,
        {
            proof {
                let f = |m: ExecutorMetric| m.available_memory();
                let seen = input.metrics@.take(i as int);
                let next = input.metrics@[i as int];
                assert(input.metrics@.take(i + 1).map_values(f) =~= seen.map_values(f).push(
                    f(next),
                ));
                lemma_last_recognized_push(seen.map_values(f), f(next));
            }
            if let Some(Metric::AvailableMemory(available_memory_size)) = input.metrics[i].metric {
                ret.available_memory_size = available_memory_size;
            }
            i += 1;
        }
        proof {
            assert(input.metrics@.take(i as int) =~= input.metrics@);
        }
        ret
    }
}

impl FromSpecImpl<protobuf::ExecutorState> for ExecutorState {
    open spec fn obeys_from_spec() -> bool {
        true
    }

    open spec fn from_spec(input: protobuf::ExecutorState) -> ExecutorState {
        ExecutorState::decoded(input@)
    }
}

/// Meta-data of an executor: where to reach it, and what it registered
/// with. Other executors use it to fetch shuffle partitions.
#[derive(Debug, Clone, Eq)]
pub struct ExecutorMetadata {
    pub id: String,
    pub host: String,
    pub port: u16,
    pub grpc_port: u16,
    pub specification: ExecutorSpecification,
}

/// What an [`ExecutorMetadata`] holds.
pub ghost struct ExecutorMetadataView {
    pub id: Seq<char>,
    pub host: Seq<char>,
    pub port: u16,
    pub grpc_port: u16,
    pub specification: ExecutorSpecification,
}

impl View for ExecutorMetadata {
    type V = ExecutorMetadataView;

    open spec fn view(&self) -> ExecutorMetadataView {
        ExecutorMetadataView {
            id: self.id@,
            host: self.host@,
            port: self.port,
            grpc_port: self.grpc_port,
            specification: self.specification,
        }
    }
}

impl PartialEq for ExecutorMetadata {
    fn eq(&self, other: &ExecutorMetadata) -> (equal: bool) {
        self.id == other.id && self.host == other.host && self.port == other.port
            && self.grpc_port == other.grpc_port && self.specification.task_slots
            == other.specification.task_slots
    }
}

/// Two executors' meta-data are equal when all their fields are.
impl PartialEqSpecImpl for ExecutorMetadata {
    open spec fn obeys_eq_spec() -> bool {
        true
    }

    open spec fn eq_spec(&self, other: &ExecutorMetadata) -> bool {
        self.id@ == other.id@ && self.host@ == other.host@ && self.port == other.port
            && self.grpc_port == other.grpc_port && self.specification.task_slots
            == other.specification.task_slots
    }
}

impl ExecutorMetadataView {
    /// The message that carries this meta-data. Ports widen to 32 bits,
    /// and the specification is always present.
    pub open spec fn encoded(self) -> protobuf::ExecutorMetadataView {
        protobuf::ExecutorMetadataView {
            id: self.id,
            host: self.host,
            port: self.port as u32,
            grpc_port: self.grpc_port as u32,
            specification: Some(self.specification.encoded()),
        }
    }

    /// The meta-data that a message carries. A message without a
    /// specification is malformed. Of a port only the low 16 bits count.
    pub open spec fn decoded(msg: protobuf::ExecutorMetadataView) -> Result<
        ExecutorMetadataView,
        BallistaError,
    > {
        match msg.specification {
            Some(resources) => Ok(
                ExecutorMetadataView {
                    id: msg.id,
                    host: msg.host,
                    port: (msg.port % 0x1_0000) as u16,
                    grpc_port: (msg.grpc_port % 0x1_0000) as u16,
                    specification: ExecutorSpecification::decoded(resources),
                },
            ),
            None => Err(BallistaError::MissingSpecification),
        }
    }

    /// Meta-data survives being encoded and decoded again.
    pub proof fn lemma_round_trip(self)
        ensures
            Self::decoded(self.encoded()) == Ok::<ExecutorMetadataView, BallistaError>(self),
    {
        self.specification.lemma_round_trip();
    }
}

/// Narrows a port number from the width it has on the wire.
fn low_16_bits(port: u32) -> (low: u16)
    ensures
        low == port % 0x1_0000,
{
    assert(port as u16 == port % 0x1_0000) by (bit_vector);
    port as u16
}

impl From<ExecutorMetadata> for protobuf::ExecutorMetadata {
    fn from(meta: ExecutorMetadata) -> (msg: protobuf::ExecutorMetadata)
        ensures
            msg@ == meta@.encoded(),
    {
        protobuf::ExecutorMetadata {
            id: meta.id,
            host: meta.host,
            port: meta.port as u32,
            grpc_port: meta.grpc_port as u32,
            specification: Some(meta.specification.into()),
        }
    }
}

/// A message holds a vector, which ghost code cannot build, so `from_spec`
/// cannot name the result: the contract of `from` states it through its
/// view.
impl FromSpecImpl<ExecutorMetadata> for protobuf::ExecutorMetadata {
    open spec fn obeys_from_spec() -> bool {
        false
    }

    open spec fn from_spec(meta: ExecutorMetadata) -> protobuf::ExecutorMetadata {
        arbitrary()
    }
}

impl TryFrom<protobuf::ExecutorMetadata> for ExecutorMetadata {
    type Error = BallistaError;

    fn try_from(meta: protobuf::ExecutorMetadata) -> (res: Result<ExecutorMetadata, BallistaError>)
        ensures
            res is Ok <==> meta.specification is Some,
            match res {
                Ok(decoded) => Ok::<ExecutorMetadataView, BallistaError>(decoded@),
                Err(e) => Err(e),
            } == ExecutorMetadataView::decoded(meta@),
    {
        match meta.specification {
            Some(specification) => {
                Ok(
                    ExecutorMetadata {
                        id: meta.id,
                        host: meta.host,
                        port: low_16_bits(meta.port),
                        grpc_port: low_16_bits(meta.grpc_port),
                        specification: specification.into(),
                    },
                )
            },
            None => Err(BallistaError::MissingSpecification),
        }
    }
}

impl TryFromSpecImpl<protobuf::ExecutorMetadata> for ExecutorMetadata {
    open spec fn obeys_try_from_spec() -> bool {
        true
    }

    open spec fn try_from_spec(meta: protobuf::ExecutorMetadata) -> Result<
        ExecutorMetadata,
        BallistaError,
    > {
        match meta.specification {
            Some(specification) => Ok(
                ExecutorMetadata {
                    id: meta.id,
                    host: meta.host,
                    port: (meta.port % 0x1_0000) as u16,
                    grpc_port: (meta.grpc_port % 0x1_0000) as u16,
                    specification: ExecutorSpecification::decoded(specification@),
                },
            ),
            None => Err(BallistaError::MissingSpecification),
        }
    }
}

} // verus!
