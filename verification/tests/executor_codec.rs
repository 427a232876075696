use ballista_core::protobuf;
use ballista_core::protobuf::{
    ExecutorMetric, ExecutorResource, ExecutorResourcePair, Metric, Resource,
};
use ballista_core::{
    BallistaError, ExecutorData, ExecutorDataChange, ExecutorMetadata, ExecutorSpecification,
    ExecutorState,
};

fn slots(n: u32) -> ExecutorResource {
    ExecutorResource { resource: Some(Resource::TaskSlots(n)) }
}

fn unknown_resource() -> ExecutorResource {
    ExecutorResource { resource: None }
}

fn memory(n: u64) -> ExecutorMetric {
    ExecutorMetric { metric: Some(Metric::AvailableMemory(n)) }
}

fn pair(total: Option<ExecutorResource>, available: Option<ExecutorResource>) -> ExecutorResourcePair {
    ExecutorResourcePair { total, available }
}

#[test]
fn specification_encodes_as_one_task_slots_entry() {
    let msg: protobuf::ExecutorSpecification = ExecutorSpecification { task_slots: 4 }.into();
    assert_eq!(msg.resources, vec![slots(4)]);
}

#[test]
fn specification_round_trips() {
    for task_slots in [0u32, 1, 4, 1000, u32::MAX] {
        let spec = ExecutorSpecification { task_slots };
        let msg: protobuf::ExecutorSpecification = spec.into();
        let back: ExecutorSpecification = msg.into();
        assert_eq!(back.task_slots, task_slots);
        assert_eq!(back, spec);
    }
}

#[test]
fn specification_of_no_entries_has_no_slots() {
    let back: ExecutorSpecification = protobuf::ExecutorSpecification { resources: vec![] }.into();
    assert_eq!(back.task_slots, 0);
}

#[test]
fn specification_takes_the_last_task_slots() {
    let msg = protobuf::ExecutorSpecification { resources: vec![slots(2), slots(8), slots(5)] };
    assert_eq!(ExecutorSpecification::from(msg).task_slots, 5);
}

#[test]
fn specification_skips_entries_it_does_not_know() {
    let msg = protobuf::ExecutorSpecification {
        resources: vec![unknown_resource(), slots(3), unknown_resource()],
    };
    assert_eq!(ExecutorSpecification::from(msg).task_slots, 3);
    let msg = protobuf::ExecutorSpecification {
        resources: vec![unknown_resource(), unknown_resource()],
    };
    assert_eq!(ExecutorSpecification::from(msg).task_slots, 0);
}

#[test]
fn state_encodes_as_one_memory_entry() {
    let msg: protobuf::ExecutorState = ExecutorState { available_memory_size: 1 << 30 }.into();
    assert_eq!(msg.metrics, vec![memory(1 << 30)]);
}

#[test]
fn state_round_trips() {
    for available_memory_size in [0u64, 1, 4096, u64::MAX - 1, u64::MAX] {
        let state = ExecutorState { available_memory_size };
        let msg: protobuf::ExecutorState = state.into();
        assert_eq!(ExecutorState::from(msg), state);
    }
}

#[test]
fn state_of_no_entries_is_unconstrained() {
    let back: ExecutorState = protobuf::ExecutorState { metrics: vec![] }.into();
    assert_eq!(back.available_memory_size, u64::MAX);
}

#[test]
fn state_takes_the_last_memory_and_skips_the_unknown() {
    let msg = protobuf::ExecutorState {
        metrics: vec![memory(10), ExecutorMetric { metric: None }, memory(20), ExecutorMetric { metric: None }],
    };
    assert_eq!(ExecutorState::from(msg).available_memory_size, 20);
    let msg = protobuf::ExecutorState { metrics: vec![ExecutorMetric { metric: None }] };
    assert_eq!(ExecutorState::from(msg).available_memory_size, u64::MAX);
    let msg = protobuf::ExecutorState { metrics: vec![memory(0)] };
    assert_eq!(ExecutorState::from(msg).available_memory_size, 0);
}

#[test]
fn data_encodes_as_one_pair() {
    let data = ExecutorData {
        executor_id: "exec-1".to_string(),
        total_task_slots: 4,
        available_task_slots: 3,
    };
    let msg: protobuf::ExecutorData = data.into();
    assert_eq!(msg.executor_id, "exec-1");
    assert_eq!(msg.resources, vec![pair(Some(slots(4)), Some(slots(3)))]);
}

#[test]
fn data_round_trips() {
    for (total, available) in [(0u32, 0u32), (4, 0), (4, 3), (4, 4), (u32::MAX, 17), (u32::MAX, u32::MAX)] {
        let data = ExecutorData {
            executor_id: "exec-1".to_string(),
            total_task_slots: total,
            available_task_slots: available,
        };
        let msg: protobuf::ExecutorData = data.clone().into();
        let back: ExecutorData = msg.into();
        assert_eq!(back.executor_id, data.executor_id);
        assert_eq!(back.total_task_slots, total);
        assert_eq!(back.available_task_slots, available);
    }
}

#[test]
fn data_of_no_pairs_has_no_slots() {
    let msg = protobuf::ExecutorData { executor_id: "e".to_string(), resources: vec![] };
    let back = ExecutorData::from(msg);
    assert_eq!(back.executor_id, "e");
    assert_eq!(back.total_task_slots, 0);
    assert_eq!(back.available_task_slots, 0);
}

#[test]
fn data_reads_totals_and_free_slots_apart() {
    let msg = protobuf::ExecutorData {
        executor_id: "e".to_string(),
        resources: vec![
            pair(Some(slots(8)), Some(slots(6))),
            pair(None, Some(slots(5))),
            pair(Some(unknown_resource()), None),
            pair(Some(slots(9)), Some(unknown_resource())),
        ],
    };
    let back = ExecutorData::from(msg);
    assert_eq!(back.total_task_slots, 9);
    assert_eq!(back.available_task_slots, 5);
}

fn metadata() -> ExecutorMetadata {
    ExecutorMetadata {
        id: "exec-1".to_string(),
        host: "10.0.0.7".to_string(),
        port: 50050,
        grpc_port: 50051,
        specification: ExecutorSpecification { task_slots: 4 },
    }
}

#[test]
fn metadata_encodes_with_its_specification() {
    let msg: protobuf::ExecutorMetadata = metadata().into();
    assert_eq!(msg.id, "exec-1");
    assert_eq!(msg.host, "10.0.0.7");
    assert_eq!(msg.port, 50050);
    assert_eq!(msg.grpc_port, 50051);
    assert_eq!(msg.specification, Some(protobuf::ExecutorSpecification { resources: vec![slots(4)] }));
}

#[test]
fn metadata_round_trips() {
    let msg: protobuf::ExecutorMetadata = metadata().into();
    assert_eq!(ExecutorMetadata::try_from(msg), Ok(metadata()));
    let mut edge = metadata();
    edge.port = u16::MAX;
    edge.grpc_port = 0;
    let msg: protobuf::ExecutorMetadata = edge.clone().into();
    assert_eq!(ExecutorMetadata::try_from(msg), Ok(edge));
}

#[test]
fn metadata_without_specification_is_refused() {
    let msg = protobuf::ExecutorMetadata {
        id: "exec-1".to_string(),
        host: "localhost".to_string(),
        port: 1,
        grpc_port: 2,
        specification: None,
    };
    assert_eq!(ExecutorMetadata::try_from(msg), Err(BallistaError::MissingSpecification));
}

#[test]
fn metadata_with_an_empty_specification_has_no_slots() {
    let msg = protobuf::ExecutorMetadata {
        id: "exec-1".to_string(),
        host: "localhost".to_string(),
        port: 1,
        grpc_port: 2,
        specification: Some(protobuf::ExecutorSpecification { resources: vec![] }),
    };
    let back = ExecutorMetadata::try_from(msg).unwrap();
    assert_eq!(back.specification.task_slots, 0);
}

#[test]
fn metadata_keeps_the_low_bits_of_a_port() {
    let msg = protobuf::ExecutorMetadata {
        id: "exec-1".to_string(),
        host: "localhost".to_string(),
        port: 65536 + 8080,
        grpc_port: u32::MAX,
        specification: Some(protobuf::ExecutorSpecification { resources: vec![slots(1)] }),
    };
    let back = ExecutorMetadata::try_from(msg).unwrap();
    assert_eq!(back.port, 8080);
    assert_eq!(back.grpc_port, u16::MAX);
}

#[test]
fn metadata_equality_compares_all_fields() {
    assert_eq!(metadata(), metadata());
    let mut other = metadata();
    other.id = "exec-2".to_string();
    assert_ne!(metadata(), other);
    let mut other = metadata();
    other.host = "10.0.0.8".to_string();
    assert_ne!(metadata(), other);
    let mut other = metadata();
    other.port = 1;
    assert_ne!(metadata(), other);
    let mut other = metadata();
    other.grpc_port = 1;
    assert_ne!(metadata(), other);
    let mut other = metadata();
    other.specification.task_slots = 5;
    assert_ne!(metadata(), other);
}

fn change(executor_id: &str, task_slots: i32) -> ExecutorDataChange {
    ExecutorDataChange { executor_id: executor_id.to_string(), task_slots }
}

#[test]
fn slots_follow_assignments_and_completions() {
    let mut data = ExecutorData {
        executor_id: "exec-1".to_string(),
        total_task_slots: 4,
        available_task_slots: 4,
    };
    for expected in [3u32, 2, 1] {
        assert_eq!(data.apply(&change("exec-1", -1)), Ok(()));
        assert_eq!(data.available_task_slots, expected);
        assert!(data.available_task_slots <= data.total_task_slots);
    }
    assert_eq!(data.apply(&change("exec-1", 1)), Ok(()));
    assert_eq!(data.available_task_slots, 2);
    assert!(data.available_task_slots <= data.total_task_slots);
    assert_eq!(data.total_task_slots, 4);
    assert_eq!(data.executor_id, "exec-1");
}

#[test]
fn a_change_beyond_the_bounds_is_refused() {
    let mut data = ExecutorData {
        executor_id: "exec-1".to_string(),
        total_task_slots: 4,
        available_task_slots: 2,
    };
    assert_eq!(data.apply(&change("exec-1", -3)), Err(BallistaError::SlotsOutOfRange));
    assert_eq!(data.available_task_slots, 2);
    assert_eq!(data.apply(&change("exec-1", 3)), Err(BallistaError::SlotsOutOfRange));
    assert_eq!(data.available_task_slots, 2);
    assert_eq!(data.apply(&change("exec-1", i32::MIN)), Err(BallistaError::SlotsOutOfRange));
    assert_eq!(data.apply(&change("exec-1", i32::MAX)), Err(BallistaError::SlotsOutOfRange));
    assert_eq!(data.available_task_slots, 2);
    assert_eq!(data.apply(&change("exec-1", 2)), Ok(()));
    assert_eq!(data.available_task_slots, 4);
    assert_eq!(data.apply(&change("exec-1", -4)), Ok(()));
    assert_eq!(data.available_task_slots, 0);
    assert_eq!(data.apply(&change("exec-1", 0)), Ok(()));
    assert_eq!(data.available_task_slots, 0);
}

#[test]
fn a_change_for_another_executor_is_refused() {
    let mut data = ExecutorData {
        executor_id: "exec-1".to_string(),
        total_task_slots: 4,
        available_task_slots: 2,
    };
    assert_eq!(data.apply(&change("exec-2", 1)), Err(BallistaError::ExecutorMismatch));
    assert_eq!(data.apply(&change("exec-2", 100)), Err(BallistaError::ExecutorMismatch));
    assert_eq!(data.available_task_slots, 2);
}

#[test]
fn large_counters_change_without_overflow() {
    let mut data = ExecutorData {
        executor_id: "e".to_string(),
        total_task_slots: u32::MAX,
        available_task_slots: u32::MAX - 1,
    };
    assert_eq!(data.apply(&change("e", 1)), Ok(()));
    assert_eq!(data.available_task_slots, u32::MAX);
    assert_eq!(data.apply(&change("e", 1)), Err(BallistaError::SlotsOutOfRange));
    assert_eq!(data.apply(&change("e", i32::MIN)), Ok(()));
    assert_eq!(data.available_task_slots, u32::MAX - (1u32 << 31));
}

#[test]
fn counters_with_too_many_free_slots_only_change_into_bounds() {
    let msg = protobuf::ExecutorData {
        executor_id: "e".to_string(),
        resources: vec![pair(Some(slots(2)), Some(slots(5)))],
    };
    let mut data = ExecutorData::from(msg);
    assert_eq!(data.total_task_slots, 2);
    assert_eq!(data.available_task_slots, 5);
    assert_eq!(data.apply(&change("e", -1)), Err(BallistaError::SlotsOutOfRange));
    assert_eq!(data.apply(&change("e", 0)), Err(BallistaError::SlotsOutOfRange));
    assert_eq!(data.available_task_slots, 5);
    assert_eq!(data.apply(&change("e", -3)), Ok(()));
    assert_eq!(data.available_task_slots, 2);
}
