use trace_host::engine::{create_engine, SandboxEngine};
use trace_host::errors::HostError;
use trace_host::policy::{production_policy, AllocationPolicy};

fn small_pool_policy(n: u64) -> AllocationPolicy {
    AllocationPolicy {
        max_core_instance_bytes: 1 << 20,
        total_memories: n,
        max_memories_per_instance: 1,
        memory_budget_bytes: 2 << 20,
        max_tables_per_instance: 1,
        table_elements: 100,
        max_unused_warm_slots: 0,
        total_core_instances: n,
    }
}

#[test]
fn production_policy_values() {
    let p = production_policy();
    assert_eq!(p.max_core_instance_bytes, 1 << 20);
    assert_eq!(p.total_memories, 100);
    assert_eq!(p.max_memories_per_instance, 1);
    assert_eq!(p.memory_budget_bytes, 2 << 20);
    assert_eq!(p.max_tables_per_instance, 1);
    assert_eq!(p.table_elements, 98765);
    assert_eq!(p.max_unused_warm_slots, 10);
    assert_eq!(p.total_core_instances, 100);
    assert!(p.check());
}

#[test]
fn engine_from_production_policy() {
    let p = production_policy();
    let e = create_engine(&p).unwrap();
    assert_eq!(e.epoch, 0);
    assert_eq!(e.live_instances, 0);
    assert_eq!(e.policy, p);
}

#[test]
fn memory_budget_under_one_page_is_config_error() {
    let mut p = production_policy();
    p.memory_budget_bytes = 65535;
    assert_eq!(create_engine(&p), Err(HostError::ConfigError));
}

#[test]
fn zero_instances_is_config_error() {
    let mut p = production_policy();
    p.total_core_instances = 0;
    p.max_unused_warm_slots = 0;
    p.total_memories = 0;
    assert_eq!(create_engine(&p), Err(HostError::ConfigError));
}

#[test]
fn warm_slots_beyond_pool_is_config_error() {
    let mut p = production_policy();
    p.max_unused_warm_slots = p.total_core_instances + 1;
    assert_eq!(create_engine(&p), Err(HostError::ConfigError));
}

#[test]
fn pool_admission_grants_n_then_denies() {
    let mut e: SandboxEngine = create_engine(&small_pool_policy(2)).unwrap();
    assert_eq!(e.try_acquire_slot(), Ok(()));
    assert_eq!(e.try_acquire_slot(), Ok(()));
    assert_eq!(e.try_acquire_slot(), Err(HostError::PoolExhausted));
    assert_eq!(e.live_instances, 2);
    e.release_slot();
    assert_eq!(e.try_acquire_slot(), Ok(()));
    assert_eq!(e.try_acquire_slot(), Err(HostError::PoolExhausted));
}

#[test]
fn epoch_counter_is_monotonic() {
    let mut e = create_engine(&production_policy()).unwrap();
    e.increment_epoch();
    e.increment_epoch();
    e.increment_epoch();
    assert_eq!(e.epoch, 3);
    assert_eq!(e.live_instances, 0);
}

#[test]
fn error_messages_are_distinct() {
    let all = [
        HostError::ConfigError,
        HostError::LinkError,
        HostError::Trapped,
        HostError::TimedOut,
        HostError::PoolExhausted,
        HostError::IoError,
    ];
    for (i, a) in all.iter().enumerate() {
        for (j, b) in all.iter().enumerate() {
            if i != j {
                assert_ne!(a.message(), b.message());
            }
        }
    }
}
