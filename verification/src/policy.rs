use vstd::prelude::*;
use crate::errors::HostError;

verus! {

/// Size of one linear-memory page, in bytes.
pub const WASM_PAGE_BYTES: u64 = 65536;

/// Immutable per-engine resource budgets. Every instance admitted under a
/// policy has its memory and table footprint capped by these values at
/// construction time, independent of guest behavior.
#[derive(Clone, Copy, Debug, PartialEq, Eq, Structural)]
pub struct AllocationPolicy {
    /// Upper bound, in bytes, on the size of one core instance's VM structures.
    pub max_core_instance_bytes: u64,
    /// Pool-wide number of linear-memory slots reserved up front.
    pub total_memories: u64,
    /// How many linear memories a single instance may declare.
    pub max_memories_per_instance: u64,
    /// Linear-memory budget of one instance, in bytes.
    pub memory_budget_bytes: u64,
    /// How many tables a single instance may declare.
    pub max_tables_per_instance: u64,
    /// Element budget of one table.
    pub table_elements: u64,
    /// Idle slots kept warm to amortize allocation cost on repeated runs.
    /// A performance knob only; an engine may always allocate cold.
    pub max_unused_warm_slots: u64,
    /// Hard cap on concurrently live instances; admission beyond it is denied,
    /// never queued.
    pub total_core_instances: u64,
}

impl AllocationPolicy {
    /// Internal consistency: the pool admits at least one instance, an
    /// instance may hold at least one page of linear memory and declare at
    /// least one memory and one table, warm slots never exceed the pool, and
    /// the reserved memory slots suffice for every concurrently live instance.
    pub open spec fn wf(self) -> bool {
        &&& self.total_core_instances >= 1
        &&& self.memory_budget_bytes >= WASM_PAGE_BYTES
        &&& self.max_memories_per_instance >= 1
        &&& self.max_tables_per_instance >= 1
        &&& self.max_unused_warm_slots <= self.total_core_instances
        &&& self.total_memories >= self.total_core_instances
    }

    /// Runtime check of the same consistency conditions.
    pub fn check(&self) -> (r: bool)
        ensures
            r == self.wf(),
    {
        self.total_core_instances >= 1
            && self.memory_budget_bytes >= WASM_PAGE_BYTES
            && self.max_memories_per_instance >= 1
            && self.max_tables_per_instance >= 1
            && self.max_unused_warm_slots <= self.total_core_instances
            && self.total_memories >= self.total_core_instances
    }

    /// Validate the policy as an engine constructor would: the policy itself
    /// when it is consistent, `ConfigError` when it is not.
    pub fn validate(&self) -> (r: Result<AllocationPolicy, HostError>)
        ensures
            self.wf() ==> r == Ok::<AllocationPolicy, HostError>(*self),
            !self.wf() ==> r == Err::<AllocationPolicy, HostError>(HostError::ConfigError),
    {
        if self.check() {
            Ok(*self)
        } else {
            Err(HostError::ConfigError)
        }
    }
}

/// The budgets this host deploys with: one mebibyte of VM structures per
/// instance, one memory and one table per instance, two mebibytes of linear
/// memory, a generously sized function table, ten warm slots, and one hundred
/// concurrent instances.
pub fn production_policy() -> (p: AllocationPolicy)
    ensures
        p == (AllocationPolicy {
            max_core_instance_bytes: 0x100000,
            total_memories: 100,
            max_memories_per_instance: 1,
            memory_budget_bytes: 0x200000,
            max_tables_per_instance: 1,
            table_elements: 98765,
            max_unused_warm_slots: 10,
            total_core_instances: 100,
        }),
        p.wf(),
{
    AllocationPolicy {
        max_core_instance_bytes: 0x100000,
        total_memories: 100,
        max_memories_per_instance: 1,
        memory_budget_bytes: 0x200000,
        max_tables_per_instance: 1,
        table_elements: 98765,
        max_unused_warm_slots: 10,
        total_core_instances: 100,
    }
}

} // verus!
