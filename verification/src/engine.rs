use vstd::prelude::*;
use crate::errors::HostError;
use crate::policy::AllocationPolicy;

verus! {

/// The process-wide sandbox engine: it owns the allocation policy, the shared
/// epoch counter of the interruption clock, and the admission count of the
/// instance pool. It is created once; after construction only the epoch
/// counter (advanced by the watchdog) and the admission count change.
#[derive(Clone, Copy, Debug, PartialEq, Eq, Structural)]
pub struct SandboxEngine {
    /// The budgets every admitted instance is capped by.
    pub policy: AllocationPolicy,
    /// The shared interruption clock; its value means nothing but "number of
    /// ticks elapsed" and is used only for deadline comparison.
    pub epoch: u64,
    /// How many instances are currently admitted from the pool.
    pub live_instances: u64,
}

impl SandboxEngine {
    /// The engine carries a consistent policy and never holds more live
    /// instances than the policy admits.
    pub open spec fn wf(self) -> bool {
        &&& self.policy.wf()
        &&& self.live_instances <= self.policy.total_core_instances
    }

    /// Admission is granted exactly while the concurrent-instance budget has
    /// room.
    pub open spec fn admission_granted(self) -> bool {
        self.live_instances < self.policy.total_core_instances
    }

    /// Advance the shared interruption clock by one tick. Only the watchdog
    /// calls this; every run under this engine observes the same counter.
    pub fn increment_epoch(&mut self)
        requires
            old(self).epoch < u64::MAX,
        ensures
            final(self).epoch == old(self).epoch + 1,
            final(self).policy == old(self).policy,
            final(self).live_instances == old(self).live_instances,
    {
        self.epoch = self.epoch + 1;
    }

    /// Try to admit one more instance. Admission is atomic against the
    /// configured budget: it succeeds exactly while there is room and fails
    /// with `PoolExhausted` otherwise, never blocking or queueing.
    pub fn try_acquire_slot(&mut self) -> (r: Result<(), HostError>)
        ensures
            old(self).admission_granted() ==> {
                &&& r == Ok::<(), HostError>(())
                &&& final(self).live_instances == old(self).live_instances + 1
            },
            !old(self).admission_granted() ==> {
                &&& r == Err::<(), HostError>(HostError::PoolExhausted)
                &&& final(self).live_instances == old(self).live_instances
            },
            final(self).policy == old(self).policy,
            final(self).epoch == old(self).epoch,
            old(self).wf() ==> final(self).wf(),
    {
        if self.live_instances < self.policy.total_core_instances {
            self.live_instances = self.live_instances + 1;
            Ok(())
        } else {
            Err(HostError::PoolExhausted)
        }
    }

    /// Return one admitted instance's slot to the pool. Every run releases its
    /// slot on completion, trap, timeout and cancellation alike.
    pub fn release_slot(&mut self)
        requires
            old(self).live_instances >= 1,
        ensures
            final(self).live_instances == old(self).live_instances - 1,
            final(self).policy == old(self).policy,
            final(self).epoch == old(self).epoch,
            old(self).wf() ==> final(self).wf(),
    {
        self.live_instances = self.live_instances - 1;
    }
}

/// Build the process-wide engine from a policy: the engine starts with a zero
/// epoch and an empty pool when the policy is consistent, and construction
/// fails with `ConfigError` before any run starts when it is not.
pub fn create_engine(policy: &AllocationPolicy) -> (r: Result<SandboxEngine, HostError>)
    ensures
        policy.wf() ==> r == Ok::<SandboxEngine, HostError>(SandboxEngine {
            policy: *policy,
            epoch: 0,
            live_instances: 0,
        }),
        !policy.wf() ==> r == Err::<SandboxEngine, HostError>(HostError::ConfigError),
        r matches Ok(e) ==> e.wf(),
{
    if policy.check() {
        Ok(SandboxEngine { policy: *policy, epoch: 0, live_instances: 0 })
    } else {
        Err(HostError::ConfigError)
    }
}

/// The engine state after a fresh engine under `policy` has admitted `k` runs,
/// none of which has finished yet.
pub open spec fn engine_after_admissions(policy: AllocationPolicy, k: nat) -> SandboxEngine {
    SandboxEngine { policy: policy, epoch: 0, live_instances: k as u64 }
}

/// Pool admission law: under a policy whose concurrent-instance budget is
/// `n`, a fresh engine grants each of the first `n` concurrent admissions,
/// and denies the `(n + 1)`-th while all `n` are still live.
pub proof fn lemma_pool_admission(policy: AllocationPolicy, n: nat)
    requires
        policy.wf(),
        n == policy.total_core_instances,
    ensures
        forall|k: nat| k < n ==> engine_after_admissions(policy, k).admission_granted(),
        !engine_after_admissions(policy, n).admission_granted(),
{
}

} // verus!
