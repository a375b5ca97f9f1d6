use vstd::prelude::*;

verus! {

/// Every way the host can fail: an inconsistent configuration, a guest whose
/// import/export surface does not match the capability contract, a guest call
/// aborted by the cooperative interruption mechanism, a call cancelled by the
/// wall-clock timeout, an admission denied by the allocation pool, or an
/// artifact that could not be read or written.
#[derive(Clone, Copy, Debug, PartialEq, Eq, Structural)]
pub enum HostError {
    /// The allocation policy or engine configuration is internally inconsistent.
    ConfigError,
    /// The guest binary's import/export surface does not match the sanctioned
    /// capability contract.
    LinkError,
    /// The guest call was aborted from inside the engine, by the epoch deadline
    /// or by a guest-side fault.
    Trapped,
    /// The wall-clock timeout elapsed before the guest call resolved.
    TimedOut,
    /// Admission was denied because the concurrent-instance budget is full.
    PoolExhausted,
    /// An artifact could not be read or written.
    IoError,
}

impl HostError {
    /// A human-readable message, distinct per failure kind, so that a trap, a
    /// timeout and a link failure can be told apart without inspecting
    /// internals.
    pub fn message(&self) -> (r: &'static str)
        ensures
            *self is ConfigError ==> r@ == "engine configuration is inconsistent"@,
            *self is LinkError ==> r@ == "guest does not conform to the capability contract"@,
            *self is Trapped ==> r@ == "guest trapped"@,
            *self is TimedOut ==> r@ == "guest timed out"@,
            *self is PoolExhausted ==> r@ == "instance pool is exhausted"@,
            *self is IoError ==> r@ == "artifact read or write failed"@,
    {
        match self {
            HostError::ConfigError => "engine configuration is inconsistent",
            HostError::LinkError => "guest does not conform to the capability contract",
            HostError::Trapped => "guest trapped",
            HostError::TimedOut => "guest timed out",
            HostError::PoolExhausted => "instance pool is exhausted",
            HostError::IoError => "artifact read or write failed",
        }
    }
}

} // verus!
