//! Host-side harness for sandboxed guest execution.
//!
//! A guest binary is linked against a narrow capability surface (logging, a
//! blocking work queue, a read-only request-resource accessor), admitted from
//! a fixed-size allocation pool, and driven through exactly one invocation of
//! its exported entry point under two independent interruption mechanisms: a
//! cooperative epoch deadline and a wall-clock timeout.
//!
//! The modules below hold the verified core: the allocation policy and the
//! engine that owns it, capability linking, the per-run capability host with
//! its resource-handle table, the canonical guest component, the watchdog
//! state machine, and the run orchestration with its outcome classification.

pub mod abi;
pub mod engine;
pub mod errors;
pub mod guest;
pub mod host;
pub mod link;
pub mod policy;
pub mod resources;
pub mod run;
pub mod watchdog;
