use vstd::prelude::*;
use crate::engine::SandboxEngine;
use crate::errors::HostError;
use crate::guest::{
    Component, Guest, GuestScript, GUEST_POP_TIMEOUT_SECS, enter_events, guest_log, pop_event,
};
use crate::host::{CapEvent, EventModel, ExecutionContext, QueueStub, trace_of};
use crate::link::{InstantiationPlan, Linker, instantiate_pre, surface_ok, GuestBinary};
use crate::watchdog::{RunLifecycle, RunOutcome};

verus! {

/// The timing of one watchdog-governed call: the epoch budget of the guest
/// call, the wall interval between two ticks, and the independent wall-clock
/// timeout around the whole call.
#[derive(Clone, Copy, Debug, PartialEq, Eq, Structural)]
pub struct RunConfig {
    /// How many ticks the guest call may see before it faults.
    pub deadline_ticks: u64,
    /// Wall milliseconds between two watchdog ticks.
    pub tick_interval_ms: u64,
    /// Wall milliseconds before the whole call is cancelled.
    pub timeout_ms: u64,
}

/// The timing this host deploys with: a ten-tick budget at ten milliseconds a
/// tick, inside a one-second timeout.
pub fn production_run_config() -> (c: RunConfig)
    ensures
        c == (RunConfig { deadline_ticks: 10, tick_interval_ms: 10, timeout_ms: 1000 }),
{
    RunConfig { deadline_ticks: 10, tick_interval_ms: 10, timeout_ms: 1000 }
}

/// The moment, in wall milliseconds since arming, at which a guest that never
/// yields faults: the deadline in ticks times the tick interval.
pub open spec fn busy_trap_ms(cfg: RunConfig) -> int {
    cfg.deadline_ticks * cfg.tick_interval_ms
}

/// How one run ends: a trace-loop guest completes as soon as its queue
/// answers, and is cancelled by the wall clock when the queue hangs (a call
/// suspended inside a host import passes no safe point where the epoch could
/// fault it); a busy guest is trapped at its epoch deadline unless the wall
/// clock fires strictly first.
pub open spec fn run_outcome_spec(script: GuestScript, q: QueueStub, cfg: RunConfig) -> RunOutcome {
    match script {
        GuestScript::TraceLoop => if q.hangs {
            RunOutcome::TimedOut
        } else {
            RunOutcome::Completed
        },
        GuestScript::BusyLoop => if busy_trap_ms(cfg) <= cfg.timeout_ms {
            RunOutcome::Trapped
        } else {
            RunOutcome::TimedOut
        },
    }
}

/// Wall milliseconds from arming to the outcome.
pub open spec fn run_elapsed_spec(script: GuestScript, q: QueueStub, cfg: RunConfig) -> int {
    match script {
        GuestScript::TraceLoop => if q.hangs {
            cfg.timeout_ms as int
        } else {
            0
        },
        GuestScript::BusyLoop => if busy_trap_ms(cfg) <= cfg.timeout_ms {
            busy_trap_ms(cfg)
        } else {
            cfg.timeout_ms as int
        },
    }
}

/// The capability calls one run records: the single entry-point invocation,
/// then whatever the script reaches before its outcome. A hanging queue cuts
/// the trace loop off after the "entered" line and the unanswered poll; a
/// busy guest calls nothing.
pub open spec fn run_trace_spec(script: GuestScript, q: QueueStub) -> Seq<EventModel> {
    match script {
        GuestScript::TraceLoop => if q.hangs {
            seq![
                EventModel::EnterInvoked,
                guest_log("entered"@),
                pop_event(),
            ]
        } else {
            seq![EventModel::EnterInvoked] + enter_events(q.items as nat)
        },
        GuestScript::BusyLoop => seq![EventModel::EnterInvoked],
    }
}

/// The report of one admitted run.
pub struct RunReport {
    pub outcome: RunOutcome,
    pub events: Vec<CapEvent>,
    pub elapsed_ms: u64,
}

/// Drive one run of a validated plan: admit it from the pool, build a fresh
/// execution context carrying the fault directive, arm the epoch deadline and
/// the ticker, invoke the entry point exactly once, classify the outcome, and
/// tear down — ticker stopped, context destroyed (all handles dead), pool
/// slot released — on every path.
pub fn run_plan(
    engine: &mut SandboxEngine,
    plan: &InstantiationPlan,
    queue: QueueStub,
    cfg: &RunConfig,
    fault_directive: String,
) -> (r: Result<RunReport, HostError>)
    requires
        old(engine).epoch + cfg.deadline_ticks <= u64::MAX,
    ensures
        *final(engine) == *old(engine),
        r is Ok <==> old(engine).admission_granted(),
        !old(engine).admission_granted() ==> r == Err::<RunReport, HostError>(
            HostError::PoolExhausted,
        ),
        r matches Ok(rep) ==> {
            &&& rep.outcome == run_outcome_spec(plan.binary.script, queue, *cfg)
            &&& trace_of(rep.events@) == run_trace_spec(plan.binary.script, queue)
            &&& rep.elapsed_ms == run_elapsed_spec(plan.binary.script, queue, *cfg)
        },
{
    let admitted = engine.try_acquire_slot();
    if admitted.is_err() {
        return Err(HostError::PoolExhausted);
    }

    let mut lifecycle = RunLifecycle::idle();
    let mut ctx = ExecutionContext::new(queue, fault_directive);
    ctx.set_epoch_deadline(engine.epoch, cfg.deadline_ticks);
    lifecycle.arm(engine.epoch, cfg.deadline_ticks);
    lifecycle.begin_call();
    ctx.host.record_enter();

    let outcome: RunOutcome;
    let elapsed_ms: u64;
    match plan.binary.script {
        GuestScript::TraceLoop => {
            if ctx.host.queue.hangs {
                // The call suspends inside `try_pop` and never answers; only
                // the wall clock can end it. Record what the guest did before
                // the unanswered poll.
                crate::guest::host_log(&mut ctx.host, "entered");
                ctx.host.record_pop_request(GUEST_POP_TIMEOUT_SECS);
                outcome = RunOutcome::TimedOut;
                elapsed_ms = cfg.timeout_ms;
            } else {
                Component::enter(&mut ctx.host);
                outcome = RunOutcome::Completed;
                elapsed_ms = 0;
            }
        },
        GuestScript::BusyLoop => {
            proof {
                assert((cfg.deadline_ticks as int) * (cfg.tick_interval_ms as int)
                    <= 0xFFFF_FFFF_FFFF_FFFFint * 0xFFFF_FFFF_FFFF_FFFFint) by (nonlinear_arith)
                    requires
                        cfg.deadline_ticks as int <= 0xFFFF_FFFF_FFFF_FFFFint,
                        cfg.tick_interval_ms as int <= 0xFFFF_FFFF_FFFF_FFFFint,
                ;
            }
            let trap = (cfg.deadline_ticks as u128) * (cfg.tick_interval_ms as u128);
            if trap <= cfg.timeout_ms as u128 {
                outcome = RunOutcome::Trapped;
                elapsed_ms = trap as u64;
            } else {
                outcome = RunOutcome::TimedOut;
                elapsed_ms = cfg.timeout_ms;
            }
        },
    }

    lifecycle.finish(outcome);
    ctx.destroy();
    engine.release_slot();

    proof {
        assert(trace_of(ctx.host.events@) =~= run_trace_spec(plan.binary.script, queue));
    }
    Ok(RunReport { outcome, events: ctx.host.events, elapsed_ms })
}

/// Validate a binary against the linker and, only when its surface is
/// satisfied, drive one run of it. A binary that fails validation never
/// reaches the pool, the watchdog or the guest: the run ends at plan
/// construction with `LinkError` and the engine is untouched.
pub fn run_binary(
    engine: &mut SandboxEngine,
    linker: &Linker,
    binary: GuestBinary,
    queue: QueueStub,
    cfg: &RunConfig,
    fault_directive: String,
) -> (r: Result<RunReport, HostError>)
    requires
        old(engine).epoch + cfg.deadline_ticks <= u64::MAX,
    ensures
        *final(engine) == *old(engine),
        !surface_ok(binary.surface, *linker) ==> r == Err::<RunReport, HostError>(
            HostError::LinkError,
        ),
        surface_ok(binary.surface, *linker) && !old(engine).admission_granted() ==> r
            == Err::<RunReport, HostError>(HostError::PoolExhausted),
        surface_ok(binary.surface, *linker) && old(engine).admission_granted() ==> (r matches Ok(
            rep,
        ) && {
            &&& rep.outcome == run_outcome_spec(binary.script, queue, *cfg)
            &&& trace_of(rep.events@) == run_trace_spec(binary.script, queue)
            &&& rep.elapsed_ms == run_elapsed_spec(binary.script, queue, *cfg)
        }),
{
    match instantiate_pre(linker, binary) {
        Err(e) => Err(e),
        Ok(plan) => run_plan(engine, &plan, queue, cfg, fault_directive),
    }
}

/// The serialized, pre-validated form of a guest binary, as `compile` writes
/// it: the engine's serialization round-trips the binary without semantic
/// difference, so the artifact carries the binary it was compiled from.
#[derive(Clone, Debug)]
pub struct PrecompiledArtifact {
    pub binary: GuestBinary,
}

/// The compile path: validate the binary's surface against the linker (which
/// also front-loads compilation) and produce the serialized artifact. A
/// binary that fails validation yields `LinkError` and no artifact.
pub fn compile_binary(linker: &Linker, binary: GuestBinary) -> (r: Result<
    PrecompiledArtifact,
    HostError,
>)
    ensures
        surface_ok(binary.surface, *linker) ==> (r matches Ok(a) && a.binary == binary),
        !surface_ok(binary.surface, *linker) ==> r == Err::<PrecompiledArtifact, HostError>(
            HostError::LinkError,
        ),
{
    match instantiate_pre(linker, binary) {
        Err(e) => Err(e),
        Ok(plan) => Ok(PrecompiledArtifact { binary: plan.binary }),
    }
}

/// Run a precompiled artifact: the plan is rebuilt from the preserved binary
/// (re-validation is cheap; re-compilation is what the artifact skips).
pub fn run_artifact(
    engine: &mut SandboxEngine,
    linker: &Linker,
    artifact: PrecompiledArtifact,
    queue: QueueStub,
    cfg: &RunConfig,
    fault_directive: String,
) -> (r: Result<RunReport, HostError>)
    requires
        old(engine).epoch + cfg.deadline_ticks <= u64::MAX,
    ensures
        *final(engine) == *old(engine),
        !surface_ok(artifact.binary.surface, *linker) ==> r == Err::<RunReport, HostError>(
            HostError::LinkError,
        ),
        surface_ok(artifact.binary.surface, *linker) && !old(engine).admission_granted() ==> r
            == Err::<RunReport, HostError>(HostError::PoolExhausted),
        surface_ok(artifact.binary.surface, *linker) && old(engine).admission_granted()
            ==> (r matches Ok(rep) && {
            &&& rep.outcome == run_outcome_spec(artifact.binary.script, queue, *cfg)
            &&& trace_of(rep.events@) == run_trace_spec(artifact.binary.script, queue)
            &&& rep.elapsed_ms == run_elapsed_spec(artifact.binary.script, queue, *cfg)
        }),
{
    run_binary(engine, linker, artifact.binary, queue, cfg, fault_directive)
}

/// The part of a path after its last separator: the file name the extension
/// convention is judged on.
pub open spec fn file_component(name: Seq<u8>) -> Seq<u8>
    decreases name.len(),
{
    if name.len() == 0 {
        name
    } else if name.last() == 47 {
        Seq::empty()
    } else {
        file_component(name.drop_last()).push(name.last())
    }
}

/// The bytes of the artifact suffix, ".cwasm".
pub open spec fn cwasm_suffix() -> Seq<u8> {
    seq![46u8, 99u8, 119u8, 97u8, 115u8, 109u8]
}

/// The extension convention that selects the load path: a path is a
/// precompiled artifact when its file name ends in ".cwasm" with a non-empty
/// stem before the dot (a file named exactly ".cwasm" has no extension).
pub open spec fn is_precompiled_spec(name: Seq<u8>) -> bool {
    &&& file_component(name).len() > 6
    &&& name.subrange(name.len() - 6, name.len() as int) == cwasm_suffix()
}

/// With no separator at or after `cut`, and a separator just before it, the
/// file component is exactly the tail from `cut`.
proof fn lemma_file_component_from(name: Seq<u8>, cut: int)
    requires
        0 <= cut <= name.len(),
        forall|i: int| cut <= i < name.len() ==> name[i] != 47,
        cut > 0 ==> name[cut - 1] == 47,
    ensures
        file_component(name) == name.subrange(cut, name.len() as int),
    decreases name.len(),
{
    if name.len() == 0 {
        assert(file_component(name) =~= name.subrange(cut, name.len() as int));
    } else if name.last() == 47 {
        assert(cut == name.len());
        assert(file_component(name) =~= name.subrange(cut, name.len() as int));
    } else {
        assert(cut < name.len());
        lemma_file_component_from(name.drop_last(), cut);
        assert(file_component(name.drop_last()).push(name.last()) =~= name.subrange(
            cut,
            name.len() as int,
        ));
    }
}

/// Decide the load path from the file name, by the extension convention.
pub fn is_precompiled_name(name: &[u8]) -> (r: bool)
    ensures
        r == is_precompiled_spec(name@),
{
    let n = name.len();
    let mut cut: usize = n;
    let mut scanning = true;
    while scanning && cut > 0
        invariant
            0 <= cut <= n,
            n == name@.len(),
            forall|i: int| cut <= i < n ==> name@[i] != 47,
            !scanning ==> cut > 0 && name@[cut - 1] == 47,
        decreases cut + (if scanning {
            1int
        } else {
            0int
        }),
    {
        if name[cut - 1] == 47 {
            scanning = false;
        } else {
            cut = cut - 1;
        }
    }
    proof {
        lemma_file_component_from(name@, cut as int);
    }
    if n - cut <= 6 {
        return false;
    }
    if name[n - 6] == 46 && name[n - 5] == 99 && name[n - 4] == 119 && name[n - 3] == 97 && name[n
        - 2] == 115 && name[n - 1] == 109 {
        proof {
            assert(name@.subrange(n - 6, n as int) =~= cwasm_suffix());
        }
        true
    } else {
        proof {
            if name@.subrange(n - 6, n as int) == cwasm_suffix() {
                assert(name@[n - 6] == cwasm_suffix()[0]);
                assert(name@[n - 5] == cwasm_suffix()[1]);
                assert(name@[n - 4] == cwasm_suffix()[2]);
                assert(name@[n - 3] == cwasm_suffix()[3]);
                assert(name@[n - 2] == cwasm_suffix()[4]);
                assert(name@[n - 1] == cwasm_suffix()[5]);
            }
        }
        false
    }
}

/// What the engine reported of the guest call, as the orchestrator's race
/// resolves it: the call returned, the engine unwound it, or the wall clock
/// cancelled it first.
#[derive(Clone, Copy, Debug, PartialEq, Eq, Structural)]
pub enum CallResolution {
    Returned,
    Faulted,
    Cancelled,
}

/// Classify the resolution of one guest call: a return completes the run, an
/// engine-side unwind is a trap, a cancellation by the wall clock is a
/// timeout — reported distinctly.
pub fn classify(c: &CallResolution) -> (o: RunOutcome)
    ensures
        *c is Returned ==> o is Completed,
        *c is Faulted ==> o is Trapped,
        *c is Cancelled ==> o is TimedOut,
{
    match c {
        CallResolution::Returned => RunOutcome::Completed,
        CallResolution::Faulted => RunOutcome::Trapped,
        CallResolution::Cancelled => RunOutcome::TimedOut,
    }
}

/// How many entry-point invocations a trace records.
pub open spec fn count_enters(t: Seq<EventModel>) -> int
    decreases t.len(),
{
    if t.len() == 0 {
        0
    } else {
        count_enters(t.drop_last()) + (if t.last() is EnterInvoked {
            1int
        } else {
            0int
        })
    }
}

/// The invocation count of a one-event trace.
pub proof fn lemma_count_enters_one(e: EventModel)
    ensures
        count_enters(seq![e]) == (if e is EnterInvoked {
            1int
        } else {
            0int
        }),
{
    assert(seq![e].drop_last() =~= Seq::<EventModel>::empty());
    assert(count_enters(Seq::<EventModel>::empty()) == 0);
}

/// Entry-point invocations add up over concatenation.
pub proof fn lemma_count_enters_concat(a: Seq<EventModel>, b: Seq<EventModel>)
    ensures
        count_enters(a + b) == count_enters(a) + count_enters(b),
    decreases b.len(),
{
    if b.len() == 0 {
        assert(a + b =~= a);
        assert(count_enters(b) == 0);
    } else {
        lemma_count_enters_concat(a, b.drop_last());
        assert((a + b).drop_last() =~= a + b.drop_last());
        assert((a + b).last() == b.last());
    }
}

/// The polling phase invokes no entry point.
pub proof fn lemma_running_events_no_enter(k: nat)
    ensures
        count_enters(crate::guest::running_events(k)) == 0,
    decreases k,
{
    if k == 0 {
        assert(count_enters(crate::guest::running_events(0)) == 0);
    } else {
        lemma_running_events_no_enter((k - 1) as nat);
        let tail = seq![pop_event(), guest_log("running"@)];
        lemma_count_enters_concat(crate::guest::running_events((k - 1) as nat), tail);
        assert(tail.drop_last() =~= seq![pop_event()]);
        lemma_count_enters_one(pop_event());
        assert(count_enters(tail) == 0);
    }
}

/// A completed entry-point invocation adds no further invocation to the trace.
pub proof fn lemma_enter_events_no_enter(k: nat)
    ensures
        count_enters(enter_events(k)) == 0,
{
    let entered = seq![guest_log("entered"@)];
    let closing = seq![pop_event(), guest_log("done"@)];
    lemma_count_enters_concat(entered + crate::guest::running_events(k), closing);
    lemma_count_enters_concat(entered, crate::guest::running_events(k));
    lemma_running_events_no_enter(k);
    lemma_count_enters_one(guest_log("entered"@));
    assert(count_enters(entered) == 0);
    assert(closing.drop_last() =~= seq![pop_event()]);
    lemma_count_enters_one(pop_event());
    assert(count_enters(closing) == 0);
}

/// Entry-point call count law: whatever the guest does and however its run
/// ends, the trace of one run holds exactly one entry-point invocation —
/// never zero, never more.
pub proof fn lemma_enter_invoked_once(script: GuestScript, q: QueueStub)
    ensures
        count_enters(run_trace_spec(script, q)) == 1,
{
    match script {
        GuestScript::TraceLoop => {
            if q.hangs {
                let t = run_trace_spec(script, q);
                let two = seq![EventModel::EnterInvoked, guest_log("entered"@)];
                assert(t.drop_last() =~= two);
                assert(two.drop_last() =~= seq![EventModel::EnterInvoked]);
                lemma_count_enters_one(EventModel::EnterInvoked);
                assert(count_enters(two) == 1);
                assert(count_enters(t) == 1);
            } else {
                lemma_count_enters_concat(
                    seq![EventModel::EnterInvoked],
                    enter_events(q.items as nat),
                );
                lemma_enter_events_no_enter(q.items as nat);
                lemma_count_enters_one(EventModel::EnterInvoked);
            }
        },
        GuestScript::BusyLoop => {
            lemma_count_enters_one(EventModel::EnterInvoked);
        },
    }
}

/// The log lines of a whole run of the canonical guest are those of its one
/// entry-point invocation: the recorded invocation marker logs nothing.
pub proof fn lemma_run_log_ordering(q: QueueStub)
    requires
        !q.hangs,
    ensures
        crate::guest::logged_messages(run_trace_spec(GuestScript::TraceLoop, q))
            == crate::guest::logged_messages(enter_events(q.items as nat)),
{
    crate::guest::lemma_logged_messages_concat(
        seq![EventModel::EnterInvoked],
        enter_events(q.items as nat),
    );
    crate::guest::lemma_logged_messages_one(EventModel::EnterInvoked);
    assert(Seq::<Seq<char>>::empty() + crate::guest::logged_messages(
        enter_events(q.items as nat),
    ) =~= crate::guest::logged_messages(enter_events(q.items as nat)));
}

/// Round-trip law: a binary that passed validation behaves identically when
/// run from its compiled artifact and when run raw — the same capability
/// calls in the same order, the same outcome, the same elapsed time — because
/// the artifact carries the binary it was compiled from.
pub proof fn lemma_round_trip(
    raw: GuestBinary,
    artifact: PrecompiledArtifact,
    q: QueueStub,
    cfg: RunConfig,
)
    requires
        artifact.binary == raw,
    ensures
        run_trace_spec(artifact.binary.script, q) == run_trace_spec(raw.script, q),
        run_outcome_spec(artifact.binary.script, q, cfg) == run_outcome_spec(raw.script, q, cfg),
        run_elapsed_spec(artifact.binary.script, q, cfg) == run_elapsed_spec(raw.script, q, cfg),
{
}

/// Deadline enforcement law: a guest that loops without ever yielding to a
/// suspending capability call is trapped at the moment the elapsed ticks
/// reach its deadline — strictly before the independent wall-clock timeout
/// whenever the deadline, in ticks times tick interval, comes first.
pub proof fn lemma_deadline_enforcement(q: QueueStub, cfg: RunConfig)
    requires
        busy_trap_ms(cfg) < cfg.timeout_ms,
    ensures
        run_outcome_spec(GuestScript::BusyLoop, q, cfg) is Trapped,
        run_elapsed_spec(GuestScript::BusyLoop, q, cfg) == busy_trap_ms(cfg),
        run_elapsed_spec(GuestScript::BusyLoop, q, cfg) < cfg.timeout_ms,
{
}

/// Timeout independence law: a guest whose only suspending call hangs ends as
/// `TimedOut` at the wall-clock timeout, never `Trapped` — a call suspended
/// inside a host import passes no safe point where the epoch deadline could
/// fault it, whatever the epoch configuration says.
pub proof fn lemma_timeout_independence(q: QueueStub, cfg: RunConfig)
    requires
        q.hangs,
    ensures
        run_outcome_spec(GuestScript::TraceLoop, q, cfg) is TimedOut,
        !(run_outcome_spec(GuestScript::TraceLoop, q, cfg) is Trapped),
        run_elapsed_spec(GuestScript::TraceLoop, q, cfg) == cfg.timeout_ms,
{
}

/// Map an outcome to the invocation's result: only a completed run exits
/// cleanly; a trap and a timeout surface as their distinct errors.
pub fn outcome_to_result(o: &RunOutcome) -> (r: Result<(), HostError>)
    ensures
        *o is Completed ==> r == Ok::<(), HostError>(()),
        *o is Trapped ==> r == Err::<(), HostError>(HostError::Trapped),
        *o is TimedOut ==> r == Err::<(), HostError>(HostError::TimedOut),
{
    match o {
        RunOutcome::Completed => Ok(()),
        RunOutcome::Trapped => Err(HostError::Trapped),
        RunOutcome::TimedOut => Err(HostError::TimedOut),
    }
}

} // verus!

