use trace_host::engine::create_engine;
use trace_host::errors::HostError;
use trace_host::guest::GuestScript;
use trace_host::host::{CapEvent, QueueStub};
use trace_host::link::{
    my_add_to_linker, new_trace_linker, BinarySurface, CapabilityImport, GuestBinary, Linker,
};
use trace_host::policy::production_policy;
use trace_host::run::{
    classify, compile_binary, is_precompiled_name, outcome_to_result, production_run_config,
    run_artifact, run_binary, CallResolution, RunConfig,
};
use trace_host::watchdog::{RunLifecycle, RunOutcome, RunPhase};

fn linker() -> Linker {
    let mut l = new_trace_linker();
    my_add_to_linker(&mut l);
    l
}

fn trace_binary() -> GuestBinary {
    GuestBinary {
        surface: BinarySurface {
            exports_enter: true,
            imports: vec![
                CapabilityImport::TraceLog,
                CapabilityImport::Queue,
                CapabilityImport::ReqResource,
            ],
        },
        script: GuestScript::TraceLoop,
    }
}

fn busy_binary() -> GuestBinary {
    GuestBinary {
        surface: BinarySurface { exports_enter: true, imports: Vec::new() },
        script: GuestScript::BusyLoop,
    }
}

fn messages(events: &[CapEvent]) -> Vec<String> {
    let mut out = Vec::new();
    for e in events {
        if let CapEvent::Logged(l) = e {
            out.push(l.msg.clone());
        }
    }
    out
}

fn enters(events: &[CapEvent]) -> usize {
    events.iter().filter(|e| matches!(e, CapEvent::EnterInvoked)).count()
}

#[test]
fn trace_guest_completes_with_ordered_logs() {
    let mut engine = create_engine(&production_policy()).unwrap();
    let cfg = production_run_config();
    let rep = run_binary(
        &mut engine,
        &linker(),
        trace_binary(),
        QueueStub { items: 2, hangs: false },
        &cfg,
        String::new(),
    )
    .unwrap();
    assert_eq!(rep.outcome, RunOutcome::Completed);
    assert_eq!(messages(&rep.events), vec!["entered", "running", "running", "done"]);
    assert_eq!(enters(&rep.events), 1);
    assert_eq!(engine.live_instances, 0);
}

#[test]
fn compiled_artifact_runs_like_the_raw_binary() {
    let l = linker();
    let cfg = production_run_config();
    let q = QueueStub { items: 3, hangs: false };

    let artifact = compile_binary(&l, trace_binary()).unwrap();

    let mut e1 = create_engine(&production_policy()).unwrap();
    let from_artifact = run_artifact(&mut e1, &l, artifact, q, &cfg, String::new()).unwrap();

    let mut e2 = create_engine(&production_policy()).unwrap();
    let raw = run_binary(&mut e2, &l, trace_binary(), q, &cfg, String::new()).unwrap();

    assert_eq!(from_artifact.events, raw.events);
    assert_eq!(from_artifact.outcome, raw.outcome);
    assert_eq!(from_artifact.elapsed_ms, raw.elapsed_ms);
}

#[test]
fn compile_rejects_nonconforming_binary() {
    let mut b = trace_binary();
    b.surface.exports_enter = false;
    assert!(matches!(compile_binary(&linker(), b), Err(HostError::LinkError)));
}

#[test]
fn busy_guest_traps_at_epoch_deadline_before_timeout() {
    let mut engine = create_engine(&production_policy()).unwrap();
    let cfg = production_run_config();
    let rep = run_binary(
        &mut engine,
        &linker(),
        busy_binary(),
        QueueStub { items: 0, hangs: false },
        &cfg,
        String::new(),
    )
    .unwrap();
    assert_eq!(rep.outcome, RunOutcome::Trapped);
    // 10 ticks at 10 ms: trapped at 100 ms, well before the 1000 ms timeout
    assert_eq!(rep.elapsed_ms, 100);
    assert!(rep.elapsed_ms < cfg.timeout_ms);
    assert_eq!(enters(&rep.events), 1);
}

#[test]
fn busy_guest_times_out_when_deadline_is_beyond_timeout() {
    let mut engine = create_engine(&production_policy()).unwrap();
    let cfg = RunConfig { deadline_ticks: 500, tick_interval_ms: 10, timeout_ms: 1000 };
    let rep = run_binary(
        &mut engine,
        &linker(),
        busy_binary(),
        QueueStub { items: 0, hangs: false },
        &cfg,
        String::new(),
    )
    .unwrap();
    assert_eq!(rep.outcome, RunOutcome::TimedOut);
    assert_eq!(rep.elapsed_ms, 1000);
}

#[test]
fn hanging_pop_times_out_instead_of_trapping() {
    let mut engine = create_engine(&production_policy()).unwrap();
    let cfg = production_run_config();
    let rep = run_binary(
        &mut engine,
        &linker(),
        trace_binary(),
        QueueStub { items: 0, hangs: true },
        &cfg,
        String::new(),
    )
    .unwrap();
    assert_eq!(rep.outcome, RunOutcome::TimedOut);
    assert_ne!(rep.outcome, RunOutcome::Trapped);
    assert_eq!(rep.elapsed_ms, cfg.timeout_ms);
    // the guest got as far as "entered" and one unanswered poll
    assert_eq!(messages(&rep.events), vec!["entered"]);
    assert_eq!(enters(&rep.events), 1);
    assert_eq!(engine.live_instances, 0);
}

#[test]
fn full_pool_denies_the_next_run() {
    let mut engine = create_engine(&production_policy()).unwrap();
    let cfg = production_run_config();
    // fill the pool: one hundred concurrent admissions
    for _ in 0..100 {
        engine.try_acquire_slot().unwrap();
    }
    let denied = run_binary(
        &mut engine,
        &linker(),
        trace_binary(),
        QueueStub { items: 0, hangs: false },
        &cfg,
        String::new(),
    );
    assert!(matches!(denied, Err(HostError::PoolExhausted)));
    // a freed slot admits again
    engine.release_slot();
    let admitted = run_binary(
        &mut engine,
        &linker(),
        trace_binary(),
        QueueStub { items: 0, hangs: false },
        &cfg,
        String::new(),
    );
    assert!(admitted.is_ok());
}

#[test]
fn link_failure_never_reaches_the_pool() {
    let mut engine = create_engine(&production_policy()).unwrap();
    let cfg = production_run_config();
    let mut b = trace_binary();
    b.surface.imports.push(CapabilityImport::Unknown(1));
    let before = engine;
    let r = run_binary(
        &mut engine,
        &linker(),
        b,
        QueueStub { items: 0, hangs: false },
        &cfg,
        String::new(),
    );
    assert!(matches!(r, Err(HostError::LinkError)));
    assert_eq!(engine, before);
}

#[test]
fn extension_convention_selects_the_load_path() {
    assert!(is_precompiled_name(b"guest.cwasm"));
    assert!(is_precompiled_name(b"dir/guest.cwasm"));
    assert!(is_precompiled_name(b"a..cwasm"));
    assert!(!is_precompiled_name(b"guest.wasm"));
    assert!(!is_precompiled_name(b".cwasm"));
    assert!(!is_precompiled_name(b"dir/.cwasm"));
    assert!(!is_precompiled_name(b"cwasm"));
    assert!(!is_precompiled_name(b""));
    assert!(!is_precompiled_name(b"guest.cwasm/"));
}

#[test]
fn simultaneous_trap_and_timeout_classifies_once() {
    // deadline and timeout land on the same instant: one classification, and
    // the run still tears down normally
    let mut engine = create_engine(&production_policy()).unwrap();
    let cfg = RunConfig { deadline_ticks: 100, tick_interval_ms: 10, timeout_ms: 1000 };
    let rep = run_binary(
        &mut engine,
        &linker(),
        busy_binary(),
        QueueStub { items: 0, hangs: false },
        &cfg,
        String::new(),
    )
    .unwrap();
    assert_eq!(rep.outcome, RunOutcome::Trapped);
    assert_eq!(rep.elapsed_ms, 1000);
    assert_eq!(engine.live_instances, 0);
}

#[test]
fn zero_tick_deadline_traps_immediately() {
    let mut engine = create_engine(&production_policy()).unwrap();
    let cfg = RunConfig { deadline_ticks: 0, tick_interval_ms: 10, timeout_ms: 1000 };
    let rep = run_binary(
        &mut engine,
        &linker(),
        busy_binary(),
        QueueStub { items: 0, hangs: false },
        &cfg,
        String::new(),
    )
    .unwrap();
    assert_eq!(rep.outcome, RunOutcome::Trapped);
    assert_eq!(rep.elapsed_ms, 0);
}

#[test]
fn resolutions_classify_distinctly() {
    assert_eq!(classify(&CallResolution::Returned), RunOutcome::Completed);
    assert_eq!(classify(&CallResolution::Faulted), RunOutcome::Trapped);
    assert_eq!(classify(&CallResolution::Cancelled), RunOutcome::TimedOut);

    assert_eq!(outcome_to_result(&RunOutcome::Completed), Ok(()));
    assert_eq!(outcome_to_result(&RunOutcome::Trapped), Err(HostError::Trapped));
    assert_eq!(outcome_to_result(&RunOutcome::TimedOut), Err(HostError::TimedOut));
}

#[test]
fn lifecycle_stops_the_ticker_exactly_once() {
    let mut s = RunLifecycle::idle();
    assert_eq!(s.phase, RunPhase::Idle);
    assert!(!s.ticker_live);
    s.arm(0, 10);
    assert_eq!(s.phase, RunPhase::Armed);
    assert!(s.ticker_live);
    assert_eq!(s.deadline, 10);
    s.begin_call();
    assert_eq!(s.phase, RunPhase::Running);
    assert_eq!(s.enter_invocations, 1);
    s.finish(RunOutcome::Trapped);
    assert_eq!(s.phase, RunPhase::Trapped);
    assert!(!s.ticker_live);
    assert_eq!(s.ticker_stops, 1);
    assert_eq!(s.enter_invocations, 1);
}
