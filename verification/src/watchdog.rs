use vstd::prelude::*;

verus! {

/// How one watchdog-governed guest call ended.
#[derive(Clone, Copy, Debug, PartialEq, Eq, Structural)]
pub enum RunOutcome {
    /// The entry point returned.
    Completed,
    /// The engine unwound the call: epoch deadline reached, or a guest fault.
    Trapped,
    /// The wall clock cancelled the call first.
    TimedOut,
}

/// The phase of one run under the watchdog.
#[derive(Clone, Copy, Debug, PartialEq, Eq, Structural)]
pub enum RunPhase {
    /// Nothing armed yet.
    Idle,
    /// The epoch deadline is set and the ticker runs; the guest has not been
    /// entered.
    Armed,
    /// The entry point has been invoked, once.
    Running,
    /// Terminal: the call returned.
    Completed,
    /// Terminal: the engine unwound the call.
    Trapped,
    /// Terminal: the wall clock cancelled the call.
    TimedOut,
}

/// The phases in which the run is over.
pub open spec fn terminal(p: RunPhase) -> bool {
    p is Completed || p is Trapped || p is TimedOut
}

/// The engine faults a guest call at the next safe point once the shared
/// epoch has reached the call's deadline.
pub open spec fn deadline_reached(epoch: u64, deadline: u64) -> bool {
    epoch >= deadline
}

/// The watchdog-governed lifecycle of one run: its phase, the absolute epoch
/// at which the guest call faults, whether the background ticker is live, how
/// often the ticker has been stopped and joined, and how often the entry
/// point has been invoked.
#[derive(Clone, Copy, Debug, PartialEq, Eq, Structural)]
pub struct RunLifecycle {
    pub phase: RunPhase,
    pub deadline: u64,
    pub ticker_live: bool,
    pub ticker_stops: u64,
    pub enter_invocations: u64,
}

impl RunLifecycle {
    /// The ordering discipline of one run: the ticker is live from arming to
    /// the terminal phase and in no other phase, it is stopped exactly once,
    /// and the entry point is invoked exactly once, at the step into
    /// `Running`. No run observes a ticker before arming or after teardown.
    pub open spec fn wf(self) -> bool {
        match self.phase {
            RunPhase::Idle => !self.ticker_live && self.ticker_stops == 0
                && self.enter_invocations == 0,
            RunPhase::Armed => self.ticker_live && self.ticker_stops == 0
                && self.enter_invocations == 0,
            RunPhase::Running => self.ticker_live && self.ticker_stops == 0
                && self.enter_invocations == 1,
            _ => !self.ticker_live && self.ticker_stops == 1 && self.enter_invocations == 1,
        }
    }

    /// A run that has not started.
    pub fn idle() -> (s: RunLifecycle)
        ensures
            s.wf(),
            s.phase is Idle,
            s.deadline == 0,
    {
        RunLifecycle {
            phase: RunPhase::Idle,
            deadline: 0,
            ticker_live: false,
            ticker_stops: 0,
            enter_invocations: 0,
        }
    }

    /// Arm the run: set the per-call epoch deadline to the engine's current
    /// epoch plus the tick budget, and start the background ticker — strictly
    /// before the guest call begins.
    pub fn arm(&mut self, current_epoch: u64, budget_ticks: u64)
        requires
            old(self).wf(),
            old(self).phase is Idle,
            current_epoch + budget_ticks <= u64::MAX,
        ensures
            final(self).wf(),
            final(self).phase is Armed,
            final(self).deadline == current_epoch + budget_ticks,
            deadline_reached(current_epoch, final(self).deadline) <==> budget_ticks == 0,
            final(self).ticker_live,
    {
        self.deadline = current_epoch + budget_ticks;
        self.ticker_live = true;
        self.phase = RunPhase::Armed;
    }

    /// Invoke the exported entry point: the one step that enters `Running`,
    /// and the only one that counts an invocation.
    pub fn begin_call(&mut self)
        requires
            old(self).wf(),
            old(self).phase is Armed,
        ensures
            final(self).wf(),
            final(self).phase is Running,
            final(self).enter_invocations == 1,
            final(self).deadline == old(self).deadline,
            final(self).ticker_live,
    {
        self.enter_invocations = 1;
        self.phase = RunPhase::Running;
    }

    /// Record the call's outcome and tear the watchdog down: the ticker is
    /// stopped and joined exactly once, strictly after the outcome is known,
    /// on the success, trap and timeout paths alike.
    pub fn finish(&mut self, outcome: RunOutcome)
        requires
            old(self).wf(),
            old(self).phase is Running,
        ensures
            final(self).wf(),
            terminal(final(self).phase),
            final(self).phase == (match outcome {
                RunOutcome::Completed => RunPhase::Completed,
                RunOutcome::Trapped => RunPhase::Trapped,
                RunOutcome::TimedOut => RunPhase::TimedOut,
            }),
            final(self).ticker_stops == 1,
            !final(self).ticker_live,
            final(self).enter_invocations == 1,
            final(self).deadline == old(self).deadline,
    {
        self.ticker_live = false;
        self.ticker_stops = 1;
        self.phase = match outcome {
            RunOutcome::Completed => RunPhase::Completed,
            RunOutcome::Trapped => RunPhase::Trapped,
            RunOutcome::TimedOut => RunPhase::TimedOut,
        };
    }
}

/// Lifecycle law: every run that reaches a terminal phase has invoked the
/// entry point exactly once and has stopped its watchdog ticker exactly once;
/// no ticker outlives its run.
pub proof fn lemma_run_lifecycle(s: RunLifecycle)
    requires
        s.wf(),
        terminal(s.phase),
    ensures
        s.enter_invocations == 1,
        s.ticker_stops == 1,
        !s.ticker_live,
{
}

} // verus!
