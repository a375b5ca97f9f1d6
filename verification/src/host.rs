use vstd::prelude::*;
use crate::errors::HostError;
use crate::resources::{RequestData, ResourceTable, ci_eq};

verus! {

/// The scripted work queue behind the `try_pop` import: it answers `true`
/// while items remain and `false` once they are gone — unless it hangs, in
/// which case a pop suspends and never returns at all.
#[derive(Clone, Copy, Debug, PartialEq, Eq, Structural)]
pub struct QueueStub {
    /// How many more pops find an item before the queue reports empty.
    pub items: u64,
    /// Whether a pop suspends forever instead of answering.
    pub hangs: bool,
}

/// One emitted log line: the guest's message, the endpoint it addressed, and
/// its session identifier.
#[derive(Clone, Debug, PartialEq, Eq)]
pub struct LogEntry {
    pub msg: String,
    pub endpoint: String,
    pub session: String,
}

/// The mathematical image of one capability event.
pub enum EventModel {
    /// The exported entry point was invoked.
    EnterInvoked,
    /// The guest called the `log` import.
    Logged { msg: Seq<char>, endpoint: Seq<char>, session: Seq<char> },
    /// The guest called the `try_pop` import with this timeout.
    PopRequested { timeout_secs: u64 },
}

/// One capability call observed and recorded at the host boundary.
#[derive(Clone, Debug, PartialEq, Eq)]
pub enum CapEvent {
    EnterInvoked,
    Logged(LogEntry),
    PopRequested(u64),
}

impl View for CapEvent {
    type V = EventModel;

    open spec fn view(&self) -> EventModel {
        match self {
            CapEvent::EnterInvoked => EventModel::EnterInvoked,
            CapEvent::Logged(l) => EventModel::Logged {
                msg: l.msg@,
                endpoint: l.endpoint@,
                session: l.session@,
            },
            CapEvent::PopRequested(t) => EventModel::PopRequested { timeout_secs: *t },
        }
    }
}

/// The images of a recorded event sequence, in order.
pub open spec fn trace_of(events: Seq<CapEvent>) -> Seq<EventModel> {
    events.map_values(|e: CapEvent| e@)
}

/// A log event as the capability host records it.
pub open spec fn log_event(msg: Seq<char>, endpoint: Seq<char>, session: Seq<char>) -> EventModel {
    EventModel::Logged { msg, endpoint, session }
}

/// The host-side implementation of every capability the guest may import,
/// stateful for exactly one run: the recorded capability calls, the work
/// queue, and the resource-handle table.
pub struct CapabilityHost {
    pub events: Vec<CapEvent>,
    pub queue: QueueStub,
    pub table: ResourceTable,
}

impl CapabilityHost {
    pub open spec fn wf(self) -> bool {
        self.table.wf()
    }

    /// The capability calls recorded so far, as their mathematical images.
    pub open spec fn trace(self) -> Seq<EventModel> {
        trace_of(self.events@)
    }

    /// A fresh host for one run: nothing recorded, no handle minted.
    pub fn new(queue: QueueStub) -> (h: CapabilityHost)
        ensures
            h.wf(),
            h.events@.len() == 0,
            h.queue == queue,
            h.table.entries@.len() == 0,
            forall|g: u32| !h.table.live(g),
    {
        CapabilityHost { events: Vec::new(), queue, table: ResourceTable::new() }
    }

    /// The `log` import: it never fails, and its side effect is one recorded
    /// log line.
    pub fn log(&mut self, msg: String, endpoint: String, session: String)
        ensures
            final(self).events@ == old(self).events@.push(
                CapEvent::Logged(LogEntry { msg, endpoint, session }),
            ),
            final(self).trace() == old(self).trace().push(log_event(msg@, endpoint@, session@)),
            final(self).queue == old(self).queue,
            final(self).table == old(self).table,
    {
        let ghost pre = self.events@;
        self.events.push(CapEvent::Logged(LogEntry { msg, endpoint, session }));
        proof {
            assert(trace_of(self.events@) =~= trace_of(pre).push(
                log_event(msg@, endpoint@, session@),
            ));
        }
    }

    /// The `try_pop` import, observed at the moment it answers: it reports
    /// whether an item was available before the timeout, and consumes one item
    /// when it does. A hanging queue never answers, so a call of this function
    /// stands only for a pop that did return.
    pub fn try_pop(&mut self, timeout_secs: u64) -> (r: bool)
        requires
            !old(self).queue.hangs,
        ensures
            r == (old(self).queue.items > 0),
            final(self).queue.items == (if old(self).queue.items > 0 {
                (old(self).queue.items - 1) as u64
            } else {
                0u64
            }),
            final(self).queue.hangs == old(self).queue.hangs,
            final(self).events@ == old(self).events@.push(CapEvent::PopRequested(timeout_secs)),
            final(self).trace() == old(self).trace().push(
                EventModel::PopRequested { timeout_secs },
            ),
            final(self).table == old(self).table,
    {
        let ghost pre = self.events@;
        self.events.push(CapEvent::PopRequested(timeout_secs));
        proof {
            assert(trace_of(self.events@) =~= trace_of(pre).push(
                EventModel::PopRequested { timeout_secs },
            ));
        }
        if self.queue.items > 0 {
            self.queue.items = self.queue.items - 1;
            true
        } else {
            false
        }
    }

    /// A pop that was requested but never answers: only the request is
    /// recorded. The queue keeps its items — nothing was consumed — and the
    /// run that made the request can only end by cancellation.
    pub fn record_pop_request(&mut self, timeout_secs: u64)
        ensures
            final(self).events@ == old(self).events@.push(CapEvent::PopRequested(timeout_secs)),
            final(self).trace() == old(self).trace().push(
                EventModel::PopRequested { timeout_secs },
            ),
            final(self).queue == old(self).queue,
            final(self).table == old(self).table,
    {
        let ghost pre = self.events@;
        self.events.push(CapEvent::PopRequested(timeout_secs));
        proof {
            assert(trace_of(self.events@) =~= trace_of(pre).push(
                EventModel::PopRequested { timeout_secs },
            ));
        }
    }

    /// Record the one invocation of the exported entry point.
    pub fn record_enter(&mut self)
        ensures
            final(self).events@ == old(self).events@.push(CapEvent::EnterInvoked),
            final(self).trace() == old(self).trace().push(EventModel::EnterInvoked),
            final(self).queue == old(self).queue,
            final(self).table == old(self).table,
    {
        let ghost pre = self.events@;
        self.events.push(CapEvent::EnterInvoked);
        proof {
            assert(trace_of(self.events@) =~= trace_of(pre).push(EventModel::EnterInvoked));
        }
    }

    /// Mint a request-resource handle for the guest.
    pub fn mint_request(&mut self, data: RequestData) -> (h: u32)
        requires
            old(self).wf(),
            old(self).table.entries@.len() < 0xFFFF_FFFF,
        ensures
            final(self).wf(),
            final(self).table.live(h),
            final(self).table.data_of(h) == data,
            final(self).table.entries@ == old(self).table.entries@.push(data),
            final(self).table.alive@ == old(self).table.alive@.push(true),
            final(self).events@ == old(self).events@,
            final(self).queue == old(self).queue,
    {
        self.table.mint(data)
    }

    /// The `get-header-names` resource method.
    pub fn get_header_names(&self, h: u32) -> (r: Result<Vec<Vec<u8>>, HostError>)
        requires
            self.wf(),
        ensures
            !self.table.live(h) ==> r == Err::<Vec<Vec<u8>>, HostError>(HostError::Trapped),
            self.table.live(h) ==> (r matches Ok(names)
                && names.deep_view() == self.table.data_of(h).names_spec()),
    {
        self.table.get_header_names(h)
    }

    /// The `get` resource method: case-insensitive lookup, `None` when no
    /// entry matches.
    pub fn get(&self, h: u32, name: &[u8]) -> (r: Result<Option<Vec<Vec<u8>>>, HostError>)
        requires
            self.wf(),
        ensures
            !self.table.live(h) ==> r == Err::<Option<Vec<Vec<u8>>>, HostError>(
                HostError::Trapped,
            ),
            self.table.live(h) ==> match r {
                Ok(found) => match found {
                    Some(values) => exists|i: int|
                        {
                            &&& 0 <= i < self.table.data_of(h).headers@.len()
                            &&& ci_eq(self.table.data_of(h).headers@[i].name@, name@)
                            &&& values.deep_view()
                                == self.table.data_of(h).headers@[i].values.deep_view()
                            &&& forall|j: int| 0 <= j < i
                                ==> !ci_eq(self.table.data_of(h).headers@[j].name@, name@)
                        },
                    None => forall|j: int| 0 <= j < self.table.data_of(h).headers@.len()
                        ==> !ci_eq(self.table.data_of(h).headers@[j].name@, name@),
                },
                Err(_) => false,
            },
    {
        self.table.get(h, name)
    }

    /// The `get-service-id` resource method.
    pub fn get_service_id(&self, h: u32) -> (r: Result<String, HostError>)
        requires
            self.wf(),
        ensures
            !self.table.live(h) ==> r == Err::<String, HostError>(HostError::Trapped),
            self.table.live(h) ==> (r matches Ok(sid)
                && sid@ == self.table.data_of(h).service_id@),
    {
        self.table.get_service_id(h)
    }

    /// The drop notification for a resource handle; a second drop of the same
    /// handle errors deterministically.
    pub fn drop_request(&mut self, h: u32) -> (r: Result<(), HostError>)
        requires
            old(self).wf(),
        ensures
            final(self).wf(),
            r == Ok::<(), HostError>(()) <==> old(self).table.live(h),
            r is Err ==> r == Err::<(), HostError>(HostError::Trapped),
            old(self).table.live(h) ==> final(self).table.alive@
                == old(self).table.alive@.update(h as int, false),
            !old(self).table.live(h) ==> final(self).table.alive@ == old(self).table.alive@,
            final(self).table.entries@ == old(self).table.entries@,
            final(self).events@ == old(self).events@,
            final(self).queue == old(self).queue,
    {
        self.table.drop_handle(h)
    }
}

/// Per-run execution state: the capability host, the epoch deadline of the
/// one guest call (in tick units), and the fault directive propagated from
/// the ambient environment before the call begins.
pub struct ExecutionContext {
    pub host: CapabilityHost,
    pub epoch_deadline: u64,
    pub fault_directive: String,
}

impl ExecutionContext {
    pub open spec fn wf(self) -> bool {
        self.host.wf()
    }

    /// A fresh context for one run: a fresh capability host, no deadline armed
    /// yet, and the given fault directive.
    pub fn new(queue: QueueStub, fault_directive: String) -> (c: ExecutionContext)
        ensures
            c.wf(),
            c.host.events@.len() == 0,
            c.host.queue == queue,
            c.host.table.entries@.len() == 0,
            forall|g: u32| !c.host.table.live(g),
            c.epoch_deadline == 0,
            c.fault_directive == fault_directive,
    {
        ExecutionContext {
            host: CapabilityHost::new(queue),
            epoch_deadline: 0,
            fault_directive,
        }
    }

    /// Arm the per-call epoch deadline: the engine's current epoch plus the
    /// configured tick budget.
    pub fn set_epoch_deadline(&mut self, current_epoch: u64, budget_ticks: u64)
        requires
            current_epoch + budget_ticks <= u64::MAX,
        ensures
            final(self).epoch_deadline == current_epoch + budget_ticks,
            final(self).host == old(self).host,
            final(self).fault_directive == old(self).fault_directive,
    {
        self.epoch_deadline = current_epoch + budget_ticks;
    }

    /// Destroy the context when its run completes or is cancelled: every
    /// resource handle it owns is invalidated, on the success, trap, timeout
    /// and cancellation paths alike. The recorded capability calls survive for
    /// reporting.
    pub fn destroy(&mut self)
        requires
            old(self).wf(),
        ensures
            final(self).wf(),
            forall|g: u32| !final(self).host.table.live(g),
            final(self).host.events@ == old(self).host.events@,
            final(self).host.queue == old(self).host.queue,
            final(self).epoch_deadline == old(self).epoch_deadline,
            final(self).fault_directive == old(self).fault_directive,
    {
        self.host.table.invalidate_all();
    }
}

} // verus!
