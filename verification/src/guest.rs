use vstd::prelude::*;
use crate::abi::ReqResource;
use crate::errors::HostError;
use crate::host::{CapabilityHost, EventModel, log_event};
use crate::resources::ci_eq;

verus! {

/// The timeout, in seconds, the canonical guest passes to `try_pop`.
pub const GUEST_POP_TIMEOUT_SECS: u64 = 60;

/// What a guest binary's entry point does when invoked: the canonical trace
/// loop, or a loop that burns CPU without ever yielding to a suspending
/// capability call.
#[derive(Clone, Copy, Debug, PartialEq, Eq, Structural)]
pub enum GuestScript {
    /// Log "entered", poll the queue and log "running" while items remain,
    /// log "done".
    TraceLoop,
    /// Loop forever without calling any suspending capability.
    BusyLoop,
}

/// The endpoint the canonical guest logs to.
pub open spec fn endpoint_name() -> Seq<char> {
    "cmcd"@
}

/// The session identifier the canonical guest logs under.
pub open spec fn session_id() -> Seq<char> {
    "yG11pE2Fk9iJcfmJOy1rt6"@
}

/// One log event of the canonical guest.
pub open spec fn guest_log(msg: Seq<char>) -> EventModel {
    log_event(msg, endpoint_name(), session_id())
}

/// One queue poll of the canonical guest.
pub open spec fn pop_event() -> EventModel {
    EventModel::PopRequested { timeout_secs: GUEST_POP_TIMEOUT_SECS }
}

/// The polling phase after `k` successful pops: `k` repetitions of one poll
/// that found an item followed by one "running" log line.
pub open spec fn running_events(k: nat) -> Seq<EventModel>
    decreases k,
{
    if k == 0 {
        Seq::empty()
    } else {
        running_events((k - 1) as nat) + seq![pop_event(), guest_log("running"@)]
    }
}

/// Everything one completed entry-point invocation adds to the trace when the
/// queue holds `k` items: the "entered" line, `k` successful polls each
/// followed by a "running" line, the final poll that found the queue empty,
/// and the "done" line.
pub open spec fn enter_events(k: nat) -> Seq<EventModel> {
    seq![guest_log("entered"@)] + running_events(k) + seq![pop_event(), guest_log("done"@)]
}

/// Guest-side `log`: every line goes to the fixed endpoint under the fixed
/// session identifier.
pub fn host_log(host: &mut CapabilityHost, msg: &str)
    ensures
        final(host).trace() == old(host).trace().push(guest_log(msg@)),
        final(host).queue == old(host).queue,
        final(host).table == old(host).table,
{
    host.log(
        String::from_str(msg),
        String::from_str("cmcd"),
        String::from_str("yG11pE2Fk9iJcfmJOy1rt6"),
    );
}

/// Guest-side `try_pop`, with the canonical guest's fixed timeout. A call of
/// this function stands for a poll that answered; a hanging queue never
/// answers.
pub fn host_try_pop(host: &mut CapabilityHost) -> (r: bool)
    requires
        !old(host).queue.hangs,
    ensures
        r == (old(host).queue.items > 0),
        final(host).queue.items == (if old(host).queue.items > 0 {
            (old(host).queue.items - 1) as u64
        } else {
            0u64
        }),
        final(host).queue.hangs == old(host).queue.hangs,
        final(host).trace() == old(host).trace().push(pop_event()),
        final(host).table == old(host).table,
{
    host.try_pop(GUEST_POP_TIMEOUT_SECS)
}

/// Guest-side `get`: look the header up through the resource token.
pub fn host_get(host: &CapabilityHost, header: &[u8], res: &ReqResource) -> (r: Result<
    Option<Vec<Vec<u8>>>,
    HostError,
>)
    requires
        host.wf(),
    ensures
        !host.table.live(res.handle_spec()) ==> r == Err::<Option<Vec<Vec<u8>>>, HostError>(
            HostError::Trapped,
        ),
        host.table.live(res.handle_spec()) ==> match r {
            Ok(found) => match found {
                Some(values) => exists|i: int|
                    {
                        &&& 0 <= i < host.table.data_of(res.handle_spec()).headers@.len()
                        &&& ci_eq(
                            host.table.data_of(res.handle_spec()).headers@[i].name@,
                            header@,
                        )
                        &&& values.deep_view() == host.table.data_of(
                            res.handle_spec(),
                        ).headers@[i].values.deep_view()
                        &&& forall|j: int| 0 <= j < i ==> !ci_eq(
                            host.table.data_of(res.handle_spec()).headers@[j].name@,
                            header@,
                        )
                    },
                None => forall|j: int| 0 <= j < host.table.data_of(
                    res.handle_spec(),
                ).headers@.len() ==> !ci_eq(
                    host.table.data_of(res.handle_spec()).headers@[j].name@,
                    header@,
                ),
            },
            Err(_) => false,
        },
{
    host.get(res.handle(), header)
}

/// Guest-side `get-header-names` through the resource token.
pub fn host_get_header_names(host: &CapabilityHost, res: &ReqResource) -> (r: Result<
    Vec<Vec<u8>>,
    HostError,
>)
    requires
        host.wf(),
    ensures
        !host.table.live(res.handle_spec()) ==> r == Err::<Vec<Vec<u8>>, HostError>(
            HostError::Trapped,
        ),
        host.table.live(res.handle_spec()) ==> (r matches Ok(names) && names.deep_view()
            == host.table.data_of(res.handle_spec()).names_spec()),
{
    host.get_header_names(res.handle())
}

/// Guest-side `get-service-id` through the resource token.
pub fn host_get_service_id(host: &CapabilityHost, res: &ReqResource) -> (r: Result<
    String,
    HostError,
>)
    requires
        host.wf(),
    ensures
        !host.table.live(res.handle_spec()) ==> r == Err::<String, HostError>(HostError::Trapped),
        host.table.live(res.handle_spec()) ==> (r matches Ok(sid) && sid@ == host.table.data_of(
            res.handle_spec(),
        ).service_id@),
{
    host.get_service_id(res.handle())
}

/// A guest component: one exported entry point, invoked with the capability
/// host of its run. An invocation only returns when every capability call it
/// makes answers, so a hanging queue is excluded up front.
pub trait Guest {
    fn enter(host: &mut CapabilityHost)
        requires
            !old(host).queue.hangs,
    ;
}

/// The canonical trace guest: log "entered", poll the queue and log "running"
/// while items remain, then log "done".
pub struct Component;

impl Guest for Component {
    fn enter(host: &mut CapabilityHost)
        ensures
            final(host).trace() == old(host).trace() + enter_events(
                old(host).queue.items as nat,
            ),
            final(host).queue.items == 0,
            final(host).queue.hangs == old(host).queue.hangs,
            final(host).table == old(host).table,
    {
        let ghost t0 = host.trace();
        let ghost k0 = host.queue.items as nat;
        let ghost tab0 = host.table;
        host_log(host, "entered");
        let mut more = host_try_pop(host);
        proof {
            if more {
                assert(host.trace() =~= t0 + seq![guest_log("entered"@)] + running_events(
                    (k0 - host.queue.items - 1) as nat,
                ) + seq![pop_event()]);
            } else {
                assert(host.trace() =~= t0 + seq![guest_log("entered"@)] + running_events(k0)
                    + seq![pop_event()]);
            }
        }
        while more
            invariant
                !host.queue.hangs,
                host.table == tab0,
                more ==> host.queue.items < k0,
                more ==> host.trace() =~= t0 + seq![guest_log("entered"@)] + running_events(
                    (k0 - host.queue.items - 1) as nat,
                ) + seq![pop_event()],
                !more ==> host.queue.items == 0,
                !more ==> host.trace() =~= t0 + seq![guest_log("entered"@)] + running_events(k0)
                    + seq![pop_event()],
            decreases 2 * host.queue.items + (if more { 1int } else { 0int }),
        {
            let ghost j = (k0 - host.queue.items - 1) as nat;
            host_log(host, "running");
            proof {
                assert(running_events(j + 1) =~= running_events(j) + seq![pop_event(), guest_log(
                    "running"@,
                )]);
                assert(host.trace() =~= t0 + seq![guest_log("entered"@)] + running_events(j + 1));
            }
            more = host_try_pop(host);
            proof {
                if more {
                    assert(host.trace() =~= t0 + seq![guest_log("entered"@)] + running_events(
                        (k0 - host.queue.items - 1) as nat,
                    ) + seq![pop_event()]);
                    assert((k0 - host.queue.items - 1) as nat == j + 1);
                } else {
                    assert(j + 1 == k0);
                    assert(host.trace() =~= t0 + seq![guest_log("entered"@)] + running_events(k0)
                        + seq![pop_event()]);
                }
            }
        }
        host_log(host, "done");
        proof {
            assert(host.trace() =~= t0 + enter_events(k0));
        }
    }
}

/// The log lines of a trace, in order: the messages of its `Logged` events.
pub open spec fn logged_messages(t: Seq<EventModel>) -> Seq<Seq<char>>
    decreases t.len(),
{
    if t.len() == 0 {
        Seq::empty()
    } else {
        logged_messages(t.drop_last()) + (match t.last() {
            EventModel::Logged { msg, .. } => seq![msg],
            _ => Seq::empty(),
        })
    }
}

/// The log lines of a one-event trace.
pub proof fn lemma_logged_messages_one(e: EventModel)
    ensures
        logged_messages(seq![e]) == (match e {
            EventModel::Logged { msg, .. } => seq![msg],
            _ => Seq::<Seq<char>>::empty(),
        }),
{
    assert(seq![e].drop_last() =~= Seq::<EventModel>::empty());
    assert(logged_messages(Seq::<EventModel>::empty()) =~= Seq::<Seq<char>>::empty());
    assert(logged_messages(seq![e]) =~= Seq::<Seq<char>>::empty() + (match e {
        EventModel::Logged { msg, .. } => seq![msg],
        _ => Seq::<Seq<char>>::empty(),
    }));
    assert(Seq::<Seq<char>>::empty() + (match e {
        EventModel::Logged { msg, .. } => seq![msg],
        _ => Seq::<Seq<char>>::empty(),
    }) =~= (match e {
        EventModel::Logged { msg, .. } => seq![msg],
        _ => Seq::<Seq<char>>::empty(),
    }));
}

/// The log lines of a concatenation are the concatenated log lines.
pub proof fn lemma_logged_messages_concat(a: Seq<EventModel>, b: Seq<EventModel>)
    ensures
        logged_messages(a + b) == logged_messages(a) + logged_messages(b),
    decreases b.len(),
{
    if b.len() == 0 {
        assert(a + b =~= a);
        assert(logged_messages(a) + logged_messages(b) =~= logged_messages(a));
    } else {
        lemma_logged_messages_concat(a, b.drop_last());
        assert((a + b).drop_last() =~= a + b.drop_last());
        assert((a + b).last() == b.last());
        assert(logged_messages(a) + logged_messages(b) =~= logged_messages(a) + (
        logged_messages(b.drop_last()) + (match b.last() {
            EventModel::Logged { msg, .. } => seq![msg],
            _ => Seq::<Seq<char>>::empty(),
        })));
    }
}

/// The polling phase logs "running" exactly once per successful pop.
pub proof fn lemma_running_messages(k: nat)
    ensures
        logged_messages(running_events(k)) == Seq::new(k, |i: int| "running"@),
    decreases k,
{
    if k == 0 {
        assert(logged_messages(running_events(0)) =~= Seq::new(0, |i: int| "running"@));
    } else {
        lemma_running_messages((k - 1) as nat);
        let tail = seq![pop_event(), guest_log("running"@)];
        lemma_logged_messages_concat(running_events((k - 1) as nat), tail);
        assert(tail.drop_last() =~= seq![pop_event()]);
        lemma_logged_messages_one(pop_event());
        assert(logged_messages(tail) =~= seq!["running"@]);
        assert(logged_messages(running_events(k)) =~= Seq::new(k, |i: int| "running"@));
    }
}

/// Log ordering law: with a queue stub that answers `true` exactly `k` times
/// before answering `false`, the log sequence of one completed entry-point
/// invocation is exactly "entered", then "running" `k` times, then "done".
pub proof fn lemma_log_ordering(k: nat)
    ensures
        logged_messages(enter_events(k)).len() == k + 2,
        logged_messages(enter_events(k))[0] == "entered"@,
        logged_messages(enter_events(k))[k as int + 1] == "done"@,
        forall|i: int| 1 <= i <= k ==> logged_messages(enter_events(k))[i] == "running"@,
{
    let entered = seq![guest_log("entered"@)];
    let closing = seq![pop_event(), guest_log("done"@)];
    lemma_logged_messages_concat(entered + running_events(k), closing);
    lemma_logged_messages_concat(entered, running_events(k));
    lemma_running_messages(k);
    lemma_logged_messages_one(guest_log("entered"@));
    assert(logged_messages(entered) =~= seq!["entered"@]);
    assert(closing.drop_last() =~= seq![pop_event()]);
    lemma_logged_messages_one(pop_event());
    assert(logged_messages(closing) =~= seq!["done"@]);
    assert(logged_messages(enter_events(k)) =~= seq!["entered"@] + Seq::new(
        k,
        |i: int| "running"@,
    ) + seq!["done"@]);
}

} // verus!
