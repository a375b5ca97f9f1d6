use trace_host::abi::{as_i64, ReqResource, Resource, INVALID_HANDLE};
use trace_host::errors::HostError;
use trace_host::guest::{
    host_get, host_get_header_names, host_get_service_id, host_log, host_try_pop, Component,
    Guest,
};
use trace_host::host::{CapabilityHost, CapEvent, ExecutionContext, QueueStub};
use trace_host::resources::{bytes_eq_ignore_case, HeaderField, RequestData};

fn messages(events: &[CapEvent]) -> Vec<String> {
    let mut out = Vec::new();
    for e in events {
        if let CapEvent::Logged(l) = e {
            out.push(l.msg.clone());
        }
    }
    out
}

fn sample_request() -> RequestData {
    RequestData {
        headers: vec![
            HeaderField {
                name: b"Content-Type".to_vec(),
                values: vec![b"text/html".to_vec()],
            },
            HeaderField { name: b"X-Empty".to_vec(), values: vec![] },
        ],
        service_id: String::from("sid"),
    }
}

#[test]
fn enter_logs_entered_running_k_done() {
    let mut host = CapabilityHost::new(QueueStub { items: 3, hangs: false });
    Component::enter(&mut host);
    assert_eq!(
        messages(&host.events),
        vec!["entered", "running", "running", "running", "done"]
    );
    // one poll per "running" line plus the final empty poll
    let pops = host
        .events
        .iter()
        .filter(|e| matches!(e, CapEvent::PopRequested(60)))
        .count();
    assert_eq!(pops, 4);
    assert_eq!(host.queue.items, 0);
}

#[test]
fn enter_with_empty_queue_logs_entered_done() {
    let mut host = CapabilityHost::new(QueueStub { items: 0, hangs: false });
    Component::enter(&mut host);
    assert_eq!(messages(&host.events), vec!["entered", "done"]);
}

#[test]
fn log_lines_carry_endpoint_and_session() {
    let mut host = CapabilityHost::new(QueueStub { items: 0, hangs: false });
    host_log(&mut host, "entered");
    match &host.events[0] {
        CapEvent::Logged(l) => {
            assert_eq!(l.msg, "entered");
            assert_eq!(l.endpoint, "cmcd");
            assert_eq!(l.session, "yG11pE2Fk9iJcfmJOy1rt6");
        }
        other => panic!("expected a log event, got {:?}", other),
    }
}

#[test]
fn try_pop_consumes_items_then_reports_empty() {
    let mut host = CapabilityHost::new(QueueStub { items: 2, hangs: false });
    assert!(host_try_pop(&mut host));
    assert!(host_try_pop(&mut host));
    assert!(!host_try_pop(&mut host));
    assert!(!host_try_pop(&mut host));
    assert_eq!(host.queue.items, 0);
}

#[test]
fn resource_accessors_resolve_a_live_handle() {
    let mut host = CapabilityHost::new(QueueStub { items: 0, hangs: false });
    let h = host.mint_request(sample_request());
    let res = ReqResource::from_handle(h);

    let names = host_get_header_names(&host, &res).unwrap();
    assert_eq!(names, vec![b"Content-Type".to_vec(), b"X-Empty".to_vec()]);

    let found = host_get(&host, b"content-type", &res).unwrap();
    assert_eq!(found, Some(vec![b"text/html".to_vec()]));

    // `Some` of an empty value sequence is distinct from `None`
    let empty = host_get(&host, b"X-EMPTY", &res).unwrap();
    assert_eq!(empty, Some(Vec::new()));
    let missing = host_get(&host, b"x-missing", &res).unwrap();
    assert_eq!(missing, None);

    assert_eq!(host_get_service_id(&host, &res).unwrap(), "sid");
}

#[test]
fn double_drop_errors_deterministically() {
    let mut host = CapabilityHost::new(QueueStub { items: 0, hangs: false });
    let h = host.mint_request(sample_request());
    assert_eq!(host.drop_request(h), Ok(()));
    assert_eq!(host.drop_request(h), Err(HostError::Trapped));
    assert_eq!(host.drop_request(h), Err(HostError::Trapped));
}

#[test]
fn never_minted_handle_errors() {
    let host = CapabilityHost::new(QueueStub { items: 0, hangs: false });
    let res = ReqResource::from_handle(5);
    assert_eq!(host_get_service_id(&host, &res), Err(HostError::Trapped));
}

#[test]
fn handles_die_with_their_context() {
    let mut ctx = ExecutionContext::new(QueueStub { items: 0, hangs: false }, String::new());
    let h = ctx.host.mint_request(sample_request());
    let res = ReqResource::from_handle(h);
    // never dropped by the guest
    assert!(host_get_service_id(&ctx.host, &res).is_ok());
    ctx.destroy();
    assert_eq!(host_get_service_id(&ctx.host, &res), Err(HostError::Trapped));
    assert_eq!(host_get_header_names(&ctx.host, &res), Err(HostError::Trapped));
    assert_eq!(host_get(&ctx.host, b"content-type", &res), Err(HostError::Trapped));
    assert_eq!(ctx.host.drop_request(h), Err(HostError::Trapped));
}

#[test]
fn case_insensitive_byte_equality() {
    assert!(bytes_eq_ignore_case(b"Content-Type", b"cONTENT-tYPE"));
    assert!(!bytes_eq_ignore_case(b"Content-Type", b"Content-Typo"));
    assert!(!bytes_eq_ignore_case(b"abc", b"abcd"));
    assert!(bytes_eq_ignore_case(b"", b""));
    // only ASCII letters fold
    assert!(!bytes_eq_ignore_case(&[0xC4], &[0xE4]));
}

#[test]
fn resource_token_sentinel() {
    let mut r = Resource::from_handle(7);
    assert_eq!(r.handle(), 7);
    assert_eq!(r.take_handle(), 7);
    assert_eq!(r.handle(), INVALID_HANDLE);

    let mut rr = ReqResource::from_handle(9);
    assert_eq!(rr.handle(), 9);
    assert_eq!(rr.take_handle(), 9);
    assert_eq!(rr.handle(), INVALID_HANDLE);
}

#[test]
fn boundary_scalar_conversion() {
    assert_eq!(as_i64(60u64), 60i64);
    assert_eq!(as_i64(-3i64), -3i64);
    assert_eq!(as_i64(u64::MAX), -1i64);
}
