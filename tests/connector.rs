use runner_tunnel::connector::{
    kv_list_limit, kv_not_owned_response, kv_reply, kv_response, KvOp, KvStep,
    actor_belongs, check_init, eviction_notice, evicted_close_error, ping_rtt, re_eligible_workflows,
    read_step, should_update_ping, ClientAction, Conn, EligibilityNotification, PegboardRunnerWsCustomServe,
    ReadStep, RunnerEligibility, WsFrame,
};
use runner_tunnel::errors::WsError;
use runner_tunnel::protocol::{
    KvListQuery, KvMetadata, KvResponseData,
    is_to_client_close, KvRequestData, ToClient, ToClientRequestChunk, ToClientTunnelMessage,
    ToClientTunnelMessageKind, ToServer, ToServerInit, ToServerKvRequest, ToServerPing,
    ToServerResponseChunk, ToServerTunnelMessage, ToServerTunnelMessageKind, WebSocketClose,
};

const R: u128 = 0x0101_0101_0101_0101_0101_0101_0101_0101;

fn to_client(request_id: u128, reply_to: Option<&str>, kind: ToClientTunnelMessageKind) -> ToClient {
    ToClient::ToClientTunnelMessage(ToClientTunnelMessage {
        request_id,
        message_id: 7,
        gateway_reply_to: reply_to.map(|s| s.to_string()),
        message_kind: kind,
    })
}

fn open_chunk() -> ToClientTunnelMessageKind {
    ToClientTunnelMessageKind::ToClientRequestChunk(ToClientRequestChunk { body: vec![], finish: false })
}

fn server_msg(request_id: u128, kind: ToServerTunnelMessageKind) -> ToServer {
    ToServer::ToServerTunnelMessage(ToServerTunnelMessage { request_id, message_id: 8, message_kind: kind })
}

#[test]
fn reply_subject_is_recorded_and_stripped() {
    let mut c = Conn::new(1, 2, 1);
    let out = c.forward_from_broker(to_client(R, Some("gw.G"), open_chunk())).unwrap();
    match out {
        ToClient::ToClientTunnelMessage(t) => {
            assert!(t.gateway_reply_to.is_none());
            assert_eq!(t.request_id, R);
            assert_eq!(t.message_id, 7);
        }
        _ => panic!("expected a tunnel frame"),
    }
    assert_eq!(c.tunnel_active_requests.get(&R).map(|s| s.as_str()), Some("gw.G"));
}

#[test]
fn runner_reply_goes_to_recorded_gateway_then_entry_ends() {
    let mut c = Conn::new(1, 2, 1);
    c.forward_from_broker(to_client(R, Some("gw.G"), open_chunk()));
    let more = ToServerTunnelMessageKind::ToServerResponseChunk(ToServerResponseChunk { body: vec![1], finish: false });
    match c.handle_message(server_msg(R, more), 0) {
        ClientAction::PublishToGateway { subject, frame } => {
            assert_eq!(subject, "gw.G");
            assert_eq!(frame.request_id, R);
        }
        _ => panic!("expected a publish"),
    }
    assert!(c.tunnel_active_requests.contains_key(&R));
    let last = ToServerTunnelMessageKind::ToServerResponseChunk(ToServerResponseChunk { body: vec![], finish: true });
    match c.handle_message(server_msg(R, last), 0) {
        ClientAction::PublishToGateway { subject, .. } => assert_eq!(subject, "gw.G"),
        _ => panic!("expected a publish"),
    }
    assert!(!c.tunnel_active_requests.contains_key(&R));
    // A later frame of the ended request is dropped.
    assert!(matches!(c.handle_message(server_msg(R, ToServerTunnelMessageKind::ToServerResponseAbort), 0), ClientAction::Done));
}

#[test]
fn gateway_close_frame_ends_entry() {
    let mut c = Conn::new(1, 2, 1);
    c.forward_from_broker(to_client(R, Some("gw.G"), open_chunk()));
    let close = ToClientTunnelMessageKind::ToClientWebSocketClose(WebSocketClose { code: Some(1000), reason: None });
    c.forward_from_broker(to_client(R, None, close)).unwrap();
    assert!(c.tunnel_active_requests.is_empty());
}

#[test]
fn eviction_closes_old_connection() {
    let mut old = Conn::new(1, 2, 1);
    let notice = eviction_notice();
    assert!(is_to_client_close(&notice));
    let sent = old.forward_from_broker(notice);
    assert!(matches!(sent, Some(ToClient::ToClientClose)));
    assert!(!old.forwarding);
    assert!(old.forward_from_broker(to_client(R, Some("gw.G"), open_chunk())).is_none());
    assert!(old.tunnel_active_requests.is_empty());
    let err = evicted_close_error();
    assert!(err.close_reason().contains("new_runner_connected"));
}

#[test]
fn bad_init_is_refused() {
    let kv = ToServer::ToServerKvRequest(ToServerKvRequest {
        actor_id: "a".to_string(),
        request_id: 1,
        data: KvRequestData::KvDropRequest,
    });
    let err = check_init(Some(kv)).err().unwrap();
    assert_eq!(err.close_reason(), "ws.invalid_initial_packet");
    let timeout = check_init(None).err().unwrap();
    assert_eq!(timeout.close_reason(), "ws.timed_out_waiting_for_init");
    let init = ToServerInit { name: "r".to_string(), version: 3, total_slots: 10 };
    let ok = check_init(Some(ToServer::ToServerInit(init))).ok().unwrap();
    assert_eq!(ok.version, 3);
    assert_eq!(ok.total_slots, 10);
}

#[test]
fn ping_updates_rtt() {
    let mut c = Conn::new(1, 2, 1);
    let a = c.handle_message(ToServer::ToServerPing(ToServerPing { ts: 1_000 }), 1_042);
    assert!(matches!(a, ClientAction::Done));
    assert_eq!(c.last_rtt, 42);
    let a = c.handle_message(ToServer::ToServerPing(ToServerPing { ts: 2_000 }), 1_000);
    assert!(matches!(a, ClientAction::Fail));
    assert_eq!(c.last_rtt, 42);
}

#[test]
fn ping_rtt_bounds() {
    assert_eq!(ping_rtt(10, 10), Some(0));
    assert_eq!(ping_rtt(5, 10), None);
    assert_eq!(ping_rtt(u32::MAX as i64, 0), Some(u32::MAX));
    assert_eq!(ping_rtt(u32::MAX as i64 + 1, 0), None);
    assert_eq!(ping_rtt(i64::MAX, i64::MIN), None);
}

#[test]
fn workflow_frames_are_forwarded() {
    let mut c = Conn::new(1, 77, 1);
    match c.handle_message(ToServer::ToServerStopping, 0) {
        ClientAction::ForwardToWorkflow { workflow_id, message } => {
            assert_eq!(workflow_id, 77);
            assert!(matches!(message, ToServer::ToServerStopping));
        }
        _ => panic!("expected a forward"),
    }
}

#[test]
fn kv_request_asks_for_owner() {
    let mut c = Conn::new(1, 2, 1);
    let kv = ToServer::ToServerKvRequest(ToServerKvRequest {
        actor_id: "actor-1".to_string(),
        request_id: 9,
        data: KvRequestData::KvGetRequest { keys: vec![b"k".to_vec()] },
    });
    match c.handle_message(kv, 0) {
        ClientAction::KvRequest { request } => {
            assert_eq!(request.request_id, 9);
            assert_eq!(request.actor_id, "actor-1");
        }
        _ => panic!("expected a KV request"),
    }
    assert!(actor_belongs(1, &vec![1, 5]));
    assert!(!actor_belongs(1, &vec![5, 1]));
    assert!(!actor_belongs(1, &vec![]));
}

#[test]
fn ping_task_decisions() {
    assert!(should_update_ping(Some(true)));
    assert!(!should_update_ping(Some(false)));
    assert!(!should_update_ping(None));
    let n = vec![
        EligibilityNotification { runner_id: 1, workflow_id: 10, eligibility: RunnerEligibility::ReEligible },
        EligibilityNotification { runner_id: 2, workflow_id: 20, eligibility: RunnerEligibility::Unchanged },
        EligibilityNotification { runner_id: 3, workflow_id: 30, eligibility: RunnerEligibility::ReEligible },
    ];
    assert_eq!(re_eligible_workflows(&n), vec![10, 30]);
}

#[test]
fn read_loop_steps() {
    assert!(matches!(read_step(WsFrame::Binary(vec![1])), ReadStep::Decode(b) if b == vec![1]));
    assert!(matches!(read_step(WsFrame::Other), ReadStep::Continue));
    assert!(matches!(read_step(WsFrame::Close), ReadStep::Stop));
    assert!(matches!(read_step(WsFrame::Error), ReadStep::Stop));
}

#[test]
fn endpoint_answers_plain_http() {
    let s = PegboardRunnerWsCustomServe::new(1);
    assert_eq!(s.handle_request(), (200, "text/plain", "pegboard-runner WebSocket endpoint"));
}

#[test]
fn close_codes() {
    assert_eq!(WsError::ConnectionClosed.close_code(), 1000);
    assert_eq!(WsError::NewRunnerConnected.close_code(), 1011);
    assert_eq!(WsError::Eviction.close_reason(), "ws.eviction");
    assert_eq!(WsError::InvalidPacket("x".to_string()).close_reason(), "ws.invalid_packet");
    assert_eq!(WsError::InvalidUrl("x".to_string()).close_reason(), "ws.invalid_url");
    assert_eq!(WsError::ConnectionClosed.close_reason(), "ws.connection_closed");
    assert_eq!(WsError::NewRunnerConnected.group(), "ws");
}

#[test]
fn kv_replies() {
    match kv_not_owned_response(4) {
        ToClient::ToClientKvResponse(r) => {
            assert_eq!(r.request_id, 4);
            match r.data {
                KvResponseData::KvErrorResponse { message } => assert_eq!(message, "given actor does not belong to runner"),
                _ => panic!("expected an error response"),
            }
        }
        _ => panic!("expected a KV response"),
    }
    match kv_response(5, Ok(KvResponseData::KvPutResponse)) {
        ToClient::ToClientKvResponse(r) => {
            assert_eq!(r.request_id, 5);
            assert!(matches!(r.data, KvResponseData::KvPutResponse));
        }
        _ => panic!("expected a KV response"),
    }
    match kv_response(6, Err("db down".to_string())) {
        ToClient::ToClientKvResponse(r) => {
            assert!(matches!(r.data, KvResponseData::KvErrorResponse { message } if message == "db down"));
        }
        _ => panic!("expected a KV response"),
    }
    assert_eq!(kv_list_limit(None), Ok(None));
    assert_eq!(kv_list_limit(Some(10)), Ok(Some(10)));
}

fn kv_req(data: KvRequestData) -> ToServerKvRequest {
    ToServerKvRequest { actor_id: "actor-1".to_string(), request_id: 12, data }
}

fn error_message(step: KvStep) -> String {
    match step {
        KvStep::Reply(ToClient::ToClientKvResponse(r)) => {
            assert_eq!(r.request_id, 12);
            match r.data {
                KvResponseData::KvErrorResponse { message } => message,
                _ => panic!("expected an error response"),
            }
        }
        _ => panic!("expected a reply"),
    }
}

#[test]
fn kv_lookup_failures_reply_with_errors() {
    let c = Conn::new(1, 2, 1);
    let unreadable = c.kv_after_lookup(kv_req(KvRequestData::KvDropRequest), Err("invalid id".to_string()));
    assert_eq!(error_message(unreadable), "invalid id");
    let other = c.kv_after_lookup(kv_req(KvRequestData::KvDropRequest), Ok(vec![5]));
    assert_eq!(error_message(other), "given actor does not belong to runner");
    let none = c.kv_after_lookup(kv_req(KvRequestData::KvDropRequest), Ok(vec![]));
    assert_eq!(error_message(none), "given actor does not belong to runner");
}

#[test]
fn kv_lookup_runs_owned_operations() {
    let c = Conn::new(1, 2, 1);
    let list = KvRequestData::KvListRequest { query: KvListQuery::KvListAllQuery, reverse: None, limit: Some(3) };
    match c.kv_after_lookup(kv_req(list), Ok(vec![1])) {
        KvStep::Run { request_id, actor_id, op: KvOp::List { reverse, limit, .. } } => {
            assert_eq!(request_id, 12);
            assert_eq!(actor_id, "actor-1");
            assert!(!reverse);
            assert_eq!(limit, Some(3));
        }
        _ => panic!("expected a list"),
    }
    let put = KvRequestData::KvPutRequest { keys: vec![b"k".to_vec()], values: vec![b"v".to_vec()] };
    assert!(matches!(c.kv_after_lookup(kv_req(put), Ok(vec![1, 9])), KvStep::Run { op: KvOp::Put { .. }, .. }));
    let get = KvRequestData::KvGetRequest { keys: vec![] };
    assert!(matches!(c.kv_after_lookup(kv_req(get), Ok(vec![1])), KvStep::Run { op: KvOp::Get { .. }, .. }));
}

#[test]
fn kv_replies_by_operation() {
    let entries = || Ok((vec![b"k".to_vec()], vec![b"v".to_vec()], vec![KvMetadata { version: vec![1], create_ts: 5 }]));
    let list = KvOp::List { query: KvListQuery::KvListAllQuery, reverse: true, limit: None };
    match kv_reply(3, &list, entries()) {
        ToClient::ToClientKvResponse(r) => {
            assert_eq!(r.request_id, 3);
            match r.data {
                KvResponseData::KvListResponse { keys, values, metadata } => {
                    assert_eq!(keys, vec![b"k".to_vec()]);
                    assert_eq!(values, vec![b"v".to_vec()]);
                    assert_eq!(metadata[0].create_ts, 5);
                }
                _ => panic!("expected a list response"),
            }
        }
        _ => panic!("expected a KV response"),
    }
    let kind = |op: KvOp| match kv_reply(3, &op, entries()) {
        ToClient::ToClientKvResponse(r) => r.data,
        _ => panic!("expected a KV response"),
    };
    assert!(matches!(kind(KvOp::Get { keys: vec![] }), KvResponseData::KvGetResponse { .. }));
    assert!(matches!(kind(KvOp::Put { keys: vec![], values: vec![] }), KvResponseData::KvPutResponse));
    assert!(matches!(kind(KvOp::Delete { keys: vec![] }), KvResponseData::KvDeleteResponse));
    assert!(matches!(kind(KvOp::Drop), KvResponseData::KvDropResponse));
    match kv_reply(3, &KvOp::Drop, Err("store down".to_string())) {
        ToClient::ToClientKvResponse(r) => {
            assert!(matches!(r.data, KvResponseData::KvErrorResponse { message } if message == "store down"));
        }
        _ => panic!("expected a KV response"),
    }
}
