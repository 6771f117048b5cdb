//! Runner connector: the state of one runner's WebSocket and the decisions
//! taken on each frame that crosses it, in either direction.

use std::collections::HashMap;
use vstd::prelude::*;
use crate::errors::WsError;
use crate::protocol::{
    is_to_client_tunnel_message_kind_request_close,
    is_to_server_tunnel_message_kind_request_close, to_client_kind_is_terminal,
    to_server_kind_is_terminal, KvListQuery, KvMetadata, KvRequestData, KvResponseData,
    RequestId, ToClient, ToClientKvResponse,
    ToClientTunnelMessage, ToServer, ToServerInit, ToServerKvRequest, ToServerTunnelMessage,
};

verus! {

broadcast use vstd::std_specs::hash::group_hash_axioms;

/// The state of one runner's connection.
pub struct Conn {
    pub runner_id: u128,
    pub workflow_id: u128,
    pub protocol_version: u16,
    /// Round-trip time from the last ping, in milliseconds.
    pub last_rtt: u32,
    /// Requests that a gateway tunnels to this runner, with the subject to reply on.
    pub tunnel_active_requests: HashMap<RequestId, String>,
    /// True until a close frame from the broker has been sent to the runner.
    pub forwarding: bool,
}

/// What the connector does with a frame that the runner sent.
pub enum ClientAction {
    /// Nothing more to do.
    Done,
    /// Publish the frame on a gateway's receiver subject.
    PublishToGateway { subject: String, frame: ToServerTunnelMessage },
    /// Hand the frame to the runner's workflow.
    ForwardToWorkflow { workflow_id: u128, message: ToServer },
    /// Look up which runner owns the request's actor, then hand the outcome
    /// to [`Conn::kv_after_lookup`].
    KvRequest { request: ToServerKvRequest },
    /// The frame cannot be handled; the connection ends.
    Fail,
}

/// The table of active requests after a gateway frame passed through: the
/// reply subject it carried is recorded, and a terminal frame drops the entry.
pub open spec fn after_client_frame(
    m: Map<RequestId, String>,
    msg: ToClientTunnelMessage,
) -> Map<RequestId, String> {
    let recorded = match msg.gateway_reply_to {
        Some(s) => m.insert(msg.request_id, s),
        None => m,
    };
    if to_client_kind_is_terminal(msg.message_kind) {
        recorded.remove(msg.request_id)
    } else {
        recorded
    }
}

/// A gateway frame that carries a reply subject and does not end its
/// request leaves that subject recorded for the request.
pub proof fn lemma_reply_subject_recorded(m: Map<RequestId, String>, msg: ToClientTunnelMessage)
    requires
        msg.gateway_reply_to is Some,
        !to_client_kind_is_terminal(msg.message_kind),
    ensures
        after_client_frame(m, msg).contains_key(msg.request_id),
        after_client_frame(m, msg)[msg.request_id] == msg.gateway_reply_to->Some_0,
{
}

/// Ending a request's entry twice is ending it once: a terminal runner frame
/// drops the entry before it is published, and dropping it again changes nothing.
pub proof fn lemma_terminal_removal_idempotent(m: Map<RequestId, String>, id: RequestId)
    ensures
        m.remove(id).remove(id) == m.remove(id),
{
    assert(m.remove(id).remove(id) =~= m.remove(id));
}

/// The reply to a KV request: what the operation returned, or its error as
/// a KV error response. Errors travel in the frame; the connection stays up.
pub fn kv_response(request_id: u32, result: Result<KvResponseData, String>) -> (r: ToClient)
    ensures
        match result {
            Ok(data) => r == ToClient::ToClientKvResponse(ToClientKvResponse { request_id, data }),
            Err(message) => r == ToClient::ToClientKvResponse(
                ToClientKvResponse { request_id, data: KvResponseData::KvErrorResponse { message } },
            ),
        },
{
    let data = match result {
        Ok(d) => d,
        Err(message) => KvResponseData::KvErrorResponse { message },
    };
    ToClient::ToClientKvResponse(ToClientKvResponse { request_id, data })
}

/// The reply to a KV request for an actor that this runner does not own.
pub fn kv_not_owned_response(request_id: u32) -> (r: ToClient)
    ensures
        r is ToClientKvResponse,
        r->ToClientKvResponse_0.request_id == request_id,
        r->ToClientKvResponse_0.data is KvErrorResponse,
        r->ToClientKvResponse_0.data->KvErrorResponse_message@ == "given actor does not belong to runner"@,
{
    kv_response(request_id, Err("given actor does not belong to runner".to_owned()))
}

/// The limit of a KV list request as a length; an error where it does not fit.
pub fn kv_list_limit(limit: Option<u64>) -> (r: Result<Option<usize>, ()>)
    ensures
        match limit {
            None => r == Ok::<Option<usize>, ()>(None),
            Some(l) => if l <= usize::MAX {
                r == Ok::<Option<usize>, ()>(Some(l as usize))
            } else {
                r is Err
            },
        },
{
    match limit {
        None => Ok(None),
        Some(l) => {
            if l <= usize::MAX as u64 {
                Ok(Some(l as usize))
            } else {
                Err(())
            }
        },
    }
}

/// Whether `r` is a KV error response to request `request_id` with `message`.
pub open spec fn is_kv_error(r: ToClient, request_id: u32, message: Seq<char>) -> bool {
    &&& r is ToClientKvResponse
    &&& r->ToClientKvResponse_0.request_id == request_id
    &&& r->ToClientKvResponse_0.data is KvErrorResponse
    &&& r->ToClientKvResponse_0.data->KvErrorResponse_message@ == message
}

/// A KV operation to run against an actor's store.
pub enum KvOp {
    Get { keys: Vec<Vec<u8>> },
    List { query: KvListQuery, reverse: bool, limit: Option<usize> },
    Put { keys: Vec<Vec<u8>>, values: Vec<Vec<u8>> },
    Delete { keys: Vec<Vec<u8>> },
    Drop,
}

/// What serving a KV request needs next.
pub enum KvStep {
    /// Send this reply to the runner; no operation runs.
    Reply(ToClient),
    /// Run the operation on the actor's store, then reply with [`kv_reply`].
    Run { request_id: u32, actor_id: String, op: KvOp },
}

/// The operation a KV request asks for; a list without `reverse` reads forwards.
pub open spec fn kv_op_of(data: KvRequestData) -> KvOp {
    match data {
        KvRequestData::KvGetRequest { keys } => KvOp::Get { keys },
        KvRequestData::KvListRequest { query, reverse, limit } => KvOp::List {
            query,
            reverse: reverse == Some(true),
            limit: match limit {
                Some(l) => Some(l as usize),
                None => None,
            },
        },
        KvRequestData::KvPutRequest { keys, values } => KvOp::Put { keys, values },
        KvRequestData::KvDeleteRequest { keys } => KvOp::Delete { keys },
        KvRequestData::KvDropRequest => KvOp::Drop,
    }
}

/// Whether a KV request is a list whose limit does not fit in a length.
pub open spec fn kv_limit_overflows(data: KvRequestData) -> bool {
    data matches KvRequestData::KvListRequest { limit: Some(l), .. } && l > usize::MAX
}

/// The reply once a KV operation ran: its entries for a get or a list, an
/// acknowledgement for a put, a delete or a drop, and its error as a KV
/// error response. Errors travel in the frame; the connection stays up.
pub fn kv_reply(
    request_id: u32,
    op: &KvOp,
    result: Result<(Vec<Vec<u8>>, Vec<Vec<u8>>, Vec<KvMetadata>), String>,
) -> (r: ToClient)
    ensures
        match result {
            Err(message) => is_kv_error(r, request_id, message@),
            Ok((keys, values, metadata)) => r == ToClient::ToClientKvResponse(ToClientKvResponse {
                request_id,
                data: match *op {
                    KvOp::Get { .. } => KvResponseData::KvGetResponse { keys, values, metadata },
                    KvOp::List { .. } => KvResponseData::KvListResponse { keys, values, metadata },
                    KvOp::Put { .. } => KvResponseData::KvPutResponse,
                    KvOp::Delete { .. } => KvResponseData::KvDeleteResponse,
                    KvOp::Drop => KvResponseData::KvDropResponse,
                },
            }),
        },
{
    match result {
        Err(message) => kv_response(request_id, Err(message)),
        Ok((keys, values, metadata)) => {
            let data = match op {
                KvOp::Get { .. } => KvResponseData::KvGetResponse { keys, values, metadata },
                KvOp::List { .. } => KvResponseData::KvListResponse { keys, values, metadata },
                KvOp::Put { .. } => KvResponseData::KvPutResponse,
                KvOp::Delete { .. } => KvResponseData::KvDeleteResponse,
                KvOp::Drop => KvResponseData::KvDropResponse,
            };
            kv_response(request_id, Ok(data))
        },
    }
}

/// What a runner's WebSocket delivered.
pub enum WsFrame {
    Binary(Vec<u8>),
    Close,
    /// Text, ping or pong frames, which the connector ignores.
    Other,
    /// The socket failed.
    Error,
}

/// What the reading loop does next.
pub enum ReadStep {
    /// Decode these bytes, written in the connection's protocol version.
    Decode(Vec<u8>),
    /// Read the next frame.
    Continue,
    /// Stop reading: the runner closed the socket or it failed.
    Stop,
}

/// The reading loop's decision on one WebSocket frame.
pub fn read_step(frame: WsFrame) -> (r: ReadStep)
    ensures
        match frame {
            WsFrame::Binary(b) => r == ReadStep::Decode(b),
            WsFrame::Other => r is Continue,
            _ => r is Stop,
        },
{
    match frame {
        WsFrame::Binary(b) => ReadStep::Decode(b),
        WsFrame::Other => ReadStep::Continue,
        _ => ReadStep::Stop,
    }
}

/// The WebSocket endpoint that runners connect to.
pub struct PegboardRunnerWsCustomServe {
    /// Label of the datacenter this endpoint serves.
    pub dc_label: u16,
}

impl PegboardRunnerWsCustomServe {
    pub fn new(dc_label: u16) -> (r: PegboardRunnerWsCustomServe)
        ensures
            r.dc_label == dc_label,
    {
        PegboardRunnerWsCustomServe { dc_label }
    }

    /// The answer to a plain HTTP request: status, content type and body.
    pub fn handle_request(&self) -> (r: (u16, &'static str, &'static str))
        ensures
            r.0 == 200,
            r.1@ == "text/plain"@,
            r.2@ == "pegboard-runner WebSocket endpoint"@,
    {
        (200, "text/plain", "pegboard-runner WebSocket endpoint")
    }
}

/// Whether a runner became eligible for allocation again.
#[derive(Debug, PartialEq, Eq, Structural)]
pub enum RunnerEligibility {
    ReEligible,
    Unchanged,
}

/// One notification of the allocation index after a ping update.
pub struct EligibilityNotification {
    pub runner_id: u128,
    pub workflow_id: u128,
    pub eligibility: RunnerEligibility,
}

/// Workflows of the runners that became eligible again, in order.
pub open spec fn re_eligible_spec(s: Seq<EligibilityNotification>) -> Seq<u128>
    decreases s.len(),
{
    if s.len() == 0 {
        Seq::empty()
    } else {
        let rest = re_eligible_spec(s.drop_last());
        if s.last().eligibility == RunnerEligibility::ReEligible {
            rest.push(s.last().workflow_id)
        } else {
            rest
        }
    }
}

/// The workflows to ask to pull queued actors after a ping update.
pub fn re_eligible_workflows(notifications: &Vec<EligibilityNotification>) -> (r: Vec<u128>)
    ensures
        r@ == re_eligible_spec(notifications@),
{
    let mut out: Vec<u128> = Vec::new();
    let mut i: usize = 0;
    while i < notifications.len()
        invariant
            0 <= i <= notifications@.len(),
            out@ == re_eligible_spec(notifications@.take(i as int)),
        decreases notifications@.len() - i,
    {
        proof {
            assert(notifications@.take(i as int + 1).drop_last() =~= notifications@.take(i as int));
        }
        if notifications[i].eligibility == RunnerEligibility::ReEligible {
            out.push(notifications[i].workflow_id);
        }
        i = i + 1;
    }
    proof {
        assert(notifications@.take(notifications@.len() as int) =~= notifications@);
    }
    out
}

/// A ping update is made only for a runner whose workflow exists and still
/// waits to be woken; `None` stands for a workflow that does not exist.
pub fn should_update_ping(workflow_has_wake_condition: Option<bool>) -> (r: bool)
    ensures
        r == (workflow_has_wake_condition == Some(true)),
{
    match workflow_has_wake_condition {
        Some(w) => w,
        None => false,
    }
}

/// The frame a new connection publishes on its runner's subject, so that
/// the connection it replaces closes.
pub fn eviction_notice() -> (r: ToClient)
    ensures
        r is ToClientClose,
{
    ToClient::ToClientClose
}

/// Why a connection closes once an eviction notice reached it.
pub fn evicted_close_error() -> (r: WsError)
    ensures
        r is NewRunnerConnected,
{
    WsError::NewRunnerConnected
}

/// `now - ts` with the bounds of `i64`.
pub open spec fn saturating_diff(now: i64, ts: i64) -> int {
    let d = now - ts;
    if d < i64::MIN {
        i64::MIN as int
    } else if d > i64::MAX {
        i64::MAX as int
    } else {
        d
    }
}

/// Round-trip time of a ping sent at `ts` and handled at `now`, in
/// milliseconds; none where it is negative or does not fit in `u32`.
pub fn ping_rtt(now: i64, ts: i64) -> (r: Option<u32>)
    ensures
        0 <= saturating_diff(now, ts) <= u32::MAX ==> r == Some(saturating_diff(now, ts) as u32),
        !(0 <= saturating_diff(now, ts) <= u32::MAX) ==> r is None,
{
    let d: i128 = now as i128 - ts as i128;
    if d < 0 || d > u32::MAX as i128 {
        None
    } else {
        Some(d as u32)
    }
}

/// The first frame of a connection must be an init; `None` stands for a
/// handshake that timed out.
pub fn check_init(first: Option<ToServer>) -> (r: Result<ToServerInit, WsError>)
    ensures
        first is None ==> r matches Err(WsError::TimedOutWaitingForInit),
        first matches Some(ToServer::ToServerInit(init)) ==> r == Ok::<ToServerInit, WsError>(init),
        first matches Some(m) && !(m is ToServerInit) ==> r matches Err(WsError::InvalidInitialPacket(_)),
{
    match first {
        None => Err(WsError::TimedOutWaitingForInit),
        Some(ToServer::ToServerInit(init)) => Ok(init),
        Some(_) => Err(WsError::InvalidInitialPacket("must be `ToServer::Init`".to_owned())),
    }
}

/// Whether the actor of a KV request belongs to the runner: the first owner
/// that the lookup returned is this runner.
pub fn actor_belongs(runner_id: u128, owners: &Vec<u128>) -> (r: bool)
    ensures
        r == (owners@.len() > 0 && owners@[0] == runner_id),
{
    owners.len() > 0 && owners[0] == runner_id
}

impl Conn {
    /// A connection that has just passed its handshake.
    pub fn new(runner_id: u128, workflow_id: u128, protocol_version: u16) -> (r: Conn)
        ensures
            r.runner_id == runner_id,
            r.workflow_id == workflow_id,
            r.protocol_version == protocol_version,
            r.last_rtt == 0,
            r.tunnel_active_requests@ == Map::<RequestId, String>::empty(),
            r.forwarding,
    {
        Conn {
            runner_id,
            workflow_id,
            protocol_version,
            last_rtt: 0,
            tunnel_active_requests: HashMap::new(),
            forwarding: true,
        }
    }

    /// The next step of a KV request once its actor's owner was looked up.
    /// `owners` is the lookup's outcome: the runners that own the actor, or
    /// an error where the actor id could not be read or the lookup failed.
    /// A failed lookup, an actor that is not this runner's, or a list limit
    /// that does not fit gets one KV error response for the request and no
    /// operation runs; otherwise the requested operation runs.
    pub fn kv_after_lookup(&self, req: ToServerKvRequest, owners: Result<Vec<u128>, String>) -> (r: KvStep)
        ensures
            owners matches Err(m) ==> (r matches KvStep::Reply(reply) && is_kv_error(
                reply,
                req.request_id,
                m@,
            )),
            owners matches Ok(o) && !(o@.len() > 0 && o@[0] == self.runner_id) ==> (r matches KvStep::Reply(
                reply,
            ) && is_kv_error(reply, req.request_id, "given actor does not belong to runner"@)),
            owners matches Ok(o) && o@.len() > 0 && o@[0] == self.runner_id && kv_limit_overflows(req.data)
                ==> (r matches KvStep::Reply(reply) && is_kv_error(
                reply,
                req.request_id,
                "KV list limit value overflow"@,
            )),
            owners matches Ok(o) && o@.len() > 0 && o@[0] == self.runner_id && !kv_limit_overflows(req.data)
                ==> r == (KvStep::Run {
                request_id: req.request_id,
                actor_id: req.actor_id,
                op: kv_op_of(req.data),
            }),
    {
        let request_id = req.request_id;
        let owners = match owners {
            Err(message) => {
                return KvStep::Reply(kv_response(request_id, Err(message)));
            },
            Ok(o) => o,
        };
        if !actor_belongs(self.runner_id, &owners) {
            return KvStep::Reply(kv_not_owned_response(request_id));
        }
        let op = match req.data {
            KvRequestData::KvGetRequest { keys } => KvOp::Get { keys },
            KvRequestData::KvListRequest { query, reverse, limit } => {
                let limit = match kv_list_limit(limit) {
                    Ok(l) => l,
                    Err(()) => {
                        return KvStep::Reply(
                            kv_response(request_id, Err("KV list limit value overflow".to_owned())),
                        );
                    },
                };
                let reverse = match reverse {
                    Some(b) => b,
                    None => false,
                };
                KvOp::List { query, reverse, limit }
            },
            KvRequestData::KvPutRequest { keys, values } => KvOp::Put { keys, values },
            KvRequestData::KvDeleteRequest { keys } => KvOp::Delete { keys },
            KvRequestData::KvDropRequest => KvOp::Drop,
        };
        KvStep::Run { request_id, actor_id: req.actor_id, op }
    }

    /// A gateway's tunnel frame on its way to the runner: its reply subject is
    /// recorded and taken out of the frame, and a terminal frame ends the
    /// request's entry.
    pub fn record_client_tunnel_message(&mut self, msg: &mut ToClientTunnelMessage)
        ensures
            final(self).tunnel_active_requests@ == after_client_frame(
                old(self).tunnel_active_requests@,
                *old(msg),
            ),
            final(msg).gateway_reply_to is None,
            final(msg).request_id == old(msg).request_id,
            final(msg).message_id == old(msg).message_id,
            final(msg).message_kind == old(msg).message_kind,
            final(self).runner_id == old(self).runner_id,
            final(self).workflow_id == old(self).workflow_id,
            final(self).protocol_version == old(self).protocol_version,
            final(self).last_rtt == old(self).last_rtt,
            final(self).forwarding == old(self).forwarding,
    {
        let reply_to = msg.gateway_reply_to.take();
        if let Some(subject) = reply_to {
            self.tunnel_active_requests.insert(msg.request_id, subject);
        }
        if is_to_client_tunnel_message_kind_request_close(&msg.message_kind) {
            self.tunnel_active_requests.remove(&msg.request_id);
        }
    }

    /// A frame from the broker on its way to the runner. Returns the frame to
    /// send, with the reply subject of a tunnel frame recorded and stripped.
    /// After a close frame has been sent, nothing more is sent.
    pub fn forward_from_broker(&mut self, msg: ToClient) -> (r: Option<ToClient>)
        ensures
            final(self).runner_id == old(self).runner_id,
            final(self).workflow_id == old(self).workflow_id,
            final(self).protocol_version == old(self).protocol_version,
            final(self).last_rtt == old(self).last_rtt,
            !old(self).forwarding ==> {
                &&& r is None
                &&& final(self).tunnel_active_requests@ == old(self).tunnel_active_requests@
                &&& !final(self).forwarding
            },
            old(self).forwarding ==> {
                &&& r is Some
                &&& final(self).forwarding == !(msg is ToClientClose)
                &&& match msg {
                    ToClient::ToClientTunnelMessage(t) => {
                        &&& r->Some_0 matches ToClient::ToClientTunnelMessage(out)
                        &&& out.gateway_reply_to is None
                        &&& out.request_id == t.request_id
                        &&& out.message_id == t.message_id
                        &&& out.message_kind == t.message_kind
                        &&& final(self).tunnel_active_requests@ == after_client_frame(
                            old(self).tunnel_active_requests@,
                            t,
                        )
                    },
                    _ => {
                        &&& r == Some(msg)
                        &&& final(self).tunnel_active_requests@ == old(self).tunnel_active_requests@
                    },
                }
            },
    {
        if !self.forwarding {
            return None;
        }
        match msg {
            ToClient::ToClientTunnelMessage(t) => {
                let mut t = t;
                self.record_client_tunnel_message(&mut t);
                Some(ToClient::ToClientTunnelMessage(t))
            },
            ToClient::ToClientClose => {
                self.forwarding = false;
                Some(ToClient::ToClientClose)
            },
            other => Some(other),
        }
    }

    /// A runner's tunnel frame: where the request is active, returns the
    /// subject to publish it on, and a terminal frame ends the request's
    /// entry. A frame of an unknown request is dropped.
    pub fn route_server_tunnel_message(&mut self, msg: &ToServerTunnelMessage) -> (r: Option<String>)
        ensures
            final(self).runner_id == old(self).runner_id,
            final(self).workflow_id == old(self).workflow_id,
            final(self).protocol_version == old(self).protocol_version,
            final(self).last_rtt == old(self).last_rtt,
            final(self).forwarding == old(self).forwarding,
            !old(self).tunnel_active_requests@.contains_key(msg.request_id) ==> {
                &&& r is None
                &&& final(self).tunnel_active_requests@ == old(self).tunnel_active_requests@
            },
            old(self).tunnel_active_requests@.contains_key(msg.request_id) ==> {
                &&& r matches Some(s) && s@ == old(self).tunnel_active_requests@[msg.request_id]@
                &&& final(self).tunnel_active_requests@ == if to_server_kind_is_terminal(msg.message_kind) {
                    old(self).tunnel_active_requests@.remove(msg.request_id)
                } else {
                    old(self).tunnel_active_requests@
                }
            },
    {
        let subject = match self.tunnel_active_requests.get(&msg.request_id) {
            Some(s) => s.clone(),
            None => {
                return None;
            },
        };
        if is_to_server_tunnel_message_kind_request_close(&msg.message_kind) {
            self.tunnel_active_requests.remove(&msg.request_id);
        }
        Some(subject)
    }

    /// Decides what to do with a frame that the runner sent at time `now`. A
    /// ping updates the round-trip time, or fails the connection where that
    /// time is out of range.
    pub fn handle_message(&mut self, msg: ToServer, now: i64) -> (r: ClientAction)
        ensures
            final(self).runner_id == old(self).runner_id,
            final(self).workflow_id == old(self).workflow_id,
            final(self).protocol_version == old(self).protocol_version,
            final(self).forwarding == old(self).forwarding,
            !(msg is ToServerPing) ==> final(self).last_rtt == old(self).last_rtt,
            !(msg is ToServerTunnelMessage) ==> final(self).tunnel_active_requests@
                == old(self).tunnel_active_requests@,
            match msg {
                ToServer::ToServerPing(p) => match ping_rtt_spec(now, p.ts) {
                    Some(rtt) => r is Done && final(self).last_rtt == rtt,
                    None => r is Fail && final(self).last_rtt == old(self).last_rtt,
                },
                ToServer::ToServerKvRequest(req) => r == (ClientAction::KvRequest { request: req }),
                ToServer::ToServerTunnelMessage(t) => {
                    &&& old(self).tunnel_active_requests@.contains_key(t.request_id) ==> {
                        &&& r matches ClientAction::PublishToGateway { subject, frame }
                        &&& subject@ == old(self).tunnel_active_requests@[t.request_id]@
                        &&& frame == t
                        &&& final(self).tunnel_active_requests@ == if to_server_kind_is_terminal(t.message_kind) {
                            old(self).tunnel_active_requests@.remove(t.request_id)
                        } else {
                            old(self).tunnel_active_requests@
                        }
                    }
                    &&& !old(self).tunnel_active_requests@.contains_key(t.request_id) ==> {
                        &&& r is Done
                        &&& final(self).tunnel_active_requests@ == old(self).tunnel_active_requests@
                    }
                },
                _ => r == (ClientAction::ForwardToWorkflow { workflow_id: old(self).workflow_id, message: msg }),
            },
    {
        match msg {
            ToServer::ToServerPing(p) => {
                match ping_rtt(now, p.ts) {
                    Some(rtt) => {
                        self.last_rtt = rtt;
                        ClientAction::Done
                    },
                    None => ClientAction::Fail,
                }
            },
            ToServer::ToServerKvRequest(req) => ClientAction::KvRequest { request: req },
            ToServer::ToServerTunnelMessage(t) => {
                match self.route_server_tunnel_message(&t) {
                    Some(subject) => ClientAction::PublishToGateway { subject, frame: t },
                    None => ClientAction::Done,
                }
            },
            other => ClientAction::ForwardToWorkflow { workflow_id: self.workflow_id, message: other },
        }
    }
}

/// The result of [`ping_rtt`] as a value.
pub open spec fn ping_rtt_spec(now: i64, ts: i64) -> Option<u32> {
    if 0 <= saturating_diff(now, ts) <= u32::MAX {
        Some(saturating_diff(now, ts) as u32)
    } else {
        None
    }
}

} // verus!
