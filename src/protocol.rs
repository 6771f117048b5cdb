//! Tunnel frames exchanged between gateways, runner connectors and runners.

use vstd::prelude::*;

verus! {

/// Protocol version spoken by this side of the tunnel.
pub const PROTOCOL_VERSION: u16 = 1;

/// A 16-byte identifier, held as one integer (big-endian reading of the bytes).
pub type RequestId = u128;

/// A 16-byte identifier of one outbound frame.
pub type MessageId = u128;

/// A header list, in the order it was received.
pub type HeaderList = Vec<(String, String)>;

pub struct ToServerResponseStart {
    pub status: u16,
    pub headers: HeaderList,
    pub body: Option<Vec<u8>>,
    pub stream: bool,
}

pub struct ToServerResponseChunk {
    pub body: Vec<u8>,
    pub finish: bool,
}

pub struct WebSocketMessage {
    pub data: Vec<u8>,
    pub binary: bool,
}

pub struct WebSocketClose {
    pub code: Option<u16>,
    pub reason: Option<String>,
}

/// What a runner sends back for one tunnelled request.
pub enum ToServerTunnelMessageKind {
    ToServerResponseStart(ToServerResponseStart),
    ToServerResponseChunk(ToServerResponseChunk),
    ToServerResponseAbort,
    ToServerWebSocketOpen,
    ToServerWebSocketMessage(WebSocketMessage),
    ToServerWebSocketClose(WebSocketClose),
    TunnelAck,
}

pub struct ToClientRequestStart {
    pub actor_id: String,
    pub method: String,
    pub path: String,
    pub headers: HeaderList,
    pub body: Option<Vec<u8>>,
    pub stream: bool,
}

pub struct ToClientRequestChunk {
    pub body: Vec<u8>,
    pub finish: bool,
}

pub struct ToClientWebSocketOpen {
    pub actor_id: String,
    pub path: String,
    pub headers: HeaderList,
}

/// What a gateway sends to a runner for one tunnelled request.
pub enum ToClientTunnelMessageKind {
    ToClientRequestStart(ToClientRequestStart),
    ToClientRequestChunk(ToClientRequestChunk),
    ToClientRequestAbort,
    ToClientWebSocketOpen(ToClientWebSocketOpen),
    ToClientWebSocketMessage(WebSocketMessage),
    ToClientWebSocketClose(WebSocketClose),
    TunnelAck,
}

/// A frame of a tunnelled request, gateway to runner.
pub struct ToClientTunnelMessage {
    pub request_id: RequestId,
    pub message_id: MessageId,
    /// Broker subject on which the gateway waits for replies; only on the first frame.
    pub gateway_reply_to: Option<String>,
    pub message_kind: ToClientTunnelMessageKind,
}

/// A frame of a tunnelled request, runner to gateway.
pub struct ToServerTunnelMessage {
    pub request_id: RequestId,
    pub message_id: MessageId,
    pub message_kind: ToServerTunnelMessageKind,
}

/// The envelope in which a connector hands a runner's tunnel frame to a gateway.
pub struct ToGateway {
    pub message: ToServerTunnelMessage,
}

pub struct ToServerInit {
    pub name: String,
    pub version: u32,
    pub total_slots: u32,
}

pub struct ToServerPing {
    /// When the runner sent the ping, in milliseconds since the epoch.
    pub ts: i64,
}

pub enum KvListQuery {
    KvListAllQuery,
    KvListRangeQuery { start: Vec<u8>, end: Vec<u8>, exclusive: bool },
    KvListPrefixQuery { key: Vec<u8> },
}

pub enum KvRequestData {
    KvGetRequest { keys: Vec<Vec<u8>> },
    KvListRequest { query: KvListQuery, reverse: Option<bool>, limit: Option<u64> },
    KvPutRequest { keys: Vec<Vec<u8>>, values: Vec<Vec<u8>> },
    KvDeleteRequest { keys: Vec<Vec<u8>> },
    KvDropRequest,
}

pub struct ToServerKvRequest {
    pub actor_id: String,
    pub request_id: u32,
    pub data: KvRequestData,
}

/// A frame from a runner to the control plane.
pub enum ToServer {
    ToServerInit(ToServerInit),
    /// Encoded events, forwarded to the runner's workflow as they came.
    ToServerEvents(Vec<u8>),
    ToServerAckCommands { last_command_idx: i64 },
    ToServerStopping,
    ToServerPing(ToServerPing),
    ToServerKvRequest(ToServerKvRequest),
    ToServerTunnelMessage(ToServerTunnelMessage),
}

pub struct KvMetadata {
    pub version: Vec<u8>,
    pub create_ts: i64,
}

pub enum KvResponseData {
    KvErrorResponse { message: String },
    KvGetResponse { keys: Vec<Vec<u8>>, values: Vec<Vec<u8>>, metadata: Vec<KvMetadata> },
    KvListResponse { keys: Vec<Vec<u8>>, values: Vec<Vec<u8>>, metadata: Vec<KvMetadata> },
    KvPutResponse,
    KvDeleteResponse,
    KvDropResponse,
}

pub struct ToClientKvResponse {
    pub request_id: u32,
    pub data: KvResponseData,
}

/// A frame from the control plane to a runner.
pub enum ToClient {
    ToClientInit { runner_id: RequestId },
    /// Encoded commands, sent to the runner as they came.
    ToClientCommands(Vec<u8>),
    ToClientAckEvents { last_event_idx: i64 },
    ToClientKvResponse(ToClientKvResponse),
    ToClientTunnelMessage(ToClientTunnelMessage),
    /// Tells the connector to close the runner's WebSocket.
    ToClientClose,
}

/// Whether a runner's frame ends the request it belongs to: a response start
/// that does not stream, a final chunk, an abort, or a WebSocket close.
pub open spec fn to_server_kind_is_terminal(kind: ToServerTunnelMessageKind) -> bool {
    match kind {
        ToServerTunnelMessageKind::ToServerResponseStart(resp) => !resp.stream,
        ToServerTunnelMessageKind::ToServerResponseChunk(chunk) => chunk.finish,
        ToServerTunnelMessageKind::ToServerResponseAbort => true,
        ToServerTunnelMessageKind::ToServerWebSocketClose(_) => true,
        _ => false,
    }
}

/// Whether a gateway's frame ends the request it belongs to: a WebSocket close.
pub open spec fn to_client_kind_is_terminal(kind: ToClientTunnelMessageKind) -> bool {
    kind is ToClientWebSocketClose
}

/// Determines if a given message kind will terminate the request.
pub fn is_to_server_tunnel_message_kind_request_close(kind: &ToServerTunnelMessageKind) -> (r: bool)
    ensures
        r == to_server_kind_is_terminal(*kind),
{
    match kind {
        ToServerTunnelMessageKind::ToServerResponseStart(resp) => !resp.stream,
        ToServerTunnelMessageKind::ToServerResponseChunk(chunk) => chunk.finish,
        ToServerTunnelMessageKind::ToServerResponseAbort => true,
        ToServerTunnelMessageKind::ToServerWebSocketClose(_) => true,
        _ => false,
    }
}

/// Determines if a given message kind will terminate the request.
pub fn is_to_client_tunnel_message_kind_request_close(kind: &ToClientTunnelMessageKind) -> (r: bool)
    ensures
        r == to_client_kind_is_terminal(*kind),
{
    match kind {
        ToClientTunnelMessageKind::ToClientWebSocketClose(_) => true,
        _ => false,
    }
}

/// Whether a frame tells the connector to close the runner's WebSocket.
pub fn is_to_client_close(msg: &ToClient) -> (r: bool)
    ensures
        r == (*msg is ToClientClose),
{
    match msg {
        ToClient::ToClientClose => true,
        _ => false,
    }
}

} // verus!
