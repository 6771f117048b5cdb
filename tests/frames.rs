use runner_tunnel::codec::{
    deserialize_version, deserialize_with_embedded_version, serialize_with_embedded_version, CodecError,
};
use runner_tunnel::protocol::{
    is_to_client_tunnel_message_kind_request_close, is_to_server_tunnel_message_kind_request_close,
    ToClientRequestChunk, ToClientTunnelMessageKind, ToServerResponseChunk, ToServerResponseStart,
    ToServerTunnelMessageKind, WebSocketClose, WebSocketMessage, PROTOCOL_VERSION,
};
use runner_tunnel::websocket_handle::{HandleError, SendPlan, WebSocketHandle, WebSocketState};

fn start(stream: bool) -> ToServerTunnelMessageKind {
    ToServerTunnelMessageKind::ToServerResponseStart(ToServerResponseStart { status: 200, headers: vec![], body: None, stream })
}

#[test]
fn terminal_runner_frames() {
    assert!(is_to_server_tunnel_message_kind_request_close(&start(false)));
    assert!(!is_to_server_tunnel_message_kind_request_close(&start(true)));
    let chunk = |finish| ToServerTunnelMessageKind::ToServerResponseChunk(ToServerResponseChunk { body: vec![], finish });
    assert!(is_to_server_tunnel_message_kind_request_close(&chunk(true)));
    assert!(!is_to_server_tunnel_message_kind_request_close(&chunk(false)));
    assert!(is_to_server_tunnel_message_kind_request_close(&ToServerTunnelMessageKind::ToServerResponseAbort));
    let close = ToServerTunnelMessageKind::ToServerWebSocketClose(WebSocketClose { code: None, reason: None });
    assert!(is_to_server_tunnel_message_kind_request_close(&close));
    let msg = ToServerTunnelMessageKind::ToServerWebSocketMessage(WebSocketMessage { data: vec![], binary: true });
    assert!(!is_to_server_tunnel_message_kind_request_close(&msg));
    assert!(!is_to_server_tunnel_message_kind_request_close(&ToServerTunnelMessageKind::TunnelAck));
    assert!(!is_to_server_tunnel_message_kind_request_close(&ToServerTunnelMessageKind::ToServerWebSocketOpen));
}

#[test]
fn terminal_gateway_frames() {
    let close = ToClientTunnelMessageKind::ToClientWebSocketClose(WebSocketClose { code: Some(1000), reason: None });
    assert!(is_to_client_tunnel_message_kind_request_close(&close));
    let chunk = ToClientTunnelMessageKind::ToClientRequestChunk(ToClientRequestChunk { body: vec![], finish: true });
    assert!(!is_to_client_tunnel_message_kind_request_close(&chunk));
    assert!(!is_to_client_tunnel_message_kind_request_close(&ToClientTunnelMessageKind::ToClientRequestAbort));
}

#[test]
fn embedded_version_round_trip() {
    let bytes = serialize_with_embedded_version(0x0203, &[9, 8, 7]);
    assert_eq!(bytes, vec![0x03, 0x02, 9, 8, 7]);
    let (v, body) = deserialize_with_embedded_version(&bytes).ok().unwrap();
    assert_eq!(v, 0x0203);
    assert_eq!(body, vec![9, 8, 7]);
    let empty = serialize_with_embedded_version(PROTOCOL_VERSION, &[]);
    assert_eq!(empty, vec![1, 0]);
}

#[test]
fn version_errors() {
    assert_eq!(deserialize_with_embedded_version(&[1]).err(), Some(CodecError::MissingVersion));
    assert_eq!(deserialize_version(&[2, 0, 5], 1).ok(), Some(vec![2, 0, 5]));
    assert_eq!(deserialize_version(&[5], 2).err(), Some(CodecError::UnsupportedVersion { version: 2 }));
    assert_eq!(deserialize_version(&[5], 0).err(), Some(CodecError::UnsupportedVersion { version: 0 }));
}

#[test]
fn handle_states() {
    let mut h = WebSocketHandle::new();
    assert_eq!(h.inner.send(), Err(HandleError::NotAccepted));
    assert_eq!(h.inner.accept(), Ok(()));
    assert_eq!(h.inner.state, WebSocketState::Accepting);
    assert_eq!(h.inner.accept(), Err(HandleError::AlreadyAccepted));
    assert_eq!(h.inner.accept_and_send(), Err(HandleError::InAcceptingState));
    h.inner.complete_accept();
    assert_eq!(h.inner.state, WebSocketState::Split);
    assert_eq!(h.inner.send(), Ok(()));
    assert_eq!(h.inner.accept_and_send(), Ok(SendPlan::Send));
    let mut fresh = WebSocketHandle::new();
    assert_eq!(fresh.inner.accept_and_send(), Ok(SendPlan::AcceptThenSend));
    assert_eq!(fresh.inner.state, WebSocketState::Accepting);
}
