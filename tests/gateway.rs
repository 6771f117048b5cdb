use runner_tunnel::gateway::{
    GatewayError, SharedState, TunnelMessageData, DELIVERY_QUEUE_CAPACITY, GC_INTERVAL_MS,
    MESSAGE_ACK_TIMEOUT_MS,
};
use runner_tunnel::protocol::{
    ToClientRequestChunk, ToClientTunnelMessageKind, ToGateway, ToServerResponseStart,
    ToServerTunnelMessage, ToServerTunnelMessageKind,
};

const R: u128 = 0x0101_0101_0101_0101_0101_0101_0101_0101;
const M1: u128 = 0x11;

fn chunk() -> ToClientTunnelMessageKind {
    ToClientTunnelMessageKind::ToClientRequestChunk(ToClientRequestChunk { body: vec![1, 2], finish: false })
}

fn terminal_response() -> ToServerTunnelMessageKind {
    ToServerTunnelMessageKind::ToServerResponseStart(ToServerResponseStart {
        status: 200,
        headers: vec![],
        body: Some(b"ok".to_vec()),
        stream: false,
    })
}

fn frame(request_id: u128, message_id: u128, kind: ToServerTunnelMessageKind) -> ToGateway {
    ToGateway { message: ToServerTunnelMessage { request_id, message_id, message_kind: kind } }
}

#[test]
fn happy_path_request() {
    let mut g = SharedState::new("gw.G".to_string());
    assert!(g.start_in_flight_request(R, "runner.R1".to_string()));
    let p = g.send_message(R, M1, chunk(), 1_000).unwrap();
    assert_eq!(p.subject, "runner.R1");
    assert_eq!(p.message.request_id, R);
    assert_eq!(p.message.message_id, M1);
    assert_eq!(p.message.gateway_reply_to.as_deref(), Some("gw.G"));
    assert_eq!(g.pending_messages.len(), 1);

    // The runner acknowledges M1.
    let r = g.handle_tunnel_frame(frame(R, M1, ToServerTunnelMessageKind::TunnelAck), 0x99);
    assert!(r.is_none());
    assert!(g.pending_messages.is_empty());

    // Then it answers with a terminal response.
    let ack = g.handle_tunnel_frame(frame(R, 0x22, terminal_response()), 0x99).unwrap();
    assert_eq!(ack.subject, "runner.R1");
    assert_eq!(ack.message.message_id, 0x99);
    assert!(ack.message.gateway_reply_to.is_none());
    assert!(matches!(ack.message.message_kind, ToClientTunnelMessageKind::TunnelAck));
    match g.recv(R) {
        Some(TunnelMessageData::Message(ToServerTunnelMessageKind::ToServerResponseStart(s))) => {
            assert!(!s.stream);
            assert_eq!(s.status, 200);
        }
        _ => panic!("expected the terminal response"),
    }
    assert!(g.recv(R).is_none());
}

#[test]
fn ack_timeout_delivers_one_timeout() {
    let mut g = SharedState::new("gw.G".to_string());
    g.start_in_flight_request(R, "runner.R1".to_string());
    g.send_message(R, M1, chunk(), 10_000).unwrap();

    // Not yet expired at exactly the timeout.
    g.gc(10_000 + MESSAGE_ACK_TIMEOUT_MS);
    assert_eq!(g.pending_messages.len(), 1);
    assert!(g.recv(R).is_none());

    g.gc(10_000 + MESSAGE_ACK_TIMEOUT_MS + 1);
    assert!(g.pending_messages.is_empty());
    assert!(matches!(g.recv(R), Some(TunnelMessageData::Timeout)));
    assert!(g.recv(R).is_none());

    g.gc(10_000 + GC_INTERVAL_MS);
    assert!(g.pending_messages.is_empty());
    assert!(g.recv(R).is_none());
}

#[test]
fn reply_to_only_on_first_frame() {
    let mut g = SharedState::new("gw.G".to_string());
    g.start_in_flight_request(R, "runner.R1".to_string());
    let first = g.send_message(R, 1, chunk(), 0).unwrap();
    let second = g.send_message(R, 2, chunk(), 0).unwrap();
    let third = g.send_message(R, 3, chunk(), 0).unwrap();
    assert_eq!(first.message.gateway_reply_to.as_deref(), Some("gw.G"));
    assert!(second.message.gateway_reply_to.is_none());
    assert!(third.message.gateway_reply_to.is_none());
    assert!(g.requests_in_flight[&R].opened);
    assert_eq!(g.pending_messages.len(), 3);
}

#[test]
fn send_to_unknown_request_fails() {
    let mut g = SharedState::new("gw.G".to_string());
    let r = g.send_message(R, M1, chunk(), 0);
    assert_eq!(r.err(), Some(GatewayError::RequestNotInFlight));
    assert!(g.pending_messages.is_empty());
}

#[test]
fn duplicate_request_id_is_refused() {
    let mut g = SharedState::new("gw.G".to_string());
    assert!(g.start_in_flight_request(R, "runner.R1".to_string()));
    assert!(!g.start_in_flight_request(R, "runner.R2".to_string()));
    assert_eq!(g.requests_in_flight[&R].receiver_subject, "runner.R1");
}

#[test]
fn frame_for_unknown_request_is_dropped() {
    let mut g = SharedState::new("gw.G".to_string());
    let r = g.handle_tunnel_frame(frame(R, 5, terminal_response()), 6);
    assert!(r.is_none());
    assert!(g.requests_in_flight.is_empty());
}

#[test]
fn frames_of_two_requests_are_not_mixed() {
    let mut g = SharedState::new("gw.G".to_string());
    g.start_in_flight_request(1, "runner.A".to_string());
    g.start_in_flight_request(2, "runner.B".to_string());
    g.handle_tunnel_frame(frame(1, 10, ToServerTunnelMessageKind::ToServerResponseAbort), 100);
    let ack = g.handle_tunnel_frame(frame(2, 11, ToServerTunnelMessageKind::ToServerWebSocketOpen), 101).unwrap();
    assert_eq!(ack.subject, "runner.B");
    assert!(matches!(g.recv(1), Some(TunnelMessageData::Message(ToServerTunnelMessageKind::ToServerResponseAbort))));
    assert!(g.recv(1).is_none());
    assert!(matches!(g.recv(2), Some(TunnelMessageData::Message(ToServerTunnelMessageKind::ToServerWebSocketOpen))));
}

#[test]
fn full_queue_drops_items() {
    let mut g = SharedState::new("gw.G".to_string());
    g.start_in_flight_request(R, "runner.R1".to_string());
    for i in 0..(DELIVERY_QUEUE_CAPACITY as u128 + 5) {
        g.handle_tunnel_frame(frame(R, i, ToServerTunnelMessageKind::ToServerWebSocketOpen), 1000 + i);
    }
    assert_eq!(g.requests_in_flight[&R].queue.len(), DELIVERY_QUEUE_CAPACITY);
}

#[test]
fn finish_request_drops_its_pending_frames() {
    let mut g = SharedState::new("gw.G".to_string());
    g.start_in_flight_request(1, "runner.A".to_string());
    g.start_in_flight_request(2, "runner.A".to_string());
    g.send_message(1, 10, chunk(), 0).unwrap();
    g.send_message(2, 20, chunk(), 0).unwrap();
    g.send_message(1, 11, chunk(), 0).unwrap();
    g.finish_request(1);
    assert!(!g.requests_in_flight.contains_key(&1));
    assert_eq!(g.pending_messages.len(), 1);
    assert_eq!(g.pending_messages[0].message_id, 20);
}

#[test]
fn two_expired_frames_give_two_timeouts() {
    let mut g = SharedState::new("gw.G".to_string());
    g.start_in_flight_request(R, "runner.R1".to_string());
    g.send_message(R, 1, chunk(), 0).unwrap();
    g.send_message(R, 2, chunk(), 0).unwrap();
    g.send_message(R, 3, chunk(), 9_000).unwrap();
    g.gc(6_000);
    assert_eq!(g.pending_messages.len(), 1);
    assert_eq!(g.pending_messages[0].message_id, 3);
    assert!(matches!(g.recv(R), Some(TunnelMessageData::Timeout)));
    assert!(matches!(g.recv(R), Some(TunnelMessageData::Timeout)));
    assert!(g.recv(R).is_none());
}
