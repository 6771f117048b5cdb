use runner_tunnel::errors::WsError;
use runner_tunnel::protocol::{KvRequestData, ToServer, ToServerInit, ToServerKvRequest};
use runner_tunnel::setup::{ConnectionSetup, Phase, SetupAction};

const PATH: &str = "?protocol_version=1&namespace=default&runner_key=key-1";

fn init() -> ToServer {
    ToServer::ToServerInit(ToServerInit { name: "web".to_string(), version: 1, total_slots: 4 })
}

#[test]
fn setup_happy_path() {
    let mut s = ConnectionSetup::new();
    let (a, url) = s.on_path(PATH);
    assert!(matches!(a, SetupAction::Accept));
    assert_eq!(s.protocol_version, 1);
    let url = url.unwrap();
    assert!(matches!(s.on_accepted(true), SetupAction::ReadInit));
    match s.on_first_frame(url, Some(init())) {
        SetupAction::Identify { namespace, runner_key, init } => {
            assert_eq!(namespace, "default");
            assert_eq!(runner_key, "key-1");
            assert_eq!(init.total_slots, 4);
        }
        _ => panic!("expected identification"),
    }
    assert!(matches!(s.on_identified(Ok((11, 22))), SetupAction::PublishEviction { runner_id: 11 }));
    assert!(matches!(s.on_evicted(), SetupAction::Subscribe { runner_id: 11 }));
    assert!(matches!(s.on_subscribed(true), SetupAction::SpawnTasks));
    assert_eq!(s.phase, Phase::Running);
    assert!(matches!(s.on_task_exit(), SetupAction::ClearIndex { runner_id: 11 }));
    assert_eq!(s.phase, Phase::Closed);
    assert!(matches!(s.on_task_exit(), SetupAction::Nothing));
}

#[test]
fn bad_init_closes_before_subscribing() {
    let mut s = ConnectionSetup::new();
    let (_, url) = s.on_path(PATH);
    s.on_accepted(true);
    let kv = ToServer::ToServerKvRequest(ToServerKvRequest {
        actor_id: "a".to_string(),
        request_id: 1,
        data: KvRequestData::KvDropRequest,
    });
    match s.on_first_frame(url.unwrap(), Some(kv)) {
        SetupAction::Close(e) => assert_eq!(e.close_reason(), "ws.invalid_initial_packet"),
        _ => panic!("expected a close"),
    }
    assert_eq!(s.phase, Phase::Closed);
    assert!(matches!(s.on_identified(Ok((1, 2))), SetupAction::Nothing));
    assert!(matches!(s.on_evicted(), SetupAction::Nothing));
    assert!(matches!(s.on_subscribed(true), SetupAction::Nothing));
}

#[test]
fn handshake_timeout_and_bad_url() {
    let mut s = ConnectionSetup::new();
    let (_, url) = s.on_path(PATH);
    s.on_accepted(true);
    assert!(matches!(s.on_first_frame(url.unwrap(), None), SetupAction::Close(WsError::TimedOutWaitingForInit)));
    let mut bad = ConnectionSetup::new();
    let (a, url) = bad.on_path("?namespace=x");
    assert!(matches!(a, SetupAction::Close(WsError::InvalidUrl(_))));
    assert!(url.is_none());
    assert_eq!(bad.phase, Phase::Closed);
}

#[test]
fn failed_upgrade_and_refused_runner() {
    let mut s = ConnectionSetup::new();
    s.on_path(PATH);
    assert!(matches!(s.on_accepted(false), SetupAction::Drop));
    let mut r = ConnectionSetup::new();
    let (_, url) = r.on_path(PATH);
    r.on_accepted(true);
    r.on_first_frame(url.unwrap(), Some(init()));
    assert!(matches!(r.on_identified(Err(WsError::Eviction)), SetupAction::Close(WsError::Eviction)));
}
