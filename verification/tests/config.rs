use rpcmoq_lite::client::{CallPaths, ServerWait};
use rpcmoq_lite::config::{RpcClientConfig, RpcRouterConfig};
use rpcmoq_lite::error::RpcClientError;
use std::time::Duration;

#[test]
fn router_defaults() {
    let config = RpcRouterConfig::default();
    assert_eq!(config.client_prefix.as_deref(), Some("client"));
    assert_eq!(config.response_prefix, "server");
    assert_eq!(config.track_name, "primary");
}

#[test]
fn router_response_path() {
    let config = RpcRouterConfig::default();
    assert_eq!(
        config.response_path("drone-1", "drone.EchoService/Echo"),
        "server/drone-1/drone.EchoService/Echo"
    );
    assert_eq!(config.response_path("r/f/d", "a.b.S/M"), "server/r/f/d/a.b.S/M");
    assert_eq!(config.response_path("", ""), "server//");
}

#[test]
fn client_defaults() {
    let config = RpcClientConfig::default();
    assert_eq!(config.client_prefix, "client");
    assert_eq!(config.server_prefix, "server");
    assert_eq!(config.track_name, "primary");
    assert_eq!(config.client_id, "");
    assert_eq!(config.timeout, Duration::from_secs(30));
    assert_ne!(config.timeout, Duration::from_secs(0));
}

#[test]
fn client_new_sets_the_id_only() {
    let config = RpcClientConfig::new("drone-123");
    assert_eq!(config.client_id, "drone-123");
    assert_eq!(config.client_prefix, "client");
    assert_eq!(config.server_prefix, "server");
    assert_eq!(config.track_name, "primary");
    assert_eq!(config.timeout, Duration::from_secs(30));
}

#[test]
fn client_builders_change_one_field_each() {
    let config = RpcClientConfig::new("drone-123")
        .with_client_prefix("drone")
        .with_server_prefix("ground")
        .with_track_name("rpc")
        .with_timeout(Duration::from_millis(250));
    assert_eq!(config.client_id, "drone-123");
    assert_eq!(config.client_prefix, "drone");
    assert_eq!(config.server_prefix, "ground");
    assert_eq!(config.track_name, "rpc");
    assert_eq!(config.timeout, Duration::from_millis(250));
    let copy = config.clone().with_track_name("other");
    assert_eq!(copy.track_name, "other");
    assert_eq!(copy.client_prefix, "drone");
    assert_eq!(copy.timeout, Duration::from_millis(250));
    assert_eq!(config.track_name, "rpc");
}

#[test]
fn client_paths() {
    let config = RpcClientConfig::new("drone-1");
    assert_eq!(
        config.client_path("drone.EchoService/Echo"),
        "client/drone-1/drone.EchoService/Echo"
    );
    assert_eq!(
        config.server_path("drone.EchoService/Echo"),
        "server/drone-1/drone.EchoService/Echo"
    );
    let config = config.with_client_prefix("drone").with_server_prefix("ground");
    let paths = CallPaths::new(&config, "a.b.S/M");
    assert_eq!(paths.request, "drone/drone-1/a.b.S/M");
    assert_eq!(paths.response, "ground/drone-1/a.b.S/M");
}

#[test]
fn client_wait_outcomes() {
    let paths = CallPaths::new(&RpcClientConfig::new("drone-1"), "drone.EchoService/Echo");
    assert_eq!(paths.await_server(ServerWait::Appeared), Ok(()));
    assert_eq!(paths.await_server(ServerWait::TimedOut), Err(RpcClientError::Timeout));
    assert_eq!(
        paths.await_server(ServerWait::Closed),
        Err(RpcClientError::ServerNotFound("server/drone-1/drone.EchoService/Echo".to_string()))
    );
    assert_eq!(
        paths.request_refused(),
        RpcClientError::BroadcastCreate(
            "failed to create request broadcast at 'client/drone-1/drone.EchoService/Echo'"
                .to_string()
        )
    );
}

#[test]
fn client_and_router_agree_on_the_response_path() {
    let client = RpcClientConfig::new("r/fleet/d-9");
    let router = RpcRouterConfig::default();
    assert_eq!(
        client.server_path("com.example.drone.EchoService/Echo"),
        router.response_path("r/fleet/d-9", "com.example.drone.EchoService/Echo")
    );
}

#[test]
fn client_recognises_its_response_broadcast() {
    let paths = CallPaths::new(&RpcClientConfig::new("drone-1"), "drone.EchoService/Echo");
    assert!(paths.answers("server/drone-1/drone.EchoService/Echo"));
    assert!(!paths.answers("server/drone-2/drone.EchoService/Echo"));
    assert!(!paths.answers("client/drone-1/drone.EchoService/Echo"));
    assert!(!paths.answers("server/drone-1/drone.EchoService/Echo/"));
    assert!(!paths.answers(""));
}

#[test]
fn main_items_are_reachable_from_the_root() {
    let key = rpcmoq_lite::SessionKey::new("drone-1", "drone.EchoService/Echo");
    let mut map = rpcmoq_lite::SessionMap::new();
    let guard: rpcmoq_lite::SessionGuard = map.try_create(key).unwrap();
    assert_eq!(guard.client_id(), "drone-1");
    let path = rpcmoq_lite::GrpcPath::parse(guard.grpc_path()).unwrap();
    assert_eq!(path.method, "Echo");
    assert_eq!(rpcmoq_lite::RpcWireError::from_code(2).to_code(), 2);
}
