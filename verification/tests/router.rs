use rpcmoq_lite::config::RpcRouterConfig;
use rpcmoq_lite::error::{RpcPathError, RpcServerError};
use rpcmoq_lite::handler::{CallEvent, CallState, CallStep, Directive};
use rpcmoq_lite::router::{Announcement, LoopStep, Rejection, Route, RpcRouter};

fn echo_router() -> RpcRouter<u32> {
    let mut router = RpcRouter::new(RpcRouterConfig::default());
    router.register("drone.EchoService/Echo", 7).unwrap();
    router
}

#[test]
fn new_router_is_empty() {
    let router: RpcRouter<u32> = RpcRouter::new(RpcRouterConfig::default());
    assert_eq!(router.active_sessions(), 0);
    assert!(!router.has_handler("drone.EchoService/Echo"));
    assert_eq!(router.handler("drone.EchoService/Echo"), None);
    assert_eq!(router.config().response_prefix, "server");
}

#[test]
fn register_installs_and_overwrites() {
    let mut router = echo_router();
    assert!(router.has_handler("drone.EchoService/Echo"));
    assert!(!router.has_handler("drone.EchoService/Other"));
    assert!(!router.has_handler("/drone.EchoService/Echo"));
    assert_eq!(router.handler("drone.EchoService/Echo"), Some(&7));
    assert_eq!(router.register("drone.EchoService/Echo", 8), Ok(()));
    assert_eq!(router.handler("drone.EchoService/Echo"), Some(&8));
    assert_eq!(router.register("drone.EchoService/Echo", 8), Ok(()));
    assert_eq!(router.handler("drone.EchoService/Echo"), Some(&8));
    assert_eq!(router.active_sessions(), 0);
}

#[test]
fn route_names_the_response_broadcast() {
    let router = echo_router();
    let route = router.route("drone-1/drone.EchoService/Echo").unwrap();
    assert_eq!(
        route,
        Route {
            client_id: "drone-1".to_string(),
            grpc_path: "drone.EchoService/Echo".to_string(),
            response_path: "server/drone-1/drone.EchoService/Echo".to_string(),
        }
    );
    let route = router.route("/drone-1/drone.EchoService/Echo").unwrap();
    assert_eq!(route.response_path, "server/drone-1/drone.EchoService/Echo");
}

#[test]
fn route_rejects_a_bad_path() {
    let router = echo_router();
    assert_eq!(
        router.route("drone.EchoService/Echo"),
        Err(RpcServerError::Path(RpcPathError::Invalid(
            "path must include client_id before grpc path: 'drone.EchoService/Echo'".to_string()
        )))
    );
    assert_eq!(
        router.route("nonsense"),
        Err(RpcServerError::Path(RpcPathError::Invalid(
            "path must have at least client_id and grpc_path: 'nonsense'".to_string()
        )))
    );
    assert_eq!(router.active_sessions(), 0);
}

#[test]
fn refused_broadcast_is_reported_with_its_path() {
    let router = echo_router();
    let route = router.route("drone-1/drone.EchoService/Echo").unwrap();
    assert_eq!(
        RpcRouter::<u32>::broadcast_refused(&route),
        RpcServerError::BroadcastCreate(
            "failed to create response broadcast at 'server/drone-1/drone.EchoService/Echo'"
                .to_string()
        )
    );
}

#[test]
fn no_handler_aborts_with_code_one() {
    let mut router: RpcRouter<u32> = RpcRouter::new(RpcRouterConfig::default());
    let route = router.route("drone-1/drone.EchoService/Echo").unwrap();
    let rejection = router.accept(&route).unwrap_err();
    assert_eq!(
        rejection,
        Rejection {
            error: RpcServerError::NoHandler("drone.EchoService/Echo".to_string()),
            abort: 1,
        }
    );
    assert_eq!(router.active_sessions(), 0);
    assert!(!router.has_session("drone-1", "drone.EchoService/Echo"));
}

#[test]
fn duplicate_session_aborts_with_code_two() {
    let mut router = echo_router();
    let route = router.route("drone-1/drone.EchoService/Echo").unwrap();
    let first = router.accept(&route).unwrap();
    assert_eq!(router.active_sessions(), 1);

    let again = router.route("drone-1/drone.EchoService/Echo").unwrap();
    let rejection = router.accept(&again).unwrap_err();
    assert_eq!(
        rejection,
        Rejection {
            error: RpcServerError::SessionAlreadyActive {
                client_id: "drone-1".to_string(),
                grpc_path: "drone.EchoService/Echo".to_string(),
            },
            abort: 2,
        }
    );
    // the first call goes on
    assert_eq!(router.active_sessions(), 1);
    assert!(router.has_session("drone-1", "drone.EchoService/Echo"));
    assert_eq!(first.client_id(), "drone-1");

    router.finish(first);
    assert_eq!(router.active_sessions(), 0);
    // the client may call again at once
    assert!(router.accept(&again).is_ok());
}

#[test]
fn missing_handler_is_reported_before_a_live_session() {
    let mut router = echo_router();
    let route = router.route("drone-1/drone.EchoService/Echo").unwrap();
    let _guard = router.accept(&route).unwrap();
    let other = Route {
        client_id: "drone-1".to_string(),
        grpc_path: "drone.Missing/Call".to_string(),
        response_path: "server/drone-1/drone.Missing/Call".to_string(),
    };
    assert_eq!(router.accept(&other).unwrap_err().abort, 1);
}

#[test]
fn other_clients_and_methods_are_admitted() {
    let mut router = echo_router();
    router.register("drone.CommandService/Execute", 9).unwrap();
    let a = router.route("drone-1/drone.EchoService/Echo").unwrap();
    let b = router.route("drone-2/drone.EchoService/Echo").unwrap();
    let c = router.route("drone-1/drone.CommandService/Execute").unwrap();
    let ga = router.accept(&a).unwrap();
    let gb = router.accept(&b).unwrap();
    let gc = router.accept(&c).unwrap();
    assert_eq!(router.active_sessions(), 3);
    assert_eq!(router.handler(gc.grpc_path()), Some(&9));
    router.finish(gb);
    assert_eq!(router.active_sessions(), 2);
    assert!(!router.has_session("drone-2", "drone.EchoService/Echo"));
    router.finish(ga);
    router.finish(gc);
    assert_eq!(router.active_sessions(), 0);
}

#[test]
fn happy_echo() {
    let mut router = echo_router();
    let route = router.route("drone-1/drone.EchoService/Echo").unwrap();
    let guard = router.accept(&route).unwrap();
    assert_eq!(router.handler(guard.grpc_path()), Some(&7));

    let mut call = CallState::new();
    let mut written = Vec::new();
    let step: CallStep<&str> = call.step(CallEvent::Connected);
    assert_eq!(step.next, Directive::AwaitResponse);
    for payload in ["{p:1}", "{p:2}"] {
        let step = call.step(CallEvent::Response(payload));
        assert_eq!(step.abort, None);
        match step.next {
            Directive::Send(m) => written.push(m),
            _ => unreachable!(),
        }
        let step: CallStep<&str> = call.step(CallEvent::Sent);
        assert_eq!(step, CallStep { abort: None, next: Directive::AwaitResponse });
    }
    let step: CallStep<&str> = call.step(CallEvent::ResponseEnded);
    assert_eq!(step, CallStep { abort: None, next: Directive::Stop });
    assert_eq!(written, vec!["{p:1}", "{p:2}"]);
    assert_eq!(call.abort_code(), None);

    router.finish(guard);
    assert_eq!(router.active_sessions(), 0);
}

#[test]
fn bad_frame_frees_the_session() {
    let mut router = echo_router();
    let route = router.route("drone-1/drone.EchoService/Echo").unwrap();
    let guard = router.accept(&route).unwrap();
    let mut call = CallState::new();
    let _: CallStep<u32> = call.step(CallEvent::Connected);
    assert_eq!(call.decode_failed(), Some(3));
    let step: CallStep<u32> = call.step(CallEvent::ResponseEnded);
    assert_eq!(step, CallStep { abort: None, next: Directive::Stop });
    router.finish(guard);
    assert_eq!(call.abort_code(), Some(3));
    assert_eq!(router.active_sessions(), 0);
}

#[test]
fn backend_failure_frees_the_session() {
    let mut router = echo_router();
    let route = router.route("drone-1/drone.EchoService/Echo").unwrap();
    let guard = router.accept(&route).unwrap();
    let mut call = CallState::new();
    let step: CallStep<u32> = call.step(CallEvent::ConnectFailed);
    assert_eq!(step, CallStep { abort: Some(4), next: Directive::Stop });
    router.finish(guard);
    assert_eq!(router.active_sessions(), 0);
}

#[test]
fn nested_package_path() {
    let mut router: RpcRouter<u32> = RpcRouter::new(RpcRouterConfig::default());
    router.register("com.example.drone.EchoService/Echo", 1).unwrap();
    let route = router.route("r/fleet/d-9/com.example.drone.EchoService/Echo").unwrap();
    assert_eq!(route.client_id, "r/fleet/d-9");
    assert_eq!(route.grpc_path, "com.example.drone.EchoService/Echo");
    assert_eq!(route.response_path, "server/r/fleet/d-9/com.example.drone.EchoService/Echo");
    let guard = router.accept(&route).unwrap();
    assert_eq!(guard.client_id(), "r/fleet/d-9");
    assert_eq!(guard.grpc_path(), "com.example.drone.EchoService/Echo");
    assert!(router.has_session("r/fleet/d-9", "com.example.drone.EchoService/Echo"));
}

#[test]
fn authorize_refuses_an_unauthorized_prefix() {
    let router: RpcRouter<u32> = RpcRouter::new(RpcRouterConfig::default());
    assert_eq!(router.authorize(true), Ok(()));
    assert_eq!(
        router.authorize(false),
        Err(RpcServerError::Unauthorized("prefix 'client' not authorized".to_string()))
    );
    let open = RpcRouterConfig { client_prefix: None, ..RpcRouterConfig::default() };
    let router: RpcRouter<u32> = RpcRouter::new(open);
    assert_eq!(router.authorize(true), Ok(()));
    assert_eq!(router.authorize(false), Ok(()));
}

#[test]
fn loop_steps() {
    assert_eq!(RpcRouter::<u32>::loop_step(Announcement::Appeared), LoopStep::Handle);
    assert_eq!(RpcRouter::<u32>::loop_step(Announcement::Departed), LoopStep::Skip);
    assert_eq!(RpcRouter::<u32>::loop_step(Announcement::Closed), LoopStep::Shutdown);
}

#[test]
fn response_prefix_is_configurable() {
    let config = RpcRouterConfig {
        client_prefix: Some("drone".to_string()),
        response_prefix: "ground".to_string(),
        track_name: "rpc".to_string(),
    };
    let router: RpcRouter<u32> = RpcRouter::new(config);
    let route = router.route("d/p.S/M").unwrap();
    assert_eq!(route.response_path, "ground/d/p.S/M");
    assert_eq!(router.config().track_name, "rpc");
    assert_eq!(
        router.authorize(false),
        Err(RpcServerError::Unauthorized("prefix 'drone' not authorized".to_string()))
    );
}

#[test]
fn announcement_with_bad_path_publishes_nothing() {
    let mut router = echo_router();
    let mut asked = Vec::new();
    let refused = router
        .handle_announcement("drone.EchoService/Echo", |path: &str| {
            asked.push(path.to_string());
            true
        })
        .unwrap_err();
    assert_eq!(asked, Vec::<String>::new());
    assert_eq!(refused.abort, None);
    assert_eq!(
        refused.error,
        RpcServerError::Path(RpcPathError::Invalid(
            "path must include client_id before grpc path: 'drone.EchoService/Echo'".to_string()
        ))
    );
    assert_eq!(router.active_sessions(), 0);
}

#[test]
fn announcement_with_refused_broadcast_is_an_error_without_code() {
    let mut router = echo_router();
    let mut asked = Vec::new();
    let refused = router
        .handle_announcement("drone-1/drone.EchoService/Echo", |path: &str| {
            asked.push(path.to_string());
            false
        })
        .unwrap_err();
    assert_eq!(asked, vec!["server/drone-1/drone.EchoService/Echo".to_string()]);
    assert_eq!(refused.abort, None);
    assert_eq!(
        refused.error,
        RpcServerError::BroadcastCreate(
            "failed to create response broadcast at 'server/drone-1/drone.EchoService/Echo'"
                .to_string()
        )
    );
    assert_eq!(router.active_sessions(), 0);
    assert!(!router.has_session("drone-1", "drone.EchoService/Echo"));
}

#[test]
fn announcement_without_handler_is_told_code_one() {
    let mut router: RpcRouter<u32> = RpcRouter::new(RpcRouterConfig::default());
    let mut asked = 0;
    let refused = router
        .handle_announcement("drone-1/drone.EchoService/Echo", |_: &str| {
            asked += 1;
            true
        })
        .unwrap_err();
    assert_eq!(asked, 1);
    assert_eq!(refused.abort, Some(1));
    assert_eq!(refused.error, RpcServerError::NoHandler("drone.EchoService/Echo".to_string()));
    assert_eq!(router.active_sessions(), 0);
}

#[test]
fn second_announcement_of_a_live_call_is_told_code_two() {
    let mut router = echo_router();
    let first = router
        .handle_announcement("drone-1/drone.EchoService/Echo", |_: &str| true)
        .unwrap();
    assert_eq!(first.handler, 7);
    assert_eq!(first.route.client_id, "drone-1");
    assert_eq!(first.route.grpc_path, "drone.EchoService/Echo");
    assert_eq!(first.route.response_path, "server/drone-1/drone.EchoService/Echo");
    assert_eq!(first.guard.client_id(), "drone-1");
    assert_eq!(first.guard.grpc_path(), "drone.EchoService/Echo");
    assert_eq!(router.active_sessions(), 1);

    let mut asked = 0;
    let refused = router
        .handle_announcement("/drone-1/drone.EchoService/Echo", |_: &str| {
            asked += 1;
            true
        })
        .unwrap_err();
    assert_eq!(asked, 1);
    assert_eq!(refused.abort, Some(2));
    assert_eq!(
        refused.error,
        RpcServerError::SessionAlreadyActive {
            client_id: "drone-1".to_string(),
            grpc_path: "drone.EchoService/Echo".to_string(),
        }
    );
    // the first call goes on
    assert_eq!(router.active_sessions(), 1);
    assert!(router.has_session("drone-1", "drone.EchoService/Echo"));

    router.finish(first.guard);
    assert_eq!(router.active_sessions(), 0);
    assert!(router.handle_announcement("drone-1/drone.EchoService/Echo", |_: &str| true).is_ok());
}

#[test]
fn announcement_with_nested_package_is_admitted() {
    let mut router: RpcRouter<&str> = RpcRouter::new(RpcRouterConfig::default());
    router.register("com.example.drone.EchoService/Echo", "echo").unwrap();
    let admitted = router
        .handle_announcement("r/fleet/d-9/com.example.drone.EchoService/Echo", |path: &str| {
            path == "server/r/fleet/d-9/com.example.drone.EchoService/Echo"
        })
        .unwrap();
    assert_eq!(admitted.handler, "echo");
    assert_eq!(admitted.route.client_id, "r/fleet/d-9");
    assert_eq!(admitted.route.grpc_path, "com.example.drone.EchoService/Echo");
    assert!(router.has_session("r/fleet/d-9", "com.example.drone.EchoService/Echo"));
    assert_eq!(router.active_sessions(), 1);
}

#[test]
fn start_narrows_to_the_configured_prefix() {
    let router: RpcRouter<u32> = RpcRouter::new(RpcRouterConfig::default());
    let mut asked = Vec::new();
    let started = router.start(|prefix: &str| {
        asked.push(prefix.to_string());
        true
    });
    assert_eq!(started, Ok(()));
    assert_eq!(asked, vec!["client".to_string()]);
    assert_eq!(
        router.start(|_: &str| false),
        Err(RpcServerError::Unauthorized("prefix 'client' not authorized".to_string()))
    );
}

#[test]
fn start_without_prefix_asks_nothing() {
    let open = RpcRouterConfig { client_prefix: None, ..RpcRouterConfig::default() };
    let router: RpcRouter<u32> = RpcRouter::new(open);
    let mut asked = 0;
    let started = router.start(|_: &str| {
        asked += 1;
        false
    });
    assert_eq!(started, Ok(()));
    assert_eq!(asked, 0);
}
