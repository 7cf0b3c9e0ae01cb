use rpcmoq_lite::error::RpcServerError;
use rpcmoq_lite::session::{SessionKey, SessionMap};

#[test]
fn test_create_session() {
    let mut map = SessionMap::new();
    let key = SessionKey::new("drone-1", "drone.EchoService/Echo");

    let guard = map.try_create(key.clone()).unwrap();
    assert!(map.contains(&key));
    assert_eq!(map.len(), 1);

    map.release(guard);
    assert!(!map.contains(&key));
    assert!(map.is_empty());
}

#[test]
fn test_duplicate_session_rejected() {
    let mut map = SessionMap::new();
    let key = SessionKey::new("drone-1", "drone.EchoService/Echo");

    let _guard = map.try_create(key.clone()).unwrap();

    let result = map.try_create(key);
    assert!(matches!(
        result,
        Err(RpcServerError::SessionAlreadyActive { .. })
    ));
}

#[test]
fn test_different_clients_same_rpc() {
    let mut map = SessionMap::new();
    let key1 = SessionKey::new("drone-1", "drone.EchoService/Echo");
    let key2 = SessionKey::new("drone-2", "drone.EchoService/Echo");

    let _guard1 = map.try_create(key1).unwrap();
    let _guard2 = map.try_create(key2).unwrap();

    assert_eq!(map.len(), 2);
}

#[test]
fn test_same_client_different_rpcs() {
    let mut map = SessionMap::new();
    let key1 = SessionKey::new("drone-1", "drone.EchoService/Echo");
    let key2 = SessionKey::new("drone-1", "drone.CommandService/Execute");

    let _guard1 = map.try_create(key1).unwrap();
    let _guard2 = map.try_create(key2).unwrap();

    assert_eq!(map.len(), 2);
}

#[test]
fn test_reconnect_after_drop() {
    let mut map = SessionMap::new();
    let key = SessionKey::new("drone-1", "drone.EchoService/Echo");

    {
        let guard = map.try_create(key.clone()).unwrap();
        map.release(guard);
    }

    // Should be able to reconnect after the guard is given back
    let _guard = map.try_create(key).unwrap();
    assert_eq!(map.len(), 1);
}

#[test]
fn new_registry_is_empty() {
    let map = SessionMap::new();
    assert!(map.is_empty());
    assert_eq!(map.len(), 0);
    assert!(!map.contains(&SessionKey::new("drone-1", "drone.EchoService/Echo")));
    let map = SessionMap::default();
    assert!(map.is_empty());
}

#[test]
fn duplicate_session_names_client_and_method() {
    let mut map = SessionMap::new();
    let key = SessionKey::new("drone-1", "drone.EchoService/Echo");
    let _guard = map.try_create(key.clone()).unwrap();
    let e = map.try_create(key.clone()).unwrap_err();
    assert_eq!(
        e,
        RpcServerError::SessionAlreadyActive {
            client_id: "drone-1".to_string(),
            grpc_path: "drone.EchoService/Echo".to_string(),
        }
    );
    assert_eq!(map.len(), 1);
    assert!(map.contains(&key));
}

#[test]
fn try_create_succeeds_once_until_release() {
    let mut map = SessionMap::new();
    let key = SessionKey::new("drone-1", "drone.EchoService/Echo");
    let mut granted = Vec::new();
    for _ in 0..5 {
        if let Ok(guard) = map.try_create(key.clone()) {
            granted.push(guard);
        }
    }
    assert_eq!(granted.len(), 1);
    map.release(granted.pop().unwrap());
    assert!(map.try_create(key).is_ok());
}

#[test]
fn len_counts_live_calls() {
    let mut map = SessionMap::new();
    let a = map.try_create(SessionKey::new("a", "p.S/M")).unwrap();
    let b = map.try_create(SessionKey::new("b", "p.S/M")).unwrap();
    let c = map.try_create(SessionKey::new("a", "p.S/N")).unwrap();
    assert!(map.try_create(SessionKey::new("a", "p.S/M")).is_err());
    assert_eq!(map.len(), 3);
    map.release(b);
    assert_eq!(map.len(), 2);
    assert!(!map.contains(&SessionKey::new("b", "p.S/M")));
    assert!(map.contains(&SessionKey::new("a", "p.S/M")));
    map.release(a);
    map.release(c);
    assert_eq!(map.len(), 0);
    assert!(map.is_empty());
}

#[test]
fn keys_match_by_exact_text() {
    let mut map = SessionMap::new();
    let _guard = map.try_create(SessionKey::new("drone-1", "drone.EchoService/Echo")).unwrap();
    assert!(!map.contains(&SessionKey::new("drone-1", "drone.echoservice/Echo")));
    assert!(!map.contains(&SessionKey::new("drone-1/drone.EchoService", "Echo")));
    assert!(!map.contains(&SessionKey::new("", "drone-1drone.EchoService/Echo")));
    assert!(map.try_create(SessionKey::new("drone-1 ", "drone.EchoService/Echo")).is_ok());
}

#[test]
fn guard_tells_its_key() {
    let mut map = SessionMap::new();
    let key = SessionKey::new("drone-1", "drone.EchoService/Echo");
    let guard = map.try_create(key.clone()).unwrap();
    assert_eq!(guard.key(), &key);
    assert_eq!(guard.client_id(), "drone-1");
    assert_eq!(guard.grpc_path(), "drone.EchoService/Echo");
    assert_eq!(guard.key().label(), "drone-1:drone.EchoService/Echo");
}

#[test]
fn release_of_a_stranger_changes_nothing_else() {
    let mut map = SessionMap::new();
    let mut other = SessionMap::new();
    let _kept = map.try_create(SessionKey::new("a", "p.S/M")).unwrap();
    let stranger = other.try_create(SessionKey::new("b", "p.S/M")).unwrap();
    map.release(stranger);
    assert_eq!(map.len(), 1);
    assert!(map.contains(&SessionKey::new("a", "p.S/M")));
}
