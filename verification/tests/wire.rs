use rpcmoq_lite::wire::{RpcWireError, TransportError, TransportFault};

#[test]
fn fixed_codes() {
    assert_eq!(RpcWireError::CODE_NO_HANDLER, 1);
    assert_eq!(RpcWireError::CODE_SESSION_ALREADY_ACTIVE, 2);
    assert_eq!(RpcWireError::CODE_DECODE, 3);
    assert_eq!(RpcWireError::CODE_GRPC, 4);
    assert_eq!(RpcWireError::CODE_INTERNAL, 5);
    assert_eq!(RpcWireError::NoHandler.to_code(), 1);
    assert_eq!(RpcWireError::SessionAlreadyActive.to_code(), 2);
    assert_eq!(RpcWireError::Decode.to_code(), 3);
    assert_eq!(RpcWireError::Grpc.to_code(), 4);
    assert_eq!(RpcWireError::Internal.to_code(), 5);
}

#[test]
fn from_code_reads_the_fixed_codes() {
    assert_eq!(RpcWireError::from_code(1), RpcWireError::NoHandler);
    assert_eq!(RpcWireError::from_code(2), RpcWireError::SessionAlreadyActive);
    assert_eq!(RpcWireError::from_code(3), RpcWireError::Decode);
    assert_eq!(RpcWireError::from_code(4), RpcWireError::Grpc);
    assert_eq!(RpcWireError::from_code(5), RpcWireError::Internal);
}

#[test]
fn from_code_keeps_unknown_codes() {
    assert_eq!(RpcWireError::from_code(0), RpcWireError::Unknown(0));
    assert_eq!(RpcWireError::from_code(6), RpcWireError::Unknown(6));
    assert_eq!(RpcWireError::from_code(64), RpcWireError::Unknown(64));
    assert_eq!(RpcWireError::from_code(u32::MAX), RpcWireError::Unknown(u32::MAX));
    assert_eq!(RpcWireError::Unknown(77).to_code(), 77);
}

#[test]
fn kinds_round_trip() {
    let kinds = vec![
        RpcWireError::NoHandler,
        RpcWireError::SessionAlreadyActive,
        RpcWireError::Decode,
        RpcWireError::Grpc,
        RpcWireError::Internal,
        RpcWireError::Unknown(0),
        RpcWireError::Unknown(6),
        RpcWireError::Unknown(u32::MAX),
    ];
    for kind in kinds {
        assert_eq!(RpcWireError::from_code(kind.to_code()), kind);
    }
}

#[test]
fn codes_round_trip() {
    for code in 0..300u32 {
        assert_eq!(RpcWireError::from_code(code).to_code(), code);
    }
    assert_eq!(RpcWireError::from_code(u32::MAX).to_code(), u32::MAX);
}

#[test]
fn transport_with_reads_application_codes() {
    for code in 0..10u32 {
        assert_eq!(
            RpcWireError::transport_with(TransportError::App(code)),
            RpcWireError::from_code(code)
        );
    }
    assert_eq!(RpcWireError::transport_with(TransportError::App(3)), RpcWireError::Decode);
    assert_eq!(
        RpcWireError::transport_with(TransportError::App(u32::MAX)),
        RpcWireError::Unknown(u32::MAX)
    );
}

#[test]
fn transport_with_keeps_other_errors() {
    let e = TransportFault { code: 13, detail: "not found".to_string() };
    let kind = RpcWireError::transport_with(TransportError::Fault(e.clone()));
    assert_eq!(kind, RpcWireError::Transport(e));
    assert_eq!(kind.to_code(), 13);
    let timeout = TransportFault { code: 3, detail: "timeout".to_string() };
    let kind = RpcWireError::transport_with(TransportError::Fault(timeout.clone()));
    assert_eq!(kind, RpcWireError::Transport(timeout));
    assert_ne!(kind, RpcWireError::Decode);
    assert_eq!(kind.to_code(), 3);
}
