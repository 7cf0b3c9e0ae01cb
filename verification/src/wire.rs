//! Abort codes that travel on a closed track, and the failure kinds they stand for.

use vstd::prelude::*;

verus! {

/// A failure of the transport itself, reduced to the values this layer
/// reads from it.
#[derive(Debug, Clone, PartialEq, Eq)]
pub struct TransportFault {
    /// The transport's own wire code for the failure.
    pub code: u32,
    /// The transport's description of the failure.
    pub detail: String,
}

/// What the transport reports when a track does not end cleanly.
#[derive(Debug, Clone, PartialEq, Eq)]
pub enum TransportError {
    /// The peer closed the track with this application code.
    App(u32),
    /// The transport failed on its own account.
    Fault(TransportFault),
}

/// Failures that reach a peer after a call has been set up.
#[derive(Debug, Clone, PartialEq, Eq)]
pub enum RpcWireError {
    /// No handler is registered for the requested method.
    NoHandler,
    /// The same client already has a live call on the method.
    SessionAlreadyActive,
    /// A request frame could not be decoded.
    Decode,
    /// The backend refused the call or failed.
    Grpc,
    /// The handler could not write a response.
    Internal,
    /// The transport failed on its own account.
    Transport(TransportFault),
    /// The peer sent an application code that has no fixed meaning.
    Unknown(u32),
}

/// True for the codes that have a fixed meaning.
pub open spec fn is_reserved_code(code: u32) -> bool {
    1 <= code <= 5
}

/// The failure kind that an application code stands for.
pub open spec fn kind_of_code(code: u32) -> RpcWireError {
    if code == 1 {
        RpcWireError::NoHandler
    } else if code == 2 {
        RpcWireError::SessionAlreadyActive
    } else if code == 3 {
        RpcWireError::Decode
    } else if code == 4 {
        RpcWireError::Grpc
    } else if code == 5 {
        RpcWireError::Internal
    } else {
        RpcWireError::Unknown(code)
    }
}

/// The failure kind that an error of the transport stands for.
pub open spec fn kind_of_error(err: TransportError) -> RpcWireError {
    match err {
        TransportError::App(code) => kind_of_code(code),
        TransportError::Fault(fault) => RpcWireError::Transport(fault),
    }
}

/// The code that a failure kind is sent as.
pub open spec fn code_of_kind(kind: RpcWireError) -> u32 {
    match kind {
        RpcWireError::NoHandler => 1,
        RpcWireError::SessionAlreadyActive => 2,
        RpcWireError::Decode => 3,
        RpcWireError::Grpc => 4,
        RpcWireError::Internal => 5,
        RpcWireError::Transport(e) => e.code,
        RpcWireError::Unknown(code) => code,
    }
}

/// True for the kinds that `kind_of_code` can return: the five fixed kinds,
/// and `Unknown` with a code that has no fixed meaning.
pub open spec fn is_enumerated_kind(kind: RpcWireError) -> bool {
    match kind {
        RpcWireError::Transport(_) => false,
        RpcWireError::Unknown(code) => !is_reserved_code(code),
        _ => true,
    }
}

impl RpcWireError {
    /// Code sent when no handler is registered for the requested method.
    pub const CODE_NO_HANDLER: u32 = 1;

    /// Code sent when the same client already has a live call on the method.
    pub const CODE_SESSION_ALREADY_ACTIVE: u32 = 2;

    /// Code sent when a request frame could not be decoded.
    pub const CODE_DECODE: u32 = 3;

    /// Code sent when the backend refused the call or failed.
    pub const CODE_GRPC: u32 = 4;

    /// Code sent when a response could not be written.
    pub const CODE_INTERNAL: u32 = 5;

    /// Turns an error of the transport into a failure kind: an application
    /// code is read as its kind, a failure of the transport is kept as it came.
    pub fn transport_with(err: TransportError) -> (r: Self)
        ensures
            r == kind_of_error(err),
    {
        match err {
            TransportError::App(code) => RpcWireError::from_code(code),
            TransportError::Fault(fault) => RpcWireError::Transport(fault),
        }
    }

    /// The code that this failure is sent as.
    pub fn to_code(&self) -> (code: u32)
        ensures
            code == code_of_kind(*self),
    {
        match self {
            RpcWireError::NoHandler => Self::CODE_NO_HANDLER,
            RpcWireError::SessionAlreadyActive => Self::CODE_SESSION_ALREADY_ACTIVE,
            RpcWireError::Decode => Self::CODE_DECODE,
            RpcWireError::Grpc => Self::CODE_GRPC,
            RpcWireError::Internal => Self::CODE_INTERNAL,
            RpcWireError::Transport(e) => e.code,
            RpcWireError::Unknown(code) => *code,
        }
    }

    /// The failure that `code` stands for. Every code has one: a code without
    /// a fixed meaning is kept in `Unknown`.
    pub fn from_code(code: u32) -> (r: Self)
        ensures
            r == kind_of_code(code),
    {
        if code == Self::CODE_NO_HANDLER {
            RpcWireError::NoHandler
        } else if code == Self::CODE_SESSION_ALREADY_ACTIVE {
            RpcWireError::SessionAlreadyActive
        } else if code == Self::CODE_DECODE {
            RpcWireError::Decode
        } else if code == Self::CODE_GRPC {
            RpcWireError::Grpc
        } else if code == Self::CODE_INTERNAL {
            RpcWireError::Internal
        } else {
            RpcWireError::Unknown(code)
        }
    }
}

/// Reading a code and sending the result gives the code back, for every code.
pub proof fn lemma_code_round_trip(code: u32)
    ensures
        code_of_kind(kind_of_code(code)) == code,
        is_enumerated_kind(kind_of_code(code)),
{
}

/// Sending an enumerated kind and reading the code gives the kind back.
pub proof fn lemma_kind_round_trip(kind: RpcWireError)
    requires
        is_enumerated_kind(kind),
    ensures
        kind_of_code(code_of_kind(kind)) == kind,
{
}

/// Two enumerated kinds that are sent as the same code are the same kind.
pub proof fn lemma_codes_distinguish_kinds(a: RpcWireError, b: RpcWireError)
    requires
        is_enumerated_kind(a),
        is_enumerated_kind(b),
        code_of_kind(a) == code_of_kind(b),
    ensures
        a == b,
{
}

} // verus!
