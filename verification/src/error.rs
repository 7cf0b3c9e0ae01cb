//! The errors that the routing layer hands to its callers.

use vstd::prelude::*;

verus! {

/// A path that does not follow the grammar.
#[derive(Debug, Clone, PartialEq, Eq)]
pub enum RpcPathError {
    /// The path is not valid; the text says why.
    Invalid(String),
}

/// [`RpcPathError`] as contracts see it.
pub enum RpcPathErrorView {
    Invalid(Seq<char>),
}

impl View for RpcPathError {
    type V = RpcPathErrorView;

    open spec fn view(&self) -> RpcPathErrorView {
        match self {
            RpcPathError::Invalid(text) => RpcPathErrorView::Invalid(text@),
        }
    }
}

/// What can go wrong while a client sets up a call.
#[derive(Debug, Clone, PartialEq, Eq)]
pub enum RpcClientError {
    /// The relay refused the request broadcast.
    BroadcastCreate(String),
    /// The server's response broadcast did not appear in time.
    Timeout,
    /// The announcements ended before the server's response broadcast appeared.
    ServerNotFound(String),
    /// The connection was closed.
    ConnectionClosed,
}

/// [`RpcClientError`] as contracts see it.
pub enum RpcClientErrorView {
    BroadcastCreate(Seq<char>),
    Timeout,
    ServerNotFound(Seq<char>),
    ConnectionClosed,
}

impl View for RpcClientError {
    type V = RpcClientErrorView;

    open spec fn view(&self) -> RpcClientErrorView {
        match self {
            RpcClientError::BroadcastCreate(text) => RpcClientErrorView::BroadcastCreate(text@),
            RpcClientError::Timeout => RpcClientErrorView::Timeout,
            RpcClientError::ServerNotFound(path) => RpcClientErrorView::ServerNotFound(path@),
            RpcClientError::ConnectionClosed => RpcClientErrorView::ConnectionClosed,
        }
    }
}

/// What can go wrong while the router admits a call.
#[derive(Debug, Clone, PartialEq, Eq)]
pub enum RpcServerError {
    /// The announced path does not follow the grammar.
    Path(RpcPathError),
    /// The client already has a live call on the method.
    SessionAlreadyActive { client_id: String, grpc_path: String },
    /// No handler is registered for the method.
    NoHandler(String),
    /// The relay refused the response broadcast.
    BroadcastCreate(String),
    /// The relay refused the prefix that the router wanted to watch.
    Unauthorized(String),
}

/// [`RpcServerError`] as contracts see it.
pub enum RpcServerErrorView {
    Path(RpcPathErrorView),
    SessionAlreadyActive { client_id: Seq<char>, grpc_path: Seq<char> },
    NoHandler(Seq<char>),
    BroadcastCreate(Seq<char>),
    Unauthorized(Seq<char>),
}

impl View for RpcServerError {
    type V = RpcServerErrorView;

    open spec fn view(&self) -> RpcServerErrorView {
        match self {
            RpcServerError::Path(e) => RpcServerErrorView::Path(e@),
            RpcServerError::SessionAlreadyActive { client_id, grpc_path } => {
                RpcServerErrorView::SessionAlreadyActive {
                    client_id: client_id@,
                    grpc_path: grpc_path@,
                }
            },
            RpcServerError::NoHandler(path) => RpcServerErrorView::NoHandler(path@),
            RpcServerError::BroadcastCreate(text) => RpcServerErrorView::BroadcastCreate(text@),
            RpcServerError::Unauthorized(text) => RpcServerErrorView::Unauthorized(text@),
        }
    }
}

impl From<RpcPathError> for RpcServerError {
    fn from(e: RpcPathError) -> (r: RpcServerError) {
        RpcServerError::Path(e)
    }
}

impl vstd::std_specs::convert::FromSpecImpl<RpcPathError> for RpcServerError {
    open spec fn obeys_from_spec() -> bool {
        true
    }

    open spec fn from_spec(e: RpcPathError) -> RpcServerError {
        RpcServerError::Path(e)
    }
}

} // verus!
