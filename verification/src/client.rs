//! The client's side of setting up a call.
//!
//! A client announces its request broadcast, then watches the server's
//! namespace until the response broadcast appears. What it does at each
//! turn of that wait is decided here; the waiting itself is the caller's.

use crate::config::{spec_broadcast_path, RpcClientConfig};
use crate::error::{RpcClientError, RpcClientErrorView};
use vstd::prelude::*;

verus! {

/// The two broadcasts of one call.
#[derive(Debug, Clone, PartialEq, Eq)]
pub struct CallPaths {
    /// Where the client publishes its requests.
    pub request: String,
    /// Where the server publishes its responses.
    pub response: String,
}

/// How the wait for the server's response broadcast ended.
#[derive(Debug, Clone, Copy, PartialEq, Eq, Structural)]
pub enum ServerWait {
    /// The response broadcast appeared.
    Appeared,
    /// The configured time ran out first.
    TimedOut,
    /// The announcements ended first.
    Closed,
}

/// What the wait for the response broadcast at `response` comes to: success
/// where it appeared, the timeout where the time ran out, and the missing
/// server, with the path, where the announcements ended.
pub open spec fn spec_await_server(response: Seq<char>, outcome: ServerWait) -> Result<
    (),
    RpcClientErrorView,
> {
    match outcome {
        ServerWait::Appeared => Ok(()),
        ServerWait::TimedOut => Err(RpcClientErrorView::Timeout),
        ServerWait::Closed => Err(RpcClientErrorView::ServerNotFound(response)),
    }
}

impl CallPaths {
    /// The broadcasts of this client's call on `grpc_path`: requests at
    /// `{client_prefix}/{client_id}/{grpc_path}`, responses at
    /// `{server_prefix}/{client_id}/{grpc_path}`.
    pub fn new(config: &RpcClientConfig, grpc_path: &str) -> (r: Self)
        ensures
            r.request@ == spec_broadcast_path(config.client_prefix@, config.client_id@, grpc_path@),
            r.response@ == spec_broadcast_path(
                config.server_prefix@,
                config.client_id@,
                grpc_path@,
            ),
    {
        CallPaths {
            request: config.client_path(grpc_path),
            response: config.server_path(grpc_path),
        }
    }

    /// Tells whether a broadcast announced at `path` is the response broadcast
    /// of this call.
    pub fn answers(&self, path: &str) -> (r: bool)
        ensures
            r == (path@ == self.response@),
    {
        path.to_owned() == self.response
    }

    /// The error for a request broadcast that the relay refused.
    pub fn request_refused(&self) -> (r: RpcClientError)
        ensures
            r@ == RpcClientErrorView::BroadcastCreate(
                "failed to create request broadcast at '"@ + self.request@ + "'"@,
            ),
    {
        RpcClientError::BroadcastCreate(
            String::from_str("failed to create request broadcast at '").concat(
                self.request.as_str(),
            ).concat("'"),
        )
    }

    /// What the wait for the response broadcast comes to.
    pub fn await_server(&self, outcome: ServerWait) -> (r: Result<(), RpcClientError>)
        ensures
            match r {
                Ok(_) => spec_await_server(self.response@, outcome) is Ok,
                Err(e) => spec_await_server(self.response@, outcome) == Err::<
                    (),
                    RpcClientErrorView,
                >(e@),
            },
    {
        match outcome {
            ServerWait::Appeared => Ok(()),
            ServerWait::TimedOut => Err(RpcClientError::Timeout),
            ServerWait::Closed => Err(RpcClientError::ServerNotFound(self.response.clone())),
        }
    }
}

} // verus!
