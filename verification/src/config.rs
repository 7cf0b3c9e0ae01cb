//! What a router and a client are configured with, and the broadcast paths
//! that follow from it.

use std::time::Duration;
use vstd::prelude::*;

verus! {

/// The span of time that `Duration::from_secs` returns for a number of seconds.
pub uninterp spec fn duration_of_secs(secs: u64) -> Duration;

/// `Duration::from_secs`, which returns the span of that many whole seconds.
#[verifier::external_body]
fn seconds(secs: u64) -> (d: Duration)
    ensures
        d == duration_of_secs(secs),
{
    Duration::from_secs(secs)
}

/// `{prefix}/{client_id}/{grpc_path}`.
pub open spec fn spec_broadcast_path(
    prefix: Seq<char>,
    client_id: Seq<char>,
    grpc_path: Seq<char>,
) -> Seq<char> {
    prefix + seq!['/'] + client_id + seq!['/'] + grpc_path
}

/// `{prefix}/{client_id}/{grpc_path}`.
fn broadcast_path(prefix: &str, client_id: &str, grpc_path: &str) -> (r: String)
    ensures
        r@ == spec_broadcast_path(prefix@, client_id@, grpc_path@),
{
    proof {
        reveal_strlit("/");
    }
    String::from_str(prefix).concat("/").concat(client_id).concat("/").concat(grpc_path)
}

/// What a router is configured with.
#[derive(Debug)]
pub struct RpcRouterConfig {
    /// The prefix under which clients announce their calls; none to watch
    /// every announcement.
    pub client_prefix: Option<String>,
    /// The prefix under which the router publishes its responses.
    pub response_prefix: String,
    /// The name of the one track that each broadcast carries.
    pub track_name: String,
}

impl Clone for RpcRouterConfig {
    fn clone(&self) -> (r: Self)
        ensures
            r == *self,
    {
        RpcRouterConfig {
            client_prefix: match &self.client_prefix {
                Some(prefix) => Some(prefix.clone()),
                None => None,
            },
            response_prefix: self.response_prefix.clone(),
            track_name: self.track_name.clone(),
        }
    }
}

impl Default for RpcRouterConfig {
    /// Clients under `client`, responses under `server`, track `primary`.
    fn default() -> (r: Self)
        ensures
            r.client_prefix matches Some(prefix) && prefix@ == "client"@,
            r.response_prefix@ == "server"@,
            r.track_name@ == "primary"@,
    {
        RpcRouterConfig {
            client_prefix: Some(String::from_str("client")),
            response_prefix: String::from_str("server"),
            track_name: String::from_str("primary"),
        }
    }
}

impl RpcRouterConfig {
    /// The path of the broadcast that answers `client_id` on `grpc_path`:
    /// `{response_prefix}/{client_id}/{grpc_path}`.
    pub fn response_path(&self, client_id: &str, grpc_path: &str) -> (r: String)
        ensures
            r@ == spec_broadcast_path(self.response_prefix@, client_id@, grpc_path@),
    {
        broadcast_path(self.response_prefix.as_str(), client_id, grpc_path)
    }
}

/// What a client is configured with.
#[derive(Debug)]
pub struct RpcClientConfig {
    /// The prefix under which the client announces its calls.
    pub client_prefix: String,
    /// The prefix under which the server publishes its responses.
    pub server_prefix: String,
    /// The name of the one track that each broadcast carries.
    pub track_name: String,
    /// What identifies this client. It is empty until the user sets it.
    pub client_id: String,
    /// How long the client waits for the server's response broadcast.
    pub timeout: Duration,
}

impl Clone for RpcClientConfig {
    fn clone(&self) -> (r: Self)
        ensures
            r == *self,
    {
        RpcClientConfig {
            client_prefix: self.client_prefix.clone(),
            server_prefix: self.server_prefix.clone(),
            track_name: self.track_name.clone(),
            client_id: self.client_id.clone(),
            timeout: self.timeout,
        }
    }
}

impl Default for RpcClientConfig {
    /// Calls under `client`, responses under `server`, track `primary`, no
    /// client id and thirty seconds of patience.
    fn default() -> (r: Self)
        ensures
            r.client_prefix@ == "client"@,
            r.server_prefix@ == "server"@,
            r.track_name@ == "primary"@,
            r.client_id@ == Seq::<char>::empty(),
            r.timeout == duration_of_secs(30),
    {
        RpcClientConfig {
            client_prefix: String::from_str("client"),
            server_prefix: String::from_str("server"),
            track_name: String::from_str("primary"),
            client_id: String::new(),
            timeout: seconds(30),
        }
    }
}

impl RpcClientConfig {
    /// The default configuration for the client `client_id`.
    pub fn new(client_id: &str) -> (r: Self)
        ensures
            r.client_prefix@ == "client"@,
            r.server_prefix@ == "server"@,
            r.track_name@ == "primary"@,
            r.client_id@ == client_id@,
            r.timeout == duration_of_secs(30),
    {
        let mut config = RpcClientConfig::default();
        config.client_id = client_id.to_owned();
        config
    }

    /// The same configuration with another client prefix.
    pub fn with_client_prefix(self, prefix: &str) -> (r: Self)
        ensures
            r.client_prefix@ == prefix@,
            r.server_prefix == self.server_prefix,
            r.track_name == self.track_name,
            r.client_id == self.client_id,
            r.timeout == self.timeout,
    {
        let mut config = self;
        config.client_prefix = prefix.to_owned();
        config
    }

    /// The same configuration with another server prefix.
    pub fn with_server_prefix(self, prefix: &str) -> (r: Self)
        ensures
            r.client_prefix == self.client_prefix,
            r.server_prefix@ == prefix@,
            r.track_name == self.track_name,
            r.client_id == self.client_id,
            r.timeout == self.timeout,
    {
        let mut config = self;
        config.server_prefix = prefix.to_owned();
        config
    }

    /// The same configuration with another track name.
    pub fn with_track_name(self, name: &str) -> (r: Self)
        ensures
            r.client_prefix == self.client_prefix,
            r.server_prefix == self.server_prefix,
            r.track_name@ == name@,
            r.client_id == self.client_id,
            r.timeout == self.timeout,
    {
        let mut config = self;
        config.track_name = name.to_owned();
        config
    }

    /// The same configuration with another timeout.
    pub fn with_timeout(self, timeout: Duration) -> (r: Self)
        ensures
            r.client_prefix == self.client_prefix,
            r.server_prefix == self.server_prefix,
            r.track_name == self.track_name,
            r.client_id == self.client_id,
            r.timeout == timeout,
    {
        let mut config = self;
        config.timeout = timeout;
        config
    }

    /// The path at which this client announces a call on `grpc_path`:
    /// `{client_prefix}/{client_id}/{grpc_path}`.
    pub fn client_path(&self, grpc_path: &str) -> (r: String)
        ensures
            r@ == spec_broadcast_path(self.client_prefix@, self.client_id@, grpc_path@),
    {
        broadcast_path(self.client_prefix.as_str(), self.client_id.as_str(), grpc_path)
    }

    /// The path at which the server answers this client's call on `grpc_path`:
    /// `{server_prefix}/{client_id}/{grpc_path}`.
    pub fn server_path(&self, grpc_path: &str) -> (r: String)
        ensures
            r@ == spec_broadcast_path(self.server_prefix@, self.client_id@, grpc_path@),
    {
        broadcast_path(self.server_prefix.as_str(), self.client_id.as_str(), grpc_path)
    }
}

} // verus!
