//! Routing and session layer for request/response streams carried over a
//! publish/subscribe media transport.
//!
//! The crate holds the decisions of that layer as plain functions on plain
//! values: the path grammar, the abort codes, the session registry, the
//! admission of announced calls and the life of one call. Whoever drives the
//! transport performs what these functions decide.

pub mod client;
pub mod config;
pub mod error;
pub mod handler;
pub mod inbound;
pub mod outbound;
pub mod path;
pub mod router;
pub mod session;
pub mod wire;

pub use client::CallPaths;
pub use config::{RpcClientConfig, RpcRouterConfig};
pub use error::{RpcClientError, RpcPathError, RpcServerError};
pub use handler::CallState;
pub use inbound::{DecodedInbound, TrackCursor};
pub use outbound::AbortLatch;
pub use path::{GrpcPath, RpcRequestPath};
pub use router::RpcRouter;
pub use session::{SessionGuard, SessionKey, SessionMap};
pub use wire::{RpcWireError, TransportError, TransportFault};
