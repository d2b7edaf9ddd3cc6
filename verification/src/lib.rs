//! Request-level failover for an etcd v3 client.
//!
//! Every decision the client takes is a plain function from values to values:
//! which errors may be retried and how retries are paced, how a broken watch or
//! lease stream is resumed, how a call re-authenticates, and how endpoints and
//! requests are built. Sockets, timers and tasks live outside this crate and
//! feed these functions with events.

pub mod caller;
pub mod client;
pub mod endpoint;
pub mod error;
pub mod failover;
pub mod laws;
pub mod retry;
pub mod rpc;
pub mod session;
pub mod status;
pub mod text;
pub mod time;
