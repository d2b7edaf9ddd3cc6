//! What the operations of this crate are for, stated over calls of them: each law
//! takes the arguments and the result of a call, and says what they must satisfy.

pub mod caller;
pub mod client;
pub mod endpoint;
pub mod failover;
pub mod key_range;
pub mod lease;
pub mod lease_stream;
pub mod retry;
pub mod session;
pub mod time;
pub mod watch;
pub mod watch_stream;
