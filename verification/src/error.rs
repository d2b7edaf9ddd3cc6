//! The errors a client call can end with.

use crate::status::Status;
use vstd::prelude::*;

verus! {

/// Why a client call failed.
#[derive(Clone, Debug)]
pub enum Error {
    /// Invalid arguments, with an explanation.
    InvalidArgs(String),
    /// An endpoint is not a valid URI.
    InvalidUri,
    /// The transport rejected its configuration.
    TransportError,
    /// The RPC ended with a gRPC status.
    GRpcStatus(Status),
    /// A watch stream failed.
    WatchError(String),
    /// A lease keep-alive stream failed.
    LeaseKeepAliveError(String),
    /// The auth token cannot be sent as request metadata.
    InvalidMetadataValue,
    /// An endpoint could not be added or removed.
    EndpointError(String),
    /// The client was made from a channel whose endpoints it does not manage.
    EndpointsNotManaged,
    /// The client failed internally.
    Internal(String),
}

} // verus!
