//! The outcome of a failed RPC, as far as retry decisions look at it.

use crate::text::{contains_text, str_contains};
use vstd::prelude::*;

verus! {

/// gRPC status codes.
#[derive(Clone, Copy, Debug, PartialEq, Eq, Structural)]
pub enum Code {
    Okay,
    Cancelled,
    Unknown,
    InvalidArgument,
    DeadlineExceeded,
    NotFound,
    AlreadyExists,
    PermissionDenied,
    ResourceExhausted,
    FailedPrecondition,
    Aborted,
    OutOfRange,
    Unimplemented,
    Internal,
    Unavailable,
    DataLoss,
    Unauthenticated,
}

/// Kinds of I/O errors that can sit in the cause chain of a status.
#[derive(Clone, Copy, Debug, PartialEq, Eq, Structural)]
pub enum IoErrorKind {
    ConnectionRefused,
    HostUnreachable,
    NetworkUnreachable,
    AddrNotAvailable,
    ConnectionReset,
    ConnectionAborted,
    NotConnected,
    BrokenPipe,
    TimedOut,
    UnexpectedEof,
    Other,
}

/// One link of the cause chain of a status.
#[derive(Clone, Copy, Debug, PartialEq, Eq, Structural)]
pub enum Cause {
    /// An HTTP/2 error, with the reason code it carries, if any.
    Http2(Option<u32>),
    /// An I/O error.
    Io(IoErrorKind),
    /// Any other error.
    Other,
}

/// A gRPC status: its code, its message, and the errors that caused it, from
/// the outermost to the innermost.
#[derive(Clone, Debug)]
pub struct Status {
    pub code: Code,
    pub message: String,
    pub causes: Vec<Cause>,
}

/// The reason code of an HTTP/2 stream that was refused before any processing.
pub open spec fn refused_stream() -> u32 {
    7
}

/// `h2::Reason::REFUSED_STREAM` as a number: reason code 7.
#[verifier::external_body]
fn refused_stream_code() -> (r: u32)
    ensures
        r == refused_stream(),
{
    u32::from(h2::Reason::REFUSED_STREAM)
}

/// The cause proves that the request never reached a server: the stream was
/// refused before it began, or the connection was never established.
pub open spec fn proves_not_sent(cause: Cause) -> bool {
    match cause {
        Cause::Http2(reason) => reason == Some(refused_stream()),
        Cause::Io(kind) => {
            ||| kind == IoErrorKind::ConnectionRefused
            ||| kind == IoErrorKind::HostUnreachable
            ||| kind == IoErrorKind::NetworkUnreachable
            ||| kind == IoErrorKind::AddrNotAvailable
        },
        Cause::Other => false,
    }
}

/// Some cause of the status proves that the request never reached a server.
pub open spec fn not_sent(status: Status) -> bool {
    exists|i: int| 0 <= i < status.causes@.len() && #[trigger] proves_not_sent(status.causes@[i])
}

/// The message is one of the server's requests for a fresh auth token.
pub open spec fn asks_for_token(status: Status) -> bool {
    ||| contains_text(status.message@, "invalid auth token"@)
    ||| contains_text(status.message@, "revision of auth store is old"@)
    ||| contains_text(status.message@, "user name is empty"@)
}

impl Status {
    /// A status with a code and a message, and no known cause.
    pub fn new(code: Code, message: &str) -> (r: Status)
        ensures
            r.code == code,
            r.message@ == message@,
            r.causes@ == Seq::<Cause>::empty(),
    {
        Status { code, message: message.to_owned(), causes: Vec::new() }
    }
}

/// etcd server messages that mean the auth token should be refreshed and the
/// call retried.
pub fn is_auth_token_error(status: &Status) -> (r: bool)
    ensures
        r == asks_for_token(*status),
{
    let msg = status.message.as_str();
    str_contains(msg, "invalid auth token") || str_contains(msg, "revision of auth store is old")
        || str_contains(msg, "user name is empty")
}

/// True when the error proves the request never reached a server, so retrying a
/// mutating RPC cannot apply it twice. Mid-stream errors such as a connection
/// reset or a timeout prove nothing: they can occur after the server applied
/// the write.
pub fn is_not_sent(status: &Status) -> (r: bool)
    ensures
        r == not_sent(*status),
{
    let refused = refused_stream_code();
    let mut i: usize = 0;
    while i < status.causes.len()
        invariant
            i <= status.causes@.len(),
            refused == refused_stream(),
            forall|j: int| 0 <= j < i ==> !#[trigger] proves_not_sent(status.causes@[j]),
        decreases status.causes@.len() - i,
    {
        let proof_found = match status.causes[i] {
            Cause::Http2(Some(reason)) => reason == refused,
            Cause::Http2(None) => false,
            Cause::Io(kind) => matches!(
                kind,
                IoErrorKind::ConnectionRefused
                    | IoErrorKind::HostUnreachable
                    | IoErrorKind::NetworkUnreachable
                    | IoErrorKind::AddrNotAvailable
            ),
            Cause::Other => false,
        };
        if proof_found {
            assert(proves_not_sent(status.causes@[i as int]));
            return true;
        }
        i += 1;
    }
    false
}

} // verus!
