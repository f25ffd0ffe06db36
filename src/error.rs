use vstd::prelude::*;

verus! {

/// Errors reported by the socket layer.
#[derive(Clone, Copy, Debug, PartialEq, Eq, Structural)]
pub enum NetError {
    /// The socket is already bound, or the stack reports it in use.
    AlreadyExists,
    /// The stack socket is in a state that forbids the operation.
    BadState,
    /// The destination cannot be reached.
    ConnectionRefused,
    /// A malformed address, option buffer or request.
    InvalidInput,
    /// A bounded buffer has no room left.
    NoMemory,
    /// The socket has no local or peer endpoint for the operation.
    NotConnected,
    /// The operation is refused.
    PermissionDenied,
    /// A timeout-aware operation ran past its deadline.
    Timeout,
    /// The operation is not valid for this socket kind.
    Unsupported,
    /// No progress is possible right now.
    WouldBlock,
}

} // verus!
