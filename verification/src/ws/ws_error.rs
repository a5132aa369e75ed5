use vstd::prelude::*;

verus! {

/// Identity of one live connection. The listener hands out a fresh one for
/// every connection it accepts; it means something only while that connection
/// is registered.
pub type ConnectionId = u64;

/// Why an inbound frame was not an envelope.
#[derive(Debug, Clone, Copy, PartialEq, Eq, Structural)]
pub enum DecodeError {
    /// The frame carries no text (binary, ping, pong, close).
    NotText,
    /// The text is not one JSON value.
    Malformed,
    /// The JSON value has no member `path` that is a string.
    NoPath,
    /// The JSON value has no member `payload`.
    NoPayload,
}

/// WsError: defines the errors that may be returned from WS
#[derive(Debug, Clone, PartialEq, Eq)]
pub enum WsError {
    /// The connection addressed is not, or no longer, registered.
    ClientNotFound,
    /// The connection is registered, but its outbound queue no longer takes
    /// messages: the task that drained it has gone.
    SendError(ConnectionId),
    /// A broadcast reached some recipients and not these.
    FailedToSend(Vec<ConnectionId>),
}

} // verus!
