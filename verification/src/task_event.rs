//! What a caller learns of the end of one send task.
use vstd::prelude::*;

verus! {

/// How far a send task came.
#[derive(Clone, Copy, Debug, PartialEq, Eq, Structural)]
pub enum WebSocketTaskPhase {
    /// It waits for room in a bounded queue.
    WaitingForCapacity,
    /// It is queued.
    Queued,
    /// A writer owns it.
    Writing,
    /// It was written and awaits its response.
    AwaitingResponse,
}

/// What is known of the delivery of a message.
#[derive(Clone, Copy, Debug, PartialEq, Eq, Structural)]
pub enum WebSocketTaskDelivery {
    /// No byte of it was written.
    NotStarted,
    /// It was written in full.
    Written,
    /// Its response was claimed.
    ResponseClaimed,
    /// Whether the peer received it is unknown.
    Unknown,
}

/// Why a send task came to its end.
#[derive(Clone, Copy, Debug, PartialEq, Eq, Structural)]
pub enum WebSocketTaskEndCause {
    /// It succeeded.
    Completed,
    /// The sender cancelled it.
    SendCancelled,
    /// The caller disconnected.
    Disconnect,
    /// The client shut down.
    Shutdown,
    /// The client dropped it without a result.
    EngineDropped,
    /// It failed.
    Failure,
}

/// How a send task succeeded.
#[derive(Clone, Copy, Debug, PartialEq, Eq, Structural)]
pub enum WebSocketTaskSuccess {
    /// The message was written in full.
    Written,
    /// The response was claimed.
    ResponseClaimed,
}

} // verus!
