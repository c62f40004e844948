//! Errors that the client reports to its callers.
use vstd::prelude::*;

verus! {

/// Why an operation of the client did not succeed.
#[derive(Clone, Copy, Debug, PartialEq, Eq, Structural)]
pub enum NetError {
    /// A configured value is outside what the client accepts.
    ConfigError,
    /// The target is not a usable WebSocket URL.
    InvalidUrl,
    /// A required parameter is blank.
    ParameterEmpty,
    /// A connection is already established or in progress.
    ConnectionExists,
    /// The peer or the proxy refused the connection.
    ConnectError,
    /// The TLS handshake failed for a reason that a retry cannot mend.
    TlsConnectError,
    /// The network failed below the protocol.
    NetworkError,
    /// A deadline passed.
    TimeoutError,
    /// The reconnect budget is used up.
    RetryExhausted,
    /// The connection is closed.
    ConnectionClosed,
    /// The connection is being closed.
    ConnectionClosing,
    /// No connection is open.
    SocketNotOpened,
    /// The operation was cancelled.
    Cancelled,
    /// The client has been dropped or shut down.
    EngineDropped,
    /// Whether the peer received the message is unknown.
    DeliveryUnknown,
    /// A bounded queue has no room.
    QueueFull,
    /// A queue accepts nothing more.
    QueueClosed,
    /// One item is larger than a queue admits at all.
    QueueItemTooLarge,
    /// The data callback lane has no room.
    CallbackQueueOverflow,
    /// The control lane of a connection has no room.
    ControlQueueOverflow,
    /// A background task ended without a result.
    TaskInterruptionError,
    /// A runtime could not be built.
    RuntimeError,
    /// A thread or another operating-system resource was refused.
    IOError,
    /// The monitor is not running.
    NotStarted,
    /// An internal invariant failed.
    InternalError,
}

/// Why an HTTP request did not succeed.
#[derive(Clone, Copy, Debug, PartialEq, Eq, Structural)]
pub enum HttpError {
    /// The request timed out.
    RequestTimeout,
    /// The request failed for any other reason.
    RequestFailed,
}

} // verus!
