//! Where and why a connection could not be established or ended.
use vstd::prelude::*;

use crate::net_error::NetError;

verus! {

/// The stage of a connection attempt, or of a connection, that failed.
#[derive(Clone, Copy, Debug, PartialEq, Eq, Structural)]
pub enum WebSocketConnectStage {
    /// Building the handshake request.
    RequestBuild,
    /// Running the caller's header provider.
    Provider,
    /// Resolving the host.
    Dns,
    /// Opening the TCP connection.
    Tcp,
    /// Opening a tunnel through the proxy.
    ProxyConnect,
    /// The TLS handshake.
    Tls,
    /// The WebSocket upgrade.
    WebSocketUpgrade,
    /// Reading or writing an established connection.
    WebSocketIo,
    /// Delivering events inside the client.
    EventDelivery,
}

/// Why a session or a connection came to its end.
#[derive(Clone, Copy, Debug, PartialEq, Eq, Structural)]
pub enum WebSocketTerminationReason {
    /// The connection could not be established.
    ConnectFailed,
    /// Every retry that the policy grants was used.
    RetryExhausted,
    /// An established connection failed.
    IoFailure,
    /// The network became unavailable.
    NetworkUnavailable,
    /// The caller disconnected.
    Disconnected,
    /// The caller cancelled the session.
    Cancelled,
    /// The client shut down.
    Shutdown,
}

/// One failure of a connection attempt or of a connection.
#[derive(Clone, Copy, Debug, PartialEq, Eq, Structural)]
pub struct WebSocketConnectionFailure {
    /// The error that the caller sees.
    pub error: NetError,
    /// The stage that failed.
    pub stage: WebSocketConnectStage,
    /// The status code of an HTTP answer that refused the connection.
    pub http_status: Option<u16>,
    /// Whether another attempt may succeed.
    pub retryable: bool,
}

impl WebSocketConnectionFailure {
    /// A failure with the given parts.
    pub fn new(
        error: NetError,
        stage: WebSocketConnectStage,
        http_status: Option<u16>,
        retryable: bool,
    ) -> (failure: Self)
        ensures
            failure == (WebSocketConnectionFailure { error, stage, http_status, retryable }),
    {
        WebSocketConnectionFailure { error, stage, http_status, retryable }
    }

    /// The error that the caller sees.
    pub fn error(&self) -> (error: NetError)
        ensures
            error == self.error,
    {
        self.error
    }

    /// The stage that failed.
    pub fn stage(&self) -> (stage: WebSocketConnectStage)
        ensures
            stage == self.stage,
    {
        self.stage
    }

    /// The status code of an HTTP answer that refused the connection.
    pub fn http_status(&self) -> (status: Option<u16>)
        ensures
            status == self.http_status,
    {
        self.http_status
    }

    /// Whether another attempt may succeed.
    pub fn retryable(&self) -> (retryable: bool)
        ensures
            retryable == self.retryable,
    {
        self.retryable
    }
}

/// The failure without an HTTP answer that has the given parts.
pub open spec fn plain_failure(
    error: NetError,
    stage: WebSocketConnectStage,
    retryable: bool,
) -> WebSocketConnectionFailure {
    WebSocketConnectionFailure { error, stage, http_status: None, retryable }
}

} // verus!
