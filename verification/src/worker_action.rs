//! What the client worker is told and what it asks for.
use vstd::prelude::*;

use crate::clock::Instant;
use crate::connection_failure::{WebSocketConnectionFailure, WebSocketTerminationReason};
use crate::connection_status::ConnectionStatus;
use crate::io_stop::IoStopPlan;
use crate::net_error::NetError;
use crate::network_status::NetworkStatusSnapshot;
use crate::reconnect::ReconnectPolicy;
use crate::task_event::WebSocketTaskEndCause;

verus! {

/// The caller's session that a target belongs to.
#[derive(Clone, Copy, Debug, PartialEq, Eq, Structural)]
pub struct ContextConnectTarget {
    /// The caller's identifier of the session.
    pub session_context_id: u64,
    /// Whether requests of the session are bound to a request scope.
    pub scoped: bool,
}

/// What to connect to.
#[derive(Debug)]
pub struct ConnectTarget {
    /// The WebSocket URL.
    pub url: String,
    /// Handshake headers, in the order in which they are applied.
    pub headers: Vec<(String, String)>,
    /// Whether a provider adds further headers to each attempt.
    pub has_header_provider: bool,
    /// When attempts are repeated.
    pub reconnect: ReconnectPolicy,
    /// The caller's session, if the connection was requested with one.
    pub context: Option<ContextConnectTarget>,
}

/// A request of the client's owner.
#[derive(Debug)]
pub enum ClientCommand {
    /// Connect without a session; the policy was validated by its owner.
    Connect {
        /// The WebSocket URL.
        url: String,
        /// Handshake headers.
        headers: Vec<(String, String)>,
        /// Whether a provider adds further headers.
        has_header_provider: bool,
        /// When attempts are repeated.
        reconnect: ReconnectPolicy,
        /// Whether the policy's own validation accepts it.
        policy_valid: bool,
    },
    /// Connect on behalf of a session.
    ConnectWithContext {
        /// The WebSocket URL, possibly surrounded by white space.
        url: String,
        /// Handshake headers.
        headers: Vec<(String, String)>,
        /// When attempts are repeated.
        reconnect: ReconnectPolicy,
        /// The session.
        context: ContextConnectTarget,
        /// What the options' own validation answers.
        validation: Result<(), NetError>,
    },
    /// Close the connection and return to `Idle`.
    Disconnect,
    /// A hint that the network can be used again.
    NetworkAvailable,
    /// Shut the client down for good.
    Shutdown {
        /// Whether somebody waits for the answer.
        wants_reply: bool,
    },
}

/// A result of a background task of the worker.
#[derive(Clone, Copy, Debug, PartialEq, Eq)]
pub enum IoEvent {
    /// A session event of an attempt: started, prepared or failed.
    ContextProgress {
        /// Connection cycle of the attempt.
        generation: u64,
    },
    /// An attempt succeeded.
    ConnectSucceeded {
        /// Connection cycle of the attempt.
        generation: u64,
        /// Number of the attempt, if it belongs to a session.
        context_attempt_id: Option<u64>,
        /// The network epoch in which the attempt was made, if it was observed.
        network_loss_epoch: Option<u64>,
        /// Whether the connect task waits for an answer.
        wants_answer: bool,
    },
    /// The connection cycle failed.
    ConnectFailed {
        /// The connection cycle.
        generation: u64,
        /// What failed.
        failure: WebSocketConnectionFailure,
        /// How the cycle ended.
        reason: WebSocketTerminationReason,
    },
    /// A data callback could not be started.
    CallbackDispatchFailed {
        /// Connection cycle of the message.
        generation: u64,
    },
    /// The read task ended.
    ReadEnded {
        /// Connection cycle of the task.
        generation: u64,
        /// Why it ended.
        error: NetError,
    },
    /// The write task ended.
    WriteEnded {
        /// Connection cycle of the task.
        generation: u64,
        /// Why it ended.
        error: NetError,
    },
}

/// What the worker reads of its surroundings in one step.
#[derive(Clone, Copy, Debug, PartialEq, Eq)]
pub struct WorkerInputs {
    /// Whether shutdown was requested.
    pub shutdown: bool,
    /// Whether the session concerned is cancelled.
    pub session_cancelled: bool,
    /// Whether the session's request scope is cancelled.
    pub scope_cancelled: bool,
    /// The latest observation of the network, if it is observed.
    pub network: Option<NetworkStatusSnapshot>,
    /// The present.
    pub now: Instant,
}

/// What the worker asks its surroundings to do, in order.
#[derive(Clone, Copy, Debug, PartialEq, Eq)]
pub enum WorkerAction {
    /// Refuse new task listeners.
    CloseTaskObservers,
    /// Open a send session.
    BeginSendSession {
        /// The caller's identifier of the session, if there is one.
        session_context_id: Option<u64>,
        /// Whether requests are bound to a request scope.
        scoped: bool,
    },
    /// End the send session.
    EndSendSession {
        /// Why, for the tasks that it ends.
        cause: Option<WebSocketTaskEndCause>,
    },
    /// End the sends of the connection, not those of the session.
    EndSendConnection,
    /// Admit sends to a new connection.
    AdmitSendConnection {
        /// The network epoch in which it was made.
        loss_epoch: u64,
    },
    /// Notify the status listener if its lane has room.
    NotifyStatus(ConnectionStatus),
    /// Notify the status listener and wait for it.
    NotifyStatusUntil {
        /// The new status.
        status: ConnectionStatus,
        /// When waiting is given up.
        until: Instant,
    },
    /// Cancel and abort the connect task.
    AbortConnectTask,
    /// Answer the caller that waits for the connection.
    AnswerConnect(Result<(), NetError>),
    /// Answer the command.
    AnswerCommand(Result<(), NetError>),
    /// Answer the connect task.
    AnswerTask(Result<(), NetError>),
    /// Stop the tasks of the connection.
    StopIo(IoStopPlan),
    /// Start the tasks of a new connection.
    StartIo {
        /// The connection cycle.
        generation: u64,
        /// The network epoch that invalidates the connection when it passes.
        loss_epoch: u64,
    },
    /// Fail everything that is queued, urgent messages first.
    FailQueued(NetError),
    /// Fail what is queued and does not wait for a reconnect, urgent first.
    FailRejected(NetError),
    /// Accept nothing more into the queues.
    CloseQueues,
    /// Fail every request that awaits a response, after the response grace.
    FailPending(NetError),
    /// Fail the requests of one connection cycle, after the response grace.
    FailPendingOf {
        /// The connection cycle.
        generation: u64,
        /// The error that they end with.
        error: NetError,
    },
    /// End the caller's session.
    TerminateSession {
        /// How it ended.
        reason: WebSocketTerminationReason,
        /// What failed.
        failure: WebSocketConnectionFailure,
    },
    /// Tell the caller's session that its connection ended.
    PublishTermination {
        /// How it ended.
        reason: WebSocketTerminationReason,
        /// What failed.
        failure: WebSocketConnectionFailure,
    },
    /// Publish the established connection to the caller's session.
    CommitEstablished {
        /// Number of the attempt.
        attempt_id: u64,
    },
    /// Cancel the caller's session.
    RevokeSession,
    /// Start a connection cycle for the current target.
    StartConnect {
        /// The connection cycle.
        generation: u64,
    },
    /// Publish the shutdown request.
    PublishShutdown,
    /// Wait for the data callbacks, until the deadline at most.
    DrainCallbacks {
        /// When waiting is given up.
        deadline: Instant,
    },
    /// Wait for responses that were deferred, until the deadline at most.
    AwaitDeferredResponses {
        /// When waiting is given up.
        deadline: Instant,
    },
    /// End every response that is still being dispatched.
    ForceFinishResponses(NetError),
    /// Forget all listeners.
    ClearListeners,
    /// Release the network monitor.
    DestroyMonitor,
    /// Stop the timer of registered requests.
    StopRegistrationTimer,
    /// Tell everybody who waits that the shutdown is complete.
    PublishShutdownComplete,
}

/// How a connection was lost.
#[derive(Clone, Copy, Debug, PartialEq, Eq, Structural)]
pub struct ConnectionLoss {
    /// The error that callers see.
    pub error: NetError,
    /// How the connection ended.
    pub reason: WebSocketTerminationReason,
    /// The failure that the session is told.
    pub failure: WebSocketConnectionFailure,
}

/// A successful attempt that the session has yet to accept.
#[derive(Clone, Copy, Debug, PartialEq, Eq)]
pub struct EstablishedConnection {
    /// Connection cycle of the attempt.
    pub generation: u64,
    /// Number of the attempt, if it belongs to a session.
    pub context_attempt_id: Option<u64>,
    /// The network epoch in which it was made, if it was observed.
    pub network_loss_epoch: Option<u64>,
    /// Whether the connect task waits for an answer.
    pub wants_answer: bool,
}

/// Why the tasks of a connection are being stopped, and what follows.
#[derive(Clone, Copy, Debug, PartialEq, Eq)]
pub enum StopPurpose {
    /// The connection was lost.
    Loss(ConnectionLoss),
    /// The connection was lost, and the event that brought it to light is taken
    /// in afterwards.
    LossFirst(ConnectionLoss),
    /// The client returns to `Idle`.
    Disconnect,
    /// The client shuts down for good.
    Shutdown {
        /// Whether somebody waits for the answer.
        wants_reply: bool,
    },
    /// The event loop has ended.
    WindUp,
}

/// What follows a step of the worker.
#[derive(Clone, Copy, Debug, PartialEq, Eq)]
pub enum WorkerStep {
    /// The step is complete.
    Done,
    /// The step is complete and the event loop ends.
    Exit,
    /// The network has been looked at; now the event itself is taken in.
    Repeat,
    /// The tasks of the connection are stopped, which takes time; the step is
    /// completed with what the surroundings are like then.
    AwaitStop(StopPurpose),
    /// The session is told of the loss; the outcome completes the step.
    AwaitTermination(ConnectionLoss),
    /// As before, and the event itself is taken in afterwards.
    AwaitTerminationFirst(ConnectionLoss),
    /// The session applies the event; the outcome completes the step.
    AwaitSession,
    /// The session reserves the established event; the outcome completes the step.
    AwaitEstablished(EstablishedConnection),
    /// The session publishes the established event; the outcome completes the
    /// step.
    AwaitCommit(EstablishedConnection),
    /// The session's owner is answered; whether it still listens completes the
    /// step.
    AwaitReply,
}

} // verus!
