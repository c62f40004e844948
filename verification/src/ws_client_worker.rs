//! The client worker: one serial owner of a client's lifecycle.
//!
//! The worker turns commands and the results of its background tasks into
//! status changes and an ordered list of actions. It performs no I/O itself.
use vstd::prelude::*;

use crate::clock::{Duration, Instant};
use crate::connection_failure::{
    WebSocketConnectStage, WebSocketConnectionFailure, WebSocketTerminationReason,
};
use crate::connection_status::{connection_status_transition_allowed, ConnectionStatus};
use crate::io_stop::plan_io_stop;
use crate::net_error::NetError;
use crate::task_event::WebSocketTaskEndCause;
use crate::text::trim;
use crate::worker_action::{
    ClientCommand, ConnectTarget, ConnectionLoss, EstablishedConnection, IoEvent, StopPurpose,
    WorkerAction, WorkerInputs, WorkerStep,
};

verus! {

/// The state of a client's lifecycle.
#[derive(Debug)]
pub struct WSClientWorker {
    /// Number of the current connection cycle.
    pub generation: u64,
    /// The published status.
    pub status: ConnectionStatus,
    /// Why the last connection failed or ended.
    pub last_connection_error: Option<NetError>,
    /// The status code of the last upgrade that was refused for good.
    pub last_handshake_http_status: Option<u16>,
    /// What to connect to, and to reconnect to.
    pub connect_target: Option<ConnectTarget>,
    /// Whether a caller waits for the first connection.
    pub connect_waiting: bool,
    /// Whether a connect task runs.
    pub connect_running: bool,
    /// Connection cycle whose read and write tasks run.
    pub active_io: Option<u64>,
    /// The network epoch that the worker has taken notice of.
    pub network_loss_epoch: u64,
    /// When responses of the last shutdown are no longer waited for.
    pub terminal_response_deadline: Option<Instant>,
    /// Whether connections pause while the network is unavailable.
    pub pauses_on_unavailable: bool,
    /// Time that stopping a connection may take.
    pub close_timeout: Duration,
    /// Time that responses may take after their connection ended.
    pub response_dispatch_grace: Duration,
}

/// The worker together with what it has asked for so far.
#[verifier::ext_equal]
pub struct WorkerRun {
    /// The worker.
    pub worker: WSClientWorker,
    /// The actions, first to last.
    pub actions: Seq<WorkerAction>,
}

/// The failure that ends sessions of a cancelled connection.
pub open spec fn cancellation() -> WebSocketConnectionFailure {
    WebSocketConnectionFailure {
        error: NetError::Cancelled,
        stage: WebSocketConnectStage::EventDelivery,
        http_status: None,
        retryable: false,
    }
}

/// The number of the connection cycle after `generation` outside a session;
/// zero is skipped when the numbers wrap.
pub open spec fn next_plain_generation(generation: u64) -> u64 {
    if generation == u64::MAX {
        1
    } else {
        (generation + 1) as u64
    }
}

/// How a connection is lost because the network is.
pub open spec fn network_loss() -> ConnectionLoss {
    loss_at(
        NetError::NetworkError,
        WebSocketTerminationReason::NetworkUnavailable,
        WebSocketConnectStage::EventDelivery,
    )
}

/// A loss with the failure that its session is told.
pub open spec fn loss_at(
    error: NetError,
    reason: WebSocketTerminationReason,
    stage: WebSocketConnectStage,
) -> ConnectionLoss {
    ConnectionLoss {
        error,
        reason,
        failure: WebSocketConnectionFailure { error, stage, http_status: None, retryable: false },
    }
}

/// The deadline of responses after an end at `now`: none without a grace or
/// when the clock cannot express it.
pub open spec fn grace_deadline(grace: Duration, now: Instant) -> Option<Instant> {
    if grace.nanos == 0 {
        None
    } else {
        now.plus(grace)
    }
}

impl WSClientWorker {
    /// Whether the current target belongs to a session.
    pub open spec fn has_session(self) -> bool {
        self.connect_target matches Some(target) && target.context is Some
    }

    /// Whether the current target is to be reconnected.
    pub open spec fn reconnects(self) -> bool {
        self.connect_target matches Some(target) && target.reconnect.enabled
    }

    /// Whether an event of `generation` belongs to the attempt in progress.
    pub open spec fn awaits(self, generation: u64) -> bool {
        self.generation == generation && self.status.is_establishing()
    }

    /// Whether an event of `generation` belongs to the established connection.
    pub open spec fn serves(self, generation: u64) -> bool {
        self.generation == generation && self.status is Connected
    }

    /// What holds of a worker between its steps: a connect task and its caller
    /// exist only during an attempt, every attempt has its connect task, tasks
    /// of a connection run only for the established connection of the current
    /// cycle, there is a target whenever there is an attempt or a connection,
    /// and no caller waits for the connection of a session.
    pub open spec fn wf(self) -> bool {
        &&& self.connect_running == self.status.is_establishing()
        &&& self.connect_waiting ==> self.status.is_establishing()
        &&& (self.active_io matches Some(generation) ==> generation == self.generation
            && self.status is Connected)
        &&& (self.status.is_establishing() || self.status is Connected)
            ==> self.connect_target is Some
        &&& self.has_session() ==> !self.connect_waiting
    }

    /// Whether a live session awaits an attempt of `generation`.
    pub open spec fn session_awaits(self, generation: u64, inputs: WorkerInputs) -> bool {
        self.awaits(generation) && self.has_session() && !inputs.session_cancelled
    }
}

impl WorkerRun {
    /// One more action.
    pub open spec fn emit(self, action: WorkerAction) -> WorkerRun {
        WorkerRun { actions: self.actions.push(action), ..self }
    }

    /// One more action, if `condition` holds.
    pub open spec fn emit_if(self, condition: bool, action: WorkerAction) -> WorkerRun {
        if condition {
            self.emit(action)
        } else {
            self
        }
    }

    /// The status changes along an edge of the lifecycle and is published.
    pub open spec fn set_status(self, status: ConnectionStatus) -> WorkerRun {
        if crate::connection_status::transition_edge(self.worker.status, status) {
            WorkerRun {
                worker: WSClientWorker { status, ..self.worker },
                ..self
            }.emit(WorkerAction::NotifyStatus(status))
        } else {
            self
        }
    }

    /// The status changes along an edge and its listener is waited for.
    pub open spec fn set_status_until(self, status: ConnectionStatus, until: Instant) -> WorkerRun {
        if crate::connection_status::transition_edge(self.worker.status, status) {
            WorkerRun {
                worker: WSClientWorker { status, ..self.worker },
                ..self
            }.emit(WorkerAction::NotifyStatusUntil { status, until })
        } else {
            self
        }
    }

    /// The connect task is aborted and its caller is told `error`.
    pub open spec fn cancel_connect(self, error: NetError) -> WorkerRun {
        WorkerRun {
            worker: WSClientWorker {
                connect_running: false,
                connect_waiting: false,
                ..self.worker
            },
            actions: self.emit_if(
                self.worker.connect_running,
                WorkerAction::AbortConnectTask,
            ).emit_if(self.worker.connect_waiting, WorkerAction::AnswerConnect(Err(error))).actions,
        }
    }

    /// The tasks of the connection are stopped, if there are any.
    pub open spec fn stop_active_io(self, graceful: bool, now: Instant) -> WorkerRun {
        match self.worker.active_io {
            Some(generation) => WorkerRun {
                worker: WSClientWorker { active_io: None, ..self.worker },
                ..self
            }.emit(
                WorkerAction::StopIo(
                    crate::io_stop::stop_plan(
                        graceful && generation == self.worker.generation,
                        now,
                        self.worker.close_timeout,
                    ),
                ),
            ),
            None => self,
        }
    }

    /// The caller's session ends, if there is one.
    pub open spec fn finish_session(
        self,
        reason: WebSocketTerminationReason,
        failure: WebSocketConnectionFailure,
    ) -> WorkerRun {
        self.emit_if(
            self.worker.has_session(),
            WorkerAction::TerminateSession { reason, failure },
        )
    }

    /// The target is forgotten.
    pub open spec fn forget_target(self) -> WorkerRun {
        WorkerRun { worker: WSClientWorker { connect_target: None, ..self.worker }, ..self }
    }

    /// The last error and the last refusal are replaced.
    pub open spec fn record(self, error: Option<NetError>, http_status: Option<u16>) -> WorkerRun {
        WorkerRun {
            worker: WSClientWorker {
                last_connection_error: error,
                last_handshake_http_status: http_status,
                ..self.worker
            },
            ..self
        }
    }

    /// The last error is replaced.
    pub open spec fn record_error(self, error: NetError) -> WorkerRun {
        self.record(Some(error), self.worker.last_handshake_http_status)
    }

    /// A connection cycle of number `generation` begins.
    pub open spec fn begin_cycle(self, generation: u64, reconnecting: bool) -> WorkerRun {
        WorkerRun {
            worker: WSClientWorker { generation, connect_running: true, ..self.worker },
            ..self
        }.set_status(
            if reconnecting {
                ConnectionStatus::Reconnecting
            } else {
                ConnectionStatus::Connecting
            },
        ).emit(WorkerAction::StartConnect { generation })
    }

    /// A session that has no number left for another cycle ends.
    pub open spec fn exhaust_generations(self) -> WorkerRun {
        self.emit(WorkerAction::EndSendSession { cause: None }).record_error(
            NetError::InternalError,
        ).set_status(ConnectionStatus::Disconnected).finish_session(
            WebSocketTerminationReason::ConnectFailed,
            WebSocketConnectionFailure {
                error: NetError::InternalError,
                stage: WebSocketConnectStage::EventDelivery,
                http_status: None,
                retryable: false,
            },
        ).forget_target()
    }

    /// A new connection cycle is started for the target.
    pub open spec fn start_connection(
        self,
        reconnecting: bool,
        shutdown: bool,
        session_cancelled: bool,
    ) -> WorkerRun {
        if shutdown || (self.worker.has_session() && session_cancelled) {
            self
        } else {
            match self.worker.connect_target {
                Some(target) => {
                    let opened = self.emit_if(
                        !reconnecting || self.worker.status is Disconnected,
                        WorkerAction::BeginSendSession {
                            session_context_id: match target.context {
                                Some(context) => Some(context.session_context_id),
                                None => None,
                            },
                            scoped: target.context matches Some(context) && context.scoped,
                        },
                    ).cancel_connect(NetError::Cancelled);
                    let cleared = if reconnecting {
                        opened
                    } else {
                        opened.record(None, None)
                    };
                    if target.context is Some {
                        if self.worker.generation == u64::MAX {
                            cleared.exhaust_generations()
                        } else {
                            cleared.begin_cycle((self.worker.generation + 1) as u64, reconnecting)
                        }
                    } else {
                        cleared.begin_cycle(
                            next_plain_generation(self.worker.generation),
                            reconnecting,
                        )
                    }
                },
                None => self,
            }
        }
    }

    /// A connection is lost, up to the point where its tasks have stopped.
    pub open spec fn lose_connection(self, loss: ConnectionLoss, now: Instant) -> WorkerRun {
        self.emit(WorkerAction::EndSendConnection).record_error(loss.error).stop_active_io(
            false,
            now,
        )
    }

    /// The requests of a lost connection end, and it is replaced or given up.
    pub open spec fn settle_loss(
        self,
        loss: ConnectionLoss,
        shutdown: bool,
        session_cancelled: bool,
    ) -> WorkerRun {
        let failed = self.emit(
            WorkerAction::FailPendingOf { generation: self.worker.generation, error: loss.error },
        ).emit(WorkerAction::FailRejected(loss.error));
        if self.worker.reconnects() {
            failed.start_connection(true, shutdown, session_cancelled)
        } else {
            let ended = failed.emit(WorkerAction::EndSendSession { cause: None }).set_status(
                ConnectionStatus::Disconnected,
            ).emit(WorkerAction::FailQueued(loss.error)).finish_session(loss.reason, loss.failure);
            if self.worker.has_session() {
                ended.forget_target()
            } else {
                ended
            }
        }
    }

    /// The tasks of a lost connection have stopped: its session is told, or the
    /// loss is completed.
    pub open spec fn pass_on_loss(self, loss: ConnectionLoss, inputs: WorkerInputs) -> WorkerRun {
        if self.worker.has_session() {
            self.emit(
                WorkerAction::PublishTermination { reason: loss.reason, failure: loss.failure },
            )
        } else {
            self.settle_loss(loss, inputs.shutdown, inputs.session_cancelled)
        }
    }

    /// A loss is completed after the session was told of it.
    pub open spec fn resume_loss(
        self,
        loss: ConnectionLoss,
        delivered: bool,
        inputs: WorkerInputs,
    ) -> WorkerRun {
        self.emit_if(!delivered, WorkerAction::RevokeSession).settle_loss(
            loss,
            inputs.shutdown,
            inputs.session_cancelled || !delivered,
        )
    }

    /// The network epoch is taken notice of.
    pub open spec fn notice_epoch(self, epoch: u64) -> WorkerRun {
        WorkerRun { worker: WSClientWorker { network_loss_epoch: epoch, ..self.worker }, ..self }
    }

    /// Whether the network was lost since the worker last looked.
    pub open spec fn network_moved(self, inputs: WorkerInputs) -> bool {
        inputs.network matches Some(snapshot) && snapshot.loss_epoch
            > self.worker.network_loss_epoch
    }

    /// The network is looked at before anything else.
    pub open spec fn reconcile(self, inputs: WorkerInputs) -> WorkerRun {
        if self.network_moved(inputs) {
            let noticed = self.notice_epoch(inputs.network->0.loss_epoch);
            if self.worker.status is Connected {
                noticed.lose_connection(network_loss(), inputs.now)
            } else {
                noticed
            }
        } else {
            self
        }
    }

    /// Whether looking at the network ends the connection.
    pub open spec fn reconcile_loses(self, inputs: WorkerInputs) -> bool {
        self.network_moved(inputs) && self.worker.status is Connected
    }

    /// An established connection is taken into service.
    pub open spec fn serve(self, connection: EstablishedConnection) -> WorkerRun {
        let epoch = match connection.network_loss_epoch {
            Some(epoch) => epoch,
            None => self.worker.network_loss_epoch,
        };
        let serving = WorkerRun {
            worker: WSClientWorker {
                connect_running: false,
                network_loss_epoch: epoch,
                active_io: Some(connection.generation),
                last_handshake_http_status: None,
                ..self.worker
            },
            ..self
        };
        serving.emit(
            WorkerAction::StartIo { generation: connection.generation, loss_epoch: epoch },
        ).emit(WorkerAction::AdmitSendConnection { loss_epoch: epoch }).set_status(
            ConnectionStatus::Connected,
        )
    }

    /// Whoever waits for the connection is answered.
    pub open spec fn answer_established(self, connection: EstablishedConnection) -> WorkerRun {
        WorkerRun {
            worker: WSClientWorker { connect_waiting: false, ..self.worker },
            actions: self.emit_if(
                self.worker.connect_waiting,
                WorkerAction::AnswerConnect(Ok(())),
            ).actions,
        }.emit_if(connection.wants_answer, WorkerAction::AnswerTask(Ok(())))
    }

    /// Whether a session publishes the connection before anybody is answered.
    pub open spec fn commits(self, connection: EstablishedConnection) -> bool {
        connection.context_attempt_id is Some && self.worker.has_session()
    }

    /// An established connection is taken into service, as far as the worker
    /// can take it alone.
    pub open spec fn establish(self, connection: EstablishedConnection) -> WorkerRun {
        let serving = self.serve(connection);
        if self.commits(connection) {
            serving.emit(
                WorkerAction::CommitEstablished { attempt_id: connection.context_attempt_id->0 },
            )
        } else {
            serving.answer_established(connection)
        }
    }

    /// What has to follow the start of service.
    pub open spec fn establish_step(self, connection: EstablishedConnection) -> WorkerStep {
        if self.commits(connection) {
            WorkerStep::AwaitCommit(connection)
        } else {
            WorkerStep::Done
        }
    }

    /// The session published the connection, or could not and is revoked.
    pub open spec fn commit(self, connection: EstablishedConnection, committed: bool) -> WorkerRun {
        self.emit_if(
            !committed && self.worker.has_session(),
            WorkerAction::RevokeSession,
        ).answer_established(connection)
    }

    /// An established connection that the session cannot take.
    pub open spec fn refuse_established(self, wants_answer: bool, error: NetError) -> WorkerRun {
        self.emit_if(self.worker.has_session(), WorkerAction::RevokeSession).emit_if(
            wants_answer,
            WorkerAction::AnswerTask(Err(error)),
        )
    }

    /// A connection cycle failed for good.
    pub open spec fn fail_cycle(
        self,
        failure: WebSocketConnectionFailure,
        reason: WebSocketTerminationReason,
    ) -> WorkerRun {
        let http_status = if failure.error is ConnectError && failure.stage is WebSocketUpgrade {
            failure.http_status
        } else {
            None
        };
        let released = WorkerRun {
            worker: WSClientWorker { connect_running: false, ..self.worker },
            ..self
        }.emit(WorkerAction::EndSendSession { cause: None }).record(
            Some(failure.error),
            http_status,
        ).set_status(ConnectionStatus::Disconnected);
        let answered = WorkerRun {
            worker: WSClientWorker { connect_waiting: false, ..released.worker },
            ..released
        }.emit_if(
            self.worker.connect_waiting,
            WorkerAction::AnswerConnect(Err(failure.error)),
        ).emit(WorkerAction::FailQueued(failure.error)).finish_session(reason, failure);
        if self.worker.has_session() || !(reason is RetryExhausted) {
            answered.forget_target()
        } else {
            answered
        }
    }
}

/// The answer of a refused connection request, if it is refused.
pub open spec fn connect_refusal(
    worker: WSClientWorker,
    bounded: bool,
    policy_valid: bool,
) -> Option<NetError> {
    if worker.status.is_occupied() {
        Some(NetError::ConnectionExists)
    } else if worker.status is Closed {
        Some(NetError::EngineDropped)
    } else if !policy_valid || (worker.pauses_on_unavailable && !bounded) {
        Some(NetError::ConfigError)
    } else {
        None
    }
}

/// The answer of a refused connection request of a session, if it is refused.
pub open spec fn context_refusal(
    worker: WSClientWorker,
    bounded: bool,
    session_cancelled: bool,
    validation: Result<(), NetError>,
) -> Option<NetError> {
    if worker.status is Closed {
        Some(NetError::EngineDropped)
    } else if worker.status.is_occupied() {
        Some(NetError::ConnectionExists)
    } else if session_cancelled {
        Some(NetError::Cancelled)
    } else if worker.pauses_on_unavailable && !bounded {
        Some(NetError::ConfigError)
    } else {
        match validation {
            Ok(()) => None,
            Err(error) => Some(error),
        }
    }
}

impl WorkerRun {
    /// The worker with another target.
    pub open spec fn aim_at(self, target: ConnectTarget) -> WorkerRun {
        WorkerRun { worker: WSClientWorker { connect_target: Some(target), ..self.worker }, ..self }
    }

    /// A connection is requested without a session.
    pub open spec fn connect(
        self,
        target: ConnectTarget,
        policy_valid: bool,
        inputs: WorkerInputs,
    ) -> WorkerRun {
        match connect_refusal(
            self.worker,
            target.reconnect.max_elapsed is Some,
            policy_valid,
        ) {
            Some(error) => self.emit(WorkerAction::AnswerCommand(Err(error))),
            None => {
                let started = self.aim_at(target).start_connection(
                    false,
                    inputs.shutdown,
                    inputs.session_cancelled,
                );
                WorkerRun {
                    worker: WSClientWorker { connect_waiting: true, ..started.worker },
                    ..started
                }
            },
        }
    }

    /// A connection is requested on behalf of a session.
    pub open spec fn connect_with_context(
        self,
        target: ConnectTarget,
        validation: Result<(), NetError>,
        inputs: WorkerInputs,
    ) -> WorkerRun {
        match context_refusal(
            self.worker,
            target.reconnect.max_elapsed is Some,
            inputs.session_cancelled,
            validation,
        ) {
            Some(error) => self.emit(
                WorkerAction::TerminateSession {
                    reason: WebSocketTerminationReason::ConnectFailed,
                    failure: WebSocketConnectionFailure {
                        error,
                        stage: WebSocketConnectStage::RequestBuild,
                        http_status: None,
                        retryable: false,
                    },
                },
            ).emit(WorkerAction::AnswerCommand(Err(error))),
            None => self.aim_at(target).start_connection(
                false,
                inputs.shutdown,
                inputs.session_cancelled,
            ).emit(WorkerAction::AnswerCommand(Ok(()))),
        }
    }

    /// The connection is being closed.
    pub open spec fn disconnect(self, inputs: WorkerInputs) -> WorkerRun {
        self.emit(
            WorkerAction::EndSendSession { cause: Some(WebSocketTaskEndCause::Disconnect) },
        ).set_status(ConnectionStatus::Closing).cancel_connect(NetError::Cancelled).stop_active_io(
            !inputs.scope_cancelled,
            inputs.now,
        )
    }

    /// The connection is closed and the client returns to `Idle`.
    pub open spec fn finish_disconnect(self, inputs: WorkerInputs) -> WorkerRun {
        self.emit(WorkerAction::FailQueued(NetError::Cancelled)).emit(
            WorkerAction::FailPending(NetError::Cancelled),
        ).record(None, None).set_status(ConnectionStatus::Idle).finish_session(
            if inputs.session_cancelled {
                WebSocketTerminationReason::Cancelled
            } else {
                WebSocketTerminationReason::Disconnected
            },
            cancellation(),
        ).forget_target().emit(WorkerAction::AnswerCommand(Ok(())))
    }

    /// The client is shutting down for good.
    pub open spec fn shut_down(self, inputs: WorkerInputs) -> WorkerRun {
        self.emit(WorkerAction::CloseTaskObservers).emit(
            WorkerAction::EndSendSession { cause: Some(WebSocketTaskEndCause::Shutdown) },
        ).set_status(ConnectionStatus::Closing).cancel_connect(NetError::Cancelled).stop_active_io(
            true,
            inputs.now,
        )
    }

    /// The client is shut down. Responses and the listener of the last status
    /// are given their time from here on.
    pub open spec fn finish_shut_down(self, wants_reply: bool, inputs: WorkerInputs) -> WorkerRun {
        let failed = self.emit(WorkerAction::CloseQueues).emit(
            WorkerAction::FailQueued(NetError::Cancelled),
        ).emit(WorkerAction::FailPending(NetError::Cancelled)).finish_session(
            WebSocketTerminationReason::Shutdown,
            cancellation(),
        ).forget_target();
        let bounded = WorkerRun {
            worker: WSClientWorker {
                terminal_response_deadline: grace_deadline(
                    self.worker.response_dispatch_grace,
                    inputs.now,
                ),
                ..failed.worker
            },
            ..failed
        };
        let closed = match inputs.now.plus(self.worker.close_timeout) {
            Some(until) => bounded.set_status_until(ConnectionStatus::Closed, until),
            None => bounded.set_status(ConnectionStatus::Closed),
        };
        closed.emit_if(wants_reply, WorkerAction::AnswerCommand(Ok(())))
    }

    /// The event loop has ended.
    pub open spec fn wind_up(self, inputs: WorkerInputs) -> WorkerRun {
        self.emit(WorkerAction::PublishShutdown).emit(WorkerAction::CloseTaskObservers).emit(
            WorkerAction::EndSendSession { cause: Some(WebSocketTaskEndCause::Shutdown) },
        ).cancel_connect(NetError::Cancelled).stop_active_io(false, inputs.now)
    }

    /// Until when responses are waited for at the end, if they are.
    pub open spec fn last_deadline(self, inputs: WorkerInputs) -> Option<Instant> {
        match self.worker.terminal_response_deadline {
            Some(deadline) => Some(deadline),
            None => grace_deadline(self.worker.response_dispatch_grace, inputs.now),
        }
    }

    /// Callbacks and deferred responses are waited for, if there is time for
    /// them.
    pub open spec fn await_responses(self, deadline: Option<Instant>) -> WorkerRun {
        match deadline {
            Some(deadline) => self.emit(WorkerAction::DrainCallbacks { deadline }).emit(
                WorkerAction::AwaitDeferredResponses { deadline },
            ),
            None => self,
        }
    }

    /// What the event loop leaves behind when it ends.
    pub open spec fn finish_wind_up(self, inputs: WorkerInputs) -> WorkerRun {
        self.finish_session(
            WebSocketTerminationReason::Shutdown,
            cancellation(),
        ).forget_target().emit(WorkerAction::CloseQueues).emit(
            WorkerAction::FailQueued(NetError::Cancelled),
        ).emit(WorkerAction::FailPending(NetError::Cancelled)).await_responses(
            self.last_deadline(inputs),
        ).emit(WorkerAction::ForceFinishResponses(NetError::Cancelled)).emit(
            WorkerAction::ClearListeners,
        ).emit(WorkerAction::DestroyMonitor).emit(WorkerAction::StopRegistrationTimer).emit(
            WorkerAction::PublishShutdownComplete,
        )
    }

    /// The tasks of the connection have stopped.
    pub open spec fn stopped(self, purpose: StopPurpose, inputs: WorkerInputs) -> WorkerRun {
        match purpose {
            StopPurpose::Loss(loss) => self.pass_on_loss(loss, inputs),
            StopPurpose::LossFirst(loss) => self.pass_on_loss(loss, inputs),
            StopPurpose::Disconnect => self.finish_disconnect(inputs),
            StopPurpose::Shutdown { wants_reply } => self.finish_shut_down(wants_reply, inputs),
            StopPurpose::WindUp => self.finish_wind_up(inputs),
        }
    }

    /// What has to follow the stop.
    pub open spec fn stopped_step(self, purpose: StopPurpose) -> WorkerStep {
        match purpose {
            StopPurpose::Loss(loss) => if self.worker.has_session() {
                WorkerStep::AwaitTermination(loss)
            } else {
                WorkerStep::Done
            },
            StopPurpose::LossFirst(loss) => if self.worker.has_session() {
                WorkerStep::AwaitTerminationFirst(loss)
            } else {
                WorkerStep::Repeat
            },
            StopPurpose::Disconnect => WorkerStep::Done,
            StopPurpose::Shutdown { wants_reply } => WorkerStep::Exit,
            StopPurpose::WindUp => WorkerStep::Done,
        }
    }

    /// A command is carried out.
    pub open spec fn command(self, command: ClientCommand, inputs: WorkerInputs) -> WorkerRun {
        match command {
            ClientCommand::Connect {
                url,
                headers,
                has_header_provider,
                reconnect,
                policy_valid,
            } => self.connect(
                ConnectTarget { url, headers, has_header_provider, reconnect, context: None },
                policy_valid,
                inputs,
            ),
            ClientCommand::ConnectWithContext { url, headers, reconnect, context, validation } =>
            self.connect_with_context(
                ConnectTarget {
                    url,
                    headers,
                    has_header_provider: false,
                    reconnect,
                    context: Some(context),
                },
                validation,
                inputs,
            ),
            ClientCommand::Disconnect => self.disconnect(inputs),
            ClientCommand::NetworkAvailable => if self.worker.status is Disconnected
                && self.worker.reconnects() {
                self.start_connection(true, inputs.shutdown, inputs.session_cancelled)
            } else {
                self
            },
            ClientCommand::Shutdown { wants_reply } => self.shut_down(inputs),
        }
    }

    /// What has to follow a command.
    pub open spec fn command_step(self, command: ClientCommand, inputs: WorkerInputs) -> WorkerStep {
        match command {
            ClientCommand::ConnectWithContext { url, headers, reconnect, context, validation } =>
            if context_refusal(
                self.worker,
                reconnect.max_elapsed is Some,
                inputs.session_cancelled,
                validation,
            ) is None {
                WorkerStep::AwaitReply
            } else {
                WorkerStep::Done
            },
            ClientCommand::Disconnect => WorkerStep::AwaitStop(StopPurpose::Disconnect),
            ClientCommand::Shutdown { wants_reply } => WorkerStep::AwaitStop(
                StopPurpose::Shutdown { wants_reply },
            ),
            _ => WorkerStep::Done,
        }
    }

    /// The owner of a session was answered, or is gone and the session is
    /// revoked.
    pub open spec fn replied(self, delivered: bool) -> WorkerRun {
        self.emit_if(!delivered && self.worker.has_session(), WorkerAction::RevokeSession)
    }

    /// A result of a background task is taken in, the network being up to date.
    pub open spec fn io_event(self, event: IoEvent, inputs: WorkerInputs) -> WorkerRun {
        match event {
            IoEvent::ContextProgress { generation } => self.emit_if(
                !self.worker.session_awaits(generation, inputs),
                WorkerAction::AnswerTask(Err(NetError::Cancelled)),
            ),
            IoEvent::ConnectSucceeded {
                generation,
                context_attempt_id,
                network_loss_epoch,
                wants_answer,
            } => if inputs.shutdown || !self.worker.awaits(generation) {
                self.emit_if(wants_answer, WorkerAction::AnswerTask(Err(NetError::Cancelled)))
            } else if network_loss_epoch matches Some(epoch) && inputs.network matches Some(
                snapshot,
            ) && snapshot.invalidates(epoch) {
                self.emit_if(wants_answer, WorkerAction::AnswerTask(Err(NetError::NetworkError)))
            } else if context_attempt_id is Some {
                if self.worker.session_awaits(generation, inputs) {
                    self
                } else {
                    self.refuse_established(wants_answer, NetError::Cancelled)
                }
            } else {
                self.establish(
                    EstablishedConnection {
                        generation,
                        context_attempt_id,
                        network_loss_epoch,
                        wants_answer,
                    },
                )
            },
            IoEvent::ConnectFailed { generation, failure, reason } => if self.worker.awaits(
                generation,
            ) {
                self.fail_cycle(failure, reason)
            } else {
                self
            },
            IoEvent::CallbackDispatchFailed { generation } => if self.worker.serves(generation) {
                self.lose_connection(callback_loss(), inputs.now)
            } else {
                self
            },
            IoEvent::ReadEnded { generation, error } => if self.worker.serves(generation) {
                self.lose_connection(io_loss(error), inputs.now)
            } else {
                self
            },
            IoEvent::WriteEnded { generation, error } => if self.worker.serves(generation) {
                self.lose_connection(io_loss(error), inputs.now)
            } else {
                self
            },
        }
    }

    /// What has to follow the intake of a result.
    pub open spec fn io_event_step(self, event: IoEvent, inputs: WorkerInputs) -> WorkerStep {
        match event {
            IoEvent::ContextProgress { generation } => if self.worker.session_awaits(
                generation,
                inputs,
            ) {
                WorkerStep::AwaitSession
            } else {
                WorkerStep::Done
            },
            IoEvent::ConnectSucceeded {
                generation,
                context_attempt_id,
                network_loss_epoch,
                wants_answer,
            } => if !inputs.shutdown && context_attempt_id is Some && self.worker.session_awaits(
                generation,
                inputs,
            ) && !(network_loss_epoch matches Some(epoch) && inputs.network matches Some(snapshot)
                && snapshot.invalidates(epoch)) {
                WorkerStep::AwaitEstablished(
                    EstablishedConnection {
                        generation,
                        context_attempt_id,
                        network_loss_epoch,
                        wants_answer,
                    },
                )
            } else {
                WorkerStep::Done
            },
            IoEvent::ConnectFailed { generation, failure, reason } => WorkerStep::Done,
            IoEvent::CallbackDispatchFailed { generation } => self.loss_step(
                generation,
                callback_loss(),
            ),
            IoEvent::ReadEnded { generation, error } => self.loss_step(generation, io_loss(error)),
            IoEvent::WriteEnded { generation, error } => self.loss_step(generation, io_loss(error)),
        }
    }

    /// What has to follow a loss of the connection of `generation`.
    pub open spec fn loss_step(self, generation: u64, loss: ConnectionLoss) -> WorkerStep {
        if self.worker.serves(generation) {
            WorkerStep::AwaitStop(StopPurpose::Loss(loss))
        } else {
            WorkerStep::Done
        }
    }
}

/// How a connection is lost when a data callback cannot be started.
pub open spec fn callback_loss() -> ConnectionLoss {
    loss_at(
        NetError::TaskInterruptionError,
        WebSocketTerminationReason::IoFailure,
        WebSocketConnectStage::EventDelivery,
    )
}

/// How a connection is lost when one of its tasks ends.
pub open spec fn io_loss(error: NetError) -> ConnectionLoss {
    loss_at(error, WebSocketTerminationReason::IoFailure, WebSocketConnectStage::WebSocketIo)
}

impl WSClientWorker {
    /// A worker that has done nothing yet.
    pub fn new(
        pauses_on_unavailable: bool,
        close_timeout: Duration,
        response_dispatch_grace: Duration,
    ) -> (worker: Self)
        ensures
            worker.generation == 0,
            worker.status is Idle,
            worker.last_connection_error is None,
            worker.last_handshake_http_status is None,
            worker.connect_target is None,
            !worker.connect_waiting,
            !worker.connect_running,
            worker.active_io is None,
            worker.network_loss_epoch == 0,
            worker.terminal_response_deadline is None,
            worker.pauses_on_unavailable == pauses_on_unavailable,
            worker.close_timeout == close_timeout,
            worker.response_dispatch_grace == response_dispatch_grace,
            worker.wf(),
    {
        WSClientWorker {
            generation: 0,
            status: ConnectionStatus::Idle,
            last_connection_error: None,
            last_handshake_http_status: None,
            connect_target: None,
            connect_waiting: false,
            connect_running: false,
            active_io: None,
            network_loss_epoch: 0,
            terminal_response_deadline: None,
            pauses_on_unavailable,
            close_timeout,
            response_dispatch_grace,
        }
    }

    /// The worker and the actions as one value.
    pub open spec fn run(self, actions: Seq<WorkerAction>) -> WorkerRun {
        WorkerRun { worker: self, actions }
    }

    /// Whether the current target belongs to a session.
    pub fn context_session(&self) -> (present: bool)
        ensures
            present == self.has_session(),
    {
        match &self.connect_target {
            Some(target) => target.context.is_some(),
            None => false,
        }
    }

    fn reconnect_enabled(&self) -> (enabled: bool)
        ensures
            enabled == self.reconnects(),
    {
        match &self.connect_target {
            Some(target) => target.reconnect.enabled,
            None => false,
        }
    }

    /// The failure that ends sessions of a cancelled connection.
    pub fn cancellation_failure() -> (failure: WebSocketConnectionFailure)
        ensures
            failure == cancellation(),
    {
        WebSocketConnectionFailure::new(
            NetError::Cancelled,
            WebSocketConnectStage::EventDelivery,
            None,
            false,
        )
    }

    /// Requests a status; only edges of the lifecycle are taken and published.
    pub fn set_status(&mut self, status: ConnectionStatus, actions: &mut Vec<WorkerAction>)
        ensures
            final(self).run(final(actions)@) == old(self).run(old(actions)@).set_status(status),
    {
        if connection_status_transition_allowed(self.status, status) {
            self.status = status;
            actions.push(WorkerAction::NotifyStatus(status));
        }
    }

    /// Requests a status whose listener is waited for until a deadline.
    pub fn set_status_and_wait(
        &mut self,
        status: ConnectionStatus,
        until: Instant,
        actions: &mut Vec<WorkerAction>,
    )
        ensures
            final(self).run(final(actions)@) == old(self).run(old(actions)@).set_status_until(
                status,
                until,
            ),
    {
        if connection_status_transition_allowed(self.status, status) {
            self.status = status;
            actions.push(WorkerAction::NotifyStatusUntil { status, until });
        }
    }

    /// Aborts the connect task and ends the wait of its caller.
    pub fn cancel_connect(&mut self, error: NetError, actions: &mut Vec<WorkerAction>)
        ensures
            final(self).run(final(actions)@) == old(self).run(old(actions)@).cancel_connect(error),
    {
        if self.connect_running {
            actions.push(WorkerAction::AbortConnectTask);
        }
        if self.connect_waiting {
            actions.push(WorkerAction::AnswerConnect(Err(error)));
        }
        self.connect_running = false;
        self.connect_waiting = false;
    }

    /// Stops the tasks of the connection; a close frame is attempted only for
    /// the current connection cycle.
    pub fn stop_active_io(
        &mut self,
        graceful: bool,
        now: Instant,
        actions: &mut Vec<WorkerAction>,
    )
        ensures
            final(self).run(final(actions)@) == old(self).run(old(actions)@).stop_active_io(
                graceful,
                now,
            ),
    {
        match self.active_io {
            Some(generation) => {
                self.active_io = None;
                actions.push(
                    WorkerAction::StopIo(
                        plan_io_stop(
                            graceful && generation == self.generation,
                            now,
                            self.close_timeout,
                        ),
                    ),
                );
            },
            None => {},
        }
    }

    /// Ends the caller's session, if there is one.
    pub fn finish_context_session(
        &self,
        reason: WebSocketTerminationReason,
        failure: WebSocketConnectionFailure,
        actions: &mut Vec<WorkerAction>,
    )
        ensures
            self.run(final(actions)@) == self.run(old(actions)@).finish_session(reason, failure),
    {
        if self.context_session() {
            actions.push(WorkerAction::TerminateSession { reason, failure });
        }
    }

    /// The deadline of responses after an end at `now`.
    pub fn response_dispatch_grace_deadline(&self, now: Instant) -> (deadline: Option<Instant>)
        ensures
            deadline == grace_deadline(self.response_dispatch_grace, now),
    {
        if self.response_dispatch_grace.is_zero() {
            None
        } else {
            now.checked_add(self.response_dispatch_grace)
        }
    }

    /// Whether a connection made in `epoch` may still be taken into service.
    pub fn network_epoch_is_current(&self, epoch: Option<u64>, inputs: &WorkerInputs) -> (current:
        bool)
        ensures
            current == !(epoch matches Some(made_in) && inputs.network matches Some(snapshot)
                && snapshot.invalidates(made_in)),
    {
        match (epoch, inputs.network) {
            (Some(made_in), Some(snapshot)) => !snapshot.is_invalid_for(made_in),
            _ => true,
        }
    }

    fn begin_cycle(
        &mut self,
        generation: u64,
        reconnecting: bool,
        actions: &mut Vec<WorkerAction>,
    )
        ensures
            final(self).run(final(actions)@) == old(self).run(old(actions)@).begin_cycle(
                generation,
                reconnecting,
            ),
    {
        self.generation = generation;
        self.connect_running = true;
        self.set_status(
            if reconnecting {
                ConnectionStatus::Reconnecting
            } else {
                ConnectionStatus::Connecting
            },
            actions,
        );
        actions.push(WorkerAction::StartConnect { generation });
    }

    /// Starts a new connection cycle for the target.
    ///
    /// Nothing happens without a target, during shutdown or for a cancelled
    /// session. Cycles of a session are numbered without ever repeating a
    /// number; a session without a number left ends with an internal error.
    pub fn start_connection(
        &mut self,
        reconnecting: bool,
        shutdown: bool,
        session_cancelled: bool,
        actions: &mut Vec<WorkerAction>,
    )
        ensures
            final(self).run(final(actions)@) == old(self).run(old(actions)@).start_connection(
                reconnecting,
                shutdown,
                session_cancelled,
            ),
    {
        if shutdown || (self.context_session() && session_cancelled) {
            return ;
        }
        let context = match &self.connect_target {
            Some(target) => target.context,
            None => {
                return ;
            },
        };
        if !reconnecting || self.status == ConnectionStatus::Disconnected {
            actions.push(
                WorkerAction::BeginSendSession {
                    session_context_id: match context {
                        Some(context) => Some(context.session_context_id),
                        None => None,
                    },
                    scoped: match context {
                        Some(context) => context.scoped,
                        None => false,
                    },
                },
            );
        }
        self.cancel_connect(NetError::Cancelled, actions);
        if !reconnecting {
            self.last_connection_error = None;
            self.last_handshake_http_status = None;
        }
        if context.is_some() {
            match self.generation.checked_add(1) {
                Some(generation) => {
                    self.begin_cycle(generation, reconnecting, actions);
                },
                None => {
                    actions.push(WorkerAction::EndSendSession { cause: None });
                    self.last_connection_error = Some(NetError::InternalError);
                    self.set_status(ConnectionStatus::Disconnected, actions);
                    self.finish_context_session(
                        WebSocketTerminationReason::ConnectFailed,
                        WebSocketConnectionFailure::new(
                            NetError::InternalError,
                            WebSocketConnectStage::EventDelivery,
                            None,
                            false,
                        ),
                        actions,
                    );
                    self.connect_target = None;
                },
            }
        } else {
            let next: u64 = self.generation.wrapping_add(1);
            let generation: u64 = if next == 0 {
                1
            } else {
                next
            };
            self.begin_cycle(generation, reconnecting, actions);
        }
    }

    fn lose_connection(
        &mut self,
        loss: ConnectionLoss,
        now: Instant,
        actions: &mut Vec<WorkerAction>,
    )
        ensures
            final(self).run(final(actions)@) == old(self).run(old(actions)@).lose_connection(
                loss,
                now,
            ),
    {
        actions.push(WorkerAction::EndSendConnection);
        self.last_connection_error = Some(loss.error);
        self.stop_active_io(false, now, actions);
    }

    fn settle_loss(
        &mut self,
        loss: ConnectionLoss,
        shutdown: bool,
        session_cancelled: bool,
        actions: &mut Vec<WorkerAction>,
    )
        ensures
            final(self).run(final(actions)@) == old(self).run(old(actions)@).settle_loss(
                loss,
                shutdown,
                session_cancelled,
            ),
    {
        actions.push(
            WorkerAction::FailPendingOf { generation: self.generation, error: loss.error },
        );
        actions.push(WorkerAction::FailRejected(loss.error));
        if self.reconnect_enabled() {
            self.start_connection(true, shutdown, session_cancelled, actions);
        } else {
            actions.push(WorkerAction::EndSendSession { cause: None });
            self.set_status(ConnectionStatus::Disconnected, actions);
            actions.push(WorkerAction::FailQueued(loss.error));
            self.finish_context_session(loss.reason, loss.failure, actions);
            if self.context_session() {
                self.connect_target = None;
            }
        }
    }

    /// Ends the sends of a lost connection and stops its tasks; the rest follows
    /// when they have stopped.
    pub fn connection_lost(
        &mut self,
        loss: ConnectionLoss,
        inputs: &WorkerInputs,
        actions: &mut Vec<WorkerAction>,
    ) -> (step: WorkerStep)
        ensures
            final(self).run(final(actions)@) == old(self).run(old(actions)@).lose_connection(
                loss,
                inputs.now,
            ),
            step == WorkerStep::AwaitStop(StopPurpose::Loss(loss)),
    {
        self.lose_connection(loss, inputs.now, actions);
        WorkerStep::AwaitStop(StopPurpose::Loss(loss))
    }

    fn pass_on_loss(
        &mut self,
        loss: ConnectionLoss,
        inputs: &WorkerInputs,
        actions: &mut Vec<WorkerAction>,
    ) -> (told: bool)
        ensures
            final(self).run(final(actions)@) == old(self).run(old(actions)@).pass_on_loss(
                loss,
                *inputs,
            ),
            told == old(self).has_session(),
    {
        if self.context_session() {
            actions.push(
                WorkerAction::PublishTermination { reason: loss.reason, failure: loss.failure },
            );
            true
        } else {
            self.settle_loss(loss, inputs.shutdown, inputs.session_cancelled, actions);
            false
        }
    }

    /// Completes a step once the tasks of the connection have stopped. The
    /// inputs are those of that moment.
    pub fn resume_stop(
        &mut self,
        purpose: StopPurpose,
        inputs: &WorkerInputs,
        actions: &mut Vec<WorkerAction>,
    ) -> (step: WorkerStep)
        ensures
            final(self).run(final(actions)@) == old(self).run(old(actions)@).stopped(
                purpose,
                *inputs,
            ),
            step == old(self).run(old(actions)@).stopped_step(purpose),
            crate::worker_outcome_laws::tells_no_success(
                old(self).run(old(actions)@),
                final(self).run(final(actions)@),
            ),
            purpose is Disconnect ==> ({
                let before = old(self).run(old(actions)@);
                let after = final(self).run(final(actions)@);
                let answer = WorkerAction::AnswerCommand(Ok(()));
                &&& crate::worker_outcome_laws::asks_in_turn(
                    before,
                    after,
                    WorkerAction::FailQueued(NetError::Cancelled),
                    answer,
                )
                &&& crate::worker_outcome_laws::asks_in_turn(
                    before,
                    after,
                    WorkerAction::FailPending(NetError::Cancelled),
                    answer,
                )
            }),
    {
        proof {
            let before = self.run(actions@);
            crate::worker_outcome_laws::stops_tell_no_success(before, purpose, *inputs);
            crate::worker_ending_laws::disconnects_settle_every_request(before, *inputs);
        }
        match purpose {
            StopPurpose::Loss(loss) => if self.pass_on_loss(loss, inputs, actions) {
                WorkerStep::AwaitTermination(loss)
            } else {
                WorkerStep::Done
            },
            StopPurpose::LossFirst(loss) => if self.pass_on_loss(loss, inputs, actions) {
                WorkerStep::AwaitTerminationFirst(loss)
            } else {
                WorkerStep::Repeat
            },
            StopPurpose::Disconnect => {
                self.finish_disconnect(inputs, actions);
                WorkerStep::Done
            },
            StopPurpose::Shutdown { wants_reply } => {
                self.finish_shut_down(wants_reply, inputs, actions);
                WorkerStep::Exit
            },
            StopPurpose::WindUp => {
                self.finish_wind_up(inputs, actions);
                WorkerStep::Done
            },
        }
    }

    /// Completes a loss after the session was told of it; a session that
    /// cannot take the event is revoked.
    pub fn resume_connection_loss(
        &mut self,
        loss: ConnectionLoss,
        delivered: bool,
        inputs: &WorkerInputs,
        actions: &mut Vec<WorkerAction>,
    )
        ensures
            final(self).run(final(actions)@) == old(self).run(old(actions)@).resume_loss(
                loss,
                delivered,
                *inputs,
            ),
    {
        if !delivered {
            actions.push(WorkerAction::RevokeSession);
        }
        self.settle_loss(loss, inputs.shutdown, inputs.session_cancelled || !delivered, actions);
    }

    /// Takes notice of a loss of the network; an established connection does
    /// not survive it.
    pub fn reconcile_network_status(
        &mut self,
        inputs: &WorkerInputs,
        actions: &mut Vec<WorkerAction>,
    ) -> (step: WorkerStep)
        ensures
            final(self).run(final(actions)@) == old(self).run(old(actions)@).reconcile(*inputs),
            step == if old(self).run(old(actions)@).reconcile_loses(*inputs) {
                WorkerStep::AwaitStop(StopPurpose::Loss(network_loss()))
            } else {
                WorkerStep::Done
            },
    {
        match inputs.network {
            Some(snapshot) => if snapshot.loss_epoch > self.network_loss_epoch {
                self.network_loss_epoch = snapshot.loss_epoch;
                if self.status == ConnectionStatus::Connected {
                    let loss = ConnectionLoss {
                        error: NetError::NetworkError,
                        reason: WebSocketTerminationReason::NetworkUnavailable,
                        failure: WebSocketConnectionFailure::new(
                            NetError::NetworkError,
                            WebSocketConnectStage::EventDelivery,
                            None,
                            false,
                        ),
                    };
                    return self.connection_lost(loss, inputs, actions);
                }
            },
            None => {},
        }
        WorkerStep::Done
    }

    fn answer_established(
        &mut self,
        connection: EstablishedConnection,
        actions: &mut Vec<WorkerAction>,
    )
        ensures
            final(self).run(final(actions)@) == old(self).run(old(actions)@).answer_established(
                connection,
            ),
    {
        if self.connect_waiting {
            self.connect_waiting = false;
            actions.push(WorkerAction::AnswerConnect(Ok(())));
        }
        if connection.wants_answer {
            actions.push(WorkerAction::AnswerTask(Ok(())));
        }
    }

    fn establish(
        &mut self,
        connection: EstablishedConnection,
        actions: &mut Vec<WorkerAction>,
    ) -> (step: WorkerStep)
        ensures
            final(self).run(final(actions)@) == old(self).run(old(actions)@).establish(connection),
            step == old(self).run(old(actions)@).establish_step(connection),
    {
        self.connect_running = false;
        let epoch: u64 = match connection.network_loss_epoch {
            Some(epoch) => epoch,
            None => self.network_loss_epoch,
        };
        self.network_loss_epoch = epoch;
        self.active_io = Some(connection.generation);
        actions.push(
            WorkerAction::StartIo { generation: connection.generation, loss_epoch: epoch },
        );
        actions.push(WorkerAction::AdmitSendConnection { loss_epoch: epoch });
        self.last_handshake_http_status = None;
        self.set_status(ConnectionStatus::Connected, actions);
        match connection.context_attempt_id {
            Some(attempt_id) => if self.context_session() {
                actions.push(WorkerAction::CommitEstablished { attempt_id });
                return WorkerStep::AwaitCommit(connection);
            },
            None => {},
        }
        self.answer_established(connection, actions);
        WorkerStep::Done
    }

    /// Answers whoever waits for the connection after the session published it;
    /// a session that could not is revoked.
    pub fn resume_commit(
        &mut self,
        connection: EstablishedConnection,
        committed: bool,
        actions: &mut Vec<WorkerAction>,
    )
        ensures
            final(self).run(final(actions)@) == old(self).run(old(actions)@).commit(
                connection,
                committed,
            ),
    {
        if !committed && self.context_session() {
            actions.push(WorkerAction::RevokeSession);
        }
        self.answer_established(connection, actions);
    }

    /// Revokes the session whose owner did not wait for the answer to its
    /// request.
    pub fn resume_reply(&self, delivered: bool, actions: &mut Vec<WorkerAction>)
        ensures
            self.run(final(actions)@) == self.run(old(actions)@).replied(delivered),
    {
        if !delivered && self.context_session() {
            actions.push(WorkerAction::RevokeSession);
        }
    }

    fn refuse_established(
        &self,
        wants_answer: bool,
        error: NetError,
        actions: &mut Vec<WorkerAction>,
    )
        ensures
            self.run(final(actions)@) == self.run(old(actions)@).refuse_established(
                wants_answer,
                error,
            ),
    {
        if self.context_session() {
            actions.push(WorkerAction::RevokeSession);
        }
        if wants_answer {
            actions.push(WorkerAction::AnswerTask(Err(error)));
        }
    }

    fn fail_cycle(
        &mut self,
        failure: WebSocketConnectionFailure,
        reason: WebSocketTerminationReason,
        actions: &mut Vec<WorkerAction>,
    )
        ensures
            final(self).run(final(actions)@) == old(self).run(old(actions)@).fail_cycle(
                failure,
                reason,
            ),
    {
        let http_status = if failure.error == NetError::ConnectError && failure.stage
            == WebSocketConnectStage::WebSocketUpgrade {
            failure.http_status
        } else {
            None
        };
        self.connect_running = false;
        actions.push(WorkerAction::EndSendSession { cause: None });
        self.last_connection_error = Some(failure.error);
        self.last_handshake_http_status = http_status;
        self.set_status(ConnectionStatus::Disconnected, actions);
        if self.connect_waiting {
            self.connect_waiting = false;
            actions.push(WorkerAction::AnswerConnect(Err(failure.error)));
        }
        actions.push(WorkerAction::FailQueued(failure.error));
        self.finish_context_session(reason, failure, actions);
        if self.context_session() || reason != WebSocketTerminationReason::RetryExhausted {
            self.connect_target = None;
        }
    }

    /// Takes in a result of a background task.
    ///
    /// The network is looked at first; an event that brings its loss to light is
    /// taken in once the connection has ended. A result of another
    /// connection cycle, or one that the current status does not wait for,
    /// changes nothing. Where the step is to be completed by the session, the
    /// caller reports what the session answered.
    pub fn handle_io_event(
        &mut self,
        event: IoEvent,
        inputs: &WorkerInputs,
        actions: &mut Vec<WorkerAction>,
    ) -> (step: WorkerStep)
        ensures
            ({
                let before = old(self).run(old(actions)@);
                let after = final(self).run(final(actions)@);
                if inputs.shutdown {
                    after == before && step is Done
                } else if before.reconcile_loses(*inputs) {
                    &&& after == before.reconcile(*inputs)
                    &&& step == WorkerStep::AwaitStop(StopPurpose::LossFirst(network_loss()))
                } else {
                    let current = before.reconcile(*inputs);
                    &&& after == current.io_event(event, *inputs)
                    &&& step == current.io_event_step(event, *inputs)
                }
            }),
            crate::worker_outcome_laws::tells_success_truly(
                old(self).run(old(actions)@),
                final(self).run(final(actions)@),
            ),
            event matches IoEvent::ConnectFailed { generation, failure, reason } ==> (
            crate::worker_outcome_laws::attempts(*old(self), generation) && !inputs.shutdown ==> {
                &&& final(self).status is Disconnected
                &&& old(self).connect_waiting ==> crate::worker_outcome_laws::asks(
                    old(self).run(old(actions)@),
                    final(self).run(final(actions)@),
                    WorkerAction::AnswerConnect(Err(failure.error)),
                )
            }),
    {
        let ghost before = self.run(actions@);
        proof {
            let current = before.reconcile(*inputs);
            crate::worker_outcome_laws::success_is_told_only_of_connections(
                before,
                event,
                *inputs,
            );
            crate::worker_outcome_laws::success_is_told_only_of_connections(
                current,
                event,
                *inputs,
            );
            if let IoEvent::ConnectFailed { generation, failure, reason } = event {
                if crate::worker_outcome_laws::attempts(*self, generation) {
                    crate::worker_outcome_laws::failed_attempts_are_reported(
                        current,
                        generation,
                        failure,
                        reason,
                        *inputs,
                    );
                }
            }
        }
        if inputs.shutdown {
            return WorkerStep::Done;
        }
        match self.reconcile_network_status(inputs, actions) {
            WorkerStep::AwaitStop(StopPurpose::Loss(loss)) => {
                return WorkerStep::AwaitStop(StopPurpose::LossFirst(loss));
            },
            _ => {},
        }
        self.resume_io_event(event, inputs, actions)
    }

    /// Takes in a result of a background task after the network was looked at.
    /// An attempt that succeeded while shutdown was being requested is refused.
    pub fn resume_io_event(
        &mut self,
        event: IoEvent,
        inputs: &WorkerInputs,
        actions: &mut Vec<WorkerAction>,
    ) -> (step: WorkerStep)
        ensures
            final(self).run(final(actions)@) == old(self).run(old(actions)@).io_event(
                event,
                *inputs,
            ),
            step == old(self).run(old(actions)@).io_event_step(event, *inputs),
    {
        match event {
            IoEvent::ContextProgress { generation } => {
                if self.connecting_context(generation, inputs) {
                    WorkerStep::AwaitSession
                } else {
                    actions.push(WorkerAction::AnswerTask(Err(NetError::Cancelled)));
                    WorkerStep::Done
                }
            },
            IoEvent::ConnectSucceeded {
                generation,
                context_attempt_id,
                network_loss_epoch,
                wants_answer,
            } => {
                if inputs.shutdown || generation != self.generation || !self.status.establishing() {
                    if wants_answer {
                        actions.push(WorkerAction::AnswerTask(Err(NetError::Cancelled)));
                    }
                    return WorkerStep::Done;
                }
                if !self.network_epoch_is_current(network_loss_epoch, inputs) {
                    if wants_answer {
                        actions.push(WorkerAction::AnswerTask(Err(NetError::NetworkError)));
                    }
                    return WorkerStep::Done;
                }
                let connection = EstablishedConnection {
                    generation,
                    context_attempt_id,
                    network_loss_epoch,
                    wants_answer,
                };
                if context_attempt_id.is_some() {
                    if self.connecting_context(generation, inputs) {
                        WorkerStep::AwaitEstablished(connection)
                    } else {
                        self.refuse_established(wants_answer, NetError::Cancelled, actions);
                        WorkerStep::Done
                    }
                } else {
                    self.establish(connection, actions)
                }
            },
            IoEvent::ConnectFailed { generation, failure, reason } => {
                if generation == self.generation && self.status.establishing() {
                    self.fail_cycle(failure, reason, actions);
                }
                WorkerStep::Done
            },
            IoEvent::CallbackDispatchFailed { generation } => self.io_lost(
                generation,
                NetError::TaskInterruptionError,
                WebSocketConnectStage::EventDelivery,
                inputs,
                actions,
            ),
            IoEvent::ReadEnded { generation, error } => self.io_lost(
                generation,
                error,
                WebSocketConnectStage::WebSocketIo,
                inputs,
                actions,
            ),
            IoEvent::WriteEnded { generation, error } => self.io_lost(
                generation,
                error,
                WebSocketConnectStage::WebSocketIo,
                inputs,
                actions,
            ),
        }
    }

    fn io_lost(
        &mut self,
        generation: u64,
        error: NetError,
        stage: WebSocketConnectStage,
        inputs: &WorkerInputs,
        actions: &mut Vec<WorkerAction>,
    ) -> (step: WorkerStep)
        ensures
            ({
                let before = old(self).run(old(actions)@);
                let loss = loss_at(error, WebSocketTerminationReason::IoFailure, stage);
                &&& final(self).run(final(actions)@) == if old(self).serves(generation) {
                    before.lose_connection(loss, inputs.now)
                } else {
                    before
                }
                &&& step == before.loss_step(generation, loss)
            }),
    {
        if generation != self.generation || self.status != ConnectionStatus::Connected {
            return WorkerStep::Done;
        }
        let loss = ConnectionLoss {
            error,
            reason: WebSocketTerminationReason::IoFailure,
            failure: WebSocketConnectionFailure::new(error, stage, None, false),
        };
        self.connection_lost(loss, inputs, actions)
    }

    /// Whether a live session awaits an attempt of `generation`.
    pub fn connecting_context(&self, generation: u64, inputs: &WorkerInputs) -> (awaits: bool)
        ensures
            awaits == self.session_awaits(generation, *inputs),
    {
        generation == self.generation && self.status.establishing() && self.context_session()
            && !inputs.session_cancelled
    }

    /// Answers the connect task after the session applied an event. Failures
    /// other than a cancellation revoke the session.
    pub fn acknowledge_context_event(
        &self,
        result: Result<(), NetError>,
        actions: &mut Vec<WorkerAction>,
    )
        ensures
            self.run(final(actions)@) == self.run(old(actions)@).emit_if(
                self.has_session() && (result matches Err(error) && !(error is Cancelled)),
                WorkerAction::RevokeSession,
            ).emit(WorkerAction::AnswerTask(result)),
    {
        match result {
            Err(error) => if error != NetError::Cancelled && self.context_session() {
                actions.push(WorkerAction::RevokeSession);
            },
            Ok(()) => {},
        }
        actions.push(WorkerAction::AnswerTask(result));
    }

    /// Takes an attempt into service that the session has accepted, or refuses
    /// it with the session's error.
    pub fn resume_established(
        &mut self,
        connection: EstablishedConnection,
        prepared: Result<(), NetError>,
        actions: &mut Vec<WorkerAction>,
    ) -> (step: WorkerStep)
        ensures
            ({
                let before = old(self).run(old(actions)@);
                match prepared {
                    Ok(()) => {
                        &&& final(self).run(final(actions)@) == before.establish(connection)
                        &&& step == before.establish_step(connection)
                    },
                    Err(error) => {
                        &&& final(self).run(final(actions)@) == before.refuse_established(
                            connection.wants_answer,
                            error,
                        )
                        &&& step is Done
                    },
                }
            }),
    {
        match prepared {
            Ok(()) => self.establish(connection, actions),
            Err(error) => {
                self.refuse_established(connection.wants_answer, error, actions);
                WorkerStep::Done
            },
        }
    }

    fn connect(
        &mut self,
        target: ConnectTarget,
        policy_valid: bool,
        inputs: &WorkerInputs,
        actions: &mut Vec<WorkerAction>,
    )
        ensures
            final(self).run(final(actions)@) == old(self).run(old(actions)@).connect(
                target,
                policy_valid,
                *inputs,
            ),
    {
        if self.status.occupied() {
            actions.push(WorkerAction::AnswerCommand(Err(NetError::ConnectionExists)));
            return ;
        }
        if self.status == ConnectionStatus::Closed {
            actions.push(WorkerAction::AnswerCommand(Err(NetError::EngineDropped)));
            return ;
        }
        if !policy_valid || (self.pauses_on_unavailable && target.reconnect.max_elapsed.is_none()) {
            actions.push(WorkerAction::AnswerCommand(Err(NetError::ConfigError)));
            return ;
        }
        self.connect_target = Some(target);
        self.start_connection(false, inputs.shutdown, inputs.session_cancelled, actions);
        self.connect_waiting = true;
    }

    fn connect_with_context(
        &mut self,
        target: ConnectTarget,
        validation: Result<(), NetError>,
        inputs: &WorkerInputs,
        actions: &mut Vec<WorkerAction>,
    ) -> (accepted: bool)
        ensures
            final(self).run(final(actions)@) == old(self).run(old(actions)@).connect_with_context(
                target,
                validation,
                *inputs,
            ),
            accepted == context_refusal(
                *old(self),
                target.reconnect.max_elapsed is Some,
                inputs.session_cancelled,
                validation,
            ) is None,
    {
        let admission = if self.status == ConnectionStatus::Closed {
            Err(NetError::EngineDropped)
        } else if self.status.occupied() {
            Err(NetError::ConnectionExists)
        } else if inputs.session_cancelled {
            Err(NetError::Cancelled)
        } else if self.pauses_on_unavailable && target.reconnect.max_elapsed.is_none() {
            Err(NetError::ConfigError)
        } else {
            validation
        };
        match admission {
            Err(error) => {
                actions.push(
                    WorkerAction::TerminateSession {
                        reason: WebSocketTerminationReason::ConnectFailed,
                        failure: WebSocketConnectionFailure::new(
                            error,
                            WebSocketConnectStage::RequestBuild,
                            None,
                            false,
                        ),
                    },
                );
                actions.push(WorkerAction::AnswerCommand(Err(error)));
                false
            },
            Ok(()) => {
                self.connect_target = Some(target);
                self.start_connection(false, inputs.shutdown, inputs.session_cancelled, actions);
                actions.push(WorkerAction::AnswerCommand(Ok(())));
                true
            },
        }
    }

    fn disconnect(&mut self, inputs: &WorkerInputs, actions: &mut Vec<WorkerAction>)
        ensures
            final(self).run(final(actions)@) == old(self).run(old(actions)@).disconnect(*inputs),
    {
        actions.push(
            WorkerAction::EndSendSession { cause: Some(WebSocketTaskEndCause::Disconnect) },
        );
        self.set_status(ConnectionStatus::Closing, actions);
        self.cancel_connect(NetError::Cancelled, actions);
        self.stop_active_io(!inputs.scope_cancelled, inputs.now, actions);
    }

    fn finish_disconnect(&mut self, inputs: &WorkerInputs, actions: &mut Vec<WorkerAction>)
        ensures
            final(self).run(final(actions)@) == old(self).run(old(actions)@).finish_disconnect(
                *inputs,
            ),
    {
        actions.push(WorkerAction::FailQueued(NetError::Cancelled));
        actions.push(WorkerAction::FailPending(NetError::Cancelled));
        self.last_connection_error = None;
        self.last_handshake_http_status = None;
        self.set_status(ConnectionStatus::Idle, actions);
        let reason = if inputs.session_cancelled {
            WebSocketTerminationReason::Cancelled
        } else {
            WebSocketTerminationReason::Disconnected
        };
        self.finish_context_session(reason, Self::cancellation_failure(), actions);
        self.connect_target = None;
        actions.push(WorkerAction::AnswerCommand(Ok(())));
    }

    fn shut_down(&mut self, inputs: &WorkerInputs, actions: &mut Vec<WorkerAction>)
        ensures
            final(self).run(final(actions)@) == old(self).run(old(actions)@).shut_down(*inputs),
    {
        actions.push(WorkerAction::CloseTaskObservers);
        actions.push(WorkerAction::EndSendSession { cause: Some(WebSocketTaskEndCause::Shutdown) });
        self.set_status(ConnectionStatus::Closing, actions);
        self.cancel_connect(NetError::Cancelled, actions);
        self.stop_active_io(true, inputs.now, actions);
    }

    fn finish_shut_down(
        &mut self,
        wants_reply: bool,
        inputs: &WorkerInputs,
        actions: &mut Vec<WorkerAction>,
    )
        ensures
            final(self).run(final(actions)@) == old(self).run(old(actions)@).finish_shut_down(
                wants_reply,
                *inputs,
            ),
    {
        actions.push(WorkerAction::CloseQueues);
        actions.push(WorkerAction::FailQueued(NetError::Cancelled));
        self.terminal_response_deadline = self.response_dispatch_grace_deadline(inputs.now);
        actions.push(WorkerAction::FailPending(NetError::Cancelled));
        self.finish_context_session(
            WebSocketTerminationReason::Shutdown,
            Self::cancellation_failure(),
            actions,
        );
        self.connect_target = None;
        match inputs.now.checked_add(self.close_timeout) {
            Some(until) => self.set_status_and_wait(ConnectionStatus::Closed, until, actions),
            None => self.set_status(ConnectionStatus::Closed, actions),
        }
        if wants_reply {
            actions.push(WorkerAction::AnswerCommand(Ok(())));
        }
    }

    /// Carries out a command, up to the point where something has to be waited
    /// for. Only a shutdown ends the event loop.
    ///
    /// White space around the URL of a session's connection is removed first.
    pub fn handle_command(
        &mut self,
        command: ClientCommand,
        inputs: &WorkerInputs,
        actions: &mut Vec<WorkerAction>,
    ) -> (step: WorkerStep)
        ensures
            ({
                let before = old(self).run(old(actions)@);
                let after = final(self).run(final(actions)@);
                match command {
                    ClientCommand::ConnectWithContext {
                        url,
                        headers,
                        reconnect,
                        context,
                        validation,
                    } => exists|stripped: String|
                        {
                            &&& #[trigger] stripped@ == crate::text::trimmed(url@)
                            &&& after == before.command(
                                ClientCommand::ConnectWithContext {
                                    url: stripped,
                                    headers,
                                    reconnect,
                                    context,
                                    validation,
                                },
                                *inputs,
                            )
                        },
                    _ => after == before.command(command, *inputs),
                }
            }),
            step == old(self).run(old(actions)@).command_step(command, *inputs),
    {
        match command {
            ClientCommand::ConnectWithContext { url, headers, reconnect, context, validation } => {
                let stripped = trim(url.as_str());
                let target = ConnectTarget {
                    url: stripped,
                    headers,
                    has_header_provider: false,
                    reconnect,
                    context: Some(context),
                };
                if self.connect_with_context(target, validation, inputs, actions) {
                    WorkerStep::AwaitReply
                } else {
                    WorkerStep::Done
                }
            },
            ClientCommand::Connect {
                url,
                headers,
                has_header_provider,
                reconnect,
                policy_valid,
            } => {
                let target = ConnectTarget {
                    url,
                    headers,
                    has_header_provider,
                    reconnect,
                    context: None,
                };
                self.connect(target, policy_valid, inputs, actions);
                WorkerStep::Done
            },
            ClientCommand::Disconnect => {
                self.disconnect(inputs, actions);
                WorkerStep::AwaitStop(StopPurpose::Disconnect)
            },
            ClientCommand::NetworkAvailable => {
                if self.status == ConnectionStatus::Disconnected && self.reconnect_enabled() {
                    self.start_connection(true, inputs.shutdown, inputs.session_cancelled, actions);
                }
                WorkerStep::Done
            },
            ClientCommand::Shutdown { wants_reply } => {
                self.shut_down(inputs, actions);
                WorkerStep::AwaitStop(StopPurpose::Shutdown { wants_reply })
            },
        }
    }

    /// Begins to clean up after the event loop has ended.
    pub fn wind_up(&mut self, inputs: &WorkerInputs, actions: &mut Vec<WorkerAction>) -> (step:
        WorkerStep)
        ensures
            final(self).run(final(actions)@) == old(self).run(old(actions)@).wind_up(*inputs),
            step == WorkerStep::AwaitStop(StopPurpose::WindUp),
    {
        actions.push(WorkerAction::PublishShutdown);
        actions.push(WorkerAction::CloseTaskObservers);
        actions.push(WorkerAction::EndSendSession { cause: Some(WebSocketTaskEndCause::Shutdown) });
        self.cancel_connect(NetError::Cancelled, actions);
        self.stop_active_io(false, inputs.now, actions);
        WorkerStep::AwaitStop(StopPurpose::WindUp)
    }

    fn finish_wind_up(&mut self, inputs: &WorkerInputs, actions: &mut Vec<WorkerAction>)
        ensures
            final(self).run(final(actions)@) == old(self).run(old(actions)@).finish_wind_up(*inputs),
    {
        self.finish_context_session(
            WebSocketTerminationReason::Shutdown,
            Self::cancellation_failure(),
            actions,
        );
        self.connect_target = None;
        actions.push(WorkerAction::CloseQueues);
        actions.push(WorkerAction::FailQueued(NetError::Cancelled));
        let deadline = match self.terminal_response_deadline {
            Some(deadline) => Some(deadline),
            None => self.response_dispatch_grace_deadline(inputs.now),
        };
        actions.push(WorkerAction::FailPending(NetError::Cancelled));
        if let Some(deadline) = deadline {
            actions.push(WorkerAction::DrainCallbacks { deadline });
            actions.push(WorkerAction::AwaitDeferredResponses { deadline });
        }
        actions.push(WorkerAction::ForceFinishResponses(NetError::Cancelled));
        actions.push(WorkerAction::ClearListeners);
        actions.push(WorkerAction::DestroyMonitor);
        actions.push(WorkerAction::StopRegistrationTimer);
        actions.push(WorkerAction::PublishShutdownComplete);
    }
}

} // verus!
