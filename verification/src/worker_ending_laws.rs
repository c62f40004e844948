//! How connections begin and end, as requests, callers and sessions see it.
use vstd::prelude::*;

use crate::connection_failure::{
    WebSocketConnectStage, WebSocketConnectionFailure, WebSocketTerminationReason,
};
use crate::connection_status::ConnectionStatus;
use crate::net_error::NetError;
use crate::reconnect::ReconnectPolicy;
use crate::task_event::WebSocketTaskEndCause;
use crate::worker_action::{
    ClientCommand, ConnectTarget, ConnectionLoss, ContextConnectTarget, IoEvent, StopPurpose,
    WorkerAction, WorkerInputs, WorkerStep,
};
use crate::worker_outcome_laws;
use crate::ws_client_worker::{WSClientWorker, WorkerRun};

verus! {

spec fn looked_at(action: WorkerAction) -> bool {
    true
}

proof fn looking(before: WorkerRun, after: WorkerRun)
    ensures
        ({
            let n = before.actions.len() as int;
            let a = after.actions;
            &&& looked_at(a[n]) && looked_at(a[n + 1]) && looked_at(a[n + 2]) && looked_at(a[n + 3])
            &&& looked_at(a[n + 4]) && looked_at(a[n + 5]) && looked_at(a[n + 6]) && looked_at(
                a[n + 7],
            )
            &&& looked_at(a[n + 8]) && looked_at(a[n + 9]) && looked_at(a[n + 10]) && looked_at(
                a[n + 11],
            ) && looked_at(a[n + 12])
        }),
{
}

/// Whether what follows `before` stops the tasks of the connection, if there are
/// any, with a close frame if `close_frame` says so, within the time that the
/// worker has for it, and does not stop anything else.
pub open spec fn stops_tasks(
    before: WorkerRun,
    after: WorkerRun,
    close_frame: bool,
    inputs: WorkerInputs,
) -> bool {
    &&& after.worker.active_io is None
    &&& before.worker.active_io is Some ==> exists|i: int|
        before.actions.len() <= i < after.actions.len() && (#[trigger] after.actions[i]) is StopIo
    &&& forall|i: int|
        before.actions.len() <= i < after.actions.len() ==> ((#[trigger] after.actions[i]) matches
            WorkerAction::StopIo(plan) ==> {
            &&& before.worker.active_io is Some
            &&& plan.close_frame == close_frame
            &&& inputs.now.nanos + before.worker.close_timeout.nanos
                <= crate::clock::MAX_INSTANT_NANOS ==> plan.deadline.nanos == inputs.now.nanos
                + before.worker.close_timeout.nanos
        })
}

/// Whether what follows `before` begins a new connection cycle in `status`, with
/// a number that is neither zero nor the one before.
pub open spec fn begins_cycle(
    before: WorkerRun,
    after: WorkerRun,
    status: ConnectionStatus,
) -> bool {
    &&& after.worker.status == status
    &&& after.worker.connect_running
    &&& after.worker.generation != before.worker.generation
    &&& after.worker.generation != 0
    &&& before.worker.generation < u64::MAX ==> after.worker.generation
        == before.worker.generation + 1
    &&& worker_outcome_laws::asks(
        before,
        after,
        WorkerAction::StartConnect { generation: after.worker.generation },
    )
    &&& worker_outcome_laws::asks(before, after, WorkerAction::NotifyStatus(status))
}

/// Whether nothing that follows `before` begins a connection cycle.
pub open spec fn begins_nothing(before: WorkerRun, after: WorkerRun) -> bool {
    &&& after.worker.generation == before.worker.generation
    &&& forall|i: int|
        before.actions.len() <= i < after.actions.len() ==> !((#[trigger] after.actions[i])
            is StartConnect)
}

/// Whether nothing that follows `before` answers a command.
pub open spec fn answers_nothing(before: WorkerRun, after: WorkerRun) -> bool {
    forall|i: int|
        before.actions.len() <= i < after.actions.len() ==> !((#[trigger] after.actions[i])
            is AnswerCommand)
}

/// A connection whose reader or writer ends, or whose data cannot be handed on,
/// is lost with that error: its sends end, its tasks are stopped without a close
/// frame, and the rest follows when they have stopped.
pub proof fn ended_tasks_lose_the_connection(
    run: WorkerRun,
    generation: u64,
    error: NetError,
    inputs: WorkerInputs,
)
    requires
        run.worker.status is Connected,
        run.worker.generation == generation,
    ensures
        ({
            let read = IoEvent::ReadEnded { generation, error };
            let written = IoEvent::WriteEnded { generation, error };
            let undelivered = IoEvent::CallbackDispatchFailed { generation };
            let lost = StopPurpose::Loss(
                ConnectionLoss {
                    error,
                    reason: WebSocketTerminationReason::IoFailure,
                    failure: WebSocketConnectionFailure {
                        error,
                        stage: WebSocketConnectStage::WebSocketIo,
                        http_status: None,
                        retryable: false,
                    },
                },
            );
            let unheard = StopPurpose::Loss(
                ConnectionLoss {
                    error: NetError::TaskInterruptionError,
                    reason: WebSocketTerminationReason::IoFailure,
                    failure: WebSocketConnectionFailure {
                        error: NetError::TaskInterruptionError,
                        stage: WebSocketConnectStage::EventDelivery,
                        http_status: None,
                        retryable: false,
                    },
                },
            );
            &&& forall|event: IoEvent|
                event == read || event == written || event == undelivered ==> {
                    let after = #[trigger] run.io_event(event, inputs);
                    &&& stops_tasks(run, after, false, inputs)
                    &&& worker_outcome_laws::asks(run, after, WorkerAction::EndSendConnection)
                    &&& after.worker.status is Connected
                    &&& after.worker.generation == generation
                    &&& after.worker.connect_target == run.worker.connect_target
                    &&& after.worker.last_connection_error == Some(
                        if event == undelivered {
                            NetError::TaskInterruptionError
                        } else {
                            error
                        },
                    )
                }
            &&& run.io_event_step(read, inputs) == WorkerStep::AwaitStop(lost)
            &&& run.io_event_step(written, inputs) == WorkerStep::AwaitStop(lost)
            &&& run.io_event_step(undelivered, inputs) == WorkerStep::AwaitStop(unheard)
        }),
{
    looking(run, run.io_event(IoEvent::ReadEnded { generation, error }, inputs));
    looking(run, run.io_event(IoEvent::WriteEnded { generation, error }, inputs));
    looking(run, run.io_event(IoEvent::CallbackDispatchFailed { generation }, inputs));
}

/// A loss of the network that the worker has not taken notice of yet ends the
/// connection with a network error; without a connection it is only taken notice
/// of, and without a loss nothing changes.
pub proof fn network_losses_lose_the_connection(run: WorkerRun, inputs: WorkerInputs)
    ensures
        ({
            let after = run.reconcile(inputs);
            let moved = inputs.network matches Some(snapshot) && snapshot.loss_epoch
                > run.worker.network_loss_epoch;
            &&& !moved ==> after == run
            &&& moved ==> after.worker.network_loss_epoch == inputs.network->0.loss_epoch
            &&& moved && !(run.worker.status is Connected) ==> after.actions == run.actions
                && after.worker.status == run.worker.status && after.worker.last_connection_error
                == run.worker.last_connection_error && after.worker.active_io
                == run.worker.active_io
            &&& moved && run.worker.status is Connected ==> {
                &&& stops_tasks(run, after, false, inputs)
                &&& worker_outcome_laws::asks(run, after, WorkerAction::EndSendConnection)
                &&& after.worker.last_connection_error == Some(NetError::NetworkError)
            }
            &&& run.reconcile_loses(inputs) <==> moved && run.worker.status is Connected
            &&& crate::ws_client_worker::network_loss().error is NetworkError
            &&& crate::ws_client_worker::network_loss().reason is NetworkUnavailable
            &&& crate::ws_client_worker::network_loss().failure == (WebSocketConnectionFailure {
                error: NetError::NetworkError,
                stage: WebSocketConnectStage::EventDelivery,
                http_status: None,
                retryable: false,
            })
        }),
{
    looking(run, run.reconcile(inputs));
}

/// When the tasks of a lost connection have stopped, every request of it ends
/// with the error of the loss, and so does every queued message that does not
/// wait for a reconnect. The connection is replaced by the next cycle if its
/// owner wants that; otherwise the client is disconnected, the send session is
/// over and everything queued ends with that error.
pub proof fn settled_losses_are_replaced_or_given_up(
    run: WorkerRun,
    loss: ConnectionLoss,
    inputs: WorkerInputs,
)
    requires
        run.worker.status is Connected,
        !worker_outcome_laws::in_session(run.worker),
    ensures
        ({
            let after = run.stopped(StopPurpose::Loss(loss), inputs);
            let reconnects = worker_outcome_laws::to_reconnect(run.worker);
            &&& after == run.stopped(StopPurpose::LossFirst(loss), inputs)
            &&& run.stopped_step(StopPurpose::Loss(loss)) is Done
            &&& run.stopped_step(StopPurpose::LossFirst(loss)) is Repeat
            &&& after.worker.connect_target == run.worker.connect_target
            &&& worker_outcome_laws::asks(
                run,
                after,
                WorkerAction::FailPendingOf {
                    generation: run.worker.generation,
                    error: loss.error,
                },
            )
            &&& worker_outcome_laws::asks(run, after, WorkerAction::FailRejected(loss.error))
            &&& reconnects && !inputs.shutdown ==> {
                &&& begins_cycle(run, after, ConnectionStatus::Reconnecting)
                &&& !worker_outcome_laws::asks(run, after, WorkerAction::FailQueued(loss.error))
                &&& !worker_outcome_laws::asks(
                    run,
                    after,
                    WorkerAction::EndSendSession { cause: None },
                )
            }
            &&& reconnects && inputs.shutdown ==> after.worker == run.worker && begins_nothing(
                run,
                after,
            )
            &&& !reconnects ==> {
                &&& begins_nothing(run, after)
                &&& after.worker.status is Disconnected
                &&& worker_outcome_laws::asks(
                    run,
                    after,
                    WorkerAction::EndSendSession { cause: None },
                )
                &&& worker_outcome_laws::asks(
                    run,
                    after,
                    WorkerAction::NotifyStatus(ConnectionStatus::Disconnected),
                )
                &&& worker_outcome_laws::asks(run, after, WorkerAction::FailQueued(loss.error))
            }
        }),
{
    looking(run, run.stopped(StopPurpose::Loss(loss), inputs));
}

/// A session is told of the loss of its connection before anything follows from
/// it. A session that could not be told is revoked and gets no other connection;
/// one that was is served like every other, and ends if it is not reconnected.
pub proof fn sessions_hear_of_their_losses(
    run: WorkerRun,
    loss: ConnectionLoss,
    delivered: bool,
    inputs: WorkerInputs,
)
    requires
        run.worker.status is Connected,
        worker_outcome_laws::in_session(run.worker),
        run.worker.generation < u64::MAX,
    ensures
        ({
            let told = run.stopped(StopPurpose::Loss(loss), inputs);
            let after = run.resume_loss(loss, delivered, inputs);
            let reconnects = worker_outcome_laws::to_reconnect(run.worker);
            let live = delivered && !inputs.session_cancelled && !inputs.shutdown;
            &&& told.worker == run.worker
            &&& told.actions == run.actions.push(
                WorkerAction::PublishTermination { reason: loss.reason, failure: loss.failure },
            )
            &&& told == run.stopped(StopPurpose::LossFirst(loss), inputs)
            &&& run.stopped_step(StopPurpose::Loss(loss)) == WorkerStep::AwaitTermination(loss)
            &&& run.stopped_step(StopPurpose::LossFirst(loss))
                == WorkerStep::AwaitTerminationFirst(loss)
            &&& !delivered <==> worker_outcome_laws::asks(run, after, WorkerAction::RevokeSession)
            &&& worker_outcome_laws::asks(
                run,
                after,
                WorkerAction::FailPendingOf {
                    generation: run.worker.generation,
                    error: loss.error,
                },
            )
            &&& worker_outcome_laws::asks(run, after, WorkerAction::FailRejected(loss.error))
            &&& reconnects && live ==> begins_cycle(run, after, ConnectionStatus::Reconnecting)
                && after.worker.connect_target == run.worker.connect_target
            &&& !(reconnects && live) ==> begins_nothing(run, after)
            &&& !reconnects ==> {
                &&& after.worker.status is Disconnected
                &&& after.worker.connect_target is None
                &&& worker_outcome_laws::asks(run, after, WorkerAction::FailQueued(loss.error))
                &&& worker_outcome_laws::asks(
                    run,
                    after,
                    WorkerAction::EndSendSession { cause: None },
                )
                &&& worker_outcome_laws::asks(
                    run,
                    after,
                    WorkerAction::TerminateSession { reason: loss.reason, failure: loss.failure },
                )
            }
        }),
{
    looking(run, run.resume_loss(loss, delivered, inputs));
}

/// Completing a disconnect settles everything before it is answered: whatever is
/// queued and whatever awaits a response ends as cancelled, a session ends, and
/// only then does the caller hear that the client is idle.
pub proof fn disconnects_settle_every_request(run: WorkerRun, inputs: WorkerInputs)
    ensures
        ({
            let after = run.stopped(StopPurpose::Disconnect, inputs);
            let answer = WorkerAction::AnswerCommand(Ok(()));
            let ended = WorkerAction::TerminateSession {
                reason: if inputs.session_cancelled {
                    WebSocketTerminationReason::Cancelled
                } else {
                    WebSocketTerminationReason::Disconnected
                },
                failure: WebSocketConnectionFailure {
                    error: NetError::Cancelled,
                    stage: WebSocketConnectStage::EventDelivery,
                    http_status: None,
                    retryable: false,
                },
            };
            &&& worker_outcome_laws::asks_in_turn(
                run,
                after,
                WorkerAction::FailQueued(NetError::Cancelled),
                answer,
            )
            &&& worker_outcome_laws::asks_in_turn(
                run,
                after,
                WorkerAction::FailPending(NetError::Cancelled),
                answer,
            )
            &&& run.worker.status is Closing ==> after.worker.status is Idle
                && worker_outcome_laws::asks_in_turn(
                run,
                after,
                WorkerAction::NotifyStatus(ConnectionStatus::Idle),
                answer,
            )
            &&& worker_outcome_laws::in_session(run.worker)
                <==> worker_outcome_laws::asks_in_turn(run, after, ended, answer)
            &&& after.worker.connect_target is None
            &&& after.worker.last_connection_error is None
            &&& after.worker.last_handshake_http_status is None
            &&& begins_nothing(run, after)
            &&& run.stopped_step(StopPurpose::Disconnect) is Done
        }),
{
    looking(run, run.stopped(StopPurpose::Disconnect, inputs));
}

/// Completing a shutdown settles everything before it is answered: nothing more
/// is queued, whatever is queued and whatever awaits a response ends as
/// cancelled, a session ends, and the last status is the closed one.
pub proof fn shutdowns_settle_every_request(
    run: WorkerRun,
    wants_reply: bool,
    inputs: WorkerInputs,
)
    ensures
        ({
            let purpose = StopPurpose::Shutdown { wants_reply };
            let after = run.stopped(purpose, inputs);
            let answer = WorkerAction::AnswerCommand(Ok(()));
            let queued = WorkerAction::FailQueued(NetError::Cancelled);
            let pending = WorkerAction::FailPending(NetError::Cancelled);
            let ended = WorkerAction::TerminateSession {
                reason: WebSocketTerminationReason::Shutdown,
                failure: WebSocketConnectionFailure {
                    error: NetError::Cancelled,
                    stage: WebSocketConnectStage::EventDelivery,
                    http_status: None,
                    retryable: false,
                },
            };
            &&& worker_outcome_laws::asks_in_turn(run, after, WorkerAction::CloseQueues, queued)
            &&& worker_outcome_laws::asks(run, after, pending)
            &&& worker_outcome_laws::in_session(run.worker) <==> worker_outcome_laws::asks(
                run,
                after,
                ended,
            )
            &&& run.worker.status is Closing ==> after.worker.status is Closed && exists|i: int|
                run.actions.len() <= i < after.actions.len() && match #[trigger] after.actions[i] {
                    WorkerAction::NotifyStatus(status) => status is Closed,
                    WorkerAction::NotifyStatusUntil { status, until } => status is Closed
                        && until.nanos == inputs.now.nanos + run.worker.close_timeout.nanos,
                    _ => false,
                }
            &&& wants_reply ==> worker_outcome_laws::asks_in_turn(run, after, queued, answer)
                && worker_outcome_laws::asks_in_turn(run, after, pending, answer)
            &&& !wants_reply ==> answers_nothing(run, after)
            &&& after.worker.connect_target is None
            &&& begins_nothing(run, after)
            &&& run.stopped_step(purpose) is Exit
        }),
{
    looking(run, run.stopped(StopPurpose::Shutdown { wants_reply }, inputs));
}

/// The end of the event loop leaves nobody waiting: queues are closed, every
/// message, request and response ends as cancelled, listeners and the monitor
/// are released, and the completion of the shutdown is published last.
pub proof fn winding_up_leaves_nobody_waiting(run: WorkerRun, inputs: WorkerInputs)
    ensures
        ({
            let begun = run.wind_up(inputs);
            let after = run.stopped(StopPurpose::WindUp, inputs);
            let complete = WorkerAction::PublishShutdownComplete;
            let queued = WorkerAction::FailQueued(NetError::Cancelled);
            let pending = WorkerAction::FailPending(NetError::Cancelled);
            let forced = WorkerAction::ForceFinishResponses(NetError::Cancelled);
            &&& worker_outcome_laws::asks(run, begun, WorkerAction::PublishShutdown)
            &&& worker_outcome_laws::asks(run, begun, WorkerAction::CloseTaskObservers)
            &&& worker_outcome_laws::asks(
                run,
                begun,
                WorkerAction::EndSendSession { cause: Some(WebSocketTaskEndCause::Shutdown) },
            )
            &&& run.worker.connect_running ==> worker_outcome_laws::asks(
                run,
                begun,
                WorkerAction::AbortConnectTask,
            )
            &&& run.worker.connect_waiting ==> worker_outcome_laws::asks(
                run,
                begun,
                WorkerAction::AnswerConnect(Err(NetError::Cancelled)),
            )
            &&& stops_tasks(run, begun, false, inputs)
            &&& !begun.worker.connect_running && !begun.worker.connect_waiting
            &&& after.actions.last() == complete
            &&& worker_outcome_laws::asks_in_turn(run, after, WorkerAction::CloseQueues, queued)
            &&& worker_outcome_laws::asks_in_turn(run, after, queued, complete)
            &&& worker_outcome_laws::asks_in_turn(run, after, pending, forced)
            &&& worker_outcome_laws::asks_in_turn(run, after, forced, complete)
            &&& worker_outcome_laws::asks_in_turn(
                run,
                after,
                WorkerAction::ClearListeners,
                complete,
            )
            &&& worker_outcome_laws::asks_in_turn(
                run,
                after,
                WorkerAction::DestroyMonitor,
                complete,
            )
            &&& worker_outcome_laws::asks_in_turn(
                run,
                after,
                WorkerAction::StopRegistrationTimer,
                complete,
            )
            &&& after.worker.connect_target is None
            &&& run.stopped_step(StopPurpose::WindUp) is Done
        }),
{
    looking(run, run.wind_up(inputs));
    looking(run, run.stopped(StopPurpose::WindUp, inputs));
}

/// The end of the event loop waits for callbacks and for deferred responses, in
/// this order, until the deadline that the shutdown set, or for the whole grace
/// if it set none; whatever is not there by then is ended afterwards.
pub proof fn winding_up_grants_the_grace(run: WorkerRun, inputs: WorkerInputs)
    ensures
        ({
            let after = run.stopped(StopPurpose::WindUp, inputs);
            let forced = WorkerAction::ForceFinishResponses(NetError::Cancelled);
            let grace = run.worker.response_dispatch_grace.nanos;
            &&& run.worker.terminal_response_deadline matches Some(deadline) ==> {
                &&& worker_outcome_laws::asks_in_turn(
                    run,
                    after,
                    WorkerAction::DrainCallbacks { deadline },
                    WorkerAction::AwaitDeferredResponses { deadline },
                )
                &&& worker_outcome_laws::asks_in_turn(
                    run,
                    after,
                    WorkerAction::AwaitDeferredResponses { deadline },
                    forced,
                )
            }
            &&& run.worker.terminal_response_deadline is None && grace > 0 && inputs.now.nanos
                + grace <= crate::clock::MAX_INSTANT_NANOS ==> ({
                let deadline = crate::clock::Instant {
                    nanos: (inputs.now.nanos + grace) as u128,
                };
                &&& worker_outcome_laws::asks_in_turn(
                    run,
                    after,
                    WorkerAction::DrainCallbacks { deadline },
                    WorkerAction::AwaitDeferredResponses { deadline },
                )
                &&& worker_outcome_laws::asks_in_turn(
                    run,
                    after,
                    WorkerAction::AwaitDeferredResponses { deadline },
                    forced,
                )
            })
        }),
{
    looking(run, run.stopped(StopPurpose::WindUp, inputs));
}

/// A disconnect and a shutdown begin by ending the sends and the attempt: the
/// caller that waits for the attempt hears that it was cancelled, the tasks of
/// the connection are stopped with a close frame if one can still be sent, and
/// nothing is answered before they have stopped.
pub proof fn endings_begin_with_the_sends(
    run: WorkerRun,
    wants_reply: bool,
    inputs: WorkerInputs,
)
    requires
        run.worker.active_io matches Some(generation) ==> generation == run.worker.generation,
    ensures
        ({
            let closing = run.command(ClientCommand::Disconnect, inputs);
            let ending = run.command(ClientCommand::Shutdown { wants_reply }, inputs);
            &&& forall|after: WorkerRun|
                after == closing || after == ending ==> {
                    &&& run.worker.connect_running ==> #[trigger] worker_outcome_laws::asks(
                        run,
                        after,
                        WorkerAction::AbortConnectTask,
                    )
                    &&& run.worker.connect_waiting ==> worker_outcome_laws::asks(
                        run,
                        after,
                        WorkerAction::AnswerConnect(Err(NetError::Cancelled)),
                    )
                    &&& !after.worker.connect_running && !after.worker.connect_waiting
                    &&& answers_nothing(run, after)
                    &&& begins_nothing(run, after)
                    &&& !(run.worker.status is Closing || run.worker.status is Closed) ==> {
                        &&& after.worker.status is Closing
                        &&& worker_outcome_laws::asks(
                            run,
                            after,
                            WorkerAction::NotifyStatus(ConnectionStatus::Closing),
                        )
                    }
                    &&& run.worker.status is Closing || run.worker.status is Closed
                        ==> after.worker.status == run.worker.status
                }
            &&& worker_outcome_laws::asks(
                run,
                closing,
                WorkerAction::EndSendSession { cause: Some(WebSocketTaskEndCause::Disconnect) },
            )
            &&& worker_outcome_laws::asks(
                run,
                ending,
                WorkerAction::EndSendSession { cause: Some(WebSocketTaskEndCause::Shutdown) },
            )
            &&& worker_outcome_laws::asks(run, ending, WorkerAction::CloseTaskObservers)
            &&& stops_tasks(run, closing, !inputs.scope_cancelled, inputs)
            &&& stops_tasks(run, ending, true, inputs)
            &&& run.command_step(ClientCommand::Disconnect, inputs) == WorkerStep::AwaitStop(
                StopPurpose::Disconnect,
            )
            &&& run.command_step(ClientCommand::Shutdown { wants_reply }, inputs)
                == WorkerStep::AwaitStop(StopPurpose::Shutdown { wants_reply })
        }),
{
    looking(run, run.command(ClientCommand::Disconnect, inputs));
    looking(run, run.command(ClientCommand::Shutdown { wants_reply }, inputs));
}

/// A request for a connection is accepted exactly if the client is free, open
/// and the policy can be followed. An accepted one begins a cycle for what was
/// asked for, with a send session of its own and nothing left of an earlier
/// failure, and its caller waits; a refused one is answered at once with the
/// reason and changes nothing else.
pub proof fn connection_requests_begin_a_cycle(
    run: WorkerRun,
    url: String,
    headers: Vec<(String, String)>,
    has_header_provider: bool,
    reconnect: ReconnectPolicy,
    policy_valid: bool,
    inputs: WorkerInputs,
)
    ensures
        ({
            let command = ClientCommand::Connect {
                url,
                headers,
                has_header_provider,
                reconnect,
                policy_valid,
            };
            let target = ConnectTarget {
                url,
                headers,
                has_header_provider,
                reconnect,
                context: None,
            };
            let after = run.command(command, inputs);
            let status = run.worker.status;
            let free = status is Idle || status is Disconnected;
            let followable = policy_valid && (!run.worker.pauses_on_unavailable
                || reconnect.max_elapsed is Some);
            &&& run.command_step(command, inputs) is Done
            &&& !free ==> after.worker == run.worker && after.actions == run.actions.push(
                WorkerAction::AnswerCommand(
                    Err(
                        if status is Closed {
                            NetError::EngineDropped
                        } else {
                            NetError::ConnectionExists
                        },
                    ),
                ),
            )
            &&& free && !followable ==> after.worker == run.worker && after.actions
                == run.actions.push(WorkerAction::AnswerCommand(Err(NetError::ConfigError)))
            &&& free && followable ==> {
                &&& after.worker.connect_target == Some(target)
                &&& after.worker.connect_waiting
                &&& answers_nothing(run, after)
            }
            &&& free && followable && inputs.shutdown ==> begins_nothing(run, after)
            &&& free && followable && !inputs.shutdown ==> {
                &&& begins_cycle(run, after, ConnectionStatus::Connecting)
                &&& after.worker.last_connection_error is None
                &&& after.worker.last_handshake_http_status is None
                &&& worker_outcome_laws::asks_in_turn(
                    run,
                    after,
                    WorkerAction::BeginSendSession { session_context_id: None, scoped: false },
                    WorkerAction::StartConnect { generation: after.worker.generation },
                )
            }
        }),
{
    looking(
        run,
        run.command(
            ClientCommand::Connect { url, headers, has_header_provider, reconnect, policy_valid },
            inputs,
        ),
    );
}

/// A request for the connection of a session is accepted exactly if the client
/// is open and free, the session lives, and policy and options can be followed.
/// An accepted one begins a cycle of that session and is answered at once; a
/// refused one ends its session with the reason, is answered with it, and
/// changes nothing else.
pub proof fn session_requests_begin_a_cycle(
    run: WorkerRun,
    url: String,
    headers: Vec<(String, String)>,
    reconnect: ReconnectPolicy,
    context: ContextConnectTarget,
    validation: Result<(), NetError>,
    inputs: WorkerInputs,
)
    requires
        run.worker.generation < u64::MAX,
    ensures
        ({
            let command = ClientCommand::ConnectWithContext {
                url,
                headers,
                reconnect,
                context,
                validation,
            };
            let target = ConnectTarget {
                url,
                headers,
                has_header_provider: false,
                reconnect,
                context: Some(context),
            };
            let after = run.command(command, inputs);
            let status = run.worker.status;
            let free = status is Idle || status is Disconnected;
            let bounded = !run.worker.pauses_on_unavailable || reconnect.max_elapsed is Some;
            let accepted = free && !inputs.session_cancelled && bounded && validation is Ok;
            let error = if status is Closed {
                NetError::EngineDropped
            } else if !free {
                NetError::ConnectionExists
            } else if inputs.session_cancelled {
                NetError::Cancelled
            } else if !bounded {
                NetError::ConfigError
            } else {
                validation->Err_0
            };
            &&& accepted <==> run.command_step(command, inputs) is AwaitReply
            &&& !accepted <==> run.command_step(command, inputs) is Done
            &&& !accepted ==> {
                &&& after.worker == run.worker
                &&& worker_outcome_laws::asks_in_turn(
                    run,
                    after,
                    WorkerAction::TerminateSession {
                        reason: WebSocketTerminationReason::ConnectFailed,
                        failure: WebSocketConnectionFailure {
                            error,
                            stage: WebSocketConnectStage::RequestBuild,
                            http_status: None,
                            retryable: false,
                        },
                    },
                    WorkerAction::AnswerCommand(Err(error)),
                )
            }
            &&& accepted ==> {
                &&& after.worker.connect_target == Some(target)
                &&& after.actions.last() == WorkerAction::AnswerCommand(Ok(()))
            }
            &&& accepted && inputs.shutdown ==> begins_nothing(run, after)
            &&& accepted && !inputs.shutdown ==> {
                &&& begins_cycle(run, after, ConnectionStatus::Connecting)
                &&& !after.worker.connect_waiting
                &&& after.worker.last_connection_error is None
                &&& after.worker.last_handshake_http_status is None
                &&& worker_outcome_laws::asks_in_turn(
                    run,
                    after,
                    WorkerAction::BeginSendSession {
                        session_context_id: Some(context.session_context_id),
                        scoped: context.scoped,
                    },
                    WorkerAction::StartConnect { generation: after.worker.generation },
                )
            }
        }),
{
    looking(
        run,
        run.command(
            ClientCommand::ConnectWithContext { url, headers, reconnect, context, validation },
            inputs,
        ),
    );
}

/// A hint that the network is back restarts a disconnected client that is to
/// reconnect, with the target it had and a send session of its own, and does
/// nothing to any other.
pub proof fn hints_restart_disconnected_clients(run: WorkerRun, inputs: WorkerInputs)
    requires
        worker_outcome_laws::in_session(run.worker) ==> run.worker.generation < u64::MAX,
    ensures
        ({
            let after = run.command(ClientCommand::NetworkAvailable, inputs);
            let restarts = run.worker.status is Disconnected && worker_outcome_laws::to_reconnect(
                run.worker,
            ) && !inputs.shutdown && !(worker_outcome_laws::in_session(run.worker)
                && inputs.session_cancelled);
            &&& !restarts ==> after == run
            &&& restarts ==> {
                &&& begins_cycle(run, after, ConnectionStatus::Reconnecting)
                &&& after.worker.connect_target == run.worker.connect_target
                &&& after.worker.last_connection_error == run.worker.last_connection_error
                &&& exists|i: int|
                    run.actions.len() <= i < after.actions.len() && (#[trigger] after.actions[i])
                        is BeginSendSession
            }
            &&& answers_nothing(run, after)
            &&& run.command_step(ClientCommand::NetworkAvailable, inputs) is Done
        }),
{
    looking(run, run.command(ClientCommand::NetworkAvailable, inputs));
}

/// An owner of a session that did not wait for the answer to its request loses
/// the session; otherwise nothing happens.
pub proof fn unheard_answers_revoke_the_session(run: WorkerRun, delivered: bool)
    ensures
        run.replied(delivered).worker == run.worker,
        run.replied(delivered).actions == if !delivered && worker_outcome_laws::in_session(
            run.worker,
        ) {
            run.actions.push(WorkerAction::RevokeSession)
        } else {
            run.actions
        },
{
}

/// A session whose cycle numbers are used up is told so, and its sends end with it.
pub proof fn exhausted_sessions_are_told(run: WorkerRun, loss: ConnectionLoss, inputs: WorkerInputs)
    requires
        run.worker.status is Connected,
        worker_outcome_laws::in_session(run.worker),
        worker_outcome_laws::to_reconnect(run.worker),
        run.worker.generation == u64::MAX,
        !inputs.shutdown && !inputs.session_cancelled,
    ensures
        ({
            let after = run.resume_loss(loss, true, inputs);
            &&& begins_nothing(run, after)
            &&& after.worker.status is Disconnected
            &&& after.worker.connect_target is None
            &&& after.worker.last_connection_error == Some(NetError::InternalError)
            &&& worker_outcome_laws::asks(run, after, WorkerAction::EndSendSession { cause: None })
            &&& worker_outcome_laws::asks(
                run,
                after,
                WorkerAction::TerminateSession {
                    reason: WebSocketTerminationReason::ConnectFailed,
                    failure: WebSocketConnectionFailure {
                        error: NetError::InternalError,
                        stage: WebSocketConnectStage::EventDelivery,
                        http_status: None,
                        retryable: false,
                    },
                },
            )
        }),
{
    looking(run, run.resume_loss(loss, true, inputs));
}

} // verus!
