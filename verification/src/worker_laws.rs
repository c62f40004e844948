//! What holds of every history of a client worker.
use vstd::prelude::*;

use crate::connection_failure::{WebSocketConnectionFailure, WebSocketTerminationReason};
use crate::net_error::NetError;
use crate::worker_action::{
    ClientCommand, ConnectTarget, ConnectionLoss, EstablishedConnection, IoEvent, StopPurpose,
    WorkerAction, WorkerInputs,
};
use crate::ws_client_worker;
use crate::ws_client_worker::WorkerRun;

verus! {

/// Every command leaves a consistent worker, except a connection request that
/// meets a shutdown: its caller waits for the answer that winding up gives.
pub proof fn commands_keep_the_worker_consistent(
    run: WorkerRun,
    command: ClientCommand,
    inputs: WorkerInputs,
)
    requires
        run.worker.wf(),
        !(inputs.shutdown && command is Connect),
    ensures
        run.command(command, inputs).worker.wf(),
{
}

/// Looking at the network leaves a consistent worker.
pub proof fn looking_keeps_the_worker_consistent(run: WorkerRun, inputs: WorkerInputs)
    requires
        run.worker.wf(),
    ensures
        run.reconcile(inputs).worker.wf(),
{
}

/// Every result of a background task leaves a consistent worker.
pub proof fn events_keep_the_worker_consistent(
    run: WorkerRun,
    event: IoEvent,
    inputs: WorkerInputs,
)
    requires
        run.worker.wf(),
    ensures
        run.io_event(event, inputs).worker.wf(),
{
}

/// A loss that is completed later leaves a consistent worker, whatever the
/// surroundings are like by then.
pub proof fn losses_keep_the_worker_consistent(
    run: WorkerRun,
    loss: ConnectionLoss,
    delivered: bool,
    later: WorkerInputs,
)
    requires
        run.worker.wf(),
        run.worker.status is Connected,
        run.worker.active_io is None,
    ensures
        run.resume_loss(loss, delivered, later).worker.wf(),
        run.stopped(StopPurpose::Loss(loss), later).worker.wf(),
{
}

/// A connection that is taken into service leaves a consistent worker, before
/// and after its session has published it, and so does an answered request.
pub proof fn completions_keep_the_worker_consistent(
    run: WorkerRun,
    connection: EstablishedConnection,
    committed: bool,
)
    requires
        run.worker.wf(),
    ensures
        run.worker.awaits(connection.generation) ==> run.establish(connection).worker.wf(),
        run.commit(connection, committed).worker.wf(),
        run.replied(committed).worker.wf(),
{
}

/// A disconnect and a shutdown leave a consistent worker, whatever the
/// surroundings are like when the connection has stopped.
pub proof fn endings_keep_the_worker_consistent(
    run: WorkerRun,
    wants_reply: bool,
    inputs: WorkerInputs,
    later: WorkerInputs,
)
    requires
        run.worker.wf(),
    ensures
        run.disconnect(inputs).stopped(StopPurpose::Disconnect, later).worker.wf(),
        run.shut_down(inputs).stopped(StopPurpose::Shutdown { wants_reply }, later).worker.wf(),
{
}

/// A result of another connection cycle changes nothing in the worker; at most
/// the task that sent it is told so.
pub proof fn stale_events_change_nothing(run: WorkerRun, event: IoEvent, inputs: WorkerInputs)
    requires
        match event {
            IoEvent::ContextProgress { generation } => generation != run.worker.generation,
            IoEvent::ConnectSucceeded {
                generation,
                context_attempt_id,
                network_loss_epoch,
                wants_answer,
            } => generation != run.worker.generation,
            IoEvent::ConnectFailed { generation, failure, reason } => generation
                != run.worker.generation,
            IoEvent::CallbackDispatchFailed { generation } => generation != run.worker.generation,
            IoEvent::ReadEnded { generation, error } => generation != run.worker.generation,
            IoEvent::WriteEnded { generation, error } => generation != run.worker.generation,
        },
    ensures
        run.io_event(event, inputs).worker == run.worker,
        run.io_event_step(event, inputs) is Done,
        run.io_event(event, inputs).actions == run.actions || run.io_event(event, inputs).actions
            == run.actions.push(WorkerAction::AnswerTask(Err(NetError::Cancelled))),
{
}

/// After the client began to close, late results of its tasks do not change
/// the worker, whatever connection cycle they belong to.
pub proof fn closing_ignores_late_events(run: WorkerRun, event: IoEvent, inputs: WorkerInputs)
    requires
        run.worker.status is Closing || run.worker.status is Closed || run.worker.status is Idle,
    ensures
        run.io_event(event, inputs).worker == run.worker,
        run.io_event_step(event, inputs) is Done,
{
}

/// A client that has shut down stays shut down.
pub proof fn a_closed_client_stays_closed(
    run: WorkerRun,
    command: ClientCommand,
    event: IoEvent,
    inputs: WorkerInputs,
)
    requires
        run.worker.status is Closed,
        run.worker.connect_target is None,
    ensures
        run.command(command, inputs).worker.status is Closed,
        run.command(command, inputs).worker.connect_target is None,
        run.reconcile(inputs).worker.status is Closed,
        run.reconcile(inputs).worker.connect_target is None,
        run.io_event(event, inputs).worker.status is Closed,
        run.io_event(event, inputs).worker.connect_target is None,
{
}

/// A client that has shut down, or that is busy, refuses to connect and keeps
/// everything as it is.
pub proof fn refused_connections_change_nothing(
    run: WorkerRun,
    target: ConnectTarget,
    policy_valid: bool,
    validation: Result<(), NetError>,
    inputs: WorkerInputs,
)
    requires
        run.worker.status is Closed || run.worker.status.is_occupied(),
    ensures
        run.connect(target, policy_valid, inputs).worker == run.worker,
        run.connect(target, policy_valid, inputs).actions == run.actions.push(
            WorkerAction::AnswerCommand(
                Err(
                    if run.worker.status is Closed {
                        NetError::EngineDropped
                    } else {
                        NetError::ConnectionExists
                    },
                ),
            ),
        ),
        run.connect_with_context(target, validation, inputs).worker == run.worker,
{
}

/// A disconnect ends in `Idle` with nothing left of the connection, unless the
/// client has already shut down.
pub proof fn disconnect_leaves_an_idle_client(
    run: WorkerRun,
    inputs: WorkerInputs,
    later: WorkerInputs,
)
    ensures
        ({
            let after = run.disconnect(inputs).stopped(StopPurpose::Disconnect, later).worker;
            &&& run.worker.status is Closed ==> after.status is Closed
            &&& !(run.worker.status is Closed) ==> after.status is Idle
            &&& after.connect_target is None
            &&& after.active_io is None
            &&& !after.connect_running
            &&& !after.connect_waiting
            &&& after.last_connection_error is None
            &&& after.last_handshake_http_status is None
            &&& after.generation == run.worker.generation
        }),
{
}

/// A shutdown ends in `Closed` with nothing left of the connection.
pub proof fn shutdown_leaves_a_closed_client(
    run: WorkerRun,
    wants_reply: bool,
    inputs: WorkerInputs,
    later: WorkerInputs,
)
    ensures
        ({
            let after = run.shut_down(inputs).stopped(
                StopPurpose::Shutdown { wants_reply },
                later,
            ).worker;
            &&& after.status is Closed
            &&& after.connect_target is None
            &&& after.active_io is None
            &&& !after.connect_running
            &&& !after.connect_waiting
        }),
{
}

/// However long a connection takes to stop, responses are given their whole
/// grace afterwards, and the listener of the last status its whole time.
pub proof fn stopping_uses_up_no_grace(
    run: WorkerRun,
    wants_reply: bool,
    inputs: WorkerInputs,
    later: WorkerInputs,
)
    ensures
        ({
            let stopping = run.shut_down(inputs);
            let after = stopping.stopped(StopPurpose::Shutdown { wants_reply }, later);
            &&& after.worker.terminal_response_deadline == ws_client_worker::grace_deadline(
                run.worker.response_dispatch_grace,
                later.now,
            )
            &&& forall|i: int|
                stopping.actions.len() <= i < after.actions.len() ==> ((
                #[trigger] after.actions[i]) matches WorkerAction::NotifyStatusUntil {
                    status,
                    until,
                } ==> later.now.plus(run.worker.close_timeout) == Some(until))
        }),
{
}

/// Without a grace nobody waits for callbacks or deferred responses, and no
/// barrier is put behind them.
pub proof fn no_grace_means_no_barrier(
    run: WorkerRun,
    wants_reply: bool,
    inputs: WorkerInputs,
    later: WorkerInputs,
)
    requires
        run.worker.response_dispatch_grace.nanos == 0,
    ensures
        run.finish_shut_down(wants_reply, later).worker.terminal_response_deadline is None,
        run.worker.terminal_response_deadline is None ==> ({
            let stopping = run.wind_up(inputs);
            let after = stopping.stopped(StopPurpose::WindUp, later);
            forall|i: int|
                stopping.actions.len() <= i < after.actions.len() ==> !((
                #[trigger] after.actions[i]) is DrainCallbacks)
                    && !(after.actions[i] is AwaitDeferredResponses)
        }),
{
}

/// Every connection cycle has another number than the one before it, so that
/// results of the old cycle are stale from then on; within a session numbers
/// only grow.
pub proof fn cycles_are_renumbered(run: WorkerRun, reconnecting: bool)
    requires
        run.worker.connect_target is Some,
        !(run.worker.has_session() && run.worker.generation == u64::MAX),
    ensures
        ({
            let after = run.start_connection(reconnecting, false, false).worker;
            &&& after.generation != run.worker.generation
            &&& after.generation != 0
            &&& !after.awaits(run.worker.generation)
            &&& !after.serves(run.worker.generation)
            &&& run.worker.has_session() ==> after.generation > run.worker.generation
        }),
{
}

/// A session whose cycle numbers are used up ends instead of repeating one.
pub proof fn exhausted_sessions_end(run: WorkerRun, reconnecting: bool)
    requires
        run.worker.has_session(),
        run.worker.generation == u64::MAX,
    ensures
        ({
            let after = run.start_connection(reconnecting, false, false).worker;
            &&& after.generation == u64::MAX
            &&& after.connect_target is None
            &&& after.last_connection_error == Some(NetError::InternalError)
            &&& !after.connect_running
        }),
{
}

/// A connection does not survive a loss of the network, even if the network
/// has come back by the time the worker looks. Only a shutdown that comes in
/// between keeps the status, which it then takes care of itself.
pub proof fn network_loss_ends_the_connection(
    run: WorkerRun,
    inputs: WorkerInputs,
    later: WorkerInputs,
)
    requires
        run.worker.wf(),
        run.worker.status is Connected,
        run.network_moved(inputs),
    ensures
        run.reconcile(inputs).worker.active_io is None,
        run.reconcile(inputs).worker.last_connection_error == Some(NetError::NetworkError),
        !run.reconcile(inputs).network_moved(inputs),
        !run.worker.has_session() && !(later.shutdown && run.worker.reconnects()) ==> !(
        run.reconcile(inputs).stopped(
            StopPurpose::Loss(ws_client_worker::network_loss()),
            later,
        ).worker.status is Connected),
{
}

/// The epoch that the worker has taken notice of never falls back by looking
/// at the network.
pub proof fn noticed_epochs_grow(run: WorkerRun, inputs: WorkerInputs)
    ensures
        run.reconcile(inputs).worker.network_loss_epoch >= run.worker.network_loss_epoch,
        inputs.network matches Some(snapshot) ==> run.reconcile(inputs).worker.network_loss_epoch
            >= snapshot.loss_epoch,
{
}

/// Only a cycle outside a session that used up its retries may be restarted by
/// a hint that the network is back; every other failure forgets the target.
pub proof fn only_exhausted_retries_can_be_resumed(
    run: WorkerRun,
    failure: WebSocketConnectionFailure,
    reason: WebSocketTerminationReason,
)
    requires
        run.worker.status.is_establishing(),
    ensures
        ({
            let after = run.fail_cycle(failure, reason).worker;
            &&& after.status is Disconnected
            &&& after.last_connection_error == Some(failure.error)
            &&& after.connect_target is Some ==> reason is RetryExhausted
                && !run.worker.has_session()
        }),
{
}

/// A status code is remembered only of an upgrade that the endpoint refused,
/// never one of a proxy.
pub proof fn proxy_answers_are_not_remembered(
    run: WorkerRun,
    failure: WebSocketConnectionFailure,
    reason: WebSocketTerminationReason,
)
    requires
        !(failure.stage is WebSocketUpgrade) || !(failure.error is ConnectError),
    ensures
        run.fail_cycle(failure, reason).worker.last_handshake_http_status is None,
{
}

} // verus!
