//! What the steps of a client worker are for: what callers, sessions and
//! requests learn of each of them.
use vstd::prelude::*;

use crate::connection_failure::{
    WebSocketConnectStage, WebSocketConnectionFailure, WebSocketTerminationReason,
};
use crate::connection_status::ConnectionStatus;
use crate::net_error::NetError;
use crate::network_status::NetworkStatus;
use crate::task_event::WebSocketTaskEndCause;
use crate::worker_action::{
    ClientCommand, ConnectTarget, ConnectionLoss, EstablishedConnection, IoEvent, StopPurpose,
    WorkerAction, WorkerInputs, WorkerStep,
};
use crate::ws_client_worker::{WSClientWorker, WorkerRun};

verus! {

/// Whether what follows `before` asks for `action`.
pub open spec fn asks(before: WorkerRun, after: WorkerRun, action: WorkerAction) -> bool {
    exists|i: int|
        before.actions.len() <= i < after.actions.len() && #[trigger] after.actions[i] == action
}

/// Whether what follows `before` asks for `first`, and later for `second`.
pub open spec fn asks_in_turn(
    before: WorkerRun,
    after: WorkerRun,
    first: WorkerAction,
    second: WorkerAction,
) -> bool {
    exists|i: int, j: int|
        before.actions.len() <= i < j < after.actions.len() && #[trigger] after.actions[i] == first
            && #[trigger] after.actions[j] == second
}

/// Whether what follows `before` keeps what was asked for already.
pub open spec fn extends(before: WorkerRun, after: WorkerRun) -> bool {
    &&& before.actions.len() <= after.actions.len()
    &&& forall|i: int|
        0 <= i < before.actions.len() ==> #[trigger] after.actions[i] == before.actions[i]
}

/// Whether success is told to a waiting caller only of a connection that there
/// is after the step.
pub open spec fn tells_success_truly(before: WorkerRun, after: WorkerRun) -> bool {
    &&& forall|i: int|
        before.actions.len() <= i < after.actions.len() ==> (#[trigger] after.actions[i]
            == WorkerAction::AnswerConnect(Ok(())) ==> after.worker.status is Connected)
    &&& extends(before, after)
}

/// Whether the worker has a session of its caller.
pub open spec fn in_session(worker: WSClientWorker) -> bool {
    worker.connect_target matches Some(target) && target.context is Some
}

/// Whether the worker is to replace a lost connection.
pub open spec fn to_reconnect(worker: WSClientWorker) -> bool {
    worker.connect_target matches Some(target) && target.reconnect.enabled
}

/// Whether the worker is in the middle of the attempt of `generation`.
pub open spec fn attempts(worker: WSClientWorker, generation: u64) -> bool {
    worker.generation == generation && (worker.status is Connecting
        || worker.status is Reconnecting)
}

/// Whether a connection made in `epoch` was overtaken by what is known of the
/// network.
pub open spec fn overtaken(epoch: Option<u64>, inputs: WorkerInputs) -> bool {
    epoch matches Some(made_in) && inputs.network matches Some(snapshot) && (snapshot.loss_epoch
        != made_in || snapshot.status == Some(NetworkStatus::Unavailable))
}

spec fn looked_at(action: WorkerAction) -> bool {
    true
}

proof fn looking(before: WorkerRun, after: WorkerRun)
    ensures
        ({
            let n = before.actions.len() as int;
            let a = after.actions;
            &&& looked_at(a[n]) && looked_at(a[n + 1]) && looked_at(a[n + 2]) && looked_at(a[n + 3])
            &&& looked_at(a[n + 4]) && looked_at(a[n + 5]) && looked_at(a[n + 6]) && looked_at(
                a[n + 7],
            )
            &&& looked_at(a[n + 8]) && looked_at(a[n + 9]) && looked_at(a[n + 10]) && looked_at(
                a[n + 11],
            ) && looked_at(a[n + 12])
        }),
{
}

/// Whether nobody is told of success by what follows `before`.
pub open spec fn tells_no_success(before: WorkerRun, after: WorkerRun) -> bool {
    &&& forall|i: int|
        before.actions.len() <= i < after.actions.len() ==> #[trigger] after.actions[i]
            != WorkerAction::AnswerConnect(Ok(()))
    &&& extends(before, after)
}

proof fn starting_tells_no_success(
    run: WorkerRun,
    reconnecting: bool,
    shutdown: bool,
    session_cancelled: bool,
)
    ensures
        tells_no_success(run, run.start_connection(reconnecting, shutdown, session_cancelled)),
{
}

proof fn settling_tells_no_success(
    run: WorkerRun,
    loss: ConnectionLoss,
    shutdown: bool,
    session_cancelled: bool,
)
    ensures
        tells_no_success(run, run.settle_loss(loss, shutdown, session_cancelled)),
{
    let failed = run.emit(
        WorkerAction::FailPendingOf { generation: run.worker.generation, error: loss.error },
    ).emit(WorkerAction::FailRejected(loss.error));
    starting_tells_no_success(failed, true, shutdown, session_cancelled);
}

/// Whatever a worker is asked to do, a caller that waits for the connection does
/// not hear of success by that, and nothing that was asked for before is taken
/// back.
pub proof fn commands_tell_no_success(run: WorkerRun, command: ClientCommand, inputs: WorkerInputs)
    ensures
        tells_no_success(run, run.command(command, inputs)),
        tells_no_success(run, run.wind_up(inputs)),
{
    match command {
        ClientCommand::Connect { url, headers, has_header_provider, reconnect, policy_valid } => {
            let target = ConnectTarget {
                url,
                headers,
                has_header_provider,
                reconnect,
                context: None,
            };
            starting_tells_no_success(
                run.aim_at(target),
                false,
                inputs.shutdown,
                inputs.session_cancelled,
            );
        },
        ClientCommand::ConnectWithContext { url, headers, reconnect, context, validation } => {
            let target = ConnectTarget {
                url,
                headers,
                has_header_provider: false,
                reconnect,
                context: Some(context),
            };
            starting_tells_no_success(
                run.aim_at(target),
                false,
                inputs.shutdown,
                inputs.session_cancelled,
            );
        },
        ClientCommand::NetworkAvailable => {
            starting_tells_no_success(run, true, inputs.shutdown, inputs.session_cancelled);
        },
        ClientCommand::Disconnect => {},
        ClientCommand::Shutdown { wants_reply } => {},
    }
}

/// Whatever a worker learns, a caller that waits for the connection hears of
/// success only when there is a connection.
pub proof fn success_is_told_only_of_connections(
    run: WorkerRun,
    event: IoEvent,
    inputs: WorkerInputs,
)
    ensures
        tells_success_truly(run, run.io_event(event, inputs)),
        tells_no_success(run, run.reconcile(inputs)),
        !(event is ConnectSucceeded) ==> tells_no_success(run, run.io_event(event, inputs)),
{
}

/// Whatever a stop of the connection was for, nobody hears of success by it.
pub proof fn stops_tell_no_success(run: WorkerRun, purpose: StopPurpose, inputs: WorkerInputs)
    ensures
        tells_no_success(run, run.stopped(purpose, inputs)),
{
    match purpose {
        StopPurpose::Loss(loss) => {
            settling_tells_no_success(run, loss, inputs.shutdown, inputs.session_cancelled);
        },
        StopPurpose::LossFirst(loss) => {
            settling_tells_no_success(run, loss, inputs.shutdown, inputs.session_cancelled);
        },
        _ => {},
    }
}

/// Steps that are completed later tell success only of a connection, too: an
/// attempt that is taken into service becomes one, and of an attempt that is
/// not, nobody hears so.
pub proof fn completed_steps_tell_success_truly(
    run: WorkerRun,
    connection: EstablishedConnection,
    loss: ConnectionLoss,
    delivered: bool,
    error: NetError,
    inputs: WorkerInputs,
)
    ensures
        attempts(run.worker, connection.generation) ==> tells_success_truly(
            run,
            run.establish(connection),
        ),
        run.worker.status is Connected ==> tells_success_truly(
            run,
            run.commit(connection, delivered),
        ),
        tells_no_success(run, run.resume_loss(loss, delivered, inputs)),
        tells_no_success(run, run.refuse_established(connection.wants_answer, error)),
        tells_no_success(run, run.replied(delivered)),
{
    settling_tells_no_success(
        run.emit_if(!delivered, WorkerAction::RevokeSession),
        loss,
        inputs.shutdown,
        inputs.session_cancelled || !delivered,
    );
}

/// The failure of the attempt in progress ends the attempt and reaches everybody
/// concerned: the caller that waits for it is answered with the error of that
/// failure and with nothing else, everything queued fails with it, and a
/// session is told of it.
pub proof fn failed_attempts_are_reported(
    run: WorkerRun,
    generation: u64,
    failure: WebSocketConnectionFailure,
    reason: WebSocketTerminationReason,
    inputs: WorkerInputs,
)
    requires
        attempts(run.worker, generation),
    ensures
        ({
            let event = IoEvent::ConnectFailed { generation, failure, reason };
            let after = run.io_event(event, inputs);
            &&& after.worker.status is Disconnected
            &&& !after.worker.connect_running && !after.worker.connect_waiting
            &&& after.worker.last_connection_error == Some(failure.error)
            &&& after.worker.last_handshake_http_status == if failure.error is ConnectError
                && failure.stage is WebSocketUpgrade {
                failure.http_status
            } else {
                None
            }
            &&& after.worker.connect_target == if reason is RetryExhausted && !in_session(
                run.worker,
            ) {
                run.worker.connect_target
            } else {
                None
            }
            &&& run.worker.connect_waiting ==> asks(
                run,
                after,
                WorkerAction::AnswerConnect(Err(failure.error)),
            )
            &&& forall|i: int|
                run.actions.len() <= i < after.actions.len() ==> ((#[trigger] after.actions[i])
                    is AnswerConnect ==> run.worker.connect_waiting && after.actions[i]
                    == WorkerAction::AnswerConnect(Err(failure.error)))
            &&& asks(run, after, WorkerAction::EndSendSession { cause: None })
            &&& asks(run, after, WorkerAction::NotifyStatus(ConnectionStatus::Disconnected))
            &&& asks(run, after, WorkerAction::FailQueued(failure.error))
            &&& in_session(run.worker) <==> asks(
                run,
                after,
                WorkerAction::TerminateSession { reason, failure },
            )
            &&& run.io_event_step(event, inputs) is Done
        }),
{
    looking(run, run.io_event(IoEvent::ConnectFailed { generation, failure, reason }, inputs));
}

/// A failure that no attempt in progress waits for changes nothing, and so does
/// the end of a task whose connection is not the established one.
pub proof fn unawaited_ends_change_nothing(
    run: WorkerRun,
    generation: u64,
    failure: WebSocketConnectionFailure,
    reason: WebSocketTerminationReason,
    error: NetError,
    inputs: WorkerInputs,
)
    ensures
        !attempts(run.worker, generation) ==> run.io_event(
            IoEvent::ConnectFailed { generation, failure, reason },
            inputs,
        ) == run,
        !(run.worker.status is Connected && run.worker.generation == generation) ==> ({
            &&& run.io_event(IoEvent::ReadEnded { generation, error }, inputs) == run
            &&& run.io_event(IoEvent::WriteEnded { generation, error }, inputs) == run
            &&& run.io_event(IoEvent::CallbackDispatchFailed { generation }, inputs) == run
            &&& run.io_event_step(IoEvent::ReadEnded { generation, error }, inputs) is Done
            &&& run.io_event_step(IoEvent::WriteEnded { generation, error }, inputs) is Done
            &&& run.io_event_step(IoEvent::CallbackDispatchFailed { generation }, inputs) is Done
        }),
{
}

/// An attempt that succeeds becomes the connection: its tasks are started, sends
/// are let through to it, and then whoever waits for it hears of the success.
pub proof fn successful_attempts_become_the_connection(
    run: WorkerRun,
    generation: u64,
    network_loss_epoch: Option<u64>,
    wants_answer: bool,
    inputs: WorkerInputs,
)
    requires
        attempts(run.worker, generation),
        !inputs.shutdown,
        !overtaken(network_loss_epoch, inputs),
    ensures
        ({
            let event = IoEvent::ConnectSucceeded {
                generation,
                context_attempt_id: None,
                network_loss_epoch,
                wants_answer,
            };
            let after = run.io_event(event, inputs);
            let loss_epoch = match network_loss_epoch {
                Some(epoch) => epoch,
                None => run.worker.network_loss_epoch,
            };
            let start = WorkerAction::StartIo { generation, loss_epoch };
            let open_sends = WorkerAction::AdmitSendConnection { loss_epoch };
            let told = WorkerAction::AnswerConnect(Ok(()));
            &&& after.worker.status is Connected
            &&& after.worker.active_io == Some(generation)
            &&& after.worker.generation == generation
            &&& after.worker.network_loss_epoch == loss_epoch
            &&& after.worker.last_handshake_http_status is None
            &&& after.worker.connect_target == run.worker.connect_target
            &&& !after.worker.connect_running && !after.worker.connect_waiting
            &&& asks(run, after, start)
            &&& asks(run, after, open_sends)
            &&& asks(run, after, WorkerAction::NotifyStatus(ConnectionStatus::Connected))
            &&& run.worker.connect_waiting ==> asks_in_turn(run, after, start, told)
                && asks_in_turn(run, after, open_sends, told)
            &&& asks(run, after, told) ==> run.worker.connect_waiting
            &&& wants_answer <==> asks(run, after, WorkerAction::AnswerTask(Ok(())))
            &&& run.io_event_step(event, inputs) is Done
        }),
{
    looking(
        run,
        run.io_event(
            IoEvent::ConnectSucceeded {
                generation,
                context_attempt_id: None,
                network_loss_epoch,
                wants_answer,
            },
            inputs,
        ),
    );
}

/// An attempt that succeeds too late is not taken into service: during a
/// shutdown, in another cycle, or after the network was lost. Its task is told
/// why, if it asks.
pub proof fn belated_successes_are_refused(
    run: WorkerRun,
    generation: u64,
    context_attempt_id: Option<u64>,
    network_loss_epoch: Option<u64>,
    wants_answer: bool,
    inputs: WorkerInputs,
)
    requires
        inputs.shutdown || !attempts(run.worker, generation) || overtaken(
            network_loss_epoch,
            inputs,
        ),
    ensures
        ({
            let event = IoEvent::ConnectSucceeded {
                generation,
                context_attempt_id,
                network_loss_epoch,
                wants_answer,
            };
            let after = run.io_event(event, inputs);
            let error = if inputs.shutdown || !attempts(run.worker, generation) {
                NetError::Cancelled
            } else {
                NetError::NetworkError
            };
            &&& after.worker == run.worker
            &&& after.actions == if wants_answer {
                run.actions.push(WorkerAction::AnswerTask(Err(error)))
            } else {
                run.actions
            }
            &&& run.io_event_step(event, inputs) is Done
        }),
{
}

/// An attempt of a session waits for the session as long as the session lives,
/// and is refused together with it otherwise. Progress of an attempt is passed
/// to a live session and answered as cancelled without one.
pub proof fn sessions_decide_about_their_attempts(
    run: WorkerRun,
    generation: u64,
    attempt_id: u64,
    network_loss_epoch: Option<u64>,
    wants_answer: bool,
    inputs: WorkerInputs,
)
    requires
        attempts(run.worker, generation),
        !inputs.shutdown,
        !overtaken(network_loss_epoch, inputs),
    ensures
        ({
            let event = IoEvent::ConnectSucceeded {
                generation,
                context_attempt_id: Some(attempt_id),
                network_loss_epoch,
                wants_answer,
            };
            let progress = IoEvent::ContextProgress { generation };
            let live = in_session(run.worker) && !inputs.session_cancelled;
            let after = run.io_event(event, inputs);
            &&& after.worker == run.worker
            &&& run.io_event(progress, inputs).worker == run.worker
            &&& live ==> {
                &&& after.actions == run.actions
                &&& run.io_event_step(event, inputs) == WorkerStep::AwaitEstablished(
                    EstablishedConnection {
                        generation,
                        context_attempt_id: Some(attempt_id),
                        network_loss_epoch,
                        wants_answer,
                    },
                )
                &&& run.io_event(progress, inputs) == run
                &&& run.io_event_step(progress, inputs) is AwaitSession
            }
            &&& !live ==> {
                &&& in_session(run.worker) <==> asks(run, after, WorkerAction::RevokeSession)
                &&& wants_answer <==> asks(
                    run,
                    after,
                    WorkerAction::AnswerTask(Err(NetError::Cancelled)),
                )
                &&& run.io_event_step(event, inputs) is Done
                &&& run.io_event(progress, inputs).actions == run.actions.push(
                    WorkerAction::AnswerTask(Err(NetError::Cancelled)),
                )
                &&& run.io_event_step(progress, inputs) is Done
            }
        }),
{
    looking(
        run,
        run.io_event(
            IoEvent::ConnectSucceeded {
                generation,
                context_attempt_id: Some(attempt_id),
                network_loss_epoch,
                wants_answer,
            },
            inputs,
        ),
    );
}

/// An attempt that its session accepts becomes the connection, which the session
/// publishes before anybody is answered; a session that cannot publish it is
/// revoked, and one that does not accept it is revoked without a connection.
pub proof fn accepted_attempts_become_the_connection(
    run: WorkerRun,
    connection: EstablishedConnection,
    attempt_id: u64,
    committed: bool,
    error: NetError,
)
    requires
        attempts(run.worker, connection.generation),
        in_session(run.worker),
        !run.worker.connect_waiting,
        connection.context_attempt_id == Some(attempt_id),
    ensures
        ({
            let serving = run.establish(connection);
            let answered = serving.commit(connection, committed);
            let refused = run.refuse_established(connection.wants_answer, error);
            let loss_epoch = match connection.network_loss_epoch {
                Some(epoch) => epoch,
                None => run.worker.network_loss_epoch,
            };
            let start = WorkerAction::StartIo { generation: connection.generation, loss_epoch };
            &&& serving.worker.status is Connected
            &&& serving.worker.active_io == Some(connection.generation)
            &&& serving.worker.network_loss_epoch == loss_epoch
            &&& serving.worker.last_handshake_http_status is None
            &&& asks_in_turn(run, serving, start, WorkerAction::CommitEstablished { attempt_id })
            &&& asks(run, serving, WorkerAction::AdmitSendConnection { loss_epoch })
            &&& asks(run, serving, WorkerAction::NotifyStatus(ConnectionStatus::Connected))
            &&& !asks(run, serving, WorkerAction::AnswerTask(Ok(())))
            &&& run.establish_step(connection) == WorkerStep::AwaitCommit(connection)
            &&& answered.worker == serving.worker
            &&& !committed <==> asks(serving, answered, WorkerAction::RevokeSession)
            &&& connection.wants_answer <==> asks(
                serving,
                answered,
                WorkerAction::AnswerTask(Ok(())),
            )
            &&& refused.worker == run.worker
            &&& asks(run, refused, WorkerAction::RevokeSession)
            &&& connection.wants_answer <==> asks(
                run,
                refused,
                WorkerAction::AnswerTask(Err(error)),
            )
        }),
{
    let serving = run.establish(connection);
    looking(run, serving);
    looking(serving, serving.commit(connection, committed));
    looking(run, run.refuse_established(connection.wants_answer, error));
}

} // verus!
