//! What holds between the handles of a client and its worker.
use vstd::prelude::*;

use crate::clock::Instant;
use crate::connection_failure::{WebSocketConnectionFailure, WebSocketTerminationReason};
use crate::connection_status::ConnectionStatus;
use crate::net_error::NetError;
use crate::send_admission::{SendAdmission, SendLease, WSRequestConfig};
use crate::task_event::WebSocketTaskEndCause;
use crate::worker_action::{
    ClientCommand, ConnectTarget, ConnectionLoss, EstablishedConnection, IoEvent, StopPurpose,
    WorkerAction, WorkerInputs,
};
use crate::ws_client_inner::WSClientInner;
use crate::ws_client_worker;
use crate::ws_client_worker::{WSClientWorker, WorkerRun};

verus! {

/// Whether sends are let through as the worker's state calls for: to an
/// established connection and to no other, and in a session as long as there is
/// an attempt or a connection.
pub open spec fn in_step(admission: SendAdmission, worker: WSClientWorker) -> bool {
    &&& worker.status is Connected && worker.active_io is Some ==> admission.connection_open
        && admission.network_loss_epoch == worker.network_loss_epoch
    &&& worker.status is Connected || worker.status.is_establishing() ==> admission.session_open
    &&& admission.connection_open ==> worker.status is Connected && worker.active_io is Some
}

impl WSClientInner {
    /// Whether the handles show what the worker has done.
    pub open spec fn mirrors(self, worker: WSClientWorker) -> bool {
        &&& self.state == worker.status
        &&& self.last_connection_error == worker.last_connection_error
        &&& self.last_handshake_http_status == worker.last_handshake_http_status
        &&& in_step(self.send_admission, worker)
    }
}

/// The admission once the worker has asked for `action`.
pub open spec fn admission_after(admission: SendAdmission, action: WorkerAction) -> SendAdmission {
    match action {
        WorkerAction::BeginSendSession { session_context_id, scoped } => admission.session_begun(),
        WorkerAction::AdmitSendConnection { loss_epoch } => admission.connected(loss_epoch),
        WorkerAction::EndSendConnection => admission.disconnected(),
        WorkerAction::EndSendSession { cause } => admission.session_over(),
        _ => admission,
    }
}

/// The admission once the worker has asked for the actions, first to last.
#[verifier::opaque]
pub open spec fn admission_after_all(
    admission: SendAdmission,
    actions: Seq<WorkerAction>,
) -> SendAdmission
    decreases actions.len(),
{
    if actions.len() == 0 {
        admission
    } else {
        admission_after(
            admission_after_all(admission, actions.drop_last()),
            actions.last(),
        )
    }
}

/// The admission after everything that a run has asked for.
pub open spec fn admitted(start: SendAdmission, run: WorkerRun) -> SendAdmission {
    admission_after_all(start, run.actions)
}

proof fn handles_hold_the_admission(client: WSClientInner, actions: Seq<WorkerAction>)
    ensures
        client.after_all(actions).send_admission == admission_after_all(
            client.send_admission,
            actions,
        ),
    decreases actions.len(),
{
    reveal(admission_after_all);
    if actions.len() > 0 {
        handles_hold_the_admission(client, actions.drop_last());
    }
}

proof fn emitting(start: SendAdmission, run: WorkerRun, action: WorkerAction)
    ensures
        admitted(start, run.emit(action)) == admission_after(admitted(start, run), action),
{
    reveal(admission_after_all);
    assert(run.actions.push(action).drop_last() =~= run.actions);
}

proof fn entering(start: SendAdmission, run: WorkerRun, status: ConnectionStatus, until: Instant)
    ensures
        admitted(start, run.set_status(status)) == admitted(start, run),
        admitted(start, run.set_status_until(status, until)) == admitted(start, run),
{
    let moved = WorkerRun { worker: WSClientWorker { status, ..run.worker }, ..run };
    emitting(start, moved, WorkerAction::NotifyStatus(status));
    emitting(start, moved, WorkerAction::NotifyStatusUntil { status, until });
}

proof fn cancelling(start: SendAdmission, run: WorkerRun, error: NetError)
    ensures
        admitted(start, run.cancel_connect(error)) == admitted(start, run),
{
    let aborted = run.emit_if(run.worker.connect_running, WorkerAction::AbortConnectTask);
    emitting(start, run, WorkerAction::AbortConnectTask);
    emitting(start, aborted, WorkerAction::AnswerConnect(Err(error)));
}

proof fn stopping(start: SendAdmission, run: WorkerRun, graceful: bool, now: Instant)
    ensures
        admitted(start, run.stop_active_io(graceful, now)) == admitted(start, run),
{
    if run.worker.active_io is Some {
        let idle = WorkerRun { worker: WSClientWorker { active_io: None, ..run.worker }, ..run };
        emitting(start, idle, run.stop_active_io(graceful, now).actions.last());
    }
}

proof fn finishing(
    start: SendAdmission,
    run: WorkerRun,
    reason: WebSocketTerminationReason,
    failure: WebSocketConnectionFailure,
)
    ensures
        admitted(start, run.finish_session(reason, failure)) == admitted(start, run),
{
    emitting(start, run, WorkerAction::TerminateSession { reason, failure });
}

proof fn starting(
    start: SendAdmission,
    run: WorkerRun,
    reconnecting: bool,
    shutdown: bool,
    session_cancelled: bool,
)
    requires
        in_step(admitted(start, run), run.worker),
        run.worker.active_io is None,
        reconnecting ==> run.worker.status is Connected || run.worker.status is Disconnected,
        !reconnecting ==> !run.worker.status.is_occupied(),
    ensures
        ({
            let after = run.start_connection(reconnecting, shutdown, session_cancelled);
            in_step(admitted(start, after), after.worker) && after.worker.active_io is None
        }),
{
    if run.worker.connect_target is Some && !(shutdown || (run.worker.has_session()
        && session_cancelled)) {
        let target = run.worker.connect_target->0;
        let open = WorkerAction::BeginSendSession {
            session_context_id: match target.context {
                Some(context) => Some(context.session_context_id),
                None => None,
            },
            scoped: target.context matches Some(context) && context.scoped,
        };
        let a = run.emit_if(!reconnecting || run.worker.status is Disconnected, open);
        let b = a.cancel_connect(NetError::Cancelled);
        let c = if reconnecting {
            b
        } else {
            b.record(None, None)
        };
        emitting(start, run, open);
        cancelling(start, a, NetError::Cancelled);
        let next = (run.worker.generation + 1) as u64;
        let plain = ws_client_worker::next_plain_generation(run.worker.generation);
        beginning(start, c, next, reconnecting);
        beginning(start, c, plain, reconnecting);
        let failure = crate::connection_failure::plain_failure(
            NetError::InternalError,
            crate::connection_failure::WebSocketConnectStage::EventDelivery,
            false,
        );
        let d = c.emit(WorkerAction::EndSendSession { cause: None });
        let e = d.record_error(NetError::InternalError);
        let f = e.set_status(ConnectionStatus::Disconnected);
        emitting(start, c, WorkerAction::EndSendSession { cause: None });
        entering(start, e, ConnectionStatus::Disconnected, Instant { nanos: 0 });
        finishing(start, f, WebSocketTerminationReason::ConnectFailed, failure);
    }
}

proof fn beginning(start: SendAdmission, run: WorkerRun, generation: u64, reconnecting: bool)
    ensures
        admitted(start, run.begin_cycle(generation, reconnecting)) == admitted(start, run),
{
    let numbered = WorkerRun {
        worker: WSClientWorker { generation, connect_running: true, ..run.worker },
        ..run
    };
    let status = if reconnecting {
        ConnectionStatus::Reconnecting
    } else {
        ConnectionStatus::Connecting
    };
    entering(start, numbered, status, Instant { nanos: 0 });
    emitting(start, numbered.set_status(status), WorkerAction::StartConnect { generation });
}

proof fn losing(start: SendAdmission, run: WorkerRun, loss: ConnectionLoss, now: Instant)
    ensures
        admitted(start, run.lose_connection(loss, now)) == admitted(start, run).disconnected(),
{
    let a = run.emit(WorkerAction::EndSendConnection);
    let b = a.record_error(loss.error);
    emitting(start, run, WorkerAction::EndSendConnection);
    stopping(start, b, false, now);
}

proof fn settling(
    start: SendAdmission,
    run: WorkerRun,
    loss: ConnectionLoss,
    shutdown: bool,
    session_cancelled: bool,
)
    requires
        in_step(admitted(start, run), run.worker),
        run.worker.status is Connected,
        run.worker.active_io is None,
    ensures
        ({
            let after = run.settle_loss(loss, shutdown, session_cancelled);
            in_step(admitted(start, after), after.worker)
        }),
{
    let fail = WorkerAction::FailPendingOf { generation: run.worker.generation, error: loss.error };
    let a = run.emit(fail);
    let b = a.emit(WorkerAction::FailRejected(loss.error));
    emitting(start, run, fail);
    emitting(start, a, WorkerAction::FailRejected(loss.error));
    if run.worker.reconnects() {
        starting(start, b, true, shutdown, session_cancelled);
    } else {
        let c = b.emit(WorkerAction::EndSendSession { cause: None });
        let d = c.set_status(ConnectionStatus::Disconnected);
        let e = d.emit(WorkerAction::FailQueued(loss.error));
        emitting(start, b, WorkerAction::EndSendSession { cause: None });
        entering(start, c, ConnectionStatus::Disconnected, Instant { nanos: 0 });
        emitting(start, d, WorkerAction::FailQueued(loss.error));
        finishing(start, e, loss.reason, loss.failure);
    }
}

proof fn passing_on(
    start: SendAdmission,
    run: WorkerRun,
    loss: ConnectionLoss,
    inputs: WorkerInputs,
)
    requires
        in_step(admitted(start, run), run.worker),
        run.worker.status is Connected,
        run.worker.active_io is None,
    ensures
        in_step(
            admitted(start, run.pass_on_loss(loss, inputs)),
            run.pass_on_loss(loss, inputs).worker,
        ),
{
    emitting(
        start,
        run,
        WorkerAction::PublishTermination { reason: loss.reason, failure: loss.failure },
    );
    settling(start, run, loss, inputs.shutdown, inputs.session_cancelled);
}

proof fn answering(start: SendAdmission, run: WorkerRun, connection: EstablishedConnection)
    ensures
        admitted(start, run.answer_established(connection)) == admitted(start, run),
{
    let a = WorkerRun {
        worker: WSClientWorker { connect_waiting: false, ..run.worker },
        actions: run.emit_if(
            run.worker.connect_waiting,
            WorkerAction::AnswerConnect(Ok(())),
        ).actions,
    };
    emitting(start, run, WorkerAction::AnswerConnect(Ok(())));
    emitting(start, a, WorkerAction::AnswerTask(Ok(())));
}

proof fn establishing(start: SendAdmission, run: WorkerRun, connection: EstablishedConnection)
    requires
        in_step(admitted(start, run), run.worker),
        run.worker.status.is_establishing(),
    ensures
        in_step(
            admitted(start, run.establish(connection)),
            run.establish(connection).worker,
        ),
        ({
            let after = run.establish(connection).worker;
            after.status is Connected && after.active_io is Some
        }),
{
    let epoch = match connection.network_loss_epoch {
        Some(epoch) => epoch,
        None => run.worker.network_loss_epoch,
    };
    let base = WorkerRun {
        worker: WSClientWorker {
            connect_running: false,
            network_loss_epoch: epoch,
            active_io: Some(connection.generation),
            last_handshake_http_status: None,
            ..run.worker
        },
        ..run
    };
    let serve = WorkerAction::StartIo { generation: connection.generation, loss_epoch: epoch };
    let open_sends = WorkerAction::AdmitSendConnection { loss_epoch: epoch };
    let a = base.emit(serve);
    let b = a.emit(open_sends);
    let c = b.set_status(ConnectionStatus::Connected);
    emitting(start, base, serve);
    emitting(start, a, open_sends);
    entering(start, b, ConnectionStatus::Connected, Instant { nanos: 0 });
    emitting(
        start,
        c,
        WorkerAction::CommitEstablished { attempt_id: connection.context_attempt_id->0 },
    );
    answering(start, c, connection);
}

proof fn failing(
    start: SendAdmission,
    run: WorkerRun,
    failure: WebSocketConnectionFailure,
    reason: WebSocketTerminationReason,
)
    requires
        run.worker.status.is_establishing(),
    ensures
        in_step(
            admitted(start, run.fail_cycle(failure, reason)),
            run.fail_cycle(failure, reason).worker,
        ),
{
    let end = WorkerAction::EndSendSession { cause: None };
    let http_status = if failure.error is ConnectError && failure.stage is WebSocketUpgrade {
        failure.http_status
    } else {
        None
    };
    let a = WorkerRun { worker: WSClientWorker { connect_running: false, ..run.worker }, ..run };
    let b = a.emit(end);
    let c = b.record(Some(failure.error), http_status);
    let d = c.set_status(ConnectionStatus::Disconnected);
    let e = WorkerRun { worker: WSClientWorker { connect_waiting: false, ..d.worker }, ..d };
    let f = e.emit_if(run.worker.connect_waiting, WorkerAction::AnswerConnect(Err(failure.error)));
    let g = f.emit(WorkerAction::FailQueued(failure.error));
    emitting(start, a, end);
    entering(start, c, ConnectionStatus::Disconnected, Instant { nanos: 0 });
    emitting(start, e, WorkerAction::AnswerConnect(Err(failure.error)));
    emitting(start, f, WorkerAction::FailQueued(failure.error));
    finishing(start, g, reason, failure);
}

proof fn leaving(start: SendAdmission, run: WorkerRun, inputs: WorkerInputs)
    ensures
        admitted(start, run.disconnect(inputs)) == admitted(start, run).session_over(),
        admitted(start, run.shut_down(inputs)) == admitted(start, run).session_over(),
        admitted(start, run.wind_up(inputs)) == admitted(start, run).session_over(),
{
    let end = WorkerAction::EndSendSession { cause: Some(WebSocketTaskEndCause::Disconnect) };
    let a = run.emit(end);
    let b = a.set_status(ConnectionStatus::Closing);
    let c = b.cancel_connect(NetError::Cancelled);
    emitting(start, run, end);
    entering(start, a, ConnectionStatus::Closing, inputs.now);
    cancelling(start, b, NetError::Cancelled);
    stopping(start, c, !inputs.scope_cancelled, inputs.now);
    let last = WorkerAction::EndSendSession { cause: Some(WebSocketTaskEndCause::Shutdown) };
    let d = run.emit(WorkerAction::CloseTaskObservers);
    let e = d.emit(last);
    let f = e.set_status(ConnectionStatus::Closing);
    let g = f.cancel_connect(NetError::Cancelled);
    emitting(start, run, WorkerAction::CloseTaskObservers);
    emitting(start, d, last);
    entering(start, e, ConnectionStatus::Closing, inputs.now);
    cancelling(start, f, NetError::Cancelled);
    stopping(start, g, true, inputs.now);
    let h = run.emit(WorkerAction::PublishShutdown);
    let i = h.emit(WorkerAction::CloseTaskObservers);
    let j = i.emit(last);
    let k = j.cancel_connect(NetError::Cancelled);
    emitting(start, run, WorkerAction::PublishShutdown);
    emitting(start, h, WorkerAction::CloseTaskObservers);
    emitting(start, i, last);
    cancelling(start, j, NetError::Cancelled);
    stopping(start, k, false, inputs.now);
}

proof fn left(start: SendAdmission, run: WorkerRun, wants_reply: bool, inputs: WorkerInputs)
    ensures
        admitted(start, run.finish_disconnect(inputs)) == admitted(start, run),
        admitted(start, run.finish_shut_down(wants_reply, inputs)) == admitted(start, run),
{
    let failure = ws_client_worker::cancellation();
    let reason = if inputs.session_cancelled {
        WebSocketTerminationReason::Cancelled
    } else {
        WebSocketTerminationReason::Disconnected
    };
    let a = run.emit(WorkerAction::FailQueued(NetError::Cancelled));
    let b = a.emit(WorkerAction::FailPending(NetError::Cancelled));
    let c = b.record(None, None);
    let d = c.set_status(ConnectionStatus::Idle);
    let e = d.finish_session(reason, failure);
    emitting(start, run, WorkerAction::FailQueued(NetError::Cancelled));
    emitting(start, a, WorkerAction::FailPending(NetError::Cancelled));
    entering(start, c, ConnectionStatus::Idle, inputs.now);
    finishing(start, d, reason, failure);
    emitting(start, e.forget_target(), WorkerAction::AnswerCommand(Ok(())));
    let f = run.emit(WorkerAction::CloseQueues);
    let g = f.emit(WorkerAction::FailQueued(NetError::Cancelled));
    let h = g.emit(WorkerAction::FailPending(NetError::Cancelled));
    let i = h.finish_session(WebSocketTerminationReason::Shutdown, failure);
    let j = WorkerRun {
        worker: WSClientWorker {
            terminal_response_deadline: ws_client_worker::grace_deadline(
                run.worker.response_dispatch_grace,
                inputs.now,
            ),
            ..i.forget_target().worker
        },
        ..i
    };
    let until = match inputs.now.plus(run.worker.close_timeout) {
        Some(until) => until,
        None => inputs.now,
    };
    let k = match inputs.now.plus(run.worker.close_timeout) {
        Some(until) => j.set_status_until(ConnectionStatus::Closed, until),
        None => j.set_status(ConnectionStatus::Closed),
    };
    emitting(start, run, WorkerAction::CloseQueues);
    emitting(start, f, WorkerAction::FailQueued(NetError::Cancelled));
    emitting(start, g, WorkerAction::FailPending(NetError::Cancelled));
    finishing(start, h, WebSocketTerminationReason::Shutdown, failure);
    entering(start, j, ConnectionStatus::Closed, until);
    emitting(start, k, WorkerAction::AnswerCommand(Ok(())));
}

proof fn following_a_run(client: WSClientInner, run: WorkerRun)
    requires
        in_step(admitted(client.send_admission, run), run.worker),
    ensures
        client.following(run.worker, run.actions).mirrors(run.worker),
{
    handles_hold_the_admission(client, run.actions);
}

proof fn nothing_asked(admission: SendAdmission)
    ensures
        admission_after_all(admission, Seq::empty()) == admission,
{
    reveal(admission_after_all);
}

/// Handles that follow every step show what the worker has done: after each
/// command their status, their last results and the sends that they let through
/// are those of the worker.
pub proof fn handles_follow_commands(
    client: WSClientInner,
    worker: WSClientWorker,
    command: ClientCommand,
    inputs: WorkerInputs,
)
    requires
        worker.wf(),
        client.mirrors(worker),
    ensures
        ({
            let after = worker.run(Seq::empty()).command(command, inputs);
            client.following(after.worker, after.actions).mirrors(after.worker)
        }),
{
    let start = client.send_admission;
    let run = worker.run(Seq::empty());
    nothing_asked(start);
    leaving(start, run, inputs);
    match command {
        ClientCommand::Connect { url, headers, has_header_provider, reconnect, policy_valid } => {
            let target = ConnectTarget {
                url,
                headers,
                has_header_provider,
                reconnect,
                context: None,
            };
            let refusal = ws_client_worker::connect_refusal(
                worker,
                reconnect.max_elapsed is Some,
                policy_valid,
            );
            if refusal is Some {
                emitting(start, run, WorkerAction::AnswerCommand(Err(refusal->0)));
            } else {
                starting(
                    start,
                    run.aim_at(target),
                    false,
                    inputs.shutdown,
                    inputs.session_cancelled,
                );
            }
        },
        ClientCommand::ConnectWithContext { url, headers, reconnect, context, validation } => {
            let target = ConnectTarget {
                url,
                headers,
                has_header_provider: false,
                reconnect,
                context: Some(context),
            };
            let refusal = ws_client_worker::context_refusal(
                worker,
                reconnect.max_elapsed is Some,
                inputs.session_cancelled,
                validation,
            );
            if refusal is Some {
                let tell = WorkerAction::TerminateSession {
                    reason: WebSocketTerminationReason::ConnectFailed,
                    failure: crate::connection_failure::plain_failure(
                        refusal->0,
                        crate::connection_failure::WebSocketConnectStage::RequestBuild,
                        false,
                    ),
                };
                emitting(start, run, tell);
                emitting(start, run.emit(tell), WorkerAction::AnswerCommand(Err(refusal->0)));
            } else {
                let aimed = run.aim_at(target);
                starting(start, aimed, false, inputs.shutdown, inputs.session_cancelled);
                emitting(
                    start,
                    aimed.start_connection(false, inputs.shutdown, inputs.session_cancelled),
                    WorkerAction::AnswerCommand(Ok(())),
                );
            }
        },
        ClientCommand::NetworkAvailable => {
            if worker.status is Disconnected && worker.reconnects() {
                starting(start, run, true, inputs.shutdown, inputs.session_cancelled);
            }
        },
        ClientCommand::Disconnect => {},
        ClientCommand::Shutdown { wants_reply } => {},
    }
    following_a_run(client, run.command(command, inputs));
}

/// Handles that follow every step show what the worker has done, after each
/// look at the network and each result of a background task.
pub proof fn handles_follow_events(
    client: WSClientInner,
    worker: WSClientWorker,
    event: IoEvent,
    inputs: WorkerInputs,
)
    requires
        worker.wf(),
        client.mirrors(worker),
    ensures
        ({
            let run = worker.run(Seq::empty());
            let looked = run.reconcile(inputs);
            let after = run.io_event(event, inputs);
            &&& client.following(looked.worker, looked.actions).mirrors(looked.worker)
            &&& client.following(after.worker, after.actions).mirrors(after.worker)
        }),
{
    let start = client.send_admission;
    let run = worker.run(Seq::empty());
    nothing_asked(start);
    if run.network_moved(inputs) {
        losing(
            start,
            run.notice_epoch(inputs.network->0.loss_epoch),
            ws_client_worker::network_loss(),
            inputs.now,
        );
    }
    following_a_run(client, run.reconcile(inputs));
    match event {
        IoEvent::ContextProgress { generation } => {
            emitting(start, run, WorkerAction::AnswerTask(Err(NetError::Cancelled)));
        },
        IoEvent::ConnectSucceeded {
            generation,
            context_attempt_id,
            network_loss_epoch,
            wants_answer,
        } => {
            emitting(start, run, WorkerAction::AnswerTask(Err(NetError::Cancelled)));
            emitting(start, run, WorkerAction::AnswerTask(Err(NetError::NetworkError)));
            refusing(start, run, wants_answer, NetError::Cancelled);
            if worker.awaits(generation) {
                establishing(
                    start,
                    run,
                    EstablishedConnection {
                        generation,
                        context_attempt_id,
                        network_loss_epoch,
                        wants_answer,
                    },
                );
            }
        },
        IoEvent::ConnectFailed { generation, failure, reason } => {
            if worker.awaits(generation) {
                failing(start, run, failure, reason);
            }
        },
        IoEvent::CallbackDispatchFailed { generation } => {
            losing(start, run, ws_client_worker::callback_loss(), inputs.now);
        },
        IoEvent::ReadEnded { generation, error } => {
            losing(start, run, ws_client_worker::io_loss(error), inputs.now);
        },
        IoEvent::WriteEnded { generation, error } => {
            losing(start, run, ws_client_worker::io_loss(error), inputs.now);
        },
    }
    following_a_run(client, run.io_event(event, inputs));
}

proof fn refusing(start: SendAdmission, run: WorkerRun, wants_answer: bool, error: NetError)
    ensures
        admitted(start, run.refuse_established(wants_answer, error)) == admitted(start, run),
{
    let a = run.emit_if(run.worker.has_session(), WorkerAction::RevokeSession);
    emitting(start, run, WorkerAction::RevokeSession);
    emitting(start, a, WorkerAction::AnswerTask(Err(error)));
}

/// Handles that follow every step show what the worker has done, after each
/// step that is completed later.
pub proof fn handles_follow_completions(
    client: WSClientInner,
    worker: WSClientWorker,
    loss: ConnectionLoss,
    delivered: bool,
    connection: EstablishedConnection,
    inputs: WorkerInputs,
)
    requires
        worker.wf(),
        client.mirrors(worker),
    ensures
        ({
            let run = worker.run(Seq::empty());
            let passed = run.stopped(StopPurpose::Loss(loss), inputs);
            let settled = run.resume_loss(loss, delivered, inputs);
            let established = run.establish(connection);
            let committed = run.commit(connection, delivered);
            &&& worker.status is Connected && worker.active_io is None ==> client.following(
                passed.worker,
                passed.actions,
            ).mirrors(passed.worker) && client.following(settled.worker, settled.actions).mirrors(
                settled.worker,
            )
            &&& worker.awaits(connection.generation) ==> client.following(
                established.worker,
                established.actions,
            ).mirrors(established.worker)
            &&& client.following(committed.worker, committed.actions).mirrors(committed.worker)
        }),
{
    let start = client.send_admission;
    let run = worker.run(Seq::empty());
    nothing_asked(start);
    if worker.status is Connected && worker.active_io is None {
        passing_on(start, run, loss, inputs);
        following_a_run(client, run.stopped(StopPurpose::Loss(loss), inputs));
        let a = run.emit_if(!delivered, WorkerAction::RevokeSession);
        emitting(start, run, WorkerAction::RevokeSession);
        settling(start, a, loss, inputs.shutdown, inputs.session_cancelled || !delivered);
        following_a_run(client, run.resume_loss(loss, delivered, inputs));
    }
    if worker.awaits(connection.generation) {
        establishing(start, run, connection);
        following_a_run(client, run.establish(connection));
    }
    let b = run.emit_if(!delivered && worker.has_session(), WorkerAction::RevokeSession);
    emitting(start, run, WorkerAction::RevokeSession);
    answering(start, b, connection);
    following_a_run(client, run.commit(connection, delivered));
}

/// Handles that follow every step show what the worker has done, after a
/// disconnect and after a shutdown.
pub proof fn handles_follow_endings(
    client: WSClientInner,
    worker: WSClientWorker,
    wants_reply: bool,
    inputs: WorkerInputs,
)
    requires
        worker.wf(),
        client.mirrors(worker),
        worker.status is Closing || worker.status is Closed,
    ensures
        ({
            let run = worker.run(Seq::empty());
            let idle = run.stopped(StopPurpose::Disconnect, inputs);
            let closed = run.stopped(StopPurpose::Shutdown { wants_reply }, inputs);
            &&& client.following(idle.worker, idle.actions).mirrors(idle.worker)
            &&& client.following(closed.worker, closed.actions).mirrors(closed.worker)
        }),
{
    let start = client.send_admission;
    let run = worker.run(Seq::empty());
    nothing_asked(start);
    left(start, run, wants_reply, inputs);
    following_a_run(client, run.stopped(StopPurpose::Disconnect, inputs));
    following_a_run(client, run.stopped(StopPurpose::Shutdown { wants_reply }, inputs));
}

/// The client of a connected worker lets usable sends through, unless the
/// observed network has already invalidated the connection.
pub proof fn connected_clients_admit_sends(
    client: WSClientInner,
    worker: WSClientWorker,
    config: WSRequestConfig,
    now: Instant,
)
    requires
        client.mirrors(worker),
        worker.status is Connected,
        worker.active_io is Some,
        config.usable(now),
        config.disconnected_policy is Reject ==> (client.network_status matches Some(snapshot)
            ==> !snapshot.invalidates(worker.network_loss_epoch)),
    ensures
        client.send_refusal(config, Ok(()), now) is None,
{
}

/// The client of a worker without a connection refuses every send that does
/// not wait for one.
pub proof fn unconnected_clients_reject_sends(
    client: WSClientInner,
    worker: WSClientWorker,
    config: WSRequestConfig,
    scope: Result<(), NetError>,
    now: Instant,
)
    requires
        client.mirrors(worker),
        !(worker.status is Connected) || worker.active_io is None,
        config.disconnected_policy is Reject,
    ensures
        client.send_refusal(config, scope, now) is Some,
{
}

/// A connection that is lost, closed or shut down takes with it every lease of
/// a send that does not wait for another one.
pub proof fn lost_connections_revoke_their_leases(
    client: WSClientInner,
    worker: WSClientWorker,
    lease: SendLease,
    loss: ConnectionLoss,
    inputs: WorkerInputs,
)
    requires
        lease.policy is Reject,
    ensures
        ({
            let run = worker.run(Seq::empty());
            let lost = run.lose_connection(loss, inputs.now);
            let closing = run.disconnect(inputs);
            let ending = run.shut_down(inputs);
            &&& client.following(lost.worker, lost.actions).send_admission.revoked(lease)
            &&& client.following(closing.worker, closing.actions).send_admission.revoked(lease)
            &&& client.following(ending.worker, ending.actions).send_admission.revoked(lease)
        }),
{
    let start = client.send_admission;
    let run = worker.run(Seq::empty());
    nothing_asked(start);
    losing(start, run, loss, inputs.now);
    leaving(start, run, inputs);
    handles_hold_the_admission(client, run.lose_connection(loss, inputs.now).actions);
    handles_hold_the_admission(client, run.disconnect(inputs).actions);
    handles_hold_the_admission(client, run.shut_down(inputs).actions);
}

} // verus!
