//! What listeners and waiting callers see of every history of a client worker.
use vstd::prelude::*;

use crate::clock::Instant;
use crate::connection_failure;
use crate::connection_failure::{
    WebSocketConnectStage, WebSocketConnectionFailure, WebSocketTerminationReason,
};
use crate::connection_status;
use crate::connection_status::ConnectionStatus;
use crate::net_error::NetError;
use crate::task_event::WebSocketTaskEndCause;
use crate::worker_action::{
    ClientCommand, ConnectTarget, ConnectionLoss, EstablishedConnection, IoEvent, StopPurpose,
    WorkerAction, WorkerInputs,
};
use crate::ws_client_worker;
use crate::ws_client_worker::{WSClientWorker, WorkerRun};

verus! {

/// The status that a listener has seen after the given notifications, if they
/// follow the lifecycle from `start`.
#[verifier::opaque]
pub open spec fn replayed(start: ConnectionStatus, actions: Seq<WorkerAction>) -> Option<
    ConnectionStatus,
>
    decreases actions.len(),
{
    if actions.len() == 0 {
        Some(start)
    } else {
        replayed_by(replayed(start, actions.drop_last()), actions.last())
    }
}

/// The status that a listener has seen after one more action.
pub open spec fn replayed_by(seen: Option<ConnectionStatus>, action: WorkerAction) -> Option<
    ConnectionStatus,
> {
    match seen {
        Some(from) => match action {
            WorkerAction::NotifyStatus(status) => if connection_status::transition_edge(from, status) {
                Some(status)
            } else {
                None
            },
            WorkerAction::NotifyStatusUntil { status, until } => if connection_status::transition_edge(from, status) {
                Some(status)
            } else {
                None
            },
            _ => Some(from),
        },
        None => None,
    }
}

/// Number of answers to callers that waited for a connection.
#[verifier::opaque]
pub open spec fn connect_answers(actions: Seq<WorkerAction>) -> nat
    decreases actions.len(),
{
    if actions.len() == 0 {
        0
    } else if actions.last() is AnswerConnect {
        connect_answers(actions.drop_last()) + 1
    } else {
        connect_answers(actions.drop_last())
    }
}

/// Whether the notifications so far lead along the lifecycle from `start` to
/// the worker's status.
pub open spec fn faithful(start: ConnectionStatus, run: WorkerRun) -> bool {
    replayed(start, run.actions) == Some(run.worker.status)
}

/// Answers given so far, and the one that is still owed.
pub open spec fn answers_due(run: WorkerRun) -> nat {
    if run.worker.connect_waiting {
        connect_answers(run.actions) + 1
    } else {
        connect_answers(run.actions)
    }
}

/// Whether what follows `before` notifies along the lifecycle and answers each
/// waiting caller once.
#[verifier::opaque]
pub open spec fn orderly(before: WorkerRun, after: WorkerRun) -> bool {
    &&& forall|start: ConnectionStatus| #[trigger] faithful(start, before) ==> faithful(start, after)
    &&& answers_due(after) == answers_due(before)
}

proof fn chain(first: WorkerRun, second: WorkerRun, third: WorkerRun)
    requires
        orderly(first, second),
        orderly(second, third),
    ensures
        orderly(first, third),
{
    reveal(orderly);
}

proof fn same_progress(before: WorkerRun, after: WorkerRun)
    requires
        before.actions == after.actions,
        before.worker.status == after.worker.status,
        before.worker.connect_waiting == after.worker.connect_waiting,
    ensures
        orderly(before, after),
{
    reveal(orderly);
}

proof fn emitting(run: WorkerRun, action: WorkerAction)
    requires
        !(action is NotifyStatus) && !(action is NotifyStatusUntil) && !(action is AnswerConnect),
    ensures
        orderly(run, run.emit(action)),
        forall|condition: bool| orderly(run, #[trigger] run.emit_if(condition, action)),
{
    reveal(orderly);
    reveal(replayed);
    reveal(connect_answers);
    assert(run.actions.push(action).drop_last() =~= run.actions);
}

proof fn entering(run: WorkerRun, status: ConnectionStatus, until: Instant)
    ensures
        orderly(run, run.set_status(status)),
        orderly(run, run.set_status_until(status, until)),
{
    reveal(orderly);
    reveal(replayed);
    reveal(connect_answers);
    let plain = WorkerAction::NotifyStatus(status);
    let awaited = WorkerAction::NotifyStatusUntil { status, until };
    assert(run.actions.push(plain).drop_last() =~= run.actions);
    assert(run.actions.push(awaited).drop_last() =~= run.actions);
}

proof fn answering(run: WorkerRun, result: Result<(), NetError>, after: WorkerRun)
    requires
        after.worker.status == run.worker.status,
        !after.worker.connect_waiting,
        after.actions == run.emit_if(
            run.worker.connect_waiting,
            WorkerAction::AnswerConnect(result),
        ).actions,
    ensures
        orderly(run, after),
{
    reveal(orderly);
    reveal(replayed);
    reveal(connect_answers);
    assert(run.actions.push(WorkerAction::AnswerConnect(result)).drop_last() =~= run.actions);
}

proof fn cancelling(run: WorkerRun, error: NetError)
    ensures
        orderly(run, run.cancel_connect(error)),
{
    emitting(run, WorkerAction::AbortConnectTask);
    let aborted = run.emit_if(run.worker.connect_running, WorkerAction::AbortConnectTask);
    answering(aborted, Err(error), run.cancel_connect(error));
    chain(run, aborted, run.cancel_connect(error));
}

proof fn stopping(run: WorkerRun, graceful: bool, now: Instant)
    ensures
        orderly(run, run.stop_active_io(graceful, now)),
{
    let after = run.stop_active_io(graceful, now);
    same_progress(run, run);
    if run.worker.active_io is Some {
        let stopped = WorkerRun {
            worker: WSClientWorker { active_io: None, ..run.worker },
            ..run
        };
        same_progress(run, stopped);
        emitting(stopped, after.actions.last());
        chain(run, stopped, after);
    }
}

proof fn beginning(run: WorkerRun, generation: u64, reconnecting: bool)
    ensures
        orderly(run, run.begin_cycle(generation, reconnecting)),
{
    let numbered = WorkerRun {
        worker: WSClientWorker {
            generation,
            connect_running: true,
            ..run.worker
        },
        ..run
    };
    let status = if reconnecting {
        ConnectionStatus::Reconnecting
    } else {
        ConnectionStatus::Connecting
    };
    let entered = numbered.set_status(status);
    same_progress(run, numbered);
    entering(numbered, status, Instant { nanos: 0 });
    emitting(entered, WorkerAction::StartConnect { generation });
    chain(run, numbered, entered);
    chain(run, entered, entered.emit(WorkerAction::StartConnect { generation }));
}

proof fn exhausting(run: WorkerRun)
    ensures
        orderly(run, run.exhaust_generations()),
{
    let a = run.emit(WorkerAction::EndSendSession { cause: None });
    let b = a.record_error(NetError::InternalError);
    let c = b.set_status(ConnectionStatus::Disconnected);
    let failure = connection_failure::plain_failure(
        NetError::InternalError,
        WebSocketConnectStage::EventDelivery,
        false,
    );
    let d = c.finish_session(WebSocketTerminationReason::ConnectFailed, failure);
    emitting(run, WorkerAction::EndSendSession { cause: None });
    same_progress(a, b);
    entering(b, ConnectionStatus::Disconnected, Instant { nanos: 0 });
    emitting(
        c,
        WorkerAction::TerminateSession {
            reason: WebSocketTerminationReason::ConnectFailed,
            failure,
        },
    );
    same_progress(d, d.forget_target());
    chain(run, a, b);
    chain(run, b, c);
    chain(run, c, d);
    chain(run, d, d.forget_target());
}

proof fn starting(run: WorkerRun, reconnecting: bool, shutdown: bool, session_cancelled: bool)
    ensures
        orderly(run, run.start_connection(reconnecting, shutdown, session_cancelled)),
{
    same_progress(run, run);
    if run.worker.connect_target is Some && !(shutdown || (run.worker.has_session()
        && session_cancelled)) {
        let target = run.worker.connect_target->0;
        let open = WorkerAction::BeginSendSession {
            session_context_id: match target.context {
                Some(context) => Some(context.session_context_id),
                None => None,
            },
            scoped: target.context matches Some(context) && context.scoped,
        };
        let a = run.emit_if(!reconnecting || run.worker.status is Disconnected, open);
        let b = a.cancel_connect(NetError::Cancelled);
        let c = if reconnecting {
            b
        } else {
            b.record(None, None)
        };
        emitting(run, open);
        cancelling(a, NetError::Cancelled);
        same_progress(b, c);
        chain(run, a, b);
        chain(run, b, c);
        exhausting(c);
        let next = (run.worker.generation + 1) as u64;
        let plain = ws_client_worker::next_plain_generation(run.worker.generation);
        beginning(c, next, reconnecting);
        beginning(c, plain, reconnecting);
        chain(run, c, c.exhaust_generations());
        chain(run, c, c.begin_cycle(next, reconnecting));
        chain(run, c, c.begin_cycle(plain, reconnecting));
    }
}

proof fn losing(run: WorkerRun, loss: ConnectionLoss, now: Instant)
    ensures
        orderly(run, run.lose_connection(loss, now)),
{
    let a = run.emit(WorkerAction::EndSendConnection);
    let b = a.record_error(loss.error);
    let c = b.stop_active_io(false, now);
    emitting(run, WorkerAction::EndSendConnection);
    same_progress(a, b);
    stopping(b, false, now);
    chain(run, a, b);
    chain(run, b, c);
}

proof fn settling(run: WorkerRun, loss: ConnectionLoss, shutdown: bool, session_cancelled: bool)
    ensures
        orderly(run, run.settle_loss(loss, shutdown, session_cancelled)),
{
    let fail = WorkerAction::FailPendingOf { generation: run.worker.generation, error: loss.error };
    let a = run.emit(fail);
    let b = a.emit(WorkerAction::FailRejected(loss.error));
    emitting(run, fail);
    emitting(a, WorkerAction::FailRejected(loss.error));
    chain(run, a, b);
    if run.worker.reconnects() {
        starting(b, true, shutdown, session_cancelled);
        chain(run, b, b.start_connection(true, shutdown, session_cancelled));
    } else {
        let c = b.emit(WorkerAction::EndSendSession { cause: None });
        let d = c.set_status(ConnectionStatus::Disconnected);
        let e = d.emit(WorkerAction::FailQueued(loss.error));
        let f = e.finish_session(loss.reason, loss.failure);
        emitting(b, WorkerAction::EndSendSession { cause: None });
        entering(c, ConnectionStatus::Disconnected, Instant { nanos: 0 });
        emitting(d, WorkerAction::FailQueued(loss.error));
        emitting(
            e,
            WorkerAction::TerminateSession { reason: loss.reason, failure: loss.failure },
        );
        same_progress(f, f.forget_target());
        chain(run, b, c);
        chain(run, c, d);
        chain(run, d, e);
        chain(run, e, f);
        chain(run, f, f.forget_target());
    }
}

proof fn passing_on(run: WorkerRun, loss: ConnectionLoss, inputs: WorkerInputs)
    ensures
        orderly(run, run.pass_on_loss(loss, inputs)),
{
    emitting(
        run,
        WorkerAction::PublishTermination { reason: loss.reason, failure: loss.failure },
    );
    settling(run, loss, inputs.shutdown, inputs.session_cancelled);
}

proof fn reconciling(run: WorkerRun, inputs: WorkerInputs)
    ensures
        orderly(run, run.reconcile(inputs)),
{
    same_progress(run, run);
    if run.network_moved(inputs) {
        let a = run.notice_epoch(inputs.network->0.loss_epoch);
        same_progress(run, a);
        let loss = ws_client_worker::network_loss();
        losing(a, loss, inputs.now);
        chain(run, a, a.lose_connection(loss, inputs.now));
    }
}

proof fn answering_established(run: WorkerRun, connection: EstablishedConnection)
    ensures
        orderly(run, run.answer_established(connection)),
{
    let a = WorkerRun {
        worker: WSClientWorker { connect_waiting: false, ..run.worker },
        actions: run.emit_if(
            run.worker.connect_waiting,
            WorkerAction::AnswerConnect(Ok(())),
        ).actions,
    };
    answering(run, Ok(()), a);
    emitting(a, WorkerAction::AnswerTask(Ok(())));
    chain(run, a, a.emit_if(connection.wants_answer, WorkerAction::AnswerTask(Ok(()))));
}

proof fn establishing(run: WorkerRun, connection: EstablishedConnection)
    ensures
        orderly(run, run.establish(connection)),
{
    let epoch = match connection.network_loss_epoch {
        Some(epoch) => epoch,
        None => run.worker.network_loss_epoch,
    };
    let serve = WorkerAction::StartIo { generation: connection.generation, loss_epoch: epoch };
    let open_sends = WorkerAction::AdmitSendConnection { loss_epoch: epoch };
    let commit = WorkerAction::CommitEstablished { attempt_id: connection.context_attempt_id->0 };
    let base = WorkerRun {
        worker: WSClientWorker {
            connect_running: false,
            network_loss_epoch: epoch,
            active_io: Some(connection.generation),
            last_handshake_http_status: None,
            ..run.worker
        },
        ..run
    };
    let a = base.emit(serve);
    let b = a.emit(open_sends);
    let c = b.set_status(ConnectionStatus::Connected);
    same_progress(run, base);
    emitting(base, serve);
    emitting(a, open_sends);
    entering(b, ConnectionStatus::Connected, Instant { nanos: 0 });
    chain(run, base, a);
    chain(run, a, b);
    chain(run, b, c);
    emitting(c, commit);
    answering_established(c, connection);
    chain(run, c, c.emit(commit));
    chain(run, c, c.answer_established(connection));
}

proof fn committing(run: WorkerRun, connection: EstablishedConnection, committed: bool)
    ensures
        orderly(run, run.commit(connection, committed)),
{
    let a = run.emit_if(!committed && run.worker.has_session(), WorkerAction::RevokeSession);
    emitting(run, WorkerAction::RevokeSession);
    answering_established(a, connection);
    chain(run, a, a.answer_established(connection));
}

proof fn failing(
    run: WorkerRun,
    failure: WebSocketConnectionFailure,
    reason: WebSocketTerminationReason,
)
    ensures
        orderly(run, run.fail_cycle(failure, reason)),
{
    let end = WorkerAction::EndSendSession { cause: None };
    let http_status = if failure.error is ConnectError && failure.stage is WebSocketUpgrade {
        failure.http_status
    } else {
        None
    };
    let a = WorkerRun {
        worker: WSClientWorker { connect_running: false, ..run.worker },
        ..run
    };
    let b = a.emit(end);
    let c = b.record(Some(failure.error), http_status);
    let d = c.set_status(ConnectionStatus::Disconnected);
    let e = WorkerRun {
        worker: WSClientWorker { connect_waiting: false, ..d.worker },
        ..d
    }.emit_if(run.worker.connect_waiting, WorkerAction::AnswerConnect(Err(failure.error)));
    let f = e.emit(WorkerAction::FailQueued(failure.error));
    let g = f.finish_session(reason, failure);
    same_progress(run, a);
    emitting(a, end);
    same_progress(b, c);
    entering(c, ConnectionStatus::Disconnected, Instant { nanos: 0 });
    answering(d, Err(failure.error), e);
    emitting(e, WorkerAction::FailQueued(failure.error));
    emitting(f, WorkerAction::TerminateSession { reason, failure });
    same_progress(g, g.forget_target());
    chain(run, a, b);
    chain(run, b, c);
    chain(run, c, d);
    chain(run, d, e);
    chain(run, e, f);
    chain(run, f, g);
    chain(run, g, g.forget_target());
}

proof fn disconnecting(run: WorkerRun, inputs: WorkerInputs)
    ensures
        orderly(run, run.disconnect(inputs)),
{
    let end = WorkerAction::EndSendSession { cause: Some(WebSocketTaskEndCause::Disconnect) };
    let a = run.emit(end);
    let b = a.set_status(ConnectionStatus::Closing);
    let c = b.cancel_connect(NetError::Cancelled);
    let d = c.stop_active_io(!inputs.scope_cancelled, inputs.now);
    emitting(run, end);
    entering(a, ConnectionStatus::Closing, inputs.now);
    cancelling(b, NetError::Cancelled);
    stopping(c, !inputs.scope_cancelled, inputs.now);
    chain(run, a, b);
    chain(run, b, c);
    chain(run, c, d);
}

proof fn disconnected(run: WorkerRun, inputs: WorkerInputs)
    ensures
        orderly(run, run.finish_disconnect(inputs)),
{
    let reason = if inputs.session_cancelled {
        WebSocketTerminationReason::Cancelled
    } else {
        WebSocketTerminationReason::Disconnected
    };
    let failure = ws_client_worker::cancellation();
    let e = run.emit(WorkerAction::FailQueued(NetError::Cancelled));
    let f = e.emit(WorkerAction::FailPending(NetError::Cancelled));
    let g = f.record(None, None);
    let h = g.set_status(ConnectionStatus::Idle);
    let i = h.finish_session(reason, failure);
    let j = i.forget_target();
    emitting(run, WorkerAction::FailQueued(NetError::Cancelled));
    emitting(e, WorkerAction::FailPending(NetError::Cancelled));
    same_progress(f, g);
    entering(g, ConnectionStatus::Idle, inputs.now);
    emitting(h, WorkerAction::TerminateSession { reason, failure });
    same_progress(i, j);
    emitting(j, WorkerAction::AnswerCommand(Ok(())));
    chain(run, e, f);
    chain(run, f, g);
    chain(run, g, h);
    chain(run, h, i);
    chain(run, i, j);
    chain(run, j, j.emit(WorkerAction::AnswerCommand(Ok(()))));
}

proof fn shutting_down(run: WorkerRun, inputs: WorkerInputs)
    ensures
        orderly(run, run.shut_down(inputs)),
{
    let end = WorkerAction::EndSendSession { cause: Some(WebSocketTaskEndCause::Shutdown) };
    let a = run.emit(WorkerAction::CloseTaskObservers);
    let b = a.emit(end);
    let c = b.set_status(ConnectionStatus::Closing);
    let d = c.cancel_connect(NetError::Cancelled);
    let e = d.stop_active_io(true, inputs.now);
    emitting(run, WorkerAction::CloseTaskObservers);
    emitting(a, end);
    entering(b, ConnectionStatus::Closing, inputs.now);
    cancelling(c, NetError::Cancelled);
    stopping(d, true, inputs.now);
    chain(run, a, b);
    chain(run, b, c);
    chain(run, c, d);
    chain(run, d, e);
}

proof fn shut_down_for_good(run: WorkerRun, wants_reply: bool, inputs: WorkerInputs)
    ensures
        orderly(run, run.finish_shut_down(wants_reply, inputs)),
{
    let failure = ws_client_worker::cancellation();
    let reason = WebSocketTerminationReason::Shutdown;
    let f = run.emit(WorkerAction::CloseQueues);
    let g = f.emit(WorkerAction::FailQueued(NetError::Cancelled));
    let h = g.emit(WorkerAction::FailPending(NetError::Cancelled));
    let i = h.finish_session(reason, failure);
    let j = i.forget_target();
    let k = WorkerRun {
        worker: WSClientWorker {
            terminal_response_deadline: ws_client_worker::grace_deadline(
                run.worker.response_dispatch_grace,
                inputs.now,
            ),
            ..j.worker
        },
        ..j
    };
    let until = match inputs.now.plus(run.worker.close_timeout) {
        Some(until) => until,
        None => inputs.now,
    };
    let l = match inputs.now.plus(run.worker.close_timeout) {
        Some(until) => k.set_status_until(ConnectionStatus::Closed, until),
        None => k.set_status(ConnectionStatus::Closed),
    };
    emitting(run, WorkerAction::CloseQueues);
    emitting(f, WorkerAction::FailQueued(NetError::Cancelled));
    emitting(g, WorkerAction::FailPending(NetError::Cancelled));
    emitting(h, WorkerAction::TerminateSession { reason, failure });
    same_progress(i, j);
    same_progress(j, k);
    entering(k, ConnectionStatus::Closed, until);
    emitting(l, WorkerAction::AnswerCommand(Ok(())));
    chain(run, f, g);
    chain(run, g, h);
    chain(run, h, i);
    chain(run, i, j);
    chain(run, j, k);
    chain(run, k, l);
    chain(run, l, l.emit_if(wants_reply, WorkerAction::AnswerCommand(Ok(()))));
}

proof fn winding_up(run: WorkerRun, inputs: WorkerInputs)
    ensures
        orderly(run, run.wind_up(inputs)),
{
    let end = WorkerAction::EndSendSession { cause: Some(WebSocketTaskEndCause::Shutdown) };
    let a = run.emit(WorkerAction::PublishShutdown);
    let b = a.emit(WorkerAction::CloseTaskObservers);
    let c = b.emit(end);
    let d = c.cancel_connect(NetError::Cancelled);
    let e = d.stop_active_io(false, inputs.now);
    emitting(run, WorkerAction::PublishShutdown);
    emitting(a, WorkerAction::CloseTaskObservers);
    emitting(b, end);
    cancelling(c, NetError::Cancelled);
    stopping(d, false, inputs.now);
    chain(run, a, b);
    chain(run, b, c);
    chain(run, c, d);
    chain(run, d, e);
}

proof fn wound_up(run: WorkerRun, inputs: WorkerInputs)
    ensures
        orderly(run, run.finish_wind_up(inputs)),
{
    let failure = ws_client_worker::cancellation();
    let reason = WebSocketTerminationReason::Shutdown;
    let deadline = run.last_deadline(inputs);
    let a = run.finish_session(reason, failure);
    let b = a.forget_target();
    let c = b.emit(WorkerAction::CloseQueues);
    let d = c.emit(WorkerAction::FailQueued(NetError::Cancelled));
    let e = d.emit(WorkerAction::FailPending(NetError::Cancelled));
    let f = e.await_responses(deadline);
    let g = f.emit(WorkerAction::ForceFinishResponses(NetError::Cancelled));
    let h = g.emit(WorkerAction::ClearListeners);
    let i = h.emit(WorkerAction::DestroyMonitor);
    let j = i.emit(WorkerAction::StopRegistrationTimer);
    emitting(run, WorkerAction::TerminateSession { reason, failure });
    same_progress(a, b);
    emitting(b, WorkerAction::CloseQueues);
    emitting(c, WorkerAction::FailQueued(NetError::Cancelled));
    emitting(d, WorkerAction::FailPending(NetError::Cancelled));
    same_progress(e, e);
    if deadline is Some {
        let drain = WorkerAction::DrainCallbacks { deadline: deadline->0 };
        let wait = WorkerAction::AwaitDeferredResponses { deadline: deadline->0 };
        emitting(e, drain);
        emitting(e.emit(drain), wait);
        chain(e, e.emit(drain), f);
    }
    emitting(f, WorkerAction::ForceFinishResponses(NetError::Cancelled));
    emitting(g, WorkerAction::ClearListeners);
    emitting(h, WorkerAction::DestroyMonitor);
    emitting(i, WorkerAction::StopRegistrationTimer);
    emitting(j, WorkerAction::PublishShutdownComplete);
    chain(run, a, b);
    chain(run, b, c);
    chain(run, c, d);
    chain(run, d, e);
    chain(run, e, f);
    chain(run, f, g);
    chain(run, g, h);
    chain(run, h, i);
    chain(run, i, j);
    chain(run, j, j.emit(WorkerAction::PublishShutdownComplete));
}

/// A disconnect, a shutdown and a hint notify listeners along the lifecycle
/// and answer a waiting caller exactly once.
pub proof fn endings_are_orderly(run: WorkerRun, wants_reply: bool, inputs: WorkerInputs)
    ensures
        orderly(run, run.command(ClientCommand::Disconnect, inputs)),
        orderly(run, run.command(ClientCommand::Shutdown { wants_reply }, inputs)),
        orderly(run, run.command(ClientCommand::NetworkAvailable, inputs)),
{
    disconnecting(run, inputs);
    shutting_down(run, inputs);
    same_progress(run, run);
    starting(run, true, inputs.shutdown, inputs.session_cancelled);
}

/// A connection request notifies listeners along the lifecycle. Of an accepted
/// one, exactly one more answer is due; a refused one and one of a session are
/// answered at once.
pub proof fn connection_requests_are_orderly(
    run: WorkerRun,
    start: ConnectionStatus,
    target: ConnectTarget,
    policy_valid: bool,
    validation: Result<(), NetError>,
    inputs: WorkerInputs,
)
    requires
        run.worker.wf(),
        faithful(start, run),
    ensures
        orderly(run, run.connect_with_context(target, validation, inputs)),
        faithful(start, run.connect(target, policy_valid, inputs)),
        answers_due(run.connect(target, policy_valid, inputs)) == answers_due(run)
            + if ws_client_worker::connect_refusal(
            run.worker,
            target.reconnect.max_elapsed is Some,
            policy_valid,
        ) is None {
            1nat
        } else {
            0nat
        },
{
    let aimed = run.aim_at(target);
    let started = aimed.start_connection(false, inputs.shutdown, inputs.session_cancelled);
    same_progress(run, aimed);
    starting(aimed, false, inputs.shutdown, inputs.session_cancelled);
    chain(run, aimed, started);
    emitting(started, WorkerAction::AnswerCommand(Ok(())));
    chain(run, started, started.emit(WorkerAction::AnswerCommand(Ok(()))));
    let refusal = ws_client_worker::context_refusal(
        run.worker,
        target.reconnect.max_elapsed is Some,
        inputs.session_cancelled,
        validation,
    );
    if refusal is Some {
        let tell = WorkerAction::TerminateSession {
            reason: WebSocketTerminationReason::ConnectFailed,
            failure: connection_failure::plain_failure(
                refusal->0,
                WebSocketConnectStage::RequestBuild,
                false,
            ),
        };
        let told = run.emit(tell);
        emitting(run, tell);
        emitting(told, WorkerAction::AnswerCommand(Err(refusal->0)));
        chain(run, told, told.emit(WorkerAction::AnswerCommand(Err(refusal->0))));
    }
    let plain = ws_client_worker::connect_refusal(
        run.worker,
        target.reconnect.max_elapsed is Some,
        policy_valid,
    );
    if plain is Some {
        emitting(run, WorkerAction::AnswerCommand(Err(plain->0)));
    }
    reveal(orderly);
    if plain is None {
        assert(!run.worker.connect_waiting);
        assert(!started.worker.connect_waiting) by {
            reveal(orderly);
        }
    }
}

/// Every result of a background task notifies listeners along the lifecycle
/// and answers a waiting caller exactly once.
pub proof fn events_are_orderly(run: WorkerRun, event: IoEvent, inputs: WorkerInputs)
    ensures
        orderly(run, run.reconcile(inputs)),
        orderly(run, run.io_event(event, inputs)),
{
    reconciling(run, inputs);
    same_progress(run, run);
    match event {
        IoEvent::ContextProgress { generation } => {
            emitting(run, WorkerAction::AnswerTask(Err(NetError::Cancelled)));
        },
        IoEvent::ConnectSucceeded {
            generation,
            context_attempt_id,
            network_loss_epoch,
            wants_answer,
        } => {
            emitting(run, WorkerAction::AnswerTask(Err(NetError::Cancelled)));
            emitting(run, WorkerAction::AnswerTask(Err(NetError::NetworkError)));
            refusing(run, wants_answer, NetError::Cancelled);
            establishing(
                run,
                EstablishedConnection {
                    generation,
                    context_attempt_id,
                    network_loss_epoch,
                    wants_answer,
                },
            );
        },
        IoEvent::ConnectFailed { generation, failure, reason } => {
            failing(run, failure, reason);
        },
        IoEvent::CallbackDispatchFailed { generation } => {
            losing(run, ws_client_worker::callback_loss(), inputs.now);
        },
        IoEvent::ReadEnded { generation, error } => {
            losing(run, ws_client_worker::io_loss(error), inputs.now);
        },
        IoEvent::WriteEnded { generation, error } => {
            losing(run, ws_client_worker::io_loss(error), inputs.now);
        },
    }
}

proof fn refusing(run: WorkerRun, wants_answer: bool, error: NetError)
    ensures
        orderly(run, run.refuse_established(wants_answer, error)),
{
    let a = run.emit_if(run.worker.has_session(), WorkerAction::RevokeSession);
    emitting(run, WorkerAction::RevokeSession);
    emitting(a, WorkerAction::AnswerTask(Err(error)));
    chain(run, a, a.emit_if(wants_answer, WorkerAction::AnswerTask(Err(error))));
}

/// Steps that are completed later notify listeners along the lifecycle and
/// answer a waiting caller exactly once, and so does the end of the event loop.
pub proof fn completions_are_orderly(
    run: WorkerRun,
    purpose: StopPurpose,
    loss: ConnectionLoss,
    delivered: bool,
    connection: EstablishedConnection,
    error: NetError,
    inputs: WorkerInputs,
)
    ensures
        orderly(run, run.stopped(purpose, inputs)),
        orderly(run, run.resume_loss(loss, delivered, inputs)),
        orderly(run, run.establish(connection)),
        orderly(run, run.commit(connection, delivered)),
        orderly(run, run.refuse_established(connection.wants_answer, error)),
        orderly(run, run.replied(delivered)),
        orderly(run, run.wind_up(inputs)),
{
    let a = run.emit_if(!delivered, WorkerAction::RevokeSession);
    let cancelled = inputs.session_cancelled || !delivered;
    emitting(run, WorkerAction::RevokeSession);
    settling(a, loss, inputs.shutdown, cancelled);
    chain(run, a, a.settle_loss(loss, inputs.shutdown, cancelled));
    establishing(run, connection);
    committing(run, connection, delivered);
    refusing(run, connection.wants_answer, error);
    winding_up(run, inputs);
    match purpose {
        StopPurpose::Loss(lost) => {
            passing_on(run, lost, inputs);
        },
        StopPurpose::LossFirst(lost) => {
            passing_on(run, lost, inputs);
        },
        StopPurpose::Disconnect => {
            disconnected(run, inputs);
        },
        StopPurpose::Shutdown { wants_reply } => {
            shut_down_for_good(run, wants_reply, inputs);
        },
        StopPurpose::WindUp => {
            wound_up(run, inputs);
        },
    }
}

} // verus!
