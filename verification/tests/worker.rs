use open_net::client_config::{FrameLimits, WebSocketClientConfig};
use open_net::clock::{Duration, Instant};
use open_net::connection_failure::{
    WebSocketConnectStage, WebSocketConnectionFailure, WebSocketTerminationReason,
};
use open_net::connection_status::ConnectionStatus;
use open_net::network_status::{NetworkStatus, NetworkStatusSnapshot};
use open_net::reconnect::ReconnectPolicy;
use open_net::send_admission::{DisconnectedTaskPolicy, WSRequestConfig};
use open_net::worker_action::{
    ClientCommand, ContextConnectTarget, IoEvent, StopPurpose, WorkerAction, WorkerInputs,
    WorkerStep,
};
use open_net::worker_turn::{next_turn, Readiness, TurnOutcome, TurnSources, WorkerTurn};
use open_net::ws_client_inner::WSClientInner;
use open_net::ws_client_worker::WSClientWorker;
use open_net::NetError;

fn at(secs: u64) -> Instant {
    Instant { nanos: 0 }
        .checked_add(Duration::from_secs(secs))
        .unwrap()
}

fn worker(grace: Duration) -> WSClientWorker {
    WSClientWorker::new(false, Duration::from_secs(5), grace)
}

fn inputs() -> WorkerInputs {
    WorkerInputs {
        shutdown: false,
        session_cancelled: false,
        scope_cancelled: false,
        network: None,
        now: at(0),
    }
}

fn policy(enabled: bool) -> ReconnectPolicy {
    ReconnectPolicy {
        enabled,
        initial_delay: Duration::from_millis(100),
        max_delay: Duration::from_millis(500),
        max_retries: 2,
        handshake_timeout: Duration::from_secs(10),
        max_elapsed: Some(Duration::from_secs(60)),
    }
}

fn connect(reconnect: ReconnectPolicy) -> ClientCommand {
    ClientCommand::Connect {
        url: "ws://h".to_string(),
        headers: Vec::new(),
        has_header_provider: false,
        reconnect,
        policy_valid: true,
    }
}

fn connect_session(session_context_id: u64) -> ClientCommand {
    ClientCommand::ConnectWithContext {
        url: " ws://h ".to_string(),
        headers: Vec::new(),
        reconnect: policy(false),
        context: ContextConnectTarget {
            session_context_id,
            scoped: false,
        },
        validation: Ok(()),
    }
}

/// Completes a step at once, with sessions that accept everything.
fn complete(worker: &mut WSClientWorker, step: WorkerStep, actions: &mut Vec<WorkerAction>) {
    let mut step = step;
    loop {
        step = match step {
            WorkerStep::AwaitStop(purpose) => worker.resume_stop(purpose, &inputs(), actions),
            WorkerStep::AwaitTermination(loss) | WorkerStep::AwaitTerminationFirst(loss) => {
                worker.resume_connection_loss(loss, true, &inputs(), actions);
                WorkerStep::Done
            }
            _ => return,
        };
    }
}

fn command(worker: &mut WSClientWorker, command: ClientCommand) -> Vec<WorkerAction> {
    let mut actions = Vec::new();
    let step = worker.handle_command(command, &inputs(), &mut actions);
    complete(worker, step, &mut actions);
    actions
}

fn event(worker: &mut WSClientWorker, event: IoEvent) -> (WorkerStep, Vec<WorkerAction>) {
    let mut actions = Vec::new();
    let step = worker.handle_io_event(event, &inputs(), &mut actions);
    complete(worker, step, &mut actions);
    (step, actions)
}

fn client(network: Option<NetworkStatusSnapshot>) -> (WSClientInner, WSClientWorker) {
    let config = WebSocketClientConfig {
        callback_queue_capacity: 64,
        callback_queue_max_bytes: 1 << 20,
        data_callback_concurrency: 1,
        status_callback_queue_capacity: 16,
        pending_request_capacity: 64,
        business_queue_capacity: 64,
        business_queue_max_bytes: 1 << 16,
        urgent_queue_capacity: 8,
        urgent_queue_max_bytes: 1 << 12,
        heartbeat_interval: Duration::from_secs(30),
        pong_timeout: Duration::from_secs(45),
        close_timeout: Duration::from_secs(5),
        control_write_timeout: Duration::from_secs(5),
        data_frame_write_timeout: Duration::from_secs(5),
        response_dispatch_grace: Duration::from_secs(1),
        read_buffer_size: 4096,
        data_frame_payload_size: None,
        write_buffer_size: 4096,
        max_write_buffer_size: 1 << 20,
        max_message_size: None,
        max_frame_size: None,
        tcp_send_buffer_size: None,
        tcp_keepalive: None,
    };
    let limits = FrameLimits {
        min_data_frame_payload_size: 125,
        max_client_frame_overhead: 14,
    };
    let mut instances = 1;
    WSClientInner::new_with_network(&config, limits, at(0), Ok(()), &mut instances, network)
        .unwrap()
}

fn sends(inner: &WSClientInner) -> Result<(), NetError> {
    let config = WSRequestConfig {
        send_retry_count: 0,
        idempotent: false,
        enqueue_timeout: None,
        write_timeout: Duration::from_secs(10),
        response_timeout: Duration::from_secs(30),
        disconnected_policy: DisconnectedTaskPolicy::Reject,
        expect_response: true,
    };
    inner
        .send(&config, "request".to_string(), Ok(7), at(0))
        .map(|_| ())
}

fn succeeded(generation: u64) -> IoEvent {
    IoEvent::ConnectSucceeded {
        generation,
        context_attempt_id: None,
        network_loss_epoch: None,
        wants_answer: false,
    }
}

fn connected(reconnect: bool) -> WSClientWorker {
    let mut worker = worker(Duration::zero());
    command(&mut worker, connect(policy(reconnect)));
    event(&mut worker, succeeded(1));
    assert_eq!(worker.status, ConnectionStatus::Connected);
    worker
}

#[test]
fn terminal_http_handshake_status_remains_queryable() {
    let (mut inner, mut worker) = client(None);
    worker.generation = 7;
    worker.status = ConnectionStatus::Connecting;
    inner.state = ConnectionStatus::Connecting;
    let mut actions = Vec::new();
    worker.handle_io_event(
        IoEvent::ConnectFailed {
            generation: 7,
            failure: WebSocketConnectionFailure::new(
                NetError::ConnectError,
                WebSocketConnectStage::WebSocketUpgrade,
                Some(401),
                false,
            ),
            reason: WebSocketTerminationReason::ConnectFailed,
        },
        &inputs(),
        &mut actions,
    );
    inner.follow(&worker, &actions);
    assert_eq!(inner.last_connection_error(), Some(NetError::ConnectError));
    assert_eq!(inner.last_handshake_http_status(), Some(401));
    assert_eq!(inner.connection_status(), ConnectionStatus::Disconnected);
}

#[test]
fn handles_follow_a_connection_from_its_start_to_its_end() {
    let (mut inner, mut worker) = client(None);
    assert_eq!(sends(&inner), Err(NetError::SocketNotOpened));
    let actions = command(&mut worker, connect(policy(true)));
    inner.follow(&worker, &actions);
    assert_eq!(inner.connection_status(), ConnectionStatus::Connecting);
    assert_eq!(sends(&inner), Err(NetError::SocketNotOpened));

    let (_, actions) = event(&mut worker, succeeded(1));
    inner.follow(&worker, &actions);
    assert_eq!(inner.connection_status(), ConnectionStatus::Connected);
    assert_eq!(sends(&inner), Ok(()));
    let lease = inner
        .send_admission
        .lease_observed(DisconnectedTaskPolicy::Reject);
    let patient = inner
        .send_admission
        .lease_observed(DisconnectedTaskPolicy::WaitForReconnect);

    let (_, actions) = event(
        &mut worker,
        IoEvent::ReadEnded {
            generation: 1,
            error: NetError::ConnectionClosed,
        },
    );
    inner.follow(&worker, &actions);
    assert_eq!(inner.connection_status(), ConnectionStatus::Reconnecting);
    assert_eq!(
        inner.last_connection_error(),
        Some(NetError::ConnectionClosed)
    );
    assert!(inner.send_admission.is_revoked(lease));
    assert!(!inner.send_admission.is_revoked(patient));

    let (_, actions) = event(&mut worker, succeeded(2));
    inner.follow(&worker, &actions);
    assert_eq!(sends(&inner), Ok(()));
    assert!(inner.send_admission.is_revoked(lease));

    let actions = command(&mut worker, ClientCommand::Shutdown { wants_reply: false });
    inner.follow(&worker, &actions);
    assert_eq!(inner.connection_status(), ConnectionStatus::Closed);
    assert_eq!(sends(&inner), Err(NetError::EngineDropped));
    assert!(inner.send_admission.is_revoked(patient));
    let mut rest = Vec::new();
    let step = worker.wind_up(&inputs(), &mut rest);
    complete(&mut worker, step, &mut rest);
    inner.follow(&worker, &rest);
    assert!(inner.shutdown && inner.shutdown_complete);
}

#[test]
fn sends_belong_to_the_network_epoch_of_their_connection() {
    let available = NetworkStatusSnapshot {
        revision: 1,
        loss_epoch: 3,
        status: Some(NetworkStatus::Available),
    };
    let (mut inner, mut worker) = client(Some(available));
    let actions = command(&mut worker, connect(policy(true)));
    inner.follow(&worker, &actions);
    let (_, actions) = event(
        &mut worker,
        IoEvent::ConnectSucceeded {
            generation: 1,
            context_attempt_id: None,
            network_loss_epoch: Some(3),
            wants_answer: true,
        },
    );
    inner.follow(&worker, &actions);
    assert_eq!(sends(&inner), Ok(()));
    inner.network_status = Some(NetworkStatusSnapshot {
        loss_epoch: 4,
        ..available
    });
    assert_eq!(sends(&inner), Err(NetError::NetworkError));
}

#[test]
fn invalid_status_transitions_log_errors_and_preserve_state() {
    let mut worker = worker(Duration::zero());
    let mut actions = Vec::new();
    worker.set_status(ConnectionStatus::Connected, &mut actions);
    assert_eq!(worker.status, ConnectionStatus::Idle);
    worker.set_status_and_wait(ConnectionStatus::Connected, at(0), &mut actions);
    assert_eq!(worker.status, ConnectionStatus::Idle);
    assert!(actions.is_empty());
    worker.set_status(ConnectionStatus::Connecting, &mut actions);
    assert_eq!(worker.status, ConnectionStatus::Connecting);
    assert_eq!(
        actions,
        vec![WorkerAction::NotifyStatus(ConnectionStatus::Connecting)]
    );
}

#[test]
fn zero_response_grace_does_not_enqueue_a_data_drain_barrier() {
    let silent = worker(Duration::zero());
    assert_eq!(silent.response_dispatch_grace_deadline(at(3)), None);
    let wind_up = |grace| {
        let mut worker = worker(grace);
        let mut actions = Vec::new();
        let step = worker.wind_up(&inputs(), &mut actions);
        complete(&mut worker, step, &mut actions);
        actions
    };
    let drains = |actions: &Vec<WorkerAction>| {
        actions
            .iter()
            .filter(|action| matches!(action, WorkerAction::DrainCallbacks { .. }))
            .count()
    };
    assert_eq!(drains(&wind_up(Duration::zero())), 0);
    assert!(wind_up(Duration::from_secs(2))
        .contains(&WorkerAction::DrainCallbacks { deadline: at(2) }));
}

#[test]
fn a_slow_stop_leaves_responses_their_whole_grace() {
    let mut worker = worker(Duration::from_secs(1));
    command(&mut worker, connect(policy(false)));
    event(&mut worker, succeeded(1));
    let mut actions = Vec::new();
    let step = worker.handle_command(
        ClientCommand::Shutdown { wants_reply: true },
        &inputs(),
        &mut actions,
    );
    let purpose = StopPurpose::Shutdown { wants_reply: true };
    assert_eq!(step, WorkerStep::AwaitStop(purpose));
    assert!(matches!(actions.last(), Some(WorkerAction::StopIo(plan)) if plan.deadline == at(5)));
    let stopped = WorkerInputs {
        now: at(5),
        ..inputs()
    };
    let mut rest = Vec::new();
    assert_eq!(
        worker.resume_stop(purpose, &stopped, &mut rest),
        WorkerStep::Exit
    );
    assert_eq!(worker.terminal_response_deadline, Some(at(6)));
    assert!(rest.contains(&WorkerAction::NotifyStatusUntil {
        status: ConnectionStatus::Closed,
        until: at(10)
    }));
}

#[test]
fn a_shutdown_during_a_stop_prevents_the_reconnect() {
    let mut worker = connected(true);
    let mut actions = Vec::new();
    let step = worker.handle_io_event(
        IoEvent::ReadEnded {
            generation: 1,
            error: NetError::ConnectionClosed,
        },
        &inputs(),
        &mut actions,
    );
    let purpose = match step {
        WorkerStep::AwaitStop(purpose) => purpose,
        other => panic!("nothing is stopped: {other:?}"),
    };
    let shutting_down = WorkerInputs {
        shutdown: true,
        ..inputs()
    };
    worker.resume_stop(purpose, &shutting_down, &mut actions);
    assert!(!actions
        .iter()
        .any(|action| matches!(action, WorkerAction::StartConnect { .. })));
}

#[test]
fn an_event_that_reveals_a_loss_is_taken_in_afterwards() {
    let mut worker = connected(true);
    let lost = WorkerInputs {
        network: Some(NetworkStatusSnapshot {
            revision: 1,
            loss_epoch: 1,
            status: Some(NetworkStatus::Available),
        }),
        ..inputs()
    };
    let mut actions = Vec::new();
    let late = IoEvent::ReadEnded {
        generation: 1,
        error: NetError::ConnectionClosed,
    };
    let purpose = match worker.handle_io_event(late, &lost, &mut actions) {
        WorkerStep::AwaitStop(purpose) => purpose,
        other => panic!("the loss went unnoticed: {other:?}"),
    };
    assert_eq!(
        worker.resume_stop(purpose, &lost, &mut actions),
        WorkerStep::Repeat
    );
    assert_eq!(worker.status, ConnectionStatus::Reconnecting);
    assert_eq!(worker.last_connection_error, Some(NetError::NetworkError));
    let mut again = Vec::new();
    assert_eq!(
        worker.resume_io_event(late, &lost, &mut again),
        WorkerStep::Done
    );
    assert!(again.is_empty());
    let shutting_down = WorkerInputs {
        shutdown: true,
        ..lost
    };
    let succeeded = IoEvent::ConnectSucceeded {
        generation: worker.generation,
        context_attempt_id: None,
        network_loss_epoch: Some(1),
        wants_answer: true,
    };
    worker.resume_io_event(succeeded, &shutting_down, &mut again);
    assert_eq!(
        again,
        vec![WorkerAction::AnswerTask(Err(NetError::Cancelled))]
    );
    assert_eq!(worker.status, ConnectionStatus::Reconnecting);
}

#[test]
fn a_session_that_cannot_be_told_is_revoked() {
    let mut worker = worker(Duration::zero());
    let mut actions = Vec::new();
    assert_eq!(
        worker.handle_command(connect_session(41), &inputs(), &mut actions),
        WorkerStep::AwaitReply
    );
    let mut kept = Vec::new();
    worker.resume_reply(true, &mut kept);
    assert!(kept.is_empty());
    worker.resume_reply(false, &mut kept);
    assert_eq!(kept, vec![WorkerAction::RevokeSession]);

    let established = IoEvent::ConnectSucceeded {
        generation: 1,
        context_attempt_id: Some(3),
        network_loss_epoch: Some(0),
        wants_answer: true,
    };
    let pending = match worker.handle_io_event(established, &inputs(), &mut actions) {
        WorkerStep::AwaitEstablished(pending) => pending,
        other => panic!("the session was not asked: {other:?}"),
    };
    let mut served = Vec::new();
    assert_eq!(
        worker.resume_established(pending, Ok(()), &mut served),
        WorkerStep::AwaitCommit(pending)
    );
    assert_eq!(
        served.last(),
        Some(&WorkerAction::CommitEstablished { attempt_id: 3 })
    );
    let mut refused = Vec::new();
    worker.resume_commit(pending, false, &mut refused);
    assert_eq!(
        refused,
        vec![
            WorkerAction::RevokeSession,
            WorkerAction::AnswerTask(Ok(()))
        ]
    );
}

#[test]
fn a_first_connection_runs_through_its_statuses() {
    let mut worker = worker(Duration::zero());
    assert_eq!(
        command(&mut worker, connect(policy(false))),
        vec![
            WorkerAction::BeginSendSession {
                session_context_id: None,
                scoped: false
            },
            WorkerAction::NotifyStatus(ConnectionStatus::Connecting),
            WorkerAction::StartConnect { generation: 1 },
        ]
    );
    let (step, actions) = event(&mut worker, succeeded(1));
    assert_eq!(step, WorkerStep::Done);
    assert_eq!(
        actions,
        vec![
            WorkerAction::StartIo {
                generation: 1,
                loss_epoch: 0
            },
            WorkerAction::AdmitSendConnection { loss_epoch: 0 },
            WorkerAction::NotifyStatus(ConnectionStatus::Connected),
            WorkerAction::AnswerConnect(Ok(())),
        ]
    );
    assert_eq!(
        command(&mut worker, connect(policy(false))),
        vec![WorkerAction::AnswerCommand(Err(NetError::ConnectionExists))]
    );
}

#[test]
fn old_callback_rejection_cannot_end_or_relabel_the_current_session() {
    let mut worker = connected(false);
    worker.last_connection_error = Some(NetError::NetworkError);
    worker.last_handshake_http_status = Some(503);
    let (step, actions) = event(
        &mut worker,
        IoEvent::CallbackDispatchFailed { generation: 0 },
    );
    assert_eq!(step, WorkerStep::Done);
    assert!(actions.is_empty());
    assert_eq!(worker.status, ConnectionStatus::Connected);
    assert_eq!(worker.last_connection_error, Some(NetError::NetworkError));
    assert_eq!(worker.last_handshake_http_status, Some(503));
    assert_eq!(worker.generation, 1);
    assert!(worker.connect_target.is_some());
}

#[test]
fn closing_and_closed_clients_ignore_late_same_generation_dispatch_failures() {
    for status in [ConnectionStatus::Closing, ConnectionStatus::Closed] {
        let mut worker = connected(true);
        let mut actions = Vec::new();
        worker.set_status(ConnectionStatus::Closing, &mut actions);
        if status == ConnectionStatus::Closed {
            worker.set_status(ConnectionStatus::Closed, &mut actions);
        }
        worker.last_connection_error = Some(NetError::Cancelled);
        let (_, actions) = event(
            &mut worker,
            IoEvent::CallbackDispatchFailed { generation: 1 },
        );
        assert!(actions.is_empty());
        assert_eq!(worker.status, status);
        assert_eq!(worker.last_connection_error, Some(NetError::Cancelled));
        assert_eq!(worker.generation, 1);
        assert!(!worker.connect_running);
    }
}

#[test]
fn rejected_dispatch_reaches_worker_and_finishes_pending_once() {
    let mut worker = connected(false);
    let (step, actions) = event(
        &mut worker,
        IoEvent::CallbackDispatchFailed { generation: 1 },
    );
    assert!(matches!(step, WorkerStep::AwaitStop(StopPurpose::Loss(_))));
    assert_eq!(worker.status, ConnectionStatus::Disconnected);
    let failed: Vec<_> = actions
        .iter()
        .filter(|action| matches!(action, WorkerAction::FailPendingOf { generation: 1, .. }))
        .collect();
    assert_eq!(failed.len(), 1);
    let (_, again) = event(
        &mut worker,
        IoEvent::CallbackDispatchFailed { generation: 1 },
    );
    assert!(again.is_empty());
}

#[test]
fn a_lost_connection_is_replaced_when_the_policy_says_so() {
    let mut worker = connected(true);
    let (_, actions) = event(
        &mut worker,
        IoEvent::ReadEnded {
            generation: 1,
            error: NetError::ConnectionClosed,
        },
    );
    assert_eq!(worker.status, ConnectionStatus::Reconnecting);
    assert_eq!(worker.generation, 2);
    assert!(actions.contains(&WorkerAction::EndSendConnection));
    assert!(actions.contains(&WorkerAction::FailRejected(NetError::ConnectionClosed)));
    assert_eq!(
        actions.last(),
        Some(&WorkerAction::StartConnect { generation: 2 })
    );
    assert_eq!(
        worker.last_connection_error,
        Some(NetError::ConnectionClosed)
    );
}

#[test]
fn network_loss_closes_real_socket_and_preserves_waiting_send_for_one_reconnect() {
    let mut worker = connected(true);
    let lost = WorkerInputs {
        network: Some(NetworkStatusSnapshot {
            revision: 1,
            loss_epoch: 1,
            status: Some(NetworkStatus::Unavailable),
        }),
        ..inputs()
    };
    let mut actions = Vec::new();
    let step = worker.reconcile_network_status(&lost, &mut actions);
    complete(&mut worker, step, &mut actions);
    assert!(actions
        .iter()
        .any(|action| matches!(action, WorkerAction::StopIo(_))));
    assert!(actions.contains(&WorkerAction::FailRejected(NetError::NetworkError)));
    assert!(!actions
        .iter()
        .any(|action| matches!(action, WorkerAction::FailQueued(_))));
    let starts = |actions: &Vec<WorkerAction>| {
        actions
            .iter()
            .filter(|action| matches!(action, WorkerAction::StartConnect { .. }))
            .count()
    };
    assert_eq!(starts(&actions), 1);
    let mut again = Vec::new();
    worker.reconcile_network_status(&lost, &mut again);
    assert_eq!(starts(&again), 0);
}

#[test]
fn context_recovery_keeps_identity_and_cannot_restart_after_disconnect() {
    let mut worker = worker(Duration::zero());
    let started = command(&mut worker, connect_session(41));
    assert_eq!(
        started.first(),
        Some(&WorkerAction::BeginSendSession {
            session_context_id: Some(41),
            scoped: false
        })
    );
    assert_eq!(started.last(), Some(&WorkerAction::AnswerCommand(Ok(()))));
    assert_eq!(worker.connect_target.as_ref().unwrap().url, "ws://h");
    command(&mut worker, ClientCommand::Disconnect);
    assert_eq!(worker.status, ConnectionStatus::Idle);
    assert!(worker.connect_target.is_none());
    assert!(command(&mut worker, ClientCommand::NetworkAvailable).is_empty());
}

#[test]
fn exhausted_offline_context_stays_terminal_until_a_new_explicit_session() {
    let mut worker = worker(Duration::zero());
    command(&mut worker, connect_session(41));
    let exhausted = WebSocketConnectionFailure::new(
        NetError::RetryExhausted,
        WebSocketConnectStage::RequestBuild,
        None,
        false,
    );
    let (_, actions) = event(
        &mut worker,
        IoEvent::ConnectFailed {
            generation: 1,
            failure: exhausted,
            reason: WebSocketTerminationReason::RetryExhausted,
        },
    );
    assert!(actions.contains(&WorkerAction::TerminateSession {
        reason: WebSocketTerminationReason::RetryExhausted,
        failure: exhausted
    }));
    assert!(command(&mut worker, ClientCommand::NetworkAvailable).is_empty());
    assert_eq!(worker.status, ConnectionStatus::Disconnected);
    let restarted = command(&mut worker, connect_session(42));
    assert!(restarted.contains(&WorkerAction::StartConnect { generation: 2 }));
}

#[test]
fn exhausted_plain_targets_can_be_resumed_by_a_hint() {
    let mut worker = worker(Duration::zero());
    command(&mut worker, connect(policy(true)));
    event(
        &mut worker,
        IoEvent::ConnectFailed {
            generation: 1,
            failure: WebSocketConnectionFailure::new(
                NetError::NetworkError,
                WebSocketConnectStage::Tcp,
                None,
                true,
            ),
            reason: WebSocketTerminationReason::RetryExhausted,
        },
    );
    assert_eq!(worker.status, ConnectionStatus::Disconnected);
    let resumed = command(&mut worker, ClientCommand::NetworkAvailable);
    assert!(resumed.contains(&WorkerAction::StartConnect { generation: 2 }));
}

#[test]
fn cancelling_shutdown_wait_still_finishes_an_offline_connection() {
    let mut worker = worker(Duration::from_secs(1));
    command(&mut worker, connect(policy(true)));
    let mut actions = Vec::new();
    let step = worker.handle_command(
        ClientCommand::Shutdown { wants_reply: true },
        &inputs(),
        &mut actions,
    );
    assert_eq!(
        step,
        WorkerStep::AwaitStop(StopPurpose::Shutdown { wants_reply: true })
    );
    complete(&mut worker, step, &mut actions);
    assert_eq!(worker.status, ConnectionStatus::Closed);
    assert!(actions.contains(&WorkerAction::AbortConnectTask));
    assert!(actions.contains(&WorkerAction::AnswerConnect(Err(NetError::Cancelled))));
    assert_eq!(actions.last(), Some(&WorkerAction::AnswerCommand(Ok(()))));
    let mut rest = Vec::new();
    let step = worker.wind_up(&inputs(), &mut rest);
    complete(&mut worker, step, &mut rest);
    assert_eq!(rest.last(), Some(&WorkerAction::PublishShutdownComplete));
    assert_eq!(
        command(&mut worker, connect(policy(true))),
        vec![WorkerAction::AnswerCommand(Err(NetError::EngineDropped))]
    );
}

#[test]
fn observed_clients_need_a_bounded_cycle() {
    let mut worker = WSClientWorker::new(true, Duration::from_secs(5), Duration::zero());
    let unbounded = ReconnectPolicy {
        max_elapsed: None,
        ..policy(true)
    };
    assert_eq!(
        command(&mut worker, connect(unbounded)),
        vec![WorkerAction::AnswerCommand(Err(NetError::ConfigError))]
    );
}

#[test]
fn turns_are_taken_in_order() {
    let mut sources = TurnSources {
        shutdown: true,
        session_cancelled: true,
        commands: Readiness::Ready,
        network: Readiness::Ready,
        events: Readiness::Ready,
    };
    assert_eq!(next_turn(sources), WorkerTurn::ShutDown);
    sources.shutdown = false;
    assert_eq!(next_turn(sources), WorkerTurn::Disconnect);
    sources.session_cancelled = false;
    assert_eq!(next_turn(sources), WorkerTurn::HandleCommand);
    sources.commands = Readiness::Closed;
    assert_eq!(next_turn(sources), WorkerTurn::Leave);
    sources.commands = Readiness::Pending;
    assert_eq!(next_turn(sources), WorkerTurn::ReconcileNetwork);
    sources.network = Readiness::Closed;
    assert_eq!(next_turn(sources), WorkerTurn::ForgetNetwork);
    sources.network = Readiness::Pending;
    assert_eq!(next_turn(sources), WorkerTurn::HandleEvent);
    sources.events = Readiness::Pending;
    assert_eq!(next_turn(sources), WorkerTurn::Wait);
}

#[test]
fn a_turn_without_an_item_is_carried_out_at_once() {
    let quiet = TurnSources {
        shutdown: false,
        session_cancelled: false,
        commands: Readiness::Pending,
        network: Readiness::Pending,
        events: Readiness::Pending,
    };
    let mut worker = connected(true);
    let mut actions = Vec::new();
    assert_eq!(
        worker.run_async(quiet, &inputs(), &mut actions),
        TurnOutcome::Wait
    );
    let cancelled = TurnSources {
        session_cancelled: true,
        ..quiet
    };
    assert_eq!(
        worker.run_async(cancelled, &inputs(), &mut actions),
        TurnOutcome::Taken(WorkerStep::AwaitStop(StopPurpose::Disconnect))
    );
    complete(
        &mut worker,
        WorkerStep::AwaitStop(StopPurpose::Disconnect),
        &mut actions,
    );
    assert_eq!(worker.status, ConnectionStatus::Idle);
    let shutdown = TurnSources {
        shutdown: true,
        ..quiet
    };
    assert_eq!(
        worker.run_async(shutdown, &inputs(), &mut actions),
        TurnOutcome::Taken(WorkerStep::AwaitStop(StopPurpose::Shutdown {
            wants_reply: false
        }))
    );
    assert_eq!(
        worker.resume_stop(
            StopPurpose::Shutdown { wants_reply: false },
            &inputs(),
            &mut actions
        ),
        WorkerStep::Exit
    );
    assert_eq!(worker.status, ConnectionStatus::Closed);
}

#[test]
fn a_session_accepts_or_refuses_its_connection() {
    let mut worker = worker(Duration::zero());
    command(&mut worker, connect_session(41));
    let established = IoEvent::ConnectSucceeded {
        generation: 1,
        context_attempt_id: Some(3),
        network_loss_epoch: Some(0),
        wants_answer: true,
    };
    let (step, actions) = event(&mut worker, established);
    assert!(actions.is_empty());
    let pending = match step {
        WorkerStep::AwaitEstablished(pending) => pending,
        other => panic!("the session was not asked: {other:?}"),
    };
    assert_eq!(pending.context_attempt_id, Some(3));
    assert_eq!(
        event(&mut worker, IoEvent::ContextProgress { generation: 1 }).0,
        WorkerStep::AwaitSession
    );
    assert_eq!(
        event(&mut worker, IoEvent::ContextProgress { generation: 0 }),
        (
            WorkerStep::Done,
            vec![WorkerAction::AnswerTask(Err(NetError::Cancelled))]
        )
    );
}
