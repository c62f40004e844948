use open_net::client_config::{FrameLimits, TcpKeepaliveConfig, WebSocketClientConfig};
use open_net::clock::{duration_fits_instant, Duration, Instant};
use open_net::connection_status::ConnectionStatus;
use open_net::dispatch_phase::{DispatchPhase, PendingOutcome, DISPATCH_CANCELLED_QUEUED};
use open_net::network_status::{NetworkStatus, NetworkStatusSnapshot};
use open_net::queued_request::QueuedRequest;
use open_net::reconnect::ReconnectPolicy;
use open_net::registered_send::{PrepareAction, PrepareEvent};
use open_net::send_admission::{check_lease, DisconnectedTaskPolicy, WSRequestConfig};
use open_net::send_flow::{
    DispatchCancellationGuard, SendAction, SendEnd, SendEvent, SendFlow, SendStage,
};
use open_net::task_event::{
    WebSocketTaskDelivery, WebSocketTaskEndCause, WebSocketTaskPhase,
};
use open_net::task_observer::{
    capacity_lanes, ReservePoll, Room, TaskObservation, WebSocketTaskEventOptions,
};
use open_net::ws_client_inner::{
    command_answer, next_connection_identity, ClientAction, CommandOutcome, ShutdownWait,
    WSClientInner,
};
use open_net::NetError;
use std::collections::HashMap;
use tokio::sync::Semaphore;

const LIMITS: FrameLimits = FrameLimits {
    min_data_frame_payload_size: 125,
    max_client_frame_overhead: 14,
};

fn at(secs: u64) -> Instant {
    Instant { nanos: 0 }
        .checked_add(Duration::from_secs(secs))
        .unwrap()
}

fn client_config() -> WebSocketClientConfig {
    WebSocketClientConfig {
        callback_queue_capacity: 64,
        callback_queue_max_bytes: 1 << 20,
        data_callback_concurrency: 1,
        status_callback_queue_capacity: 16,
        pending_request_capacity: 64,
        business_queue_capacity: 64,
        business_queue_max_bytes: 1 << 16,
        urgent_queue_capacity: 8,
        urgent_queue_max_bytes: 1 << 12,
        heartbeat_interval: Duration::from_secs(30),
        pong_timeout: Duration::from_secs(45),
        close_timeout: Duration::from_secs(5),
        control_write_timeout: Duration::from_secs(5),
        data_frame_write_timeout: Duration::from_secs(5),
        response_dispatch_grace: Duration::from_secs(1),
        read_buffer_size: 4096,
        data_frame_payload_size: None,
        write_buffer_size: 4096,
        max_write_buffer_size: 1 << 20,
        max_message_size: None,
        max_frame_size: None,
        tcp_send_buffer_size: None,
        tcp_keepalive: None,
    }
}

fn refused(config: WebSocketClientConfig) -> bool {
    let mut instances = 1;
    let result =
        WSClientInner::new_with_network(&config, LIMITS, at(0), Ok(()), &mut instances, None);
    match result {
        Ok(_) => false,
        Err(error) => {
            assert_eq!(error, NetError::ConfigError);
            assert_eq!(instances, 1);
            true
        }
    }
}

fn request_config() -> WSRequestConfig {
    WSRequestConfig {
        send_retry_count: 0,
        idempotent: false,
        enqueue_timeout: None,
        write_timeout: Duration::from_secs(10),
        response_timeout: Duration::from_secs(30),
        disconnected_policy: DisconnectedTaskPolicy::Reject,
        expect_response: true,
    }
}

fn client(network: Option<NetworkStatusSnapshot>) -> WSClientInner {
    let mut instances = 1;
    WSClientInner::new_with_network(
        &client_config(),
        LIMITS,
        at(0),
        Ok(()),
        &mut instances,
        network,
    )
    .unwrap()
    .0
}

fn connected(network: Option<NetworkStatusSnapshot>) -> WSClientInner {
    let mut inner = client(network);
    inner.send_admission.begin_session();
    inner
        .send_admission
        .connection_succeeded_with_network_epoch(network.map_or(0, |seen| seen.loss_epoch));
    inner.state = ConnectionStatus::Connected;
    inner
}

fn available(epoch: u64) -> NetworkStatusSnapshot {
    NetworkStatusSnapshot {
        revision: epoch,
        loss_epoch: epoch,
        status: Some(NetworkStatus::Available),
    }
}

fn unobserved(
    flow: &mut SendFlow,
    phase: &mut DispatchPhase,
    event: SendEvent,
) -> SendAction<()> {
    flow.enqueue_and_wait_scoped(event, phase, &mut None)
}

fn end(action: SendAction<()>) -> SendEnd<()> {
    match action {
        SendAction::End(end) => end,
        other => panic!("the send is not over: {other:?}"),
    }
}

fn queued_flow(waits: bool, token: u64) -> (SendFlow, DispatchPhase) {
    let inner = connected(None);
    let mut flow = inner
        .send_internal(
            &request_config(),
            "request".to_string(),
            Ok(7),
            waits,
            at(0),
        )
        .unwrap()
        .flow;
    let mut phase = DispatchPhase::new();
    assert!(matches!(
        unobserved(&mut flow, &mut phase, SendEvent::Observed(Ok(()))),
        SendAction::Reserve
    ));
    assert!(matches!(
        unobserved(&mut flow, &mut phase, SendEvent::Reserved(Ok(token))),
        SendAction::Enqueue { pending_token: Some(number) } if number == token
    ));
    (flow, phase)
}

fn observed_task() -> TaskObservation<()> {
    let lanes = capacity_lanes(WebSocketTaskEventOptions::new(2, 64)).unwrap();
    TaskObservation::new(
        1,
        1,
        Some("request".to_string()),
        (),
        false,
        None,
        lanes.try_reserve(4, false).unwrap(),
    )
}

#[test]
fn connection_identity_exhaustion_is_fallible_and_never_wraps() {
    let mut exhausted = u64::MAX;
    assert_eq!(
        next_connection_identity(&mut exhausted),
        Err(NetError::InternalError)
    );
    assert_eq!(exhausted, u64::MAX);
    let mut next = 1;
    assert_eq!(next_connection_identity(&mut next), Ok(1));
    assert_eq!(next_connection_identity(&mut next), Ok(2));
}

#[test]
fn oversized_tokio_channel_capacity_is_rejected_without_panicking() {
    assert!(!refused(client_config()));
    assert!(refused(WebSocketClientConfig {
        callback_queue_capacity: Semaphore::MAX_PERMITS + 1,
        ..client_config()
    }));
}

#[test]
fn unrepresentable_client_deadlines_are_rejected_without_a_runtime() {
    let max = Duration::max_value();
    assert!(!duration_fits_instant(at(0), max));
    for config in [
        WebSocketClientConfig {
            heartbeat_interval: max,
            pong_timeout: max,
            ..client_config()
        },
        WebSocketClientConfig {
            pong_timeout: max,
            ..client_config()
        },
        WebSocketClientConfig {
            close_timeout: max,
            ..client_config()
        },
        WebSocketClientConfig {
            control_write_timeout: max,
            ..client_config()
        },
        WebSocketClientConfig {
            data_frame_write_timeout: max,
            ..client_config()
        },
        WebSocketClientConfig {
            response_dispatch_grace: max,
            ..client_config()
        },
    ] {
        assert!(refused(config));
    }
}

#[test]
fn zero_read_buffer_or_callback_concurrency_is_rejected() {
    assert!(refused(WebSocketClientConfig {
        read_buffer_size: 0,
        ..client_config()
    }));
    assert!(refused(WebSocketClientConfig {
        data_callback_concurrency: 0,
        ..client_config()
    }));
}

#[test]
fn write_buffer_must_hold_one_complete_masked_data_frame() {
    let tight = WebSocketClientConfig {
        data_frame_payload_size: Some(LIMITS.min_data_frame_payload_size),
        write_buffer_size: 0,
        max_write_buffer_size: LIMITS.min_data_frame_payload_size
            + LIMITS.max_client_frame_overhead
            - 1,
        ..client_config()
    };
    assert!(refused(tight));
    assert!(!refused(WebSocketClientConfig {
        max_write_buffer_size: tight.max_write_buffer_size + 1,
        ..tight
    }));
}

#[test]
fn every_other_limit_is_checked_too() {
    let zero = Duration::zero();
    for config in [
        WebSocketClientConfig {
            callback_queue_max_bytes: u32::MAX as usize + 1,
            ..client_config()
        },
        WebSocketClientConfig {
            status_callback_queue_capacity: 0,
            ..client_config()
        },
        WebSocketClientConfig {
            pending_request_capacity: 0,
            ..client_config()
        },
        WebSocketClientConfig {
            urgent_queue_capacity: 0,
            ..client_config()
        },
        WebSocketClientConfig {
            urgent_queue_max_bytes: 0,
            ..client_config()
        },
        WebSocketClientConfig {
            heartbeat_interval: zero,
            ..client_config()
        },
        WebSocketClientConfig {
            pong_timeout: client_config().heartbeat_interval,
            ..client_config()
        },
        WebSocketClientConfig {
            data_frame_payload_size: Some(LIMITS.min_data_frame_payload_size - 1),
            ..client_config()
        },
        WebSocketClientConfig {
            max_write_buffer_size: client_config().write_buffer_size,
            ..client_config()
        },
        WebSocketClientConfig {
            business_queue_max_bytes: usize::MAX,
            ..client_config()
        },
        WebSocketClientConfig {
            max_message_size: Some(0),
            ..client_config()
        },
        WebSocketClientConfig {
            max_frame_size: Some(0),
            ..client_config()
        },
        WebSocketClientConfig {
            tcp_send_buffer_size: Some(0),
            ..client_config()
        },
        WebSocketClientConfig {
            tcp_keepalive: Some(TcpKeepaliveConfig {
                idle: zero,
                interval: Duration::from_secs(1),
            }),
            ..client_config()
        },
    ] {
        assert!(refused(config));
    }
}

#[test]
fn clients_are_numbered_and_start_idle() {
    let mut instances = 41;
    let (inner, worker) = WSClientInner::new_with_network(
        &client_config(),
        LIMITS,
        at(0),
        Ok(()),
        &mut instances,
        Some(available(3)),
    )
    .unwrap();
    assert_eq!((inner.instance_id, instances), (41, 42));
    assert_eq!(inner.connection_status(), ConnectionStatus::Idle);
    assert_eq!(inner.last_connection_error(), None);
    assert_eq!(inner.last_handshake_http_status(), None);
    assert!(worker.pauses_on_unavailable);
    assert_eq!(
        WSClientInner::new_with_network(
            &client_config(),
            LIMITS,
            at(0),
            Err(NetError::QueueFull),
            &mut instances,
            None
        )
        .err(),
        Some(NetError::QueueFull)
    );
    instances = u64::MAX;
    assert_eq!(
        WSClientInner::new_with_network(
            &client_config(),
            LIMITS,
            at(0),
            Ok(()),
            &mut instances,
            None
        )
        .err(),
        Some(NetError::InternalError)
    );
}

#[test]
fn connect_rejects_unrepresentable_reconnect_deadlines_before_dispatch() {
    let policy = ReconnectPolicy {
        enabled: true,
        initial_delay: Duration::from_millis(100),
        max_delay: Duration::from_millis(500),
        max_retries: 2,
        handshake_timeout: Duration::from_secs(10),
        max_elapsed: None,
    };
    assert_eq!(
        WSClientInner::connect(
            &ReconnectPolicy {
                handshake_timeout: Duration::max_value(),
                ..policy
            },
            true,
            at(0)
        ),
        Err(NetError::ConfigError)
    );
    assert_eq!(
        WSClientInner::connect(
            &ReconnectPolicy {
                max_elapsed: Some(Duration::max_value()),
                ..policy
            },
            true,
            at(0)
        ),
        Err(NetError::ConfigError)
    );
    assert_eq!(
        WSClientInner::connect(&policy, false, at(0)),
        Err(NetError::ConfigError)
    );
    assert_eq!(WSClientInner::connect(&policy, true, at(0)), Ok(()));
}

#[test]
fn commands_without_an_answer_are_errors() {
    assert_eq!(
        command_answer(CommandOutcome::Undeliverable),
        Err(NetError::EngineDropped)
    );
    assert_eq!(
        command_answer(CommandOutcome::Unanswered),
        Err(NetError::EngineDropped)
    );
    assert_eq!(command_answer(CommandOutcome::Answered(Ok(()))), Ok(()));
    assert_eq!(
        command_answer(CommandOutcome::Answered(Err(NetError::ConnectionExists))),
        Err(NetError::ConnectionExists)
    );
}

#[test]
fn sessions_are_numbered_once_their_options_are_valid() {
    let mut inner = client(None);
    assert_eq!(
        inner.start_connect_with_context(Err(NetError::InvalidUrl)),
        Err(NetError::InvalidUrl)
    );
    assert_eq!(inner.start_connect_with_context(Ok(())), Ok(1));
    assert_eq!(inner.start_connect_with_context(Ok(())), Ok(2));
    inner.next_session_id = u64::MAX;
    assert_eq!(
        inner.start_connect_with_context(Ok(())),
        Err(NetError::InternalError)
    );
}

#[test]
fn data_listener_registration_racing_shutdown_cannot_retain_client() {
    let mut inner = connected(None);
    inner.register_data_listener(1);
    assert_eq!(inner.data_listener, Some(1));
    inner.request_shutdown();
    inner.register_data_listener(2);
    assert_eq!(inner.data_listener, None);
    inner.unregister_data_listener();
    assert_eq!(inner.data_listener, None);
}

#[test]
fn status_listener_registered_after_shutdown_is_not_stored_and_observes_closed() {
    let mut inner = connected(None);
    let first = inner.register_status_listener(1);
    assert_eq!(first.status, ConnectionStatus::Connected);
    assert_eq!(first.retired, None);
    inner.request_shutdown();
    let late = inner.register_status_listener(2);
    assert_eq!(late.status, ConnectionStatus::Closed);
    assert_eq!(late.retired, Some(1));
    assert_eq!(inner.status_listener, None);
    assert_eq!(inner.unregister_status_listener(), None);
}

#[test]
fn log_listeners_are_replaced_only_by_registered_ones() {
    let mut inner = client(None);
    assert!(inner.wants_log_listener(true));
    assert!(!inner.wants_log_listener(false));
    assert_eq!(inner.try_set_log_listener::<()>(Some(Ok(1))), Ok(None));
    assert_eq!(inner.try_set_log_listener(Some(Err("spawn"))), Err("spawn"));
    assert_eq!(inner.set_log_listener(Some(Err("spawn"))), None);
    assert_eq!(inner.log_listener, Some(1));
    assert_eq!(inner.set_log_listener::<()>(Some(Ok(2))), Some(1));
    inner.register_status_listener(5);
    assert_eq!(inner.clear_listeners(), (Some(5), Some(2)));
    inner.set_log_listener::<()>(Some(Ok(3)));
    let actions = inner.last_handle_dropped();
    assert_eq!(
        actions,
        vec![
            ClientAction::CloseTaskObservers,
            ClientAction::EndSendTasks(WebSocketTaskEndCause::Shutdown),
            ClientAction::CancelClient,
            ClientAction::DropLogListener(3),
            ClientAction::TryShutdown,
        ]
    );
    assert!(!inner.wants_log_listener(true));
    assert_eq!(inner.try_set_log_listener::<()>(Some(Ok(4))), Ok(None));
    assert_eq!(inner.log_listener, None);
    assert_eq!(inner.try_set_log_listener(Some(Err("spawn"))), Ok(None));

    let mut closing = client(None);
    closing.set_log_listener::<()>(Some(Ok(1)));
    closing.request_shutdown();
    assert_eq!(closing.set_log_listener::<()>(Some(Ok(2))), Some(1));
    assert_eq!(closing.log_listener, None);
}

#[test]
fn shutdown_is_requested_once_and_waited_for() {
    let mut inner = connected(Some(available(0)));
    let actions = inner.shutdown().unwrap();
    assert_eq!(
        actions,
        vec![
            ClientAction::CloseTaskObservers,
            ClientAction::EndSendTasks(WebSocketTaskEndCause::Shutdown),
            ClientAction::CancelClient,
            ClientAction::DestroyMonitor,
            ClientAction::TryShutdown,
        ]
    );
    assert_eq!(inner.request_shutdown(), actions);
    assert_eq!(inner.shutdown_progress(false), ShutdownWait::Pending);
    assert_eq!(
        inner.shutdown_progress(true),
        ShutdownWait::Ready(Err(NetError::EngineDropped))
    );
    inner.shutdown_complete = true;
    assert_eq!(inner.shutdown_progress(true), ShutdownWait::Ready(Ok(())));
    assert!(inner.shutdown().is_none());
    assert_eq!(
        inner.notify_network_available(),
        vec![ClientAction::WakeRetries, ClientAction::TryNotifyNetwork]
    );
}

#[test]
fn observed_unavailable_rejects_send_before_worker_changes_connected_state() {
    let mut inner = connected(Some(available(7)));
    inner.network_status = Some(NetworkStatusSnapshot {
        revision: 8,
        loss_epoch: 8,
        status: Some(NetworkStatus::Unavailable),
    });
    assert_eq!(inner.connection_status(), ConnectionStatus::Connected);
    assert_eq!(
        inner.validate_send_admission(&request_config(), at(0)),
        Err(NetError::NetworkError)
    );
}

#[test]
fn available_after_coalesced_loss_does_not_admit_into_old_connection() {
    let mut inner = connected(Some(available(7)));
    inner.network_status = Some(NetworkStatusSnapshot {
        revision: 9,
        loss_epoch: 8,
        status: Some(NetworkStatus::Available),
    });
    assert_eq!(
        inner.validate_send_admission(&request_config(), at(0)),
        Err(NetError::NetworkError)
    );
    inner
        .send_admission
        .connection_succeeded_with_network_epoch(8);
    assert!(inner
        .validate_send_admission(&request_config(), at(0))
        .is_ok());
}

#[test]
fn waiting_requests_retain_session_and_unknown_health_does_not_block_send() {
    let mut inner = connected(Some(available(7)));
    inner.network_status = Some(NetworkStatusSnapshot {
        revision: 8,
        loss_epoch: 7,
        status: None,
    });
    assert!(inner
        .validate_send_admission(&request_config(), at(0))
        .is_ok());
    inner.network_status = Some(NetworkStatusSnapshot {
        revision: 9,
        loss_epoch: 8,
        status: Some(NetworkStatus::Unavailable),
    });
    let lease = inner
        .validate_send_admission(
            &WSRequestConfig {
                disconnected_policy: DisconnectedTaskPolicy::WaitForReconnect,
                ..request_config()
            },
            at(0),
        )
        .unwrap();
    inner.send_admission.connection_ended();
    assert!(!inner.send_admission.is_revoked(lease));
    inner.request_shutdown();
    assert!(inner.send_admission.is_revoked(lease));
}

#[test]
fn send_lease_captures_connection_epoch_before_reconnect_replaces_it() {
    let mut inner = connected(Some(available(7)));
    let old = inner
        .send_admission
        .lease_observed(DisconnectedTaskPolicy::Reject);
    inner
        .send_admission
        .connection_succeeded_with_network_epoch(8);
    let current = inner
        .send_admission
        .lease_observed(DisconnectedTaskPolicy::Reject);
    assert_eq!(old.network_loss_epoch, 7);
    assert!(inner.send_admission.is_revoked(old));
    assert_eq!(current.network_loss_epoch, 8);
    assert!(!inner.send_admission.is_revoked(current));
    assert_eq!(
        check_lease(
            &inner.send_admission,
            old,
            inner.connection_status(),
            Some(available(8))
        ),
        Err(NetError::ConnectionClosed)
    );
}

#[test]
fn saturated_control_queue_cannot_hide_network_loss_from_send_admission() {
    let mut inner = connected(Some(available(0)));
    inner.network_status = Some(NetworkStatusSnapshot {
        revision: 2,
        loss_epoch: 1,
        status: Some(NetworkStatus::Available),
    });
    inner.notify_network_available();
    assert_eq!(
        inner.validate_send_admission(&request_config(), at(0)),
        Err(NetError::NetworkError)
    );
}

#[test]
fn every_status_has_its_refusal() {
    let mut inner = connected(None);
    let waiting = WSRequestConfig {
        disconnected_policy: DisconnectedTaskPolicy::WaitForReconnect,
        ..request_config()
    };
    for (status, rejecting, patient) in [
        (ConnectionStatus::Idle, Some(NetError::SocketNotOpened), Some(NetError::SocketNotOpened)),
        (ConnectionStatus::Connecting, Some(NetError::SocketNotOpened), None),
        (ConnectionStatus::Connected, None, None),
        (ConnectionStatus::Reconnecting, Some(NetError::SocketNotOpened), None),
        (
            ConnectionStatus::Disconnected,
            Some(NetError::SocketNotOpened),
            Some(NetError::SocketNotOpened),
        ),
        (
            ConnectionStatus::Closing,
            Some(NetError::ConnectionClosing),
            Some(NetError::ConnectionClosing),
        ),
        (
            ConnectionStatus::Closed,
            Some(NetError::EngineDropped),
            Some(NetError::EngineDropped),
        ),
    ] {
        inner.state = status;
        assert_eq!(
            inner.validate_send_admission(&request_config(), at(0)).err(),
            rejecting
        );
        assert_eq!(
            inner.validate_send_admission(&waiting, at(0)).err(),
            patient
        );
    }
    inner.state = ConnectionStatus::Connected;
    assert_eq!(
        inner.validate_send_admission_scoped(&request_config(), Err(NetError::Cancelled), at(0)),
        Err(NetError::Cancelled)
    );
    assert_eq!(
        inner.validate_send_admission(
            &WSRequestConfig {
                send_retry_count: 1,
                ..request_config()
            },
            at(0)
        ),
        Err(NetError::ConfigError)
    );
}

#[test]
fn every_send_path_rejects_unrepresentable_request_deadlines_before_enqueue() {
    let inner = connected(None);
    let max = Duration::max_value();
    let oversized_write = WSRequestConfig {
        write_timeout: max,
        ..request_config()
    };
    assert_eq!(
        inner
            .send(&oversized_write, "async-write".to_string(), Ok(1), at(0))
            .err(),
        Some(NetError::ConfigError)
    );
    assert_eq!(
        inner
            .try_send(&oversized_write, "sync-write".to_string(), Ok(1), at(0))
            .err(),
        Some(NetError::ConfigError)
    );
    for waits in [true, false] {
        assert_eq!(
            inner
                .send_untracked_scoped(&oversized_write, 1, false, Ok(()), 1, waits, at(0))
                .err(),
            Some(NetError::ConfigError)
        );
    }
    assert_eq!(
        inner
            .try_send(
                &WSRequestConfig {
                    response_timeout: max,
                    ..request_config()
                },
                "sync-response".to_string(),
                Ok(1),
                at(0)
            )
            .err(),
        Some(NetError::ConfigError)
    );
    assert_eq!(
        inner
            .try_send(
                &WSRequestConfig {
                    enqueue_timeout: Some(max),
                    ..request_config()
                },
                "sync-enqueue".to_string(),
                Ok(1),
                at(0)
            )
            .err(),
        Some(NetError::ConfigError)
    );
}

#[test]
fn bodies_and_identifiers_are_checked_after_admission() {
    let inner = connected(None);
    let config = request_config();
    assert_eq!(
        inner
            .send(&config, " \t".to_string(), Err(NetError::InternalError), at(0))
            .err(),
        Some(NetError::InternalError)
    );
    assert_eq!(
        inner.send(&config, " \t".to_string(), Ok(1), at(0)).err(),
        Some(NetError::ParameterEmpty)
    );
    assert_eq!(
        client(None)
            .send(&config, " ".to_string(), Err(NetError::InternalError), at(0))
            .err(),
        Some(NetError::SocketNotOpened)
    );
    assert_eq!(
        inner
            .send_with_completion(
                &WSRequestConfig {
                    expect_response: false,
                    ..config
                },
                "id".to_string(),
                Ok(1),
                true,
                at(0)
            )
            .err(),
        Some(NetError::ConfigError)
    );
}

#[test]
fn synchronous_try_send_works_without_runtime_and_remains_queued_after_return() {
    let inner = connected(None);
    let mut flow = inner
        .try_send(&request_config(), "sync-tracked".to_string(), Ok(12), at(0))
        .unwrap()
        .flow;
    let mut phase = DispatchPhase::new();
    assert!(matches!(
        unobserved(&mut flow, &mut phase, SendEvent::Observed(Ok(()))),
        SendAction::Reserve
    ));
    assert!(matches!(
        unobserved(&mut flow, &mut phase, SendEvent::Reserved(Ok(9))),
        SendAction::Enqueue {
            pending_token: Some(9)
        }
    ));
    let done = end(unobserved(&mut flow, &mut phase, SendEvent::Queued(Ok(()))));
    assert_eq!(done.result, Some(Ok(())));
    assert_eq!(done.remove_pending, None);
    assert!(
        !done.cancel_dispatch && !done.cancel_queued,
        "successful return must not cancel the item"
    );
    assert_eq!(phase.pending_cleanup.as_ref().unwrap().uuid, "sync-tracked");
    assert!(matches!(
        unobserved(&mut flow, &mut phase, SendEvent::SenderDropped),
        SendAction::Ignore
    ));
}

#[test]
fn synchronous_try_send_rolls_back_pending_when_queue_is_full() {
    let inner = connected(None);
    let mut filling = inner
        .send_untracked_scoped(&request_config(), 32, false, Ok(()), 1, false, at(0))
        .unwrap()
        .flow;
    let mut filling_phase = DispatchPhase::new();
    assert!(matches!(
        unobserved(
            &mut filling,
            &mut filling_phase,
            SendEvent::Observed(Ok(()))
        ),
        SendAction::Enqueue {
            pending_token: None
        }
    ));
    let filled = end(unobserved(
        &mut filling,
        &mut filling_phase,
        SendEvent::Queued(Ok(())),
    ));
    assert_eq!(filled.result, Some(Ok(())));

    let attempt = |token: u64, queued: Result<(), NetError>| {
        let mut flow = inner
            .try_send(
                &request_config(),
                "retry-after-full".to_string(),
                Ok(7),
                at(0),
            )
            .unwrap()
            .flow;
        let mut phase = DispatchPhase::new();
        unobserved(&mut flow, &mut phase, SendEvent::Observed(Ok(())));
        unobserved(&mut flow, &mut phase, SendEvent::Reserved(Ok(token)));
        let done = end(unobserved(&mut flow, &mut phase, SendEvent::Queued(queued)));
        assert_eq!(flow.stage, SendStage::Over);
        (done, phase)
    };
    let (refused, _) = attempt(4, Err(NetError::QueueFull));
    assert_eq!(refused.result, Some(Err(NetError::QueueFull)));
    assert_eq!(refused.remove_pending, Some((4, NetError::QueueFull)));

    let (retried, phase) = attempt(5, Ok(()));
    assert_eq!(
        retried.result,
        Some(Ok(())),
        "failed admission must not strand the UUID or capacity"
    );
    assert_eq!(retried.remove_pending, None);
    let cleanup = phase.pending_cleanup.unwrap();
    assert_eq!((cleanup.uuid.as_str(), cleanup.token), ("retry-after-full", 5));
}

/// Removes the registration that a request cleans up.
fn clean_up(pending: &mut HashMap<String, u64>, request: &QueuedRequest<()>) -> PendingOutcome {
    let cleanup = request.dispatch_phase.pending_cleanup.as_ref().unwrap();
    let removed = pending.get(&cleanup.uuid) == Some(&cleanup.token);
    if removed {
        pending.remove(&cleanup.uuid);
    }
    PendingOutcome {
        removed,
        claimed: false,
    }
}

#[test]
fn dropped_in_flight_request_cleans_pending_before_receipt_error() {
    let inner = connected(None);
    let mut pending: HashMap<String, u64> = HashMap::new();
    let mut tokens = 0;
    let mut send = |pending: &mut HashMap<String, u64>| {
        let mut flow = inner
            .send_with_completion(
                &request_config(),
                "dropped-in-flight".to_string(),
                Ok(7),
                false,
                at(0),
            )
            .unwrap()
            .flow;
        let mut phase = DispatchPhase::new();
        unobserved(&mut flow, &mut phase, SendEvent::Observed(Ok(())));
        tokens += 1;
        let reserved = match pending.contains_key(flow.uuid.as_str()) {
            true => Err(NetError::InternalError),
            false => {
                pending.insert(flow.uuid.clone(), tokens);
                Ok(tokens)
            }
        };
        unobserved(&mut flow, &mut phase, SendEvent::Reserved(reserved));
        let queued = end(unobserved(&mut flow, &mut phase, SendEvent::Queued(Ok(()))));
        assert_eq!(queued.result, Some(Ok(())));
        QueuedRequest::<()> {
            pending_token: flow.token,
            priority: 1,
            sequence: tokens,
            attempt: 0,
            prior_delivery_unknown: false,
            receipt_open: true,
            holds_capacity: true,
            dispatch_phase: phase,
            observation: None,
        }
    };
    let mut request = send(&mut pending);
    assert!(request.dispatch_phase.start_writing());
    assert!(request.dispatch_phase.start_data_write(at(0)));
    // Models an abort after data admission: dropping is the only cleanup path.
    let outcome = clean_up(&mut pending, &request);
    let dropped = request.abandon(false, outcome);
    assert_eq!(dropped.receipt, Some(Err(NetError::DeliveryUnknown)));
    assert!(
        pending.is_empty(),
        "an observed write error must not race ahead of pending cleanup"
    );
    assert!(request.dispatch_phase.pending_cleanup.is_none());
    assert!(!request.holds_capacity);

    let mut again = send(&mut pending);
    let outcome = clean_up(&mut pending, &again);
    let cancelled = again.complete(Err(NetError::Cancelled), outcome);
    assert_eq!(cancelled.receipt, Some(Err(NetError::Cancelled)));
    assert!(pending.is_empty());
}

#[test]
fn a_sender_whose_receipt_is_dropped_removes_its_registration() {
    let (mut flow, mut phase) = queued_flow(true, 4);
    assert!(matches!(
        unobserved(&mut flow, &mut phase, SendEvent::Queued(Ok(()))),
        SendAction::AwaitWrite
    ));
    let done = end(unobserved(
        &mut flow,
        &mut phase,
        SendEvent::Written(Err(NetError::DeliveryUnknown)),
    ));
    assert_eq!(done.result, Some(Err(NetError::DeliveryUnknown)));
    assert_eq!(done.remove_pending, Some((4, NetError::DeliveryUnknown)));

    let (mut flow, mut phase) = queued_flow(true, 5);
    unobserved(&mut flow, &mut phase, SendEvent::Queued(Ok(())));
    let done = end(unobserved(&mut flow, &mut phase, SendEvent::ReceiptDropped));
    assert_eq!(done.result, Some(Err(NetError::EngineDropped)));
    assert_eq!(done.remove_pending, Some((5, NetError::EngineDropped)));
}

#[test]
fn dropping_send_while_waiting_for_queue_capacity_releases_pending() {
    let (mut flow, mut phase) = queued_flow(true, 4);
    let done = end(unobserved(&mut flow, &mut phase, SendEvent::SenderDropped));
    assert_eq!(done.result, None);
    assert_eq!(done.remove_pending, Some((4, NetError::Cancelled)));
    assert!(done.cancel_dispatch);
    assert!(!done.cancel_queued);
    assert_eq!(phase.phase, DISPATCH_CANCELLED_QUEUED);
}

#[test]
fn dropping_send_after_writer_commit_keeps_response_correlation() {
    let mut phase = DispatchPhase::new();
    let guard = DispatchCancellationGuard::new(Some(1));
    assert!(phase.start_writing());
    assert!(phase.commit(at(0)));
    let done = guard.release::<()>(&mut phase, &mut None);
    assert!(!done.cancel_dispatch);
    assert_eq!(done.remove_pending, None);
}

#[test]
fn dropping_send_while_writer_owns_it_defers_pending_cleanup_to_writer() {
    let mut phase = DispatchPhase::new();
    let guard = DispatchCancellationGuard::new(Some(1));
    assert!(phase.start_writing());
    let mut observation = Some(observed_task());
    let done = guard.release(&mut phase, &mut observation);
    assert!(done.cancel_dispatch);
    assert!(phase.is_cancelled());
    assert_eq!(done.remove_pending, None);
    assert!(done.notification.is_none());
    let event = observation
        .unwrap()
        .finish(Err(NetError::DeliveryUnknown))
        .unwrap()
        .event;
    assert_eq!(event.cause, WebSocketTaskEndCause::SendCancelled);
}

#[test]
fn a_disarmed_guard_undoes_nothing() {
    let mut phase = DispatchPhase::new();
    let mut guard = DispatchCancellationGuard::new(Some(1));
    guard.mark_enqueued();
    guard.disarm();
    let done = guard.release::<()>(&mut phase, &mut None);
    assert!(!done.cancel_dispatch && !done.cancel_queued);
    assert!(!phase.is_cancelled());
}

#[test]
fn a_sender_that_gives_up_a_queued_message_is_notified_once() {
    let (mut flow, mut phase) = queued_flow(true, 4);
    let mut observation = Some(observed_task());
    assert!(matches!(
        flow.enqueue_and_wait_scoped(SendEvent::Queued(Ok(())), &mut phase, &mut observation),
        SendAction::AwaitWrite
    ));
    let done = end(flow.enqueue_and_wait_scoped(
        SendEvent::SenderDropped,
        &mut phase,
        &mut observation,
    ));
    assert!(done.cancel_queued);
    let event = done.notification.unwrap().event;
    assert_eq!(event.result, Err(NetError::Cancelled));
    assert_eq!(event.cause, WebSocketTaskEndCause::SendCancelled);
    assert!(observation.unwrap().is_finished());
}

#[test]
fn shutdown_during_request_extension_returns_the_already_notified_terminal_error() {
    let inner = connected(None);
    let mut flow = inner
        .send(
            &request_config(),
            "extension-shutdown-result".to_string(),
            Ok(4),
            at(0),
        )
        .unwrap()
        .flow;
    let mut phase = DispatchPhase::new();
    let mut observation = Some(observed_task());
    assert!(matches!(
        flow.enqueue_and_wait_scoped(SendEvent::Observed(Ok(())), &mut phase, &mut observation),
        SendAction::Reserve
    ));
    // Shutdown ends the task while its response is being registered.
    let mut task = observation.take().unwrap();
    task.set_cause(WebSocketTaskEndCause::Shutdown);
    let event = task.finish(Err(NetError::Cancelled)).unwrap().event;
    assert_eq!(event.cause, WebSocketTaskEndCause::Shutdown);
    assert_eq!(event.delivery, WebSocketTaskDelivery::NotStarted);
    observation = Some(task);
    let done = end(flow.enqueue_and_wait_scoped(
        SendEvent::Reserved(Err(NetError::ConnectionClosed)),
        &mut phase,
        &mut observation,
    ));
    assert_eq!(done.result, Some(Err(NetError::Cancelled)));
    assert!(
        done.notification.is_none(),
        "sender duplicated the previously notified terminal event"
    );
}

#[test]
fn notification_and_write_queue_wait_share_one_enqueue_deadline() {
    let deadline = at(10);
    let lanes = capacity_lanes(WebSocketTaskEventOptions::new(1, 64)).unwrap();
    let occupied = lanes.try_reserve(4, false).unwrap();
    let room = || match lanes.try_reserve(4, false) {
        Ok(permit) => Room::Found(permit),
        Err(_) => Room::Missing,
    };
    assert!(matches!(
        lanes.reserve(4, false, false, false, at(0).has_reached(deadline), room()),
        ReservePoll::Pending
    ));
    drop(occupied);
    let permit = match lanes.reserve(4, false, false, false, at(6).has_reached(deadline), room()) {
        ReservePoll::Ready(Ok(permit)) => permit,
        other => panic!("no room: {other:?}"),
    };
    let mut observation = Some(TaskObservation::new(
        1,
        1,
        Some("combined-deadline".to_string()),
        (),
        false,
        None,
        permit,
    ));
    let (mut flow, mut phase) = queued_flow(true, 4);
    assert!(!at(9).has_reached(deadline));
    assert!(at(10).has_reached(deadline));
    let done = end(flow.enqueue_and_wait_scoped(
        SendEvent::Queued(Err(NetError::TimeoutError)),
        &mut phase,
        &mut observation,
    ));
    assert_eq!(done.result, Some(Err(NetError::TimeoutError)));
    assert_eq!(done.remove_pending, Some((4, NetError::TimeoutError)));
    let event = done.notification.unwrap().event;
    assert_eq!(event.result, Err(NetError::TimeoutError));
    assert_eq!(event.phase, WebSocketTaskPhase::WaitingForCapacity);
}

#[test]
fn urgent_untracked_message_bypasses_full_pending_and_business_queue() {
    let inner = connected(None);
    let start = inner
        .send_untracked_scoped(&request_config(), 3, true, Ok(()), 17, true, at(0))
        .unwrap();
    assert_eq!(start.flow.uuid, "__open_net_untracked:17");
    assert!(start.flow.urgent && !start.flow.expect_response);
    let mut flow = start.flow;
    let mut phase = DispatchPhase::new();
    assert!(matches!(
        unobserved(&mut flow, &mut phase, SendEvent::Observed(Ok(()))),
        SendAction::Enqueue {
            pending_token: None
        }
    ));
    unobserved(&mut flow, &mut phase, SendEvent::Queued(Ok(())));
    let done = end(unobserved(&mut flow, &mut phase, SendEvent::Written(Ok(()))));
    assert_eq!(done.result, Some(Ok(())));
    assert_eq!(done.remove_pending, None);
}

#[test]
fn connection_end_cancels_a_reject_send_still_waiting_for_capacity() {
    let mut inner = connected(None);
    let start = inner
        .send(&request_config(), "late".to_string(), Ok(4), at(0))
        .unwrap();
    inner.send_admission.connection_ended();
    assert!(inner.send_admission.is_revoked(start.lease));
    let (mut flow, mut phase) = queued_flow(true, 4);
    let done = end(unobserved(
        &mut flow,
        &mut phase,
        SendEvent::Queued(Err(NetError::ConnectionClosed)),
    ));
    assert_eq!(done.result, Some(Err(NetError::ConnectionClosed)));
    assert_eq!(done.remove_pending, Some((4, NetError::ConnectionClosed)));
}

#[test]
fn shutdown_cancels_a_capacity_waiter_before_it_can_enqueue() {
    let mut inner = connected(None);
    let start = inner
        .send(&request_config(), "shutdown-waiter".to_string(), Ok(4), at(0))
        .unwrap();
    inner.request_shutdown();
    assert!(inner.send_admission.is_revoked(start.lease));
    assert_eq!(
        inner.validate_send_admission(&request_config(), at(0)),
        Err(NetError::ConnectionClosed)
    );
}

#[test]
fn untracked_names_carry_their_number() {
    let inner = connected(None);
    for (sequence, name) in [
        (0, "__open_net_untracked:0"),
        (9, "__open_net_untracked:9"),
        (10, "__open_net_untracked:10"),
        (u64::MAX, "__open_net_untracked:18446744073709551615"),
    ] {
        let start = inner
            .send_untracked_scoped(&request_config(), 3, false, Ok(()), sequence, false, at(0))
            .unwrap();
        assert_eq!(start.flow.uuid, name);
    }
}

#[test]
fn registered_sends_check_in_their_own_order() {
    let inner = connected(None);
    let prepare = |config: WSRequestConfig, deadline, uuid: &str, body| {
        inner
            .prepare_registered(&config, Ok(()), deadline, uuid.to_string(), body, true, at(5))
            .err()
    };
    let plain = WSRequestConfig {
        expect_response: false,
        ..request_config()
    };
    assert_eq!(
        prepare(plain, Some(at(5)), "", Ok(1)),
        Some(NetError::ConfigError)
    );
    assert_eq!(
        prepare(request_config(), Some(at(5)), "", Ok(1)),
        Some(NetError::TimeoutError)
    );
    assert_eq!(
        prepare(
            WSRequestConfig {
                write_timeout: Duration::max_value(),
                ..request_config()
            },
            Some(at(6)),
            "",
            Ok(1)
        ),
        Some(NetError::ConfigError)
    );
    assert_eq!(
        prepare(request_config(), None, " ", Err(NetError::InternalError)),
        Some(NetError::ParameterEmpty)
    );
    assert_eq!(
        prepare(request_config(), None, "id", Err(NetError::InternalError)),
        Some(NetError::InternalError)
    );
    assert_eq!(prepare(request_config(), None, "id", Ok(1)), None);
}

#[test]
fn registered_sends_keep_or_remove_their_registration() {
    let inner = connected(None);
    let start = || {
        inner
            .prepare_registered(
                &request_config(),
                Ok(()),
                None,
                "id".to_string(),
                Ok(1),
                true,
                at(0),
            )
            .unwrap()
            .flow
    };
    let ended = |action: PrepareAction<()>| match action {
        PrepareAction::End(end) => end,
        other => panic!("the preparation is not over: {other:?}"),
    };
    let registered = PrepareEvent::Registered {
        registration: Ok(8),
        response_deadline: Ok(Some(at(30))),
    };

    for (event, error) in [
        (PrepareEvent::ScopeCancelled, NetError::Cancelled),
        (PrepareEvent::DeadlineElapsed, NetError::TimeoutError),
        (
            PrepareEvent::Observed(Err(NetError::QueueFull)),
            NetError::QueueFull,
        ),
    ] {
        let mut flow = start();
        let end = ended(flow.prepare_registered(event, &mut DispatchPhase::new(), &mut None));
        assert_eq!(end.result, Err(error));
        assert_eq!(end.remove_pending, None);
    }

    let mut ready = start();
    let mut phase = DispatchPhase::new();
    ready.prepare_registered::<()>(PrepareEvent::Observed(Ok(())), &mut phase, &mut None);
    assert!(matches!(
        ready.prepare_registered::<()>(registered, &mut phase, &mut None),
        PrepareAction::PrepareEnqueue { token: 8 }
    ));
    assert_eq!(phase.response_deadline(), Some(at(30)));
    let end = ended(ready.prepare_registered(
        PrepareEvent::Prepared {
            result: Ok(()),
            terminal_error: Ok(None),
        },
        &mut phase,
        &mut None,
    ));
    assert_eq!(end.result, Ok(8));
    assert_eq!(end.remove_pending, None);

    let mut full = start();
    let mut phase = DispatchPhase::new();
    full.prepare_registered::<()>(PrepareEvent::Observed(Ok(())), &mut phase, &mut None);
    full.prepare_registered::<()>(registered, &mut phase, &mut None);
    let end = ended(full.prepare_registered(
        PrepareEvent::Prepared {
            result: Err(NetError::QueueFull),
            terminal_error: Ok(Some(NetError::Cancelled)),
        },
        &mut phase,
        &mut None,
    ));
    assert_eq!(end.result, Err(NetError::Cancelled));
    assert_eq!(end.remove_pending, Some((8, NetError::QueueFull)));
}
