use open_net::callback_lane::{
    next_status_turn, status_event_is_acknowledged, CallbackEvent, DataCallbackLane, LaneAction,
    LaneWait, StatusRegistration, StatusTurn,
};
use open_net::clock::{Duration, Instant};
use open_net::connection_status::{connection_status_transition_allowed, ConnectionStatus};
use open_net::heartbeat_state::{heartbeat_payload, HeartbeatState, HeartbeatTick};
use open_net::io_stop::plan_io_stop;
use open_net::network_io::{IoFault, IoVerdict, NetworkEpoch};
use open_net::network_status::{NetworkStatus, NetworkStatusSnapshot};
use open_net::ws_read::{Lane, ReadItem, ReadLanes, ReadLoop, ReadStep};
use open_net::NetError;

fn at(secs: u64) -> Instant {
    Instant { nanos: 0 }
        .checked_add(Duration::from_secs(secs))
        .unwrap()
}

fn observation(status: Option<NetworkStatus>, loss_epoch: u64) -> NetworkStatusSnapshot {
    NetworkStatusSnapshot {
        revision: loss_epoch,
        loss_epoch,
        status,
    }
}

fn epoch(network: Option<NetworkStatusSnapshot>) -> NetworkEpoch {
    NetworkEpoch {
        loss_epoch: 0,
        network,
        scope_cancelled: false,
        write_retired: false,
    }
}

fn available() -> NetworkEpoch {
    epoch(Some(observation(Some(NetworkStatus::Available), 0)))
}

fn lanes(data: usize, data_bytes: usize, control: usize) -> ReadLanes {
    ReadLanes {
        data: Lane {
            closed: false,
            free: data,
        },
        data_bytes,
        control: Lane {
            closed: false,
            free: control,
        },
    }
}

fn read(reader: &mut ReadLoop, lanes: &mut ReadLanes, item: ReadItem) -> ReadStep {
    reader.run_read_loop(false, &item, lanes, None, at(0))
}

fn probe(tick: HeartbeatTick) -> Vec<u8> {
    match tick {
        HeartbeatTick::SendProbe(payload) => payload,
        other => panic!("no probe: {other:?}"),
    }
}

#[test]
fn request_scope_cancel_wakes_flush_and_blocks_the_retired_sink() {
    let mut connection = epoch(None);
    assert_eq!(connection.check_write(), IoVerdict::Proceed);
    connection.scope_cancelled = true;
    for _ in 0..2 {
        assert_eq!(
            connection.check_write(),
            IoVerdict::Fail(IoFault::RequestScopeCancelled)
        );
    }
    assert_eq!(
        IoFault::RequestScopeCancelled.message(),
        "request_scope_cancelled"
    );
}

#[test]
fn request_scope_cancel_between_readiness_and_send_blocks_first_byte() {
    let mut connection = epoch(None);
    assert_eq!(connection.check_write(), IoVerdict::Proceed);
    connection.scope_cancelled = true;
    assert!(matches!(connection.check_write(), IoVerdict::Fail(_)));
}

#[test]
fn coalesced_loss_blocks_send_before_old_sink_is_touched() {
    let mut connection = available();
    connection.network = Some(observation(Some(NetworkStatus::Available), 1));
    assert!(connection.is_invalid());
    assert_eq!(
        connection.check_write(),
        IoVerdict::Fail(IoFault::NetworkUnavailable)
    );
}

#[test]
fn loss_between_ready_and_start_send_is_rejected() {
    let mut connection = available();
    assert_eq!(connection.check_write(), IoVerdict::Proceed);
    connection.network = Some(observation(Some(NetworkStatus::Unavailable), 1));
    assert!(matches!(connection.check_write(), IoVerdict::Fail(_)));
}

#[test]
fn network_loss_wakes_a_blocked_flush_without_polling_old_sink_again() {
    let mut connection = available();
    assert_eq!(connection.check_write(), IoVerdict::Proceed);
    connection.network = Some(observation(Some(NetworkStatus::Unavailable), 1));
    assert_eq!(
        connection.check_write(),
        IoVerdict::Fail(IoFault::NetworkUnavailable)
    );
    assert_eq!(IoFault::NetworkUnavailable.message(), "network_unavailable");
}

#[test]
fn unknown_monitor_and_unmonitored_clients_keep_writing() {
    for network in [None, Some(observation(None, 0))] {
        assert_eq!(epoch(network).check_write(), IoVerdict::Proceed);
        assert_eq!(epoch(network).check_read(), IoVerdict::Proceed);
    }
}

#[test]
fn request_scope_cancel_wakes_reader_without_an_automatic_flush() {
    let mut connection = epoch(None);
    assert_eq!(connection.check_read(), IoVerdict::Proceed);
    connection.scope_cancelled = true;
    assert!(matches!(connection.check_read(), IoVerdict::Fail(_)));
}

#[test]
fn network_loss_wakes_reader_before_it_can_flush_automatic_control_frames() {
    let mut connection = available();
    assert_eq!(connection.check_read(), IoVerdict::Proceed);
    connection.network = Some(observation(Some(NetworkStatus::Available), 1));
    assert!(matches!(connection.check_read(), IoVerdict::Fail(_)));
}

#[test]
fn write_retirement_wakes_pending_flush_and_blocks_every_sink_entry() {
    let mut connection = epoch(None);
    assert_eq!(connection.check_write(), IoVerdict::Proceed);
    connection.write_retired = true;
    for _ in 0..4 {
        assert_eq!(
            connection.check_write(),
            IoVerdict::Fail(IoFault::WriteRetired)
        );
    }
    assert_eq!(IoFault::WriteRetired.message(), "websocket_write_retired");
}

#[test]
fn write_retirement_between_readiness_and_start_send_blocks_first_byte() {
    let mut connection = epoch(None);
    assert_eq!(connection.check_write(), IoVerdict::Proceed);
    connection.write_retired = true;
    assert!(matches!(connection.check_write(), IoVerdict::Fail(_)));
}

#[test]
fn write_retirement_wakes_reader_then_freezes_without_terminal_or_self_wakeup() {
    let mut connection = available();
    connection.write_retired = true;
    connection.network = Some(observation(Some(NetworkStatus::Unavailable), 1));
    for _ in 0..3 {
        assert_eq!(
            connection.check_read(),
            IoVerdict::Suspend,
            "frozen reader must leave terminal reporting to the writer"
        );
    }
}

#[test]
fn write_retirement_of_an_old_connection_does_not_freeze_a_fresh_connection() {
    let mut old = epoch(None);
    let mut fresh = epoch(None);
    old.write_retired = true;
    assert_eq!(fresh.check_write(), IoVerdict::Proceed);
    assert_eq!(fresh.check_read(), IoVerdict::Proceed);
    fresh.write_retired = true;
    assert_eq!(fresh.check_read(), IoVerdict::Suspend);
    assert!(matches!(fresh.check_write(), IoVerdict::Fail(_)));
}

#[test]
fn matched_pong_clears_only_the_current_probe() {
    let mut heartbeat = HeartbeatState::new(9);
    let timeout = Duration::from_secs(5);
    let first = probe(heartbeat.on_tick(at(0), timeout));
    assert!(!first.is_empty());
    assert!(heartbeat.mark_sent(&first, at(0)));
    assert!(!heartbeat.acknowledge_pong(b"not-the-probe", at(0)));
    assert!(matches!(
        heartbeat.on_tick(at(1), timeout),
        HeartbeatTick::Waiting
    ));
    assert!(heartbeat.acknowledge_pong(&first, at(1)));
    let second = probe(heartbeat.on_tick(at(2), timeout));
    assert!(!second.is_empty());
    assert_ne!(first, second);
}

#[test]
fn timeout_starts_only_after_ping_send_succeeds() {
    let mut heartbeat = HeartbeatState::new(11);
    let timeout = Duration::from_secs(5);
    let payload = probe(heartbeat.on_tick(at(0), timeout));
    assert!(
        matches!(heartbeat.on_tick(at(30), timeout), HeartbeatTick::Waiting),
        "a blocked Ping write is governed by its write timeout, not Pong timeout"
    );
    assert_eq!(heartbeat.pong_deadline(), None);
    assert!(heartbeat.mark_sent(&payload, at(30)));
    assert_eq!(heartbeat.pong_deadline(), Some(at(35)));
    let almost = at(30)
        .checked_add(Duration::from_millis(4_999))
        .unwrap();
    assert!(matches!(
        heartbeat.on_tick(almost, timeout),
        HeartbeatTick::Waiting
    ));
    assert!(matches!(
        heartbeat.on_tick(at(35), timeout),
        HeartbeatTick::TimedOut
    ));
    assert!(heartbeat.is_timed_out(at(35)));
}

#[test]
fn matching_pong_at_or_after_deadline_cannot_revive_the_connection() {
    let timeout = Duration::from_secs(5);
    let mut heartbeat = HeartbeatState::new(13);
    let payload = probe(heartbeat.on_tick(at(0), timeout));
    assert!(heartbeat.mark_sent(&payload, at(0)));
    assert!(!heartbeat.acknowledge_pong(&payload, at(5)));
    assert!(heartbeat.is_timed_out(at(5)));
    assert!(matches!(
        heartbeat.on_tick(at(5), timeout),
        HeartbeatTick::TimedOut
    ));
}

#[test]
fn probes_carry_their_numbers_and_can_be_abandoned() {
    assert_eq!(
        heartbeat_payload(0x0102, 3),
        vec![0, 0, 0, 0, 0, 0, 1, 2, 0, 0, 0, 0, 0, 0, 0, 3]
    );
    let mut heartbeat = HeartbeatState::new(1);
    let first = probe(heartbeat.on_tick(at(0), Duration::from_secs(5)));
    heartbeat.abandon_probe(b"another");
    assert!(heartbeat.outstanding.is_some());
    heartbeat.abandon_probe(&first);
    assert!(heartbeat.outstanding.is_none());
}

#[test]
fn data_event_captures_listener_registered_when_message_is_received() {
    let mut reader = ReadLoop::new(7, 1024);
    let mut lanes = lanes(2, 1024, 1);
    for (listener, len) in [(Some(1), 8), (Some(2), 14)] {
        assert_eq!(
            reader.run_read_loop(false, &ReadItem::Data { len }, &mut lanes, listener, at(0)),
            ReadStep::Deliver {
                listener,
                bytes: len
            }
        );
    }
}

#[test]
fn callback_overflow_fails_fast_instead_of_blocking_the_reader() {
    let mut reader = ReadLoop::new(7, 1024);
    let mut lanes = lanes(0, 1023, 1);
    assert_eq!(
        read(&mut reader, &mut lanes, ReadItem::Data { len: 8 }),
        ReadStep::End {
            report: Some(NetError::CallbackQueueOverflow)
        }
    );
    assert_eq!(lanes.data_bytes, 1023);
}

#[test]
fn callback_payload_byte_budget_fails_fast() {
    let mut reader = ReadLoop::new(7, 4);
    let mut lanes = lanes(2, 4, 1);
    assert_eq!(
        read(&mut reader, &mut lanes, ReadItem::Data { len: 5 }),
        ReadStep::End {
            report: Some(NetError::CallbackQueueOverflow)
        }
    );
    assert_eq!(lanes.data.free, 2);
    assert_eq!(lanes.data_bytes, 4);
}

#[test]
fn callback_accumulated_byte_budget_accepts_exact_limit_and_rejects_next_byte() {
    for extra_byte in [false, true] {
        let mut reader = ReadLoop::new(7, 4);
        let mut lanes = lanes(4, 4, 1);
        for _ in 0..2 {
            assert!(matches!(
                read(&mut reader, &mut lanes, ReadItem::Data { len: 2 }),
                ReadStep::Deliver { bytes: 2, .. }
            ));
        }
        let last = if extra_byte {
            ReadItem::Data { len: 1 }
        } else {
            ReadItem::Ended
        };
        assert_eq!(
            read(&mut reader, &mut lanes, last),
            ReadStep::End {
                report: Some(if extra_byte {
                    NetError::CallbackQueueOverflow
                } else {
                    NetError::ConnectionClosed
                })
            }
        );
        assert_eq!(lanes.data.free, 2);
        assert_eq!(lanes.data_bytes, 0);
    }
}

#[test]
fn callback_small_messages_hit_queue_limit_before_byte_budget() {
    let mut reader = ReadLoop::new(7, 8);
    let mut lanes = lanes(2, 8, 1);
    for _ in 0..2 {
        read(&mut reader, &mut lanes, ReadItem::Data { len: 1 });
    }
    assert_eq!(
        read(&mut reader, &mut lanes, ReadItem::Data { len: 1 }),
        ReadStep::End {
            report: Some(NetError::CallbackQueueOverflow)
        }
    );
    assert_eq!(lanes.data.free, 0);
    assert_eq!(lanes.data_bytes, 6);
}

#[test]
fn callback_empty_messages_consume_one_byte_each() {
    let mut reader = ReadLoop::new(7, 2);
    let mut lanes = lanes(4, 2, 1);
    for _ in 0..2 {
        assert!(matches!(
            read(&mut reader, &mut lanes, ReadItem::Data { len: 0 }),
            ReadStep::Deliver { bytes: 1, .. }
        ));
    }
    assert_eq!(
        read(&mut reader, &mut lanes, ReadItem::Data { len: 0 }),
        ReadStep::End {
            report: Some(NetError::CallbackQueueOverflow)
        }
    );
    assert_eq!(lanes.data.free, 2);
    assert_eq!(lanes.data_bytes, 0);
}

#[test]
fn closed_callback_channel_releases_rejected_payload_byte_permit() {
    let mut reader = ReadLoop::new(7, 4);
    let mut lanes = lanes(1, 4, 1);
    lanes.data.closed = true;
    assert_eq!(
        read(&mut reader, &mut lanes, ReadItem::Data { len: 4 }),
        ReadStep::End {
            report: Some(NetError::TaskInterruptionError)
        }
    );
    assert_eq!(lanes.data_bytes, 4);
}

#[test]
fn control_overflow_fails_fast_instead_of_blocking_the_reader() {
    let mut reader = ReadLoop::new(7, 1024);
    let mut lanes = lanes(1, 1024, 0);
    assert_eq!(
        read(&mut reader, &mut lanes, ReadItem::Ping),
        ReadStep::End {
            report: Some(NetError::ControlQueueOverflow)
        }
    );
}

#[test]
fn ping_requests_an_automatic_pong_flush() {
    let mut reader = ReadLoop::new(7, 1024);
    let mut lanes = lanes(1, 1024, 1);
    assert_eq!(
        read(&mut reader, &mut lanes, ReadItem::Ping),
        ReadStep::FlushAutomatic
    );
}

#[test]
fn only_a_matching_pong_acknowledges_the_outstanding_probe() {
    let timeout = Duration::from_secs(5);
    let mut reader = ReadLoop::new(7, 1024);
    let first = probe(reader.heartbeat.on_tick(at(0), timeout));
    assert!(reader.heartbeat.mark_sent(&first, at(0)));
    let mut lanes = lanes(1, 1024, 1);
    for payload in [b"unrelated-pong".to_vec(), first.clone()] {
        assert_eq!(
            read(&mut reader, &mut lanes, ReadItem::Pong(payload)),
            ReadStep::Continue
        );
    }
    assert_ne!(first, probe(reader.heartbeat.on_tick(at(1), timeout)));
}

#[test]
fn an_unmatched_pong_does_not_prevent_timeout() {
    let timeout = Duration::from_secs(5);
    let mut reader = ReadLoop::new(7, 1024);
    let first = probe(reader.heartbeat.on_tick(at(0), timeout));
    assert!(reader.heartbeat.mark_sent(&first, at(0)));
    read(
        &mut reader,
        &mut lanes(1, 1024, 1),
        ReadItem::Pong(b"unrelated-pong".to_vec()),
    );
    assert!(matches!(
        reader.heartbeat.on_tick(at(5), timeout),
        HeartbeatTick::TimedOut
    ));
}

#[test]
fn the_reader_ends_silently_only_when_it_is_cancelled() {
    let mut reader = ReadLoop::new(7, 1024);
    let mut lanes = lanes(1, 1024, 1);
    assert_eq!(
        reader.run_read_loop(true, &ReadItem::Ended, &mut lanes, None, at(0)),
        ReadStep::End { report: None }
    );
    assert_eq!(
        read(
            &mut reader,
            &mut lanes,
            ReadItem::Failed(NetError::NetworkError)
        ),
        ReadStep::End {
            report: Some(NetError::NetworkError)
        }
    );
    assert_eq!(
        read(&mut reader, &mut lanes, ReadItem::Frame),
        ReadStep::Continue
    );
    assert_eq!(
        read(&mut reader, &mut lanes, ReadItem::Close),
        ReadStep::AwaitCloseReply
    );
    assert_eq!(
        reader.close_replied(false),
        ReadStep::End {
            report: Some(NetError::ConnectionClosed)
        }
    );
    assert_eq!(reader.close_replied(true), ReadStep::End { report: None });
}

fn data(listener: Option<u64>, generation: u64, bytes: usize) -> Option<CallbackEvent> {
    Some(CallbackEvent::Data {
        listener,
        generation,
        bytes,
    })
}

#[test]
fn running_callback_holds_payload_budget_until_it_returns() {
    let mut lane = DataCallbackLane::new(2);
    assert_eq!(
        lane.on_event(data(Some(1), 7, 4)),
        LaneAction::Start {
            listener: 1,
            generation: 7,
            bytes: 4
        }
    );
    assert_eq!(lane.on_started(true, 7, 4, false), LaneAction::Idle);
    assert_eq!(lane.held_bytes, 4);
    assert_eq!(lane.on_completed(4), LaneAction::Release { bytes: 4 });
    assert_eq!(lane.held_bytes, 0);
}

#[test]
fn callback_dispatch_never_exceeds_configured_concurrency() {
    let mut lane = DataCallbackLane::new(2);
    for running in 0..2 {
        assert_ne!(lane.next_wait(), LaneWait::Completion, "{running} are running");
        lane.on_event(data(Some(1), 7, 1));
        lane.on_started(true, 7, 1, false);
    }
    assert_eq!(lane.next_wait(), LaneWait::Completion);
    lane.on_completed(1);
    assert_eq!(lane.next_wait(), LaneWait::EventFirst);
}

#[test]
fn single_callback_lane_preserves_start_and_completion_order() {
    let mut lane = DataCallbackLane::new(1);
    for generation in 0..3 {
        assert_eq!(lane.next_wait(), LaneWait::Event);
        assert!(matches!(
            lane.on_event(data(Some(1), generation, 1)),
            LaneAction::Start { generation: started, .. } if started == generation
        ));
        lane.on_started(true, generation, 1, false);
        assert_eq!(lane.next_wait(), LaneWait::Completion);
        assert_eq!(lane.on_completed(1), LaneAction::Release { bytes: 1 });
    }
}

#[test]
fn callback_without_a_listener_releases_payload_budget() {
    let mut lane = DataCallbackLane::new(1);
    assert_eq!(
        lane.on_event(data(None, 7, 3)),
        LaneAction::Release { bytes: 3 }
    );
    assert_eq!((lane.in_flight, lane.held_bytes), (0, 0));
}

#[test]
fn one_callback_lane_keeps_old_and_new_generations_in_the_same_byte_budget() {
    let mut lane = DataCallbackLane::new(2);
    lane.on_event(data(Some(1), 7, 4));
    lane.on_started(true, 7, 4, false);
    lane.on_event(data(Some(1), 8, 3));
    lane.on_started(true, 8, 3, false);
    assert_eq!(lane.held_bytes, 7);
    lane.on_completed(4);
    assert_eq!(lane.held_bytes, 3);
}

#[test]
fn rejected_dispatch_preserves_another_running_callbacks_byte_permit() {
    let mut lane = DataCallbackLane::new(2);
    lane.on_event(data(Some(1), 7, 4));
    lane.on_started(true, 7, 4, false);
    lane.on_event(data(Some(1), 7, 3));
    assert_eq!(
        lane.on_started(false, 7, 3, false),
        LaneAction::ReportFailure {
            generation: 7,
            bytes: 3,
            send: true
        }
    );
    assert_eq!((lane.in_flight, lane.held_bytes), (1, 4));
}

#[test]
fn saturated_failure_report_cancels_without_discarding_grace_callbacks() {
    let mut lane = DataCallbackLane::new(1);
    assert_eq!(
        lane.on_started(false, 7, 3, true),
        LaneAction::ReportFailure {
            generation: 7,
            bytes: 3,
            send: false
        }
    );
    assert!(matches!(
        lane.on_event(data(Some(1), 7, 2)),
        LaneAction::Start { .. }
    ));
}

#[test]
fn misrouted_callback_events_log_acknowledge_and_release_capacity() {
    let mut lane = DataCallbackLane::new(1);
    let status = CallbackEvent::Status {
        status: ConnectionStatus::Connected,
        awaited: true,
    };
    assert!(status_event_is_acknowledged(&status));
    assert_eq!(lane.on_event(Some(status)), LaneAction::Acknowledge);
    assert!(status_event_is_acknowledged(&CallbackEvent::DataDrain));
    assert!(!status_event_is_acknowledged(&data(None, 7, 1).unwrap()));
}

#[test]
fn a_drain_waits_for_running_callbacks_and_the_end_stops_the_lane() {
    let mut lane = DataCallbackLane::new(2);
    lane.on_event(data(Some(1), 7, 4));
    lane.on_started(true, 7, 4, false);
    assert_eq!(
        lane.on_event(Some(CallbackEvent::DataDrain)),
        LaneAction::DrainAndAcknowledge
    );
    assert_eq!(lane.on_event(None), LaneAction::DrainAndStop);
    assert!(lane.stopped);
}

#[test]
fn initial_status_finishes_before_later_status_and_lane_reads_latest_state() {
    let waiting = StatusRegistration {
        listener: 3,
        retired: false,
        initial_done: false,
    };
    assert_eq!(
        next_status_turn(
            Some(waiting),
            Some(ConnectionStatus::Connected),
            ConnectionStatus::Connecting
        ),
        StatusTurn::Wait
    );
    assert_eq!(
        next_status_turn(
            Some(StatusRegistration {
                initial_done: true,
                ..waiting
            }),
            Some(ConnectionStatus::Connected),
            ConnectionStatus::Connecting
        ),
        StatusTurn::Run {
            listener: 3,
            status: ConnectionStatus::Connected
        }
    );
}

#[test]
fn replacing_blocked_initial_listener_does_not_strand_status_lane() {
    assert_eq!(
        next_status_turn(
            Some(StatusRegistration {
                listener: 3,
                retired: true,
                initial_done: false,
            }),
            Some(ConnectionStatus::Connected),
            ConnectionStatus::Connected
        ),
        StatusTurn::Retry
    );
}

#[test]
fn unregistering_blocked_initial_listener_releases_delivery_waiter() {
    assert_eq!(
        next_status_turn(
            None,
            Some(ConnectionStatus::Connected),
            ConnectionStatus::Connected
        ),
        StatusTurn::Skip
    );
}

#[test]
fn connection_state_machine_rejects_terminal_and_skipped_transitions() {
    assert!(connection_status_transition_allowed(
        ConnectionStatus::Idle,
        ConnectionStatus::Connecting
    ));
    assert!(connection_status_transition_allowed(
        ConnectionStatus::Connected,
        ConnectionStatus::Reconnecting
    ));
    assert!(connection_status_transition_allowed(
        ConnectionStatus::Closing,
        ConnectionStatus::Closed
    ));
    assert!(!connection_status_transition_allowed(
        ConnectionStatus::Idle,
        ConnectionStatus::Connected
    ));
    assert!(!connection_status_transition_allowed(
        ConnectionStatus::Closed,
        ConnectionStatus::Connecting
    ));
}

#[test]
fn graceful_stops_keep_time_for_a_cancellation() {
    let plan = plan_io_stop(true, at(10), Duration::from_secs(5));
    assert!(plan.close_frame);
    assert_eq!(plan.deadline, at(15));
    assert_eq!(
        plan.deadline.since(plan.graceful_deadline),
        Duration::from_millis(100)
    );
    let short = plan_io_stop(false, at(10), Duration::from_millis(50));
    assert_eq!(
        short.deadline.since(short.graceful_deadline),
        Duration::from_millis(25)
    );
    let endless = plan_io_stop(true, at(10), Duration::max_value());
    assert_eq!(endless.deadline, at(10));
}
