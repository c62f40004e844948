use open_net::clock::{Duration, Instant};
use open_net::dispatch_phase::{
    DispatchCancellation, DispatchPhase, PendingOutcome, DISPATCH_CANCELLED_DATA_STARTED,
    DISPATCH_CANCELLED_QUEUED, DISPATCH_CANCELLED_WRITING, DISPATCH_COMMITTED, DISPATCH_FINISHED,
    DISPATCH_QUEUED,
};
use open_net::queued_request::{DeferredWriteCompletion, QueuedRequest};
use open_net::task_event::{
    WebSocketTaskDelivery, WebSocketTaskEndCause, WebSocketTaskPhase, WebSocketTaskSuccess,
};
use open_net::task_observer::{
    capacity_lanes, TaskObservation, WebSocketTaskEventOptions,
};
use open_net::NetError;

fn at(secs: u64) -> Instant {
    Instant { nanos: 0 }
        .checked_add(Duration::from_secs(secs))
        .unwrap()
}

const GONE: PendingOutcome = PendingOutcome {
    removed: true,
    claimed: false,
};

fn observed() -> TaskObservation<&'static str> {
    let lanes = capacity_lanes(WebSocketTaskEventOptions::new(1, 64)).unwrap();
    TaskObservation::new(
        1,
        2,
        Some("request".to_string()),
        "data",
        false,
        None,
        lanes.try_reserve(4, false).unwrap(),
    )
}

fn queued(token: Option<u64>) -> QueuedRequest<&'static str> {
    QueuedRequest {
        pending_token: token,
        priority: 1,
        sequence: 1,
        attempt: 0,
        prior_delivery_unknown: false,
        receipt_open: true,
        holds_capacity: true,
        dispatch_phase: DispatchPhase::new(),
        observation: Some(observed()),
    }
}

#[test]
fn duplicate_cleanup_registration_preserves_the_original_owner() {
    let mut dispatch = DispatchPhase::new();
    dispatch
        .set_pending_cleanup("original-cleanup".to_string(), 1)
        .unwrap();
    assert_eq!(
        dispatch.set_pending_cleanup("replacement-cleanup".to_string(), 2),
        Err(NetError::InternalError)
    );
    let cleanup = dispatch.pending_cleanup.as_ref().unwrap();
    assert_eq!(cleanup.uuid, "original-cleanup");
    assert_eq!(cleanup.token, 1);
    assert!(!dispatch.cleanup_pending(GONE));
    assert!(dispatch.pending_cleanup.is_none());
    assert!(!dispatch.cleanup_pending(GONE));
}

#[test]
fn rejected_cleanup_cannot_remove_a_reused_uuid_with_a_new_token() {
    let mut dispatch = DispatchPhase::new();
    dispatch
        .set_pending_cleanup("reused-cleanup".to_string(), 1)
        .unwrap();
    assert_eq!(
        dispatch.set_pending_cleanup("reused-cleanup".to_string(), 2),
        Err(NetError::InternalError)
    );
    assert_eq!(dispatch.pending_cleanup.as_ref().unwrap().token, 1);
    // The table no longer holds the first registration.
    assert!(!dispatch.cleanup_pending(PendingOutcome {
        removed: false,
        claimed: false,
    }));
}

#[test]
fn cancellation_keeps_queued_and_writing_outcomes_stable() {
    for (start_writing, start_data, outcome, cancelled_phase) in [
        (
            false,
            false,
            DispatchCancellation::Queued,
            DISPATCH_CANCELLED_QUEUED,
        ),
        (
            true,
            false,
            DispatchCancellation::Writing,
            DISPATCH_CANCELLED_WRITING,
        ),
        (
            true,
            true,
            DispatchCancellation::Writing,
            DISPATCH_CANCELLED_DATA_STARTED,
        ),
    ] {
        let mut dispatch = DispatchPhase::new();
        if start_writing {
            assert!(dispatch.start_writing());
        }
        if start_data {
            assert!(dispatch.start_data_write(at(0)));
        }
        assert_eq!(dispatch.cancel(), outcome);
        assert_eq!(dispatch.phase, cancelled_phase);
        assert!(dispatch.is_cancelled());
        assert_eq!(dispatch.drop_has_unknown_delivery(), start_data);
        assert_eq!(dispatch.cancel(), DispatchCancellation::AlreadyResolved);
        assert!(!dispatch.start_writing());
        assert!(!dispatch.commit(at(0)));
        assert!(!dispatch.requeue());
        dispatch.finish();
        assert_eq!(dispatch.phase, cancelled_phase);
    }
}

#[test]
fn finish_and_commit_prevent_late_cancellation_and_requeue() {
    for start_writing in [false, true] {
        let mut dispatch = DispatchPhase::new();
        if start_writing {
            assert!(dispatch.start_writing());
        }
        dispatch.finish();
        assert_eq!(dispatch.phase, DISPATCH_FINISHED);
        assert_eq!(dispatch.cancel(), DispatchCancellation::AlreadyResolved);
        assert!(!dispatch.is_cancelled());
        assert!(!dispatch.start_writing());
        assert!(!dispatch.commit(at(0)));
        assert!(!dispatch.requeue());
        assert!(!dispatch.drop_has_unknown_delivery());
    }

    let mut committed = DispatchPhase::new();
    assert!(
        !committed.commit(at(0)),
        "a queued request cannot commit before writing"
    );
    assert!(committed.start_writing());
    assert!(committed.commit(at(0)));
    assert_eq!(committed.cancel(), DispatchCancellation::AlreadyResolved);
    assert!(!committed.requeue());
    assert!(!committed.is_cancelled());
    committed.finish();
    assert_eq!(committed.phase, DISPATCH_COMMITTED);
    assert!(committed.drop_has_unknown_delivery());
}

#[test]
fn registration_cancellation_preserves_delivery_after_another_owner_cancelled_first() {
    for (writing, prior_unknown) in [(true, false), (false, true), (false, false)] {
        for requested in [NetError::Cancelled, NetError::TimeoutError] {
            let mut dispatch = DispatchPhase::new();
            if writing || prior_unknown {
                assert!(dispatch.start_writing());
                assert!(dispatch.start_data_write(at(0)));
            }
            if prior_unknown {
                // The writer publishes the uncertain result before returning ownership.
                dispatch.prior_unknown = true;
                assert!(dispatch.requeue());
            }
            assert_eq!(
                dispatch.cancel(),
                if writing {
                    DispatchCancellation::Writing
                } else {
                    DispatchCancellation::Queued
                }
            );
            assert_eq!(
                dispatch.select_cancellation(requested),
                if writing || prior_unknown {
                    NetError::DeliveryUnknown
                } else {
                    requested
                }
            );
            assert!(!dispatch.start_writing());
            assert!(!dispatch.commit(at(0)));
        }
    }
}

#[test]
fn registration_cancellation_after_successful_retry_ignores_old_unknown_delivery() {
    for requested in [NetError::Cancelled, NetError::TimeoutError] {
        let mut dispatch = DispatchPhase::new();
        assert!(dispatch.start_writing());
        dispatch.prior_unknown = true;
        assert!(dispatch.requeue());
        assert!(dispatch.start_writing());
        assert!(dispatch.commit(at(0)));
        assert_eq!(dispatch.select_cancellation(requested), requested);
        assert_eq!(dispatch.phase, DISPATCH_COMMITTED);
    }

    let mut finished = DispatchPhase::new();
    finished.prior_unknown = true;
    finished.finish();
    assert_eq!(finished.phase, DISPATCH_FINISHED);
    assert_eq!(
        finished.select_cancellation(NetError::Cancelled),
        NetError::Cancelled
    );
}

#[test]
fn requeue_returns_ownership_to_the_queued_cancellation_path() {
    let mut dispatch = DispatchPhase::new();
    assert!(
        !dispatch.requeue(),
        "only a writer may return ownership to the queue"
    );
    assert!(dispatch.start_writing());
    assert!(!dispatch.start_writing());
    assert!(dispatch.requeue());
    assert_eq!(dispatch.phase, DISPATCH_QUEUED);
    assert!(!dispatch.drop_has_unknown_delivery());
    assert_eq!(dispatch.cancel(), DispatchCancellation::Queued);
    assert_eq!(dispatch.cancel(), DispatchCancellation::AlreadyResolved);
}

#[test]
fn data_start_and_registration_cancel_share_one_admission_order() {
    for data_first in [false, true] {
        let mut dispatch = DispatchPhase::new();
        assert!(dispatch.start_writing());
        let (error, data_started) = if data_first {
            let started = dispatch.start_data_write(at(0));
            (dispatch.select_cancellation(NetError::Cancelled), started)
        } else {
            let error = dispatch.select_cancellation(NetError::Cancelled);
            (error, dispatch.start_data_write(at(0)))
        };
        assert_eq!(data_started, data_first);
        assert_eq!(
            error,
            if data_started {
                NetError::DeliveryUnknown
            } else {
                NetError::Cancelled
            }
        );
        assert_eq!(dispatch.data_write_started(), data_started);
        assert!(!dispatch.start_data_write(at(0)));
        assert_eq!(
            dispatch.record_terminal_error(NetError::EngineDropped),
            error
        );
        assert_eq!(dispatch.selected_error(), Some(error));
    }
}

#[test]
fn selected_termination_reason_outlives_the_writer_without_retaining_pending_cleanup() {
    let mut registration = DispatchPhase::new().cancellation_handle();
    assert_eq!(
        registration.select_cancellation(NetError::TimeoutError),
        NetError::TimeoutError
    );
    drop(registration.writer_dropped());
    assert!(registration.request.is_none());
    assert_eq!(registration.selected_error(), Some(NetError::TimeoutError));
    assert_eq!(
        registration.record_terminal_error(NetError::Cancelled),
        NetError::TimeoutError
    );
}

#[test]
fn a_handle_without_a_writer_records_what_is_requested() {
    let mut dispatch = DispatchPhase::new();
    assert!(dispatch.start_writing());
    assert!(dispatch.start_data_write(at(0)));
    let mut handle = dispatch.cancellation_handle();
    assert_eq!(handle.selected_error(), None);
    let request = handle.writer_dropped().unwrap();
    assert!(request.data_write_started());
    assert_eq!(
        handle.select_cancellation(NetError::Cancelled),
        NetError::Cancelled
    );
    assert_eq!(
        handle.select_cancellation(NetError::TimeoutError),
        NetError::Cancelled
    );
}

#[test]
fn deferred_write_completion_releases_capacity_before_every_receipt_outcome() {
    for result in [Some(Ok(())), Some(Err(NetError::TimeoutError)), None] {
        let mut deferred = DeferredWriteCompletion {
            receipt_open: true,
            holds_capacity: true,
            fallback_error: NetError::DeliveryUnknown,
        };
        let receipt = match result {
            Some(result) => deferred.finish(result),
            None => deferred.abandon(),
        };
        assert!(!deferred.holds_capacity);
        assert_eq!(
            receipt,
            Some(match result {
                Some(result) => result,
                None => Err(NetError::DeliveryUnknown),
            })
        );
        assert_eq!(deferred.abandon(), None);
    }
}

#[test]
fn in_flight_cancellation_freezes_io_even_when_retirement_binding_arrives_late() {
    for bind_first in [false, true] {
        let mut dispatch = DispatchPhase::new();
        assert!(dispatch.start_writing());
        assert!(dispatch.start_data_write(at(0)));
        if bind_first {
            dispatch.bind_write_retirement();
        }
        assert_eq!(
            dispatch.select_cancellation(NetError::Cancelled),
            NetError::DeliveryUnknown
        );
        if !bind_first {
            dispatch.bind_write_retirement();
        }
        assert!(dispatch.write_retirement.retired);
    }
    let mut dispatch = DispatchPhase::new();
    dispatch.prior_unknown = true;
    assert!(dispatch.start_writing());
    dispatch.bind_write_retirement();
    assert_eq!(
        dispatch.select_cancellation(NetError::Cancelled),
        NetError::DeliveryUnknown
    );
    assert!(
        !dispatch.write_retirement.retired,
        "historical uncertainty must not retire an unused new connection"
    );
}

#[test]
fn registration_deadline_blocks_data_admission_without_a_timer_poll() {
    for prior_unknown in [false, true] {
        let mut dispatch = DispatchPhase::new();
        dispatch.bind_write_retirement();
        dispatch.prior_unknown = prior_unknown;
        dispatch.set_response_deadline(Some(at(2)));
        assert!(dispatch.start_writing());
        assert!(!dispatch.start_data_write(at(2)));
        assert!(!dispatch.data_write_started());
        assert_eq!(
            dispatch.selected_error(),
            Some(if prior_unknown {
                NetError::DeliveryUnknown
            } else {
                NetError::TimeoutError
            })
        );
        assert!(!dispatch.write_retirement.retired);
    }
}

#[test]
fn registration_deadline_blocks_late_flush_commit_without_a_timer_poll() {
    for from_registration in [false, true] {
        let mut dispatch = DispatchPhase::new();
        dispatch.bind_write_retirement();
        if from_registration {
            dispatch.set_response_deadline(Some(at(2)));
        }
        assert!(dispatch.start_writing());
        assert!(dispatch.start_data_write(at(0)));
        assert_eq!(
            dispatch.commit(at(2)),
            !from_registration,
            "late flush committed after the registration deadline"
        );
        assert_eq!(dispatch.write_retirement.retired, from_registration);
        assert_eq!(
            dispatch.selected_error(),
            if from_registration {
                Some(NetError::DeliveryUnknown)
            } else {
                None
            }
        );
    }
}

#[test]
fn unknown_dispatch_phase_reports_an_error_and_preserves_the_state() {
    let mut dispatch = DispatchPhase::new();
    dispatch.phase = u8::MAX;
    assert_eq!(dispatch.cancel(), DispatchCancellation::AlreadyResolved);
    assert_eq!(dispatch.phase, u8::MAX);
}

#[test]
fn forced_io_abort_preserves_in_flight_delivery_unknown() {
    let lanes = capacity_lanes(WebSocketTaskEventOptions::new(1, 2048)).unwrap();
    let mut observation = TaskObservation::new(
        1,
        1,
        None,
        vec![1u8; 1024],
        false,
        None,
        lanes.try_reserve(1024, false).unwrap(),
    );
    observation.mark_writing(7);
    observation.set_cause(WebSocketTaskEndCause::Shutdown);
    let mut request = QueuedRequest {
        pending_token: None,
        priority: 1,
        sequence: 1,
        attempt: 0,
        prior_delivery_unknown: false,
        receipt_open: true,
        holds_capacity: true,
        dispatch_phase: DispatchPhase::new(),
        observation: Some(observation),
    };
    request.dispatch_phase.bind_write_retirement();
    assert!(request.dispatch_phase.start_writing());
    assert!(request.dispatch_phase.start_data_write(at(0)));

    let end = request.abandon(false, GONE);
    assert_eq!(end.receipt, Some(Err(NetError::DeliveryUnknown)));
    let event = end.notification.unwrap().event;
    assert_eq!(event.result, Err(NetError::DeliveryUnknown));
    assert_eq!(event.delivery, WebSocketTaskDelivery::Unknown);
    assert_eq!(event.phase, WebSocketTaskPhase::Writing);
    assert_eq!(event.cause, WebSocketTaskEndCause::Shutdown);
    assert_eq!(event.source, vec![1u8; 1024]);
    assert!(request.dispatch_phase.write_retirement.retired);
    let again = request.abandon(false, GONE);
    assert_eq!(again.receipt, None);
    assert!(again.notification.is_none(), "forced abort notified twice");
}

#[test]
fn queued_completion_reports_write_failure_and_cleans_pending() {
    let mut request = queued(Some(3));
    request
        .dispatch_phase
        .set_pending_cleanup("queued-write-error".to_string(), 3)
        .unwrap();
    assert!(request.dispatch_phase.start_writing());
    let end = request.complete(Err(NetError::NetworkError), GONE);
    assert_eq!(end.receipt, Some(Err(NetError::NetworkError)));
    assert!(request.dispatch_phase.pending_cleanup.is_none());
    assert!(!request.holds_capacity);
}

#[test]
fn a_response_that_came_first_proves_the_delivery() {
    let mut request = queued(Some(3));
    request
        .dispatch_phase
        .set_pending_cleanup("claimed".to_string(), 3)
        .unwrap();
    let end = request.complete(
        Err(NetError::NetworkError),
        PendingOutcome {
            removed: false,
            claimed: true,
        },
    );
    assert_eq!(end.receipt, Some(Ok(())));
    // The response itself ends the observation.
    assert!(end.notification.is_none());
}

#[test]
fn a_written_message_without_a_response_is_over() {
    let mut request = queued(None);
    let end = request.complete(Ok(()), GONE);
    assert_eq!(end.receipt, Some(Ok(())));
    let event = end.notification.unwrap().event;
    assert_eq!(event.result, Ok(WebSocketTaskSuccess::Written));
    assert_eq!(event.cause, WebSocketTaskEndCause::Completed);
}

#[test]
fn an_uncertain_attempt_is_remembered_by_the_final_error() {
    let mut request = queued(None);
    request.remember_delivery_error(NetError::NetworkError);
    assert_eq!(
        request.terminal_error(NetError::TimeoutError),
        NetError::TimeoutError
    );
    request.remember_delivery_error(NetError::DeliveryUnknown);
    assert_eq!(
        request.terminal_error(NetError::TimeoutError),
        NetError::DeliveryUnknown
    );
    let end = request.complete(Err(NetError::TimeoutError), GONE);
    assert_eq!(end.receipt, Some(Err(NetError::DeliveryUnknown)));
    assert_eq!(
        end.notification.unwrap().event.result,
        Err(NetError::DeliveryUnknown)
    );
}

#[test]
fn the_sender_gets_the_error_that_the_listener_was_told() {
    let mut request = queued(None);
    let mut task = request.observation.take().unwrap();
    task.finish(Err(NetError::Cancelled));
    request.observation = Some(task);
    let end = request.complete(Err(NetError::NetworkError), GONE);
    assert_eq!(end.receipt, Some(Err(NetError::Cancelled)));
    assert!(end.notification.is_none());
}

#[test]
fn dropped_requests_tell_how_far_they_came() {
    let mut waiting = queued(None);
    assert_eq!(
        waiting.abandon(false, GONE).receipt,
        Some(Err(NetError::EngineDropped))
    );
    let mut cancelled = queued(None);
    cancelled.dispatch_phase.cancel();
    assert_eq!(
        cancelled.abandon(false, GONE).receipt,
        Some(Err(NetError::Cancelled))
    );
    let mut adopted = queued(Some(1));
    adopted
        .dispatch_phase
        .set_pending_cleanup("adopted".to_string(), 1)
        .unwrap();
    assert_eq!(adopted.abandon(true, GONE).receipt, None);
    let mut deferring = queued(Some(1));
    deferring.dispatch_phase.start_writing();
    let mut deferred = deferring.defer_completion().unwrap();
    assert_eq!(deferring.defer_completion(), None);
    assert_eq!(deferred.abandon(), Some(Err(NetError::DeliveryUnknown)));

    let mut taken_over = queued(None);
    taken_over.dispatch_phase.bind_write_retirement();
    assert!(taken_over.dispatch_phase.start_writing());
    let end = taken_over.abandon(false, GONE);
    assert_eq!(end.receipt, Some(Err(NetError::DeliveryUnknown)));
    let event = end.notification.unwrap().event;
    assert_eq!(event.result, Err(NetError::DeliveryUnknown));
    assert_eq!(event.delivery, WebSocketTaskDelivery::Unknown);
    assert!(
        !taken_over.dispatch_phase.write_retirement.retired,
        "no data is in flight on the connection"
    );

    let mut given_back = queued(None);
    assert!(given_back.dispatch_phase.start_writing());
    assert!(given_back.requeue());
    assert_eq!(
        given_back.abandon(false, GONE).receipt,
        Some(Err(NetError::EngineDropped))
    );
    let mut cancelled_writing = queued(None);
    assert!(cancelled_writing.dispatch_phase.start_writing());
    cancelled_writing.dispatch_phase.cancel();
    assert_eq!(
        cancelled_writing.abandon(false, GONE).receipt,
        Some(Err(NetError::Cancelled))
    );
}

#[test]
fn a_request_that_is_given_back_is_observed_as_queued() {
    let mut request = queued(None);
    assert!(!request.requeue(), "only a writer may give a request back");
    assert!(request.dispatch_phase.start_writing());
    let mut task = request.observation.take().unwrap();
    task.mark_writing(3);
    request.observation = Some(task);
    assert!(request.requeue());
    assert_eq!(request.dispatch_phase.phase, DISPATCH_QUEUED);
    let event = request
        .complete(Err(NetError::Cancelled), GONE)
        .notification
        .unwrap()
        .event;
    assert_eq!(event.phase, WebSocketTaskPhase::Queued);
    assert_eq!(event.connection_generation, Some(3));
}

#[test]
fn priorities_go_before_arrival() {
    let mut early = queued(None);
    let mut late = queued(None);
    late.sequence = 2;
    assert!(early.is_before(&late) && !late.is_before(&early));
    late.priority = 2;
    assert!(late.is_before(&early) && !early.is_before(&late));
    assert!(late > early);
    early.priority = 2;
    assert!(!early.is_before(&early));
    assert!(early > late, "the earlier arrival goes first");
    assert!(early != late);
    late.sequence = 1;
    assert!(early == late, "what the requests carry does not count");
    assert_eq!(
        early.partial_cmp(&late),
        Some(std::cmp::Ordering::Equal)
    );
}

#[test]
fn only_registered_requests_can_be_claimed() {
    let mut dispatch = DispatchPhase::new();
    assert!(!dispatch.take_write_response_claim(true));
    dispatch.set_pending_cleanup("claimed".to_string(), 9).unwrap();
    assert!(dispatch.take_write_response_claim(true));
    assert!(!dispatch.take_write_response_claim(false));
}
