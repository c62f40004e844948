use open_net::net_error::NetError;
use open_net::task_event::{
    WebSocketTaskDelivery as Delivery, WebSocketTaskEndCause as Cause,
    WebSocketTaskPhase as Phase, WebSocketTaskSuccess as Success,
};
use futures::FutureExt;
use open_net::permits::AcquireFailure;
use open_net::task_observer::{
    checked_payload_size, confirm_reservation, join_permits, map_try_capacity_error, ReservePoll,
    Room, TaskEventPermit, TaskListenerRegistration, TaskObservation, TaskObserverStore,
    WebSocketTaskEvent, WebSocketTaskEventOptions as EventOptions,
};
use std::future::Future;
use std::pin::Pin;
use std::sync::Arc;

/// A wait for room in the lane of the given urgency.
type Waiting = Pin<Box<dyn Future<Output = Room>>>;

fn wait(registration: &TaskListenerRegistration, size: usize, urgent: bool) -> Waiting {
    let lane = registration.lane(urgent);
    let bytes = checked_payload_size(lane, size).unwrap();
    let tasks = Arc::clone(&lane.tasks);
    let room = Arc::clone(&lane.bytes);
    Box::pin(async move {
        let Ok(task_slot) = tasks.acquire_owned().await else {
            return Room::Closed;
        };
        let Ok(byte_slots) = room.acquire_many_owned(bytes).await else {
            return Room::Closed;
        };
        Room::Found(TaskEventPermit {
            task_slot,
            byte_slots,
        })
    })
}

fn found(waiting: &mut Waiting) -> Room {
    waiting.now_or_never().unwrap_or(Room::Missing)
}

/// How a wait ended; `None` while it goes on.
fn ending(poll: ReservePoll) -> Option<Result<TaskEventPermit, NetError>> {
    match poll {
        ReservePoll::Ready(result) => Some(result),
        ReservePoll::Pending => None,
    }
}

fn refusal(poll: ReservePoll) -> Option<NetError> {
    ending(poll).and_then(|result| result.err())
}

fn registered(options: EventOptions) -> (TaskObserverStore, TaskListenerRegistration) {
    let mut store = TaskObserverStore::new(7);
    let registration = store.prepare_registration(options).unwrap();
    let number = store.register(true).unwrap();
    assert_eq!(store.snapshot(), Ok(Some(number)));
    (store, registration)
}

fn observation(
    registration: &TaskListenerRegistration,
    id: u64,
    urgent: bool,
) -> TaskObservation<&'static str> {
    TaskObservation::new(
        7,
        id,
        Some("request".to_string()),
        "data",
        urgent,
        Some(11),
        registration.try_reserve(4, urgent).unwrap(),
    )
}

fn ended(
    task: &mut TaskObservation<&'static str>,
    result: Result<Success, NetError>,
) -> WebSocketTaskEvent<&'static str> {
    task.finish(result).expect("a first end is notified").event
}

#[test]
fn terminal_event_is_once_and_preserves_source_and_identity() {
    let (_store, registration) = registered(EventOptions::new(2, 16));
    let mut task = observation(&registration, 13, false);
    task.mark_queued();
    task.mark_writing(17);
    task.mark_written();
    task.set_cause(Cause::Disconnect);
    task.set_cause(Cause::Shutdown);
    let event = ended(&mut task, Err(NetError::Cancelled));
    assert!(task.finish(Ok(Success::ResponseClaimed)).is_none());
    assert!(task.is_finished());
    assert_eq!(event.client_instance_id, 7);
    assert_eq!(event.task_id, 13);
    assert_eq!(event.request_id.as_deref(), Some("request"));
    assert_eq!(event.connection_generation, Some(17));
    assert_eq!(event.session_context_id, Some(11));
    assert_eq!(event.phase, Phase::AwaitingResponse);
    assert_eq!(event.delivery, Delivery::Written);
    assert_eq!(event.cause, Cause::Disconnect);
    assert_eq!(event.result, Err(NetError::Cancelled));
    assert_eq!(event.source, "data");
    assert!(task.abandon().is_none());
}

#[test]
fn selected_result_keeps_the_first_terminal_error_before_late_success() {
    let (_store, registration) = registered(EventOptions::new(2, 8));
    let mut task = observation(&registration, 1, false);
    assert_eq!(task.selected_result(), None);
    let event = ended(&mut task, Err(NetError::ConnectionClosed));
    assert!(task.is_finished());
    assert_eq!(
        task.selected_result(),
        Some(Err(NetError::ConnectionClosed))
    );
    assert!(task.finish(Ok(Success::ResponseClaimed)).is_none());
    assert_eq!(
        task.selected_result(),
        Some(Err(NetError::ConnectionClosed))
    );
    assert_eq!(event.result, Err(NetError::ConnectionClosed));

    let mut waiting = observation(&registration, 2, false);
    let event = waiting
        .finish_if_waiting(NetError::Cancelled)
        .unwrap()
        .event;
    assert!(waiting.is_finished());
    assert_eq!(waiting.selected_result(), Some(Err(NetError::Cancelled)));
    assert!(waiting.finish(Err(NetError::EngineDropped)).is_none());
    assert_eq!(waiting.selected_result(), Some(Err(NetError::Cancelled)));
    assert_eq!(event.result, Err(NetError::Cancelled));
}

#[test]
fn ordinary_full_budget_cannot_take_urgent_reservation() {
    let (_store, registration) = registered(EventOptions::new(2, 8).with_urgent_reserve(1, 4));
    let ordinary = registration.try_reserve(4, false).unwrap();
    assert_eq!(
        registration.try_reserve(1, false).err(),
        Some(NetError::QueueFull)
    );
    let urgent = registration.try_reserve(4, true).unwrap();
    assert_eq!(
        registration.try_reserve(1, true).err(),
        Some(NetError::QueueFull)
    );
    assert_eq!(
        registration.try_reserve(5, true).err(),
        Some(NetError::QueueItemTooLarge)
    );
    drop((ordinary, urgent));
    assert!(registration.try_reserve(4, false).is_ok());
    assert!(registration.try_reserve(4, true).is_ok());
}

#[test]
fn no_reservation_shares_capacity_and_failed_byte_reserve_releases_task_slot() {
    let (_store, registration) = registered(EventOptions::new(2, 4));
    let ordinary = registration.try_reserve(4, false).unwrap();
    assert_eq!(
        registration.try_reserve(1, true).err(),
        Some(NetError::QueueFull)
    );
    assert_eq!(registration.ordinary.tasks.available_permits(), 1);
    drop(ordinary);
    let first = registration.try_reserve(2, true).unwrap();
    let second = registration.try_reserve(2, false).unwrap();
    drop((first, second));
}

#[test]
fn cancelled_notification_capacity_waiter_releases_partial_capacity() {
    let (_store, registration) = registered(EventOptions::new(2, 4));
    let blocker = registration.try_reserve(4, false).unwrap();
    let mut waiting = wait(&registration, 1, false);
    assert!(ending(registration.reserve(1, false, false, false, false, found(&mut waiting))).is_none());
    assert_eq!(registration.ordinary.tasks.available_permits(), 0);
    assert_eq!(
        refusal(registration.reserve(1, false, false, true, false, found(&mut waiting))),
        Some(NetError::ConnectionClosed)
    );
    drop(waiting);
    drop(blocker);
    let first = registration.try_reserve(2, false).unwrap();
    let second = registration.try_reserve(2, true).unwrap();
    drop((first, second));
}

#[test]
fn a_wait_holds_the_room_that_it_has_and_keeps_its_turn() {
    let (_store, registration) = registered(EventOptions::new(3, 4));
    let first = registration.try_reserve(1, false).unwrap();
    let mut large = wait(&registration, 4, false);
    assert!(matches!(found(&mut large), Room::Missing));
    assert_eq!(
        registration.try_reserve(1, false).err(),
        Some(NetError::QueueFull),
        "the wait has taken the free bytes"
    );
    let mut small = wait(&registration, 1, false);
    assert!(matches!(found(&mut small), Room::Missing));
    drop(first);
    assert!(matches!(found(&mut small), Room::Missing));
    let permit = match found(&mut large) {
        Room::Found(permit) => permit,
        other => panic!("no room: {other:?}"),
    };
    assert_eq!(permit.byte_slots.num_permits(), 4);
    drop(permit);
    assert!(matches!(found(&mut small), Room::Found(_)));
}

#[test]
fn outcomes_of_both_reservations_decide() {
    let (_store, registration) = registered(EventOptions::new(2, 4));
    let lane = registration.lane(false);
    let slot = || Arc::clone(&lane.tasks).try_acquire_owned().unwrap();
    let bytes = Arc::clone(&lane.bytes).try_acquire_many_owned(3).unwrap();
    let permit = join_permits(slot(), Ok(bytes)).unwrap();
    assert_eq!(permit.task_slot.num_permits(), 1);
    assert_eq!(permit.byte_slots.num_permits(), 3);
    assert_eq!(
        join_permits(slot(), Err(AcquireFailure::NoPermits)).err(),
        Some(NetError::QueueFull)
    );
    assert_eq!(
        join_permits(slot(), Err(AcquireFailure::Closed)).err(),
        Some(NetError::QueueClosed)
    );
    assert_eq!(
        map_try_capacity_error(AcquireFailure::Closed),
        NetError::QueueClosed
    );
    lane.bytes.close();
    assert_eq!(
        registration.try_reserve(1, false).err(),
        Some(NetError::QueueClosed)
    );
    assert_eq!(
        refusal(registration.reserve(1, false, false, false, false, Room::Closed)),
        Some(NetError::QueueClosed)
    );
    assert_eq!(
        refusal(registration.reserve(5, false, true, true, true, Room::Missing)),
        Some(NetError::QueueItemTooLarge)
    );
    assert_eq!(
        confirm_reservation(permit, true, true).err(),
        Some(NetError::Cancelled)
    );
    assert_eq!(lane.tasks.available_permits(), 2);
}

#[test]
fn invalid_notification_limits_fail_without_starting_a_thread() {
    let store = TaskObserverStore::new(1);
    for options in [
        EventOptions::new(0, 1),
        EventOptions::new(1, 0),
        EventOptions::new(usize::MAX, 1),
        EventOptions::new(1, usize::MAX),
        EventOptions::new(2, 8).with_urgent_reserve(1, 0),
        EventOptions::new(2, 8).with_urgent_reserve(0, 1),
        EventOptions::new(2, 8).with_urgent_reserve(2, 4),
        EventOptions::new(2, 8).with_urgent_reserve(1, 8),
        EventOptions::new(2, 8).with_urgent_reserve(3, 4),
    ] {
        assert_eq!(
            store.prepare_registration(options).err(),
            Some(NetError::ConfigError)
        );
        assert_eq!(store.snapshot(), Ok(None));
    }
    assert_eq!(
        store
            .prepare_registration(EventOptions::new(
                tokio::sync::Semaphore::MAX_PERMITS + 1,
                1
            ))
            .err(),
        Some(NetError::ConfigError)
    );
    assert!(store
        .prepare_registration(EventOptions::new(tokio::sync::Semaphore::MAX_PERMITS, 1))
        .is_ok());
}

#[test]
fn rejected_dispatch_thread_preserves_existing_registration() {
    let (mut store, original) = registered(EventOptions::new(1, 8));
    let current = store.snapshot();
    assert!(store.prepare_registration(EventOptions::new(1, 8)).is_ok());
    assert_eq!(store.register(false), Err(NetError::IOError));
    assert_eq!(store.snapshot(), current);
    let mut task = observation(&original, 1, false);
    assert_eq!(
        ended(&mut task, Ok(Success::Written)).result,
        Ok(Success::Written)
    );
}

#[test]
fn replacement_unregister_and_close_preserve_already_reserved_listeners() {
    let (mut store, original) = registered(EventOptions::new(1, 8));
    let mut old_task = observation(&original, 1, false);
    let replacement = store
        .prepare_registration(EventOptions::new(1, 8))
        .unwrap();
    store.register(true).unwrap();
    let mut new_task = observation(&replacement, 2, true);
    store.unregister();
    assert_eq!(store.snapshot(), Ok(None));
    store.close();
    assert_eq!(store.snapshot(), Err(NetError::EngineDropped));
    assert_eq!(
        store.prepare_registration(EventOptions::new(1, 8)).err(),
        Some(NetError::EngineDropped)
    );
    assert_eq!(store.register(true), Err(NetError::EngineDropped));
    assert_eq!(ended(&mut old_task, Err(NetError::Cancelled)).task_id, 1);
    assert_eq!(ended(&mut new_task, Ok(Success::Written)).task_id, 2);
    assert!(old_task.abandon().is_none());
    assert!(new_task.abandon().is_none());
}

#[test]
fn blocked_callback_keeps_capacity_and_queued_notifications_survive_close() {
    let (mut store, registration) = registered(EventOptions::new(2, 8));
    let mut first = observation(&registration, 1, false);
    let mut second = observation(&registration, 2, true);
    let running = first.finish(Ok(Success::Written)).unwrap();
    assert_eq!(
        registration.try_reserve(1, false).err(),
        Some(NetError::QueueFull)
    );
    let queued = second.finish(Err(NetError::Cancelled)).unwrap();
    store.close();
    assert_eq!(running.event.task_id, 1);
    assert_eq!(queued.event.task_id, 2);
    drop((running, queued));
    assert!(registration.try_reserve(8, false).is_ok());
}

#[test]
fn original_request_lives_until_the_delivered_event_is_released() {
    let (_store, registration) = registered(EventOptions::new(1, 8));
    let request = Arc::new("original-source".to_string());
    let weak = Arc::downgrade(&request);
    let mut task = TaskObservation::new(
        7,
        1,
        Some("original-source".to_string()),
        request,
        false,
        None,
        registration.try_reserve(4, false).unwrap(),
    );
    assert!(weak.upgrade().is_some());
    let dispatched = task.finish(Err(NetError::Cancelled)).unwrap();
    drop(task);
    assert_eq!(dispatched.event.source.as_str(), "original-source");
    assert!(weak.upgrade().is_some());
    drop(dispatched);
    assert!(weak.upgrade().is_none());
}

#[test]
fn delivery_history_and_response_success_keep_their_meaning() {
    let (_store, registration) = registered(EventOptions::new(8, 32));
    for (id, remember_unknown, success, expected_delivery) in [
        (1, false, false, Delivery::NotStarted),
        (2, true, false, Delivery::Unknown),
        (3, true, true, Delivery::ResponseClaimed),
    ] {
        let mut task = observation(&registration, id, false);
        task.mark_writing(9);
        if remember_unknown {
            task.remember_unknown();
        }
        task.mark_requeued();
        task.set_cause(Cause::Shutdown);
        let event = ended(
            &mut task,
            if success {
                Ok(Success::ResponseClaimed)
            } else {
                Err(NetError::Cancelled)
            },
        );
        assert_eq!(event.delivery, expected_delivery);
        assert_eq!(event.phase, Phase::Queued);
        assert_eq!(
            event.cause,
            if success {
                Cause::Completed
            } else {
                Cause::Shutdown
            }
        );
    }
    let mut task = observation(&registration, 4, false);
    assert_eq!(
        ended(&mut task, Err(NetError::DeliveryUnknown)).delivery,
        Delivery::Unknown
    );
}

#[test]
fn waiting_completion_cannot_take_queue_ownership_and_drop_completes_once() {
    let (_store, registration) = registered(EventOptions::new(3, 12));
    let mut waiting = observation(&registration, 1, false);
    let first = waiting
        .finish_if_waiting(NetError::Cancelled)
        .unwrap()
        .event;
    assert!(waiting.is_finished());
    let mut queued = observation(&registration, 2, false);
    queued.mark_queued();
    assert!(queued.finish_if_waiting(NetError::Cancelled).is_none());
    assert!(!queued.is_finished());
    let second = ended(&mut queued, Ok(Success::Written));
    let mut abandoned = observation(&registration, 3, false);
    let third = abandoned.abandon().unwrap().event;
    assert!(waiting.abandon().is_none());
    assert!(queued.abandon().is_none());
    assert_eq!(first.task_id, 1);
    assert_eq!(first.phase, Phase::WaitingForCapacity);
    assert_eq!(second.task_id, 2);
    assert_eq!(second.result, Ok(Success::Written));
    assert_eq!(third.task_id, 3);
    assert_eq!(third.result, Err(NetError::EngineDropped));
    assert_eq!(third.cause, Cause::EngineDropped);
}

#[test]
fn concurrent_finish_has_one_authoritative_event() {
    let (_store, registration) = registered(EventOptions::new(1, 8));
    let mut task = observation(&registration, 1, false);
    let mut events = 0;
    for result in [
        Ok(Success::Written),
        Ok(Success::ResponseClaimed),
        Err(NetError::Cancelled),
        Err(NetError::DeliveryUnknown),
    ] {
        if let Some(dispatched) = task.finish(result) {
            assert_eq!(dispatched.event.task_id, 1);
            events += 1;
        }
    }
    assert!(task.is_finished());
    assert_eq!(events, 1);
}

#[test]
fn notification_capacity_deadline_and_shutdown_have_explicit_results() {
    let (_store, registration) = registered(EventOptions::new(1, 4));
    let blocker = registration.try_reserve(4, false).unwrap();
    let mut waiting = wait(&registration, 1, false);
    assert!(ending(registration.reserve(1, false, false, false, false, found(&mut waiting))).is_none());
    assert_eq!(
        refusal(registration.reserve(1, false, false, false, true, found(&mut waiting))),
        Some(NetError::TimeoutError)
    );
    drop(waiting);
    drop(blocker);
    let mut late = wait(&registration, 4, false);
    assert_eq!(
        refusal(registration.reserve(4, false, true, false, false, found(&mut late))),
        Some(NetError::Cancelled)
    );
    drop(late);
    assert!(registration.try_reserve(4, false).is_ok());
}

#[test]
fn an_empty_payload_takes_one_byte() {
    let (_store, registration) = registered(EventOptions::new(4, 2));
    let first = registration.try_reserve(0, false).unwrap();
    let second = registration.try_reserve(0, false).unwrap();
    assert_eq!(first.byte_slots.num_permits(), 1);
    assert_eq!(second.byte_slots.num_permits(), 1);
    assert_eq!(
        registration.try_reserve(0, false).err(),
        Some(NetError::QueueFull)
    );
}

#[test]
fn deferred_network_failure_keeps_its_cause_when_shutdown_arrives_later() {
    let (_store, registration) = registered(EventOptions::new(2, 64));
    let mut task = observation(&registration, 43, false);
    task.mark_queued();
    task.mark_writing(53);
    task.mark_written();
    // The failure is chosen first and ends the task after the grace.
    task.set_cause(Cause::Failure);
    task.set_cause(Cause::Shutdown);
    let event = ended(&mut task, Err(NetError::TimeoutError));
    assert_eq!(event.result, Err(NetError::TimeoutError));
    assert_eq!(event.delivery, Delivery::Written);
    assert_eq!(event.cause, Cause::Failure);
    assert!(task.finish(Err(NetError::Cancelled)).is_none());
}

#[test]
fn shutdown_deferred_before_network_failure_keeps_its_original_cause() {
    let (_store, registration) = registered(EventOptions::new(2, 64));
    let mut task = observation(&registration, 43, false);
    task.mark_queued();
    task.mark_writing(53);
    task.mark_written();
    task.set_cause(Cause::Shutdown);
    task.set_cause(Cause::Failure);
    let event = ended(&mut task, Err(NetError::Cancelled));
    assert_eq!(event.result, Err(NetError::Cancelled));
    assert_eq!(event.cause, Cause::Shutdown);
    assert!(task.finish(Err(NetError::TimeoutError)).is_none());
}

#[test]
fn a_wait_that_is_given_up_returns_its_notification() {
    let (_store, registration) = registered(EventOptions::new(2, 4));
    let blocker = registration.try_reserve(4, false).unwrap();
    let mut waiting = wait(&registration, 1, false);
    assert!(matches!(found(&mut waiting), Room::Missing));
    assert_eq!(registration.ordinary.tasks.available_permits(), 0);
    drop(waiting);
    assert_eq!(registration.ordinary.tasks.available_permits(), 1);
    drop(blocker);
    assert_eq!(registration.ordinary.tasks.available_permits(), 2);
    assert_eq!(registration.ordinary.bytes.available_permits(), 4);
}

#[test]
fn room_is_confirmed_unless_a_cancellation_came_with_it() {
    let (_store, registration) = registered(EventOptions::new(1, 4));
    let mut waiting = wait(&registration, 2, false);
    let permit = ending(registration.reserve(2, false, false, false, false, found(&mut waiting)))
        .unwrap()
        .unwrap();
    let permit = confirm_reservation(permit, false, false).unwrap();
    assert_eq!(permit.byte_slots.num_permits(), 2);
    assert_eq!(
        confirm_reservation(permit, false, true).err(),
        Some(NetError::ConnectionClosed)
    );
    assert!(registration.try_reserve(4, false).is_ok());
}
