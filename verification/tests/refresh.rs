use futures::FutureExt;
use open_net::refresh_trigger::{
    channel, request_refresh_or_stop, trigger_outcome, PlatformNetworkMonitor, RefreshTrigger,
    RefreshTriggerEvent, RefreshTriggerReceiver, RefreshWorkOutcome, Submission, TriggerOutcome,
};
use std::sync::{Arc, Barrier};

fn assert_send_sync<T: Send + Sync>() {}

/// What the monitor receives now; `None` while it would wait.
fn recv(receiver: &mut RefreshTriggerReceiver) -> Option<RefreshTriggerEvent> {
    if receiver.closed {
        return receiver.recv(None);
    }
    let message = receiver.receiver.recv().now_or_never()?;
    receiver.recv(message)
}

fn changed(monitor: &mut PlatformNetworkMonitor) -> Option<bool> {
    let message = match monitor.changes.as_mut() {
        Some(changes) => changes.receiver.recv().now_or_never()?,
        None => None,
    };
    monitor.changed(message)
}

#[test]
fn native_trigger_handle_is_send_and_sync() {
    assert_send_sync::<RefreshTrigger>();
}

#[test]
fn stop_wins_when_stop_and_refresh_are_both_ready() {
    assert_eq!(
        request_refresh_or_stop::<()>(true, Some(Ok(()))),
        Some(RefreshWorkOutcome::Stopped)
    );
}

#[test]
fn stop_cancels_refresh_work_that_is_already_waiting() {
    assert_eq!(request_refresh_or_stop::<()>(false, None), None);
    assert_eq!(
        request_refresh_or_stop::<()>(true, None),
        Some(RefreshWorkOutcome::Stopped)
    );
}

#[test]
fn refresh_result_is_preserved_when_no_stop_arrives() {
    assert_eq!(
        request_refresh_or_stop::<()>(false, Some(Ok(()))),
        Some(RefreshWorkOutcome::Requested)
    );
    assert_eq!(
        request_refresh_or_stop::<()>(false, Some(Err(()))),
        Some(RefreshWorkOutcome::RequestFailed)
    );
}

#[test]
fn full_channel_coalesces_without_losing_the_pending_request() {
    let (trigger, mut receiver) = channel();
    assert_eq!(trigger.notify(), TriggerOutcome::Queued);
    assert_eq!(trigger.notify(), TriggerOutcome::Coalesced);

    assert_eq!(recv(&mut receiver), Some(RefreshTriggerEvent::Notified));
}

#[test]
fn update_during_refresh_leaves_one_more_request_pending() {
    let (trigger, mut receiver) = channel();
    assert_eq!(trigger.notify(), TriggerOutcome::Queued);
    assert_eq!(recv(&mut receiver), Some(RefreshTriggerEvent::Notified));

    assert_eq!(request_refresh_or_stop::<()>(false, None), None);
    assert_eq!(trigger.notify(), TriggerOutcome::Queued);
    assert_eq!(trigger.notify(), TriggerOutcome::Coalesced);
    assert_eq!(
        request_refresh_or_stop::<()>(false, Some(Ok(()))),
        Some(RefreshWorkOutcome::Requested)
    );

    assert_eq!(recv(&mut receiver), Some(RefreshTriggerEvent::Notified));
}

#[test]
fn cancelling_an_empty_recv_does_not_consume_the_next_update() {
    let (trigger, mut receiver) = channel();
    assert_eq!(recv(&mut receiver), None, "an empty receiver must remain pending");

    assert_eq!(trigger.notify(), TriggerOutcome::Queued);
    assert_eq!(recv(&mut receiver), Some(RefreshTriggerEvent::Notified));
}

#[test]
fn cancelling_refresh_work_cannot_poison_the_receiver() {
    let (trigger, mut receiver) = channel();
    assert_eq!(trigger.notify(), TriggerOutcome::Queued);
    assert_eq!(recv(&mut receiver), Some(RefreshTriggerEvent::Notified));

    assert_eq!(request_refresh_or_stop::<()>(false, None), None);

    assert_eq!(trigger.notify(), TriggerOutcome::Queued);
    assert_eq!(recv(&mut receiver), Some(RefreshTriggerEvent::Notified));
}

#[test]
fn sender_close_is_reported_once_then_the_receiver_is_fused() {
    let (trigger, mut receiver) = channel();
    drop(trigger);

    assert_eq!(recv(&mut receiver), Some(RefreshTriggerEvent::ChannelClosed));
    assert_eq!(
        recv(&mut receiver),
        None,
        "a fused receiver must not busy-loop after closure"
    );
}

#[test]
fn queued_update_is_delivered_before_sender_close() {
    let (trigger, mut receiver) = channel();
    assert_eq!(trigger.notify(), TriggerOutcome::Queued);
    drop(trigger);

    assert_eq!(recv(&mut receiver), Some(RefreshTriggerEvent::Notified));
    assert_eq!(recv(&mut receiver), Some(RefreshTriggerEvent::ChannelClosed));
}

#[test]
fn concurrent_native_updates_leave_exactly_one_request_pending() {
    const PRODUCERS: usize = 32;

    let (trigger, _receiver) = channel();
    let barrier = Arc::new(Barrier::new(PRODUCERS));
    let runtime = tokio::runtime::Builder::new_current_thread()
        .build()
        .unwrap();
    let workers = (0..PRODUCERS)
        .map(|_| {
            let trigger = trigger.clone();
            let barrier = Arc::clone(&barrier);
            runtime.spawn_blocking(move || {
                barrier.wait();
                trigger.notify()
            })
        })
        .collect::<Vec<_>>();
    let outcomes = workers
        .into_iter()
        .map(|worker| runtime.block_on(worker).unwrap())
        .collect::<Vec<_>>();
    assert_eq!(
        outcomes
            .iter()
            .filter(|&&outcome| outcome == TriggerOutcome::Queued)
            .count(),
        1
    );
    assert_eq!(
        outcomes
            .iter()
            .filter(|&&outcome| outcome == TriggerOutcome::Coalesced)
            .count(),
        PRODUCERS - 1
    );
}

#[test]
fn receiver_close_turns_late_native_updates_into_a_safe_noop() {
    let (trigger, receiver) = channel();
    drop(receiver);

    assert_eq!(trigger.notify(), TriggerOutcome::Closed);
    assert_eq!(trigger.notify(), TriggerOutcome::Closed);
}

#[test]
fn callbacks_after_receiver_closes_are_safe_during_start_and_stop() {
    let (trigger, receiver) = channel();
    drop(receiver);
    for _ in 0..65 {
        assert_eq!(trigger.notify(), TriggerOutcome::Closed);
    }
    drop(trigger);
}

#[test]
fn failed_native_start_disables_source_and_reports_closure_only_once() {
    let (trigger, changes) = channel();
    drop(trigger);
    let mut monitor = PlatformNetworkMonitor::from_native(false, changes);
    assert!(!monitor.native, "failed native source retained a monitor");

    assert_eq!(changed(&mut monitor), Some(false));
    assert_eq!(changed(&mut monitor), None);
    assert_eq!(changed(&mut monitor), None);
}

#[test]
fn failed_native_start_preserves_hint_queued_before_failure() {
    let (trigger, changes) = channel();
    assert_eq!(trigger.notify(), TriggerOutcome::Queued);
    drop(trigger);
    let mut monitor = PlatformNetworkMonitor::from_native(false, changes);
    assert!(!monitor.native, "failed native source retained a monitor");

    assert_eq!(changed(&mut monitor), Some(true));
    assert_eq!(changed(&mut monitor), Some(false));
    assert_eq!(changed(&mut monitor), None);
}

#[test]
fn non_macos_monitor_never_manufactures_a_change() {
    let mut monitor = PlatformNetworkMonitor::without_native();
    assert_eq!(
        changed(&mut monitor),
        None,
        "a platform without a source must remain pending"
    );
    assert_eq!(monitor.changed(Some(())), None);
}

#[test]
fn what_becomes_of_a_hint_follows_from_the_channel() {
    assert_eq!(
        trigger_outcome(Submission::Accepted),
        TriggerOutcome::Queued
    );
    assert_eq!(
        trigger_outcome(Submission::Full),
        TriggerOutcome::Coalesced
    );
    assert_eq!(trigger_outcome(Submission::Closed), TriggerOutcome::Closed);
    let (trigger, mut receiver) = channel();
    assert_eq!(trigger.sender.max_capacity(), 1);
    assert_eq!(
        receiver.recv(Some(())),
        Some(RefreshTriggerEvent::Notified)
    );
    assert_eq!(
        receiver.recv(None),
        Some(RefreshTriggerEvent::ChannelClosed)
    );
    assert_eq!(receiver.recv(None), None);
    assert_eq!(receiver.recv(Some(())), None);
}
