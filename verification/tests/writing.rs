use open_net::clock::{Duration, Instant};
use open_net::ws_write::{
    divide_message, elapsed_deadline, interrupt_write, DataFrame, InFlightInterruption,
    RequestAction, RequestRequeue,
};
use open_net::NetError;

fn at(secs: u64) -> Instant {
    Instant { nanos: 0 }
        .checked_add(Duration::from_secs(secs))
        .unwrap()
}

fn check_in_flight_continuation(interruption: InFlightInterruption) {
    let frames = divide_message(b"abcdefghi".len(), Some(3));
    for (index, expected) in [b"abc".as_slice(), b"def".as_slice()].into_iter().enumerate() {
        let frame = frames[index];
        assert!(!frame.is_final);
        assert_eq!(frame.continuation, index > 0);
        assert_eq!(&b"abcdefghi"[frame.start..frame.end], expected);
    }
    let failure = interrupt_write(interruption);
    assert_eq!(failure.request_error, NetError::DeliveryUnknown);
    assert_eq!(
        failure.connection_action,
        match interruption {
            InFlightInterruption::ConnectionCancelled => RequestAction::Stop,
            _ => RequestAction::StopWithError(NetError::DeliveryUnknown),
        }
    );
    assert_eq!(
        failure.requeue,
        match interruption {
            InFlightInterruption::DispatchCancelled | InFlightInterruption::RequestDeadline => {
                RequestRequeue::Never
            }
            _ => RequestRequeue::IdempotentRetry,
        }
    );
}

#[test]
fn dispatch_cancel_during_continuation_flush_never_requeues() {
    check_in_flight_continuation(InFlightInterruption::DispatchCancelled);
}

#[test]
fn connection_cancel_during_continuation_flush_requires_idempotent_retry() {
    check_in_flight_continuation(InFlightInterruption::ConnectionCancelled);
}

#[test]
fn frame_timeout_during_continuation_flush_requires_idempotent_retry() {
    let interruption = elapsed_deadline(at(5), at(30), at(5)).unwrap();
    assert_eq!(interruption, InFlightInterruption::FrameTimeout);
    check_in_flight_continuation(interruption);
}

#[test]
fn request_deadline_during_continuation_flush_never_requeues() {
    let interruption = elapsed_deadline(at(5), at(5), at(30)).unwrap();
    assert_eq!(interruption, InFlightInterruption::RequestDeadline);
    check_in_flight_continuation(interruption);
}

#[test]
fn equal_deadlines_during_continuation_flush_keep_request_deadline_policy() {
    assert_eq!(elapsed_deadline(at(4), at(5), at(5)), None);
    let interruption = elapsed_deadline(at(5), at(5), at(5)).unwrap();
    assert_eq!(interruption, InFlightInterruption::RequestDeadline);
    check_in_flight_continuation(interruption);
}

#[test]
fn io_error_during_continuation_flush_requires_idempotent_retry() {
    check_in_flight_continuation(InFlightInterruption::IoError);
}

#[test]
fn frames_cover_messages_of_every_length() {
    let frame = |start, end, continuation, is_final| DataFrame {
        start,
        end,
        continuation,
        is_final,
    };
    assert_eq!(divide_message(0, Some(3)), vec![frame(0, 0, false, true)]);
    assert_eq!(divide_message(0, None), vec![frame(0, 0, false, true)]);
    assert_eq!(divide_message(9, None), vec![frame(0, 9, false, true)]);
    assert_eq!(divide_message(3, Some(3)), vec![frame(0, 3, false, true)]);
    assert_eq!(
        divide_message(7, Some(3)),
        vec![
            frame(0, 3, false, false),
            frame(3, 6, true, false),
            frame(6, 7, true, true),
        ]
    );
}
