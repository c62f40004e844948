//! Writing one message: its frames, and what an interruption means for it.
use vstd::prelude::*;

use crate::clock::Instant;
use crate::net_error::NetError;

verus! {

/// One frame of a message.
#[derive(Clone, Copy, Debug, PartialEq, Eq, Structural)]
pub struct DataFrame {
    /// First byte of the message in the frame.
    pub start: usize,
    /// End of the message's bytes in the frame.
    pub end: usize,
    /// Whether the frame continues an earlier one.
    pub continuation: bool,
    /// Whether the frame is the last.
    pub is_final: bool,
}

/// The frames of a message from a position on.
pub open spec fn frames_from(len: usize, limit: usize, start: usize) -> Seq<DataFrame>
    decreases len - start,
{
    if limit == 0 || start + limit >= len {
        seq![DataFrame { start, end: len, continuation: start > 0, is_final: true }]
    } else {
        let end = (start + limit) as usize;
        seq![DataFrame { start, end, continuation: start > 0, is_final: false }] + frames_from(
            len,
            limit,
            end,
        )
    }
}

/// The frames of a message. Without a limit there is one.
pub open spec fn message_frames(len: usize, limit: Option<usize>) -> Seq<DataFrame> {
    match limit {
        Some(limit) => frames_from(len, limit, 0),
        None => frames_from(len, len, 0),
    }
}

/// Divides a message into frames whose payload does not exceed the limit. An
/// empty message is one empty frame.
pub fn divide_message(len: usize, limit: Option<usize>) -> (frames: Vec<DataFrame>)
    requires
        limit matches Some(limit) ==> limit > 0,
    ensures
        frames@ == message_frames(len, limit),
{
    let size: usize = match limit {
        Some(limit) => limit,
        None => len,
    };
    let mut frames: Vec<DataFrame> = Vec::new();
    let mut start: usize = 0;
    while size > 0 && len - start > size
        invariant
            start <= len,
            start < len || start == 0,
            frames@ + frames_from(len, size, start) == frames_from(len, size, 0),
        decreases len - start,
    {
        let end: usize = start + size;
        let frame = DataFrame { start, end, continuation: start > 0, is_final: false };
        let ghost before = frames@;
        frames.push(frame);
        proof {
            assert(frames_from(len, size, start) == seq![frame] + frames_from(len, size, end));
            assert(frames@ + frames_from(len, size, end) =~= before + frames_from(
                len,
                size,
                start,
            ));
        }
        start = end;
    }
    let last = DataFrame { start, end: len, continuation: start > 0, is_final: true };
    let ghost before = frames@;
    frames.push(last);
    proof {
        assert(frames_from(len, size, start) == seq![last]);
        assert(frames@ =~= before + frames_from(len, size, start));
    }
    frames
}

/// What stops a frame that is being written.
#[derive(Clone, Copy, Debug, PartialEq, Eq, Structural)]
pub enum InFlightInterruption {
    /// The sender cancelled the message.
    DispatchCancelled,
    /// The connection is being stopped.
    ConnectionCancelled,
    /// The frame took too long.
    FrameTimeout,
    /// The message took too long.
    RequestDeadline,
    /// Writing failed.
    IoError,
}

/// What happens to the connection.
#[derive(Clone, Copy, Debug, PartialEq, Eq, Structural)]
pub enum RequestAction {
    /// The writer stops; somebody else reports why.
    Stop,
    /// The writer stops and reports the error.
    StopWithError(NetError),
}

/// Whether the message is written again.
#[derive(Clone, Copy, Debug, PartialEq, Eq, Structural)]
pub enum RequestRequeue {
    /// It is not.
    Never,
    /// It is if it may arrive twice.
    IdempotentRetry,
}

/// The end of an attempt to write a message.
#[derive(Clone, Copy, Debug, PartialEq, Eq, Structural)]
pub struct WriteFailure {
    /// The error of the attempt.
    pub request_error: NetError,
    /// What happens to the connection.
    pub connection_action: RequestAction,
    /// Whether the message is written again.
    pub requeue: RequestRequeue,
}

/// The interruption that has come by `now`, if one has.
pub open spec fn lateness(
    now: Instant,
    request_deadline: Instant,
    frame_deadline: Instant,
) -> Option<InFlightInterruption> {
    if now.reached(request_deadline) {
        Some(InFlightInterruption::RequestDeadline)
    } else if now.reached(frame_deadline) {
        Some(InFlightInterruption::FrameTimeout)
    } else {
        None
    }
}

/// The interruption that has come by `now`, if one has. Where both times end
/// together it is the message that took too long.
pub fn elapsed_deadline(now: Instant, request_deadline: Instant, frame_deadline: Instant) -> (
    interruption: Option<InFlightInterruption>)
    ensures
        interruption == lateness(now, request_deadline, frame_deadline),
{
    if now.has_reached(request_deadline) {
        Some(InFlightInterruption::RequestDeadline)
    } else if now.has_reached(frame_deadline) {
        Some(InFlightInterruption::FrameTimeout)
    } else {
        None
    }
}

/// The end of a message that is interrupted while one of its frames is being
/// written.
pub open spec fn interrupted(interruption: InFlightInterruption) -> WriteFailure {
    WriteFailure {
        request_error: NetError::DeliveryUnknown,
        connection_action: if interruption is ConnectionCancelled {
            RequestAction::Stop
        } else {
            RequestAction::StopWithError(NetError::DeliveryUnknown)
        },
        requeue: if interruption is DispatchCancelled || interruption is RequestDeadline {
            RequestRequeue::Never
        } else {
            RequestRequeue::IdempotentRetry
        },
    }
}

/// Decides the end of a message that is interrupted while one of its frames is
/// being written. Its delivery is unknown and the connection cannot be used
/// any more; a message that its sender gave up, or that took too long, is not
/// written again.
pub fn interrupt_write(interruption: InFlightInterruption) -> (failure: WriteFailure)
    ensures
        failure == interrupted(interruption),
{
    let connection_action = match interruption {
        InFlightInterruption::ConnectionCancelled => RequestAction::Stop,
        _ => RequestAction::StopWithError(NetError::DeliveryUnknown),
    };
    let requeue = match interruption {
        InFlightInterruption::DispatchCancelled => RequestRequeue::Never,
        InFlightInterruption::RequestDeadline => RequestRequeue::Never,
        _ => RequestRequeue::IdempotentRetry,
    };
    WriteFailure { request_error: NetError::DeliveryUnknown, connection_action, requeue }
}

/// The bytes of frames, one after another.
pub open spec fn framed_bytes(message: Seq<u8>, frames: Seq<DataFrame>) -> Seq<u8>
    decreases frames.len(),
{
    if frames.len() == 0 {
        Seq::empty()
    } else {
        message.subrange(frames[0].start as int, frames[0].end as int) + framed_bytes(
            message,
            frames.drop_first(),
        )
    }
}

/// Frames hold the message exactly, in order, whatever their limit; only the
/// first opens it, only the last ends it, and none exceeds the limit.
pub proof fn frames_hold_the_message(message: Seq<u8>, limit: usize, start: usize)
    requires
        limit > 0,
        start <= message.len() <= usize::MAX,
    ensures
        ({
            let frames = frames_from(message.len() as usize, limit, start);
            &&& frames.len() > 0
            &&& framed_bytes(message, frames) == message.subrange(
                start as int,
                message.len() as int,
            )
            &&& frames[0].start == start
            &&& forall|i: int|
                0 <= i < frames.len() ==> {
                    &&& (#[trigger] frames[i]).is_final == (i == frames.len() - 1)
                    &&& frames[i].continuation == (i > 0 || start > 0)
                    &&& frames[i].start <= frames[i].end <= message.len()
                    &&& frames[i].end - frames[i].start <= limit
                }
        }),
    decreases message.len() - start,
{
    let len = message.len() as usize;
    let frames = frames_from(len, limit, start);
    if start + limit >= len {
        assert(frames.drop_first() =~= Seq::<DataFrame>::empty());
        assert(framed_bytes(message, frames.drop_first()) =~= Seq::<u8>::empty());
        assert(framed_bytes(message, frames) =~= message.subrange(start as int, len as int));
    } else {
        let end = (start + limit) as usize;
        frames_hold_the_message(message, limit, end);
        let rest = frames_from(len, limit, end);
        assert(frames.drop_first() =~= rest);
        assert(framed_bytes(message, frames) =~= message.subrange(start as int, len as int));
        assert forall|i: int| 0 <= i < frames.len() implies {
            &&& (#[trigger] frames[i]).is_final == (i == frames.len() - 1)
            &&& frames[i].continuation == (i > 0 || start > 0)
            &&& frames[i].start <= frames[i].end <= message.len()
            &&& frames[i].end - frames[i].start <= limit
        } by {
            if i > 0 {
                assert(frames[i] == rest[i - 1]);
            }
        }
    }
}

/// No message whose delivery may have happened is written again unless it may
/// arrive twice, and none is that its sender gave up.
pub proof fn interrupted_messages_are_uncertain(interruption: InFlightInterruption)
    ensures
        interrupted(interruption).request_error is DeliveryUnknown,
        interruption is DispatchCancelled || interruption is RequestDeadline <==> interrupted(
            interruption,
        ).requeue is Never,
{
}

/// Messages are divided no further than the limit asks for: every frame but the
/// last is full, and each begins where the one before it ended.
pub proof fn frames_are_full_and_adjacent(len: usize, limit: usize, start: usize)
    requires
        limit > 0,
        start <= len,
    ensures
        ({
            let frames = frames_from(len, limit, start);
            &&& frames.len() > 0
            &&& frames[0].start == start
            &&& frames.last().end == len
            &&& forall|i: int|
                0 <= i < frames.len() - 1 ==> (#[trigger] frames[i]).end - frames[i].start == limit
            &&& forall|i: int|
                #![trigger frames[i]]
                0 < i < frames.len() ==> frames[i].start == frames[i - 1].end
        }),
    decreases len - start,
{
    let frames = frames_from(len, limit, start);
    if start + limit < len {
        let end = (start + limit) as usize;
        frames_are_full_and_adjacent(len, limit, end);
        let rest = frames_from(len, limit, end);
        assert(frames.len() == rest.len() + 1);
        assert forall|i: int| 0 <= i < frames.len() - 1 implies (#[trigger] frames[i]).end
            - frames[i].start == limit by {
            if i > 0 {
                assert(frames[i] == rest[i - 1]);
            }
        }
        assert forall|i: int|
            #![trigger frames[i]]
            0 < i < frames.len() implies frames[i].start == frames[i - 1].end by {
            assert(frames[i] == rest[i - 1]);
            if i > 1 {
                assert(frames[i - 1] == rest[i - 2]);
            }
        }
        assert(frames.last() == rest.last());
    }
}

/// A message without a limit, and one that fits into a frame, is one frame that
/// opens and ends it; with a limit it is divided from its first byte on.
pub proof fn short_messages_are_one_frame(len: usize, limit: usize)
    requires
        limit > 0,
    ensures
        ({
            let whole = seq![
                DataFrame { start: 0, end: len, continuation: false, is_final: true },
            ];
            &&& message_frames(len, None) == whole
            &&& len <= limit ==> message_frames(len, Some(limit)) == whole
            &&& len > limit ==> message_frames(len, Some(limit)).len() > 1
            &&& message_frames(len, Some(limit)) == frames_from(len, limit, 0)
        }),
{
    if len > limit {
        frames_are_full_and_adjacent(len, limit, limit);
    }
}

/// An interrupted write ends the connection: silently if the connection is being
/// stopped anyway, and with an uncertain delivery as the reason otherwise.
pub proof fn interrupted_writes_end_the_connection(interruption: InFlightInterruption)
    ensures
        interrupted(interruption).connection_action is Stop
            <==> interruption is ConnectionCancelled,
        !(interruption is ConnectionCancelled) ==> interrupted(interruption).connection_action
            == RequestAction::StopWithError(NetError::DeliveryUnknown),
        interruption is IoError || interruption is FrameTimeout
            || interruption is ConnectionCancelled ==> interrupted(interruption).requeue
            is IdempotentRetry,
{
}

/// A write is interrupted from its first deadline on and not before, and a message
/// that took too long is not excused by its frame.
pub proof fn writes_are_interrupted_when_late(
    now: Instant,
    request_deadline: Instant,
    frame_deadline: Instant,
)
    ensures
        ({
            let late = lateness(now, request_deadline, frame_deadline);
            &&& late is None <==> now.nanos < request_deadline.nanos && now.nanos
                < frame_deadline.nanos
            &&& now.nanos >= request_deadline.nanos ==> late == Some(
                InFlightInterruption::RequestDeadline,
            )
            &&& now.nanos >= frame_deadline.nanos && now.nanos < request_deadline.nanos ==> late
                == Some(InFlightInterruption::FrameTimeout)
        }),
{
}

} // verus!
