//! The read loop of one connection.
use vstd::prelude::*;

use crate::clock::Instant;
use crate::heartbeat_state::HeartbeatState;
use crate::net_error::NetError;

verus! {

/// What the stream of a connection yields.
#[derive(Debug)]
pub enum ReadItem {
    /// The stream has ended.
    Ended,
    /// Reading failed.
    Failed(NetError),
    /// A text or binary message of so many bytes.
    Data {
        /// Bytes of the message.
        len: usize,
    },
    /// A ping.
    Ping,
    /// A pong with its payload.
    Pong(Vec<u8>),
    /// The peer closes the connection.
    Close,
    /// A raw frame.
    Frame,
}

/// The room of a bounded lane.
#[derive(Clone, Copy, Debug, PartialEq, Eq, Structural)]
pub struct Lane {
    /// Whether nobody reads the lane any more.
    pub closed: bool,
    /// Places that are free.
    pub free: usize,
}

/// What the read loop hands to other tasks.
#[derive(Clone, Copy, Debug, PartialEq, Eq, Structural)]
pub struct ReadLanes {
    /// Lane of data callbacks.
    pub data: Lane,
    /// Bytes that data callbacks may still hold.
    pub data_bytes: usize,
    /// Lane of control frames.
    pub control: Lane,
}

/// What the read loop asks for.
#[derive(Clone, Copy, Debug, PartialEq, Eq)]
pub enum ReadStep {
    /// Read on.
    Continue,
    /// Queue the message for the listener of this moment, then read on.
    Deliver {
        /// The listener that was registered when the message arrived.
        listener: Option<u64>,
        /// Bytes that the message holds of the budget.
        bytes: usize,
    },
    /// Have automatic control frames flushed, then read on.
    FlushAutomatic,
    /// Have the close frame answered and wait for that.
    AwaitCloseReply,
    /// Stop; with an error that is reported, or silently.
    End {
        /// What is reported.
        report: Option<NetError>,
    },
}

/// The state of a read loop.
#[derive(Debug)]
pub struct ReadLoop {
    /// Connection cycle of the connection.
    pub generation: u64,
    /// Bytes that one message may have at most.
    pub max_bytes: usize,
    /// The heartbeat that pongs answer.
    pub heartbeat: HeartbeatState,
}

/// Bytes that a message holds of the budget; an empty one holds one.
pub open spec fn budgeted(len: usize) -> int {
    if len == 0 {
        1
    } else {
        len as int
    }
}

impl Lane {
    /// The lane with one more place taken.
    pub open spec fn taken(self) -> Lane {
        Lane { free: (self.free - 1) as usize, ..self }
    }
}

/// The step that a data message leads to.
pub open spec fn data_step(max_bytes: usize, lanes: ReadLanes, len: usize, listener: Option<u64>) -> ReadStep {
    if budgeted(len) > max_bytes || budgeted(len) > lanes.data_bytes {
        ReadStep::End { report: Some(NetError::CallbackQueueOverflow) }
    } else if lanes.data.closed {
        ReadStep::End { report: Some(NetError::TaskInterruptionError) }
    } else if lanes.data.free == 0 {
        ReadStep::End { report: Some(NetError::CallbackQueueOverflow) }
    } else {
        ReadStep::Deliver { listener, bytes: budgeted(len) as usize }
    }
}

/// The step that an item leads to.
pub open spec fn read_step(
    max_bytes: usize,
    lanes: ReadLanes,
    item: ReadItem,
    listener: Option<u64>,
) -> ReadStep {
    match item {
        ReadItem::Ended => ReadStep::End { report: Some(NetError::ConnectionClosed) },
        ReadItem::Failed(error) => ReadStep::End { report: Some(error) },
        ReadItem::Data { len } => data_step(max_bytes, lanes, len, listener),
        ReadItem::Ping => if lanes.control.closed {
            ReadStep::End { report: Some(NetError::ConnectionClosed) }
        } else if lanes.control.free == 0 {
            ReadStep::End { report: Some(NetError::ControlQueueOverflow) }
        } else {
            ReadStep::FlushAutomatic
        },
        ReadItem::Pong(_) => ReadStep::Continue,
        ReadItem::Close => if lanes.control.closed {
            ReadStep::End { report: Some(NetError::ConnectionClosed) }
        } else if lanes.control.free == 0 {
            ReadStep::End { report: Some(NetError::ControlQueueOverflow) }
        } else {
            ReadStep::AwaitCloseReply
        },
        ReadItem::Frame => ReadStep::Continue,
    }
}

/// The lanes after a step: only what is queued takes room.
pub open spec fn lanes_after(lanes: ReadLanes, step: ReadStep) -> ReadLanes {
    match step {
        ReadStep::Deliver { listener, bytes } => ReadLanes {
            data: lanes.data.taken(),
            data_bytes: (lanes.data_bytes - bytes) as usize,
            ..lanes
        },
        ReadStep::FlushAutomatic => ReadLanes { control: lanes.control.taken(), ..lanes },
        ReadStep::AwaitCloseReply => ReadLanes { control: lanes.control.taken(), ..lanes },
        _ => lanes,
    }
}

impl ReadLoop {
    /// The read loop of a new connection.
    pub fn new(generation: u64, max_bytes: usize) -> (reader: Self)
        ensures
            reader.generation == generation,
            reader.max_bytes == max_bytes,
            reader.heartbeat == (HeartbeatState {
                generation,
                next_sequence: 1,
                outstanding: None,
            }),
    {
        ReadLoop { generation, max_bytes, heartbeat: HeartbeatState::new(generation) }
    }

    /// Takes in what came first: the cancellation of the connection, which
    /// ends the loop silently, or the next item.
    ///
    /// Nothing here waits for room. A message that no callback can take and a
    /// control frame that cannot be answered end the connection at once, so
    /// that pings and pongs are never held up.
    pub fn run_read_loop(
        &mut self,
        cancelled: bool,
        item: &ReadItem,
        lanes: &mut ReadLanes,
        listener: Option<u64>,
        now: Instant,
    ) -> (step: ReadStep)
        ensures
            step == if cancelled {
                (ReadStep::End { report: None })
            } else {
                read_step(old(self).max_bytes, *old(lanes), *item, listener)
            },
            *final(lanes) == lanes_after(*old(lanes), step),
            final(self).generation == old(self).generation,
            final(self).max_bytes == old(self).max_bytes,
            final(self).heartbeat == match item {
                ReadItem::Pong(payload) if !cancelled => old(self).heartbeat.answered(
                    payload@,
                    now,
                ),
                _ => old(self).heartbeat,
            },
    {
        if cancelled {
            return ReadStep::End { report: None };
        }
        match item {
            ReadItem::Ended => ReadStep::End { report: Some(NetError::ConnectionClosed) },
            ReadItem::Failed(error) => ReadStep::End { report: Some(*error) },
            ReadItem::Data { len } => {
                let bytes: usize = if *len == 0 {
                    1
                } else {
                    *len
                };
                if bytes > self.max_bytes || bytes > lanes.data_bytes {
                    return ReadStep::End { report: Some(NetError::CallbackQueueOverflow) };
                }
                if lanes.data.closed {
                    return ReadStep::End { report: Some(NetError::TaskInterruptionError) };
                }
                if lanes.data.free == 0 {
                    return ReadStep::End { report: Some(NetError::CallbackQueueOverflow) };
                }
                lanes.data_bytes = lanes.data_bytes - bytes;
                lanes.data.free = lanes.data.free - 1;
                ReadStep::Deliver { listener, bytes }
            },
            ReadItem::Ping => {
                if lanes.control.closed {
                    return ReadStep::End { report: Some(NetError::ConnectionClosed) };
                }
                if lanes.control.free == 0 {
                    return ReadStep::End { report: Some(NetError::ControlQueueOverflow) };
                }
                lanes.control.free = lanes.control.free - 1;
                ReadStep::FlushAutomatic
            },
            ReadItem::Pong(payload) => {
                let _ = self.heartbeat.acknowledge_pong(payload.as_slice(), now);
                ReadStep::Continue
            },
            ReadItem::Close => {
                if lanes.control.closed {
                    return ReadStep::End { report: Some(NetError::ConnectionClosed) };
                }
                if lanes.control.free == 0 {
                    return ReadStep::End { report: Some(NetError::ControlQueueOverflow) };
                }
                lanes.control.free = lanes.control.free - 1;
                ReadStep::AwaitCloseReply
            },
            ReadItem::Frame => ReadStep::Continue,
        }
    }

    /// Ends the loop after the close frame was answered or the wait for that
    /// was cancelled.
    pub fn close_replied(&self, cancelled: bool) -> (step: ReadStep)
        ensures
            step == if cancelled {
                (ReadStep::End { report: None })
            } else {
                (ReadStep::End { report: Some(NetError::ConnectionClosed) })
            },
    {
        if cancelled {
            ReadStep::End { report: None }
        } else {
            ReadStep::End { report: Some(NetError::ConnectionClosed) }
        }
    }
}

/// The budget is kept: what is delivered was free before and is taken after,
/// and what is refused takes nothing.
pub proof fn delivery_stays_within_the_budget(
    max_bytes: usize,
    lanes: ReadLanes,
    len: usize,
    listener: Option<u64>,
)
    ensures
        ({
            let step = data_step(max_bytes, lanes, len, listener);
            let after = lanes_after(lanes, step);
            match step {
                ReadStep::Deliver { listener: _, bytes } => {
                    &&& 1 <= bytes <= max_bytes
                    &&& after.data_bytes + bytes == lanes.data_bytes
                    &&& after.data.free + 1 == lanes.data.free
                },
                _ => after == lanes,
            }
        }),
{
}

/// Only data, pings and a close can end the loop for want of room; a pong and
/// a raw frame never do.
pub proof fn pongs_never_end_the_loop(
    max_bytes: usize,
    lanes: ReadLanes,
    payload: Vec<u8>,
    listener: Option<u64>,
)
    ensures
        read_step(max_bytes, lanes, ReadItem::Pong(payload), listener) is Continue,
        read_step(max_bytes, lanes, ReadItem::Frame, listener) is Continue,
{
}

/// A message is handed to the listener of its moment as long as there is room for
/// it; without room the connection ends, for the reason that there is none.
pub proof fn messages_are_delivered_while_there_is_room(
    max_bytes: usize,
    lanes: ReadLanes,
    len: usize,
    listener: Option<u64>,
)
    ensures
        ({
            let step = read_step(max_bytes, lanes, ReadItem::Data { len }, listener);
            let after = lanes_after(lanes, step);
            let held = if len == 0 {
                1
            } else {
                len as int
            };
            let fits = held <= max_bytes && held <= lanes.data_bytes;
            &&& fits && !lanes.data.closed && lanes.data.free > 0 ==> {
                &&& step == ReadStep::Deliver { listener, bytes: held as usize }
                &&& after.data_bytes == lanes.data_bytes - held
                &&& after.data.free == lanes.data.free - 1
                &&& after.data.closed == lanes.data.closed
                &&& after.control == lanes.control
            }
            &&& !fits ==> step == (ReadStep::End { report: Some(NetError::CallbackQueueOverflow) })
            &&& fits && lanes.data.closed ==> step == (ReadStep::End {
                report: Some(NetError::TaskInterruptionError),
            })
            &&& fits && !lanes.data.closed && lanes.data.free == 0 ==> step == (ReadStep::End {
                report: Some(NetError::CallbackQueueOverflow),
            })
            &&& step is End ==> after == lanes
        }),
{
}

/// Pings and a close are answered as long as the control lane takes the answer,
/// and end the connection otherwise; the end of the stream and a failed read end
/// it with their own error.
pub proof fn control_frames_are_answered(
    max_bytes: usize,
    lanes: ReadLanes,
    error: NetError,
    listener: Option<u64>,
)
    ensures
        ({
            let ping = read_step(max_bytes, lanes, ReadItem::Ping, listener);
            let close = read_step(max_bytes, lanes, ReadItem::Close, listener);
            let open = !lanes.control.closed && lanes.control.free > 0;
            let refused = ReadStep::End {
                report: Some(
                    if lanes.control.closed {
                        NetError::ConnectionClosed
                    } else {
                        NetError::ControlQueueOverflow
                    },
                ),
            };
            &&& open ==> ping is FlushAutomatic && close is AwaitCloseReply
            &&& open ==> lanes_after(lanes, ping).control.free == lanes.control.free - 1
                && lanes_after(lanes, close).control.free == lanes.control.free - 1
                && lanes_after(lanes, ping).data == lanes.data && lanes_after(lanes, ping).data_bytes
                == lanes.data_bytes
            &&& !open ==> ping == refused && close == refused
            &&& read_step(max_bytes, lanes, ReadItem::Ended, listener) == (ReadStep::End {
                report: Some(NetError::ConnectionClosed),
            })
            &&& read_step(max_bytes, lanes, ReadItem::Failed(error), listener) == (ReadStep::End {
                report: Some(error),
            })
        }),
{
}

} // verus!
