//! How the tasks of a connection are stopped within one time budget.
use vstd::prelude::*;

use crate::clock::{Duration, Instant};

verus! {

/// The most that a stop reserves for tasks that were told to cancel.
pub const MAX_COOPERATIVE_IO_CANCEL_GRACE_NANOS: u128 = 100000000;

/// The deadlines of one stop.
#[derive(Clone, Copy, Debug, PartialEq, Eq, Structural)]
pub struct IoStopPlan {
    /// Whether a close frame is attempted first.
    pub close_frame: bool,
    /// When the attempt to send a close frame is given up.
    pub graceful_deadline: Instant,
    /// When tasks that still run are aborted.
    pub deadline: Instant,
}

/// The tail of the budget that is kept for tasks that were told to cancel:
/// half of it, at least one nanosecond and at most the fixed limit.
pub open spec fn cancel_grace_nanos(close_timeout: Duration) -> int {
    let half = close_timeout.nanos as int / 2;
    if half > MAX_COOPERATIVE_IO_CANCEL_GRACE_NANOS {
        MAX_COOPERATIVE_IO_CANCEL_GRACE_NANOS as int
    } else if half < 1 {
        1
    } else {
        half
    }
}

/// The plan of a stop that starts at `started_at`.
pub open spec fn stop_plan(
    close_frame: bool,
    started_at: Instant,
    close_timeout: Duration,
) -> IoStopPlan {
    let deadline = match started_at.plus(close_timeout) {
        Some(point) => point,
        None => started_at,
    };
    let graceful_deadline = match deadline.minus(
        Duration { nanos: cancel_grace_nanos(close_timeout) as u128 },
    ) {
        Some(point) => point,
        None => started_at,
    };
    IoStopPlan { close_frame, graceful_deadline, deadline }
}

/// Plans a stop that starts at `started_at` and may take `close_timeout`.
pub fn plan_io_stop(close_frame: bool, started_at: Instant, close_timeout: Duration) -> (plan:
    IoStopPlan)
    ensures
        plan == stop_plan(close_frame, started_at, close_timeout),
{
    let deadline = started_at.checked_add(close_timeout).unwrap_or(started_at);
    let cancel_grace = Duration { nanos: close_timeout.nanos / 2 }.shorter(
        Duration { nanos: MAX_COOPERATIVE_IO_CANCEL_GRACE_NANOS },
    ).longer(Duration { nanos: 1 });
    let graceful_deadline = deadline.checked_sub(cancel_grace).unwrap_or(started_at);
    IoStopPlan { close_frame, graceful_deadline, deadline }
}

/// A representable budget of at least two nanoseconds leaves a real tail: the
/// close frame is given up before the tasks are aborted, and not before the
/// stop began.
pub proof fn stop_keeps_a_cancellation_tail(
    close_frame: bool,
    started_at: Instant,
    close_timeout: Duration,
)
    requires
        close_timeout.nanos >= 2,
        started_at.plus(close_timeout) is Some,
    ensures
        ({
            let plan = stop_plan(close_frame, started_at, close_timeout);
            &&& started_at.nanos <= plan.graceful_deadline.nanos
            &&& plan.graceful_deadline.nanos < plan.deadline.nanos
            &&& plan.deadline.nanos == started_at.nanos + close_timeout.nanos
            &&& plan.deadline.nanos - plan.graceful_deadline.nanos
                <= MAX_COOPERATIVE_IO_CANCEL_GRACE_NANOS
        }),
{
}

/// A stop takes the whole budget and no more, and of it keeps half for tasks that
/// were told to cancel, a tenth of a second at most. The close frame is attempted
/// exactly if it was asked for. A budget that the clock cannot express is none.
pub proof fn stops_divide_their_budget(
    close_frame: bool,
    started_at: Instant,
    close_timeout: Duration,
)
    ensures
        ({
            let plan = stop_plan(close_frame, started_at, close_timeout);
            let end = started_at.nanos + close_timeout.nanos;
            &&& plan.close_frame == close_frame
            &&& end <= 9223372036854775807999999999 ==> plan.deadline.nanos == end
            &&& end > 9223372036854775807999999999 ==> plan.deadline == started_at
            &&& end <= 9223372036854775807999999999 && 2 <= close_timeout.nanos <= 200000000
                ==> plan.deadline.nanos - plan.graceful_deadline.nanos == close_timeout.nanos / 2
            &&& end <= 9223372036854775807999999999 && close_timeout.nanos > 200000000
                ==> plan.deadline.nanos - plan.graceful_deadline.nanos == 100000000
        }),
{
}

} // verus!
